use llm_client::codec::{parse_document, DecodeError};
use llm_client::json::Json;
use serde_json::Number;

fn text(s: &str) -> Json {
    Json::String(s.to_string())
}

fn natural(n: u64) -> Json {
    Json::Number(Number::from(n))
}

fn negative(n: i64) -> Json {
    Json::Number(Number::from(n))
}

fn fraction(x: f64) -> Json {
    Json::Number(Number::from_f64(x).expect("a finite number"))
}

fn failure(source: &[u8]) -> String {
    match parse_document(source) {
        Ok(doc) => panic!("read as {:?}", doc),
        Err(DecodeError { message }) => message,
    }
}

#[test]
fn scalars_are_read() {
    assert_eq!(parse_document(b"null"), Ok(Json::Null));
    assert_eq!(parse_document(b"true"), Ok(Json::Bool(true)));
    assert_eq!(parse_document(b"false"), Ok(Json::Bool(false)));
    assert_eq!(parse_document(b"\"hi\""), Ok(text("hi")));
    assert_eq!(parse_document(b"  \"hi\"\n"), Ok(text("hi")));
}

#[test]
fn numbers_are_kept_as_serde_json_reads_them() {
    assert_eq!(parse_document(b"512"), Ok(natural(512)));
    assert_eq!(parse_document(b"512"), Ok(Json::natural(512)));
    assert_eq!(parse_document(b"0"), Ok(Json::natural(0)));
    assert_eq!(parse_document(b"-3"), Ok(negative(-3)));
    assert_eq!(parse_document(b"1.5"), Ok(fraction(1.5)));
    assert_eq!(parse_document(b"1e3"), Ok(fraction(1000.0)));
    assert_eq!(parse_document(b"18446744073709551615"), Ok(natural(u64::MAX)));
    assert_ne!(parse_document(b"1.0"), Ok(natural(1)));
    assert_ne!(parse_document(b"513"), Ok(natural(512)));
}

#[test]
fn natural_document_is_the_integer() {
    assert_eq!(Json::natural(512), natural(512));
    assert_eq!(Json::natural(u64::MAX), natural(u64::MAX));
    assert_ne!(Json::natural(512), natural(0));
    assert_ne!(Json::natural(7), Json::String("7".to_string()));
}

#[test]
fn string_escapes_are_resolved() {
    assert_eq!(parse_document(br#""a\nbA\"""#), Ok(text("a\nbA\"")));
}

#[test]
fn nested_document_is_read_as_a_tree() {
    let source = br#"{"choices":[{"message":{"content":"X"}}],"n":1}"#;
    let expected = Json::Object(vec![
        (
            "choices".to_string(),
            Json::Array(vec![Json::Object(vec![(
                "message".to_string(),
                Json::Object(vec![("content".to_string(), text("X"))]),
            )])]),
        ),
        ("n".to_string(), natural(1)),
    ]);
    assert_eq!(parse_document(source), Ok(expected));
}

#[test]
fn empty_containers_are_read() {
    assert_eq!(parse_document(b"[]"), Ok(Json::Array(vec![])));
    assert_eq!(parse_document(b"{}"), Ok(Json::Object(vec![])));
}

#[test]
fn later_member_of_a_name_replaces_the_earlier() {
    let doc = parse_document(br#"{"a":1,"a":2}"#).expect("a document");
    assert_eq!(doc.get("a"), Some(&natural(2)));
    assert_eq!(doc, Json::Object(vec![("a".to_string(), natural(2))]));
}

#[test]
fn every_member_is_kept() {
    let doc = parse_document(br#"{"b":"x","a":"y","c":[true]}"#).expect("a document");
    assert_eq!(doc.get("a"), Some(&text("y")));
    assert_eq!(doc.get("b"), Some(&text("x")));
    assert_eq!(doc.get("c"), Some(&Json::Array(vec![Json::Bool(true)])));
    match doc {
        Json::Object(members) => assert_eq!(members.len(), 3),
        other => panic!("read as {:?}", other),
    }
}

#[test]
fn empty_body_is_turned_down() {
    assert_eq!(failure(b""), "EOF while parsing a value at line 1 column 0");
}

#[test]
fn plain_words_are_turned_down() {
    assert_eq!(failure(b"internal error"), "expected value at line 1 column 1");
}

#[test]
fn unfinished_document_is_turned_down() {
    assert_eq!(failure(br#"{"response":"hi""#), "EOF while parsing an object at line 1 column 16");
}

#[test]
fn trailing_text_is_turned_down() {
    assert_eq!(failure(b"{} x"), "trailing characters at line 1 column 4");
}

#[test]
fn bytes_that_are_no_text_are_turned_down() {
    assert!(parse_document(&[b'"', 0xff, 0xfe, b'"']).is_err());
}
