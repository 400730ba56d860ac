use llm_client::codec::parse_document;
use llm_client::extract::extract_text_from_value;
use llm_client::json::Json;

fn text(s: &str) -> Json {
    Json::String(s.to_string())
}

fn object(members: Vec<(&str, Json)>) -> Json {
    Json::Object(members.into_iter().map(|(name, value)| (name.to_string(), value)).collect())
}

fn read(source: &str) -> Json {
    parse_document(source.as_bytes()).expect("the source is a JSON document")
}

fn found(s: &str) -> Option<String> {
    Some(s.to_string())
}

#[test]
fn string_document_is_returned_verbatim() {
    assert_eq!(extract_text_from_value(&text("Austin")), found("Austin"));
    assert_eq!(extract_text_from_value(&text("  two\nlines \u{e9} ")), found("  two\nlines \u{e9} "));
    assert_eq!(extract_text_from_value(&read("\"a \\\"quoted\\\" word\"")), found("a \"quoted\" word"));
}

#[test]
fn empty_string_document_is_an_answer() {
    assert_eq!(extract_text_from_value(&text("")), found(""));
}

#[test]
fn empty_string_member_is_an_answer() {
    let doc = object(vec![("response", text("")), ("output", text("later"))]);
    assert_eq!(extract_text_from_value(&doc), found(""));
}

#[test]
fn response_member_is_the_answer() {
    assert_eq!(extract_text_from_value(&read(r#"{"response":"hi"}"#)), found("hi"));
}

#[test]
fn output_member_is_the_answer() {
    assert_eq!(extract_text_from_value(&read(r#"{"output":"hi"}"#)), found("hi"));
}

#[test]
fn text_member_is_the_answer() {
    assert_eq!(extract_text_from_value(&read(r#"{"text":"hi"}"#)), found("hi"));
}

#[test]
fn response_goes_before_output_and_text() {
    let doc = object(vec![("text", text("t")), ("output", text("o")), ("response", text("r"))]);
    assert_eq!(extract_text_from_value(&doc), found("r"));
    let doc = object(vec![("response", text("r")), ("output", text("o")), ("text", text("t"))]);
    assert_eq!(extract_text_from_value(&doc), found("r"));
}

#[test]
fn output_goes_before_text() {
    let doc = object(vec![("text", text("t")), ("output", text("o"))]);
    assert_eq!(extract_text_from_value(&doc), found("o"));
}

#[test]
fn member_that_is_no_string_is_passed_over() {
    let doc = read(r#"{"response":7,"output":null,"text":"t"}"#);
    assert_eq!(extract_text_from_value(&doc), found("t"));
    let doc = read(r#"{"response":["r"],"output":{"text":"x"}}"#);
    assert_eq!(extract_text_from_value(&doc), None);
}

#[test]
fn completion_message_content_is_the_answer() {
    let doc = read(r#"{"completion_message":{"content":"Austin"}}"#);
    assert_eq!(extract_text_from_value(&doc), found("Austin"));
    let doc = read(r#"{"completion_message":{"role":"assistant","content":""}}"#);
    assert_eq!(extract_text_from_value(&doc), found(""));
}

#[test]
fn response_output_and_text_go_before_completion_message() {
    let doc = read(r#"{"completion_message":{"content":"A"},"response":"r"}"#);
    assert_eq!(extract_text_from_value(&doc), found("r"));
    let doc = read(r#"{"completion_message":{"content":"A"},"output":"o"}"#);
    assert_eq!(extract_text_from_value(&doc), found("o"));
    let doc = read(r#"{"completion_message":{"content":"A"},"text":"t"}"#);
    assert_eq!(extract_text_from_value(&doc), found("t"));
}

#[test]
fn completion_message_goes_before_choices_and_results() {
    let doc = read(
        r#"{"choices":[{"message":{"content":"c"}}],"completion_message":{"content":"A"},"results":[{"output":"r"}]}"#,
    );
    assert_eq!(extract_text_from_value(&doc), found("A"));
}

#[test]
fn completion_message_without_string_content_gives_way() {
    let doc = read(r#"{"completion_message":{"content":["Austin"]},"choices":[{"text":"c"}]}"#);
    assert_eq!(extract_text_from_value(&doc), found("c"));
    let doc = read(r#"{"completion_message":"Austin","results":[{"text":"t"}]}"#);
    assert_eq!(extract_text_from_value(&doc), found("t"));
    let doc = read(r#"{"completion_message":{"role":"assistant"}}"#);
    assert_eq!(extract_text_from_value(&doc), None);
}

#[test]
fn top_level_member_goes_before_choices_and_results() {
    let doc = read(r#"{"choices":[{"message":{"content":"c"}}],"results":[{"output":"r"}],"text":"t"}"#);
    assert_eq!(extract_text_from_value(&doc), found("t"));
}

#[test]
fn message_content_of_first_choice() {
    let doc = read(r#"{"choices":[{"message":{"content":"X"}}]}"#);
    assert_eq!(extract_text_from_value(&doc), found("X"));
}

#[test]
fn delta_content_when_first_choice_has_no_message() {
    let doc = read(r#"{"choices":[{"delta":{"content":"Y"}},{"message":{"content":"Z"}}]}"#);
    assert_eq!(extract_text_from_value(&doc), found("Y"));
}

#[test]
fn message_goes_before_delta_and_text_in_a_choice() {
    let doc = read(r#"{"choices":[{"text":"t","delta":{"content":"d"},"message":{"content":"m"}}]}"#);
    assert_eq!(extract_text_from_value(&doc), found("m"));
    let doc = read(r#"{"choices":[{"text":"t","delta":{"content":"d"}}]}"#);
    assert_eq!(extract_text_from_value(&doc), found("d"));
    let doc = read(r#"{"choices":[{"text":"t"}]}"#);
    assert_eq!(extract_text_from_value(&doc), found("t"));
}

#[test]
fn message_without_string_content_gives_way_to_delta() {
    let doc = read(r#"{"choices":[{"message":{"content":1},"delta":{"content":"d"}}]}"#);
    assert_eq!(extract_text_from_value(&doc), found("d"));
    let doc = read(r#"{"choices":[{"message":"m","delta":{"content":"d"}}]}"#);
    assert_eq!(extract_text_from_value(&doc), found("d"));
    let doc = read(r#"{"choices":[{"message":{},"delta":{},"text":"t"}]}"#);
    assert_eq!(extract_text_from_value(&doc), found("t"));
}

#[test]
fn only_the_first_choice_is_looked_at() {
    let doc = read(r#"{"choices":[{},{"message":{"content":"Z"}}]}"#);
    assert_eq!(extract_text_from_value(&doc), None);
    let doc = read(r#"{"choices":["first",{"text":"Z"}]}"#);
    assert_eq!(extract_text_from_value(&doc), None);
}

#[test]
fn choices_go_before_results() {
    let doc = read(r#"{"results":[{"output":"r"}],"choices":[{"text":"c"}]}"#);
    assert_eq!(extract_text_from_value(&doc), found("c"));
}

#[test]
fn results_are_tried_when_choices_give_nothing() {
    let doc = read(r#"{"choices":[],"results":[{"output":"r"}]}"#);
    assert_eq!(extract_text_from_value(&doc), found("r"));
    let doc = read(r#"{"choices":[{"other":1}],"results":[{"text":"r"}]}"#);
    assert_eq!(extract_text_from_value(&doc), found("r"));
    let doc = read(r#"{"choices":"none","results":[{"text":"r"}]}"#);
    assert_eq!(extract_text_from_value(&doc), found("r"));
}

#[test]
fn output_goes_before_text_and_content_in_a_result() {
    let doc = read(r#"{"results":[{"content":["c"],"text":"t","output":"o"}]}"#);
    assert_eq!(extract_text_from_value(&doc), found("o"));
    let doc = read(r#"{"results":[{"content":["c"],"text":"t"}]}"#);
    assert_eq!(extract_text_from_value(&doc), found("t"));
}

#[test]
fn only_the_first_result_is_looked_at() {
    let doc = read(r#"{"results":[{"content":[]},{"output":"second"}]}"#);
    assert_eq!(extract_text_from_value(&doc), None);
}

#[test]
fn content_strings_are_joined_without_separator() {
    let doc = read(r#"{"results":[{"content":["a","b","c"]}]}"#);
    assert_eq!(extract_text_from_value(&doc), found("abc"));
}

#[test]
fn content_elements_that_are_no_strings_are_left_out() {
    let doc = read(r#"{"results":[{"content":["a",1,null,{"text":"x"},["y"],"b",true,""," c"]}]}"#);
    assert_eq!(extract_text_from_value(&doc), found("ab c"));
}

#[test]
fn empty_content_is_a_miss() {
    let doc = read(r#"{"results":[{"content":[]}]}"#);
    assert_eq!(extract_text_from_value(&doc), None);
}

#[test]
fn content_that_joins_to_nothing_is_a_miss() {
    let doc = read(r#"{"results":[{"content":["",3,""]}]}"#);
    assert_eq!(extract_text_from_value(&doc), None);
}

#[test]
fn content_that_is_no_array_is_a_miss() {
    let doc = read(r#"{"results":[{"content":"abc"}]}"#);
    assert_eq!(extract_text_from_value(&doc), None);
}

#[test]
fn unknown_member_is_a_miss() {
    let doc = read(r#"{"foo":"bar"}"#);
    assert_eq!(extract_text_from_value(&doc), None);
}

#[test]
fn documents_without_members_are_a_miss() {
    assert_eq!(extract_text_from_value(&Json::Null), None);
    assert_eq!(extract_text_from_value(&Json::Bool(true)), None);
    assert_eq!(extract_text_from_value(&Json::natural(42)), None);
    assert_eq!(extract_text_from_value(&Json::Array(vec![])), None);
    assert_eq!(extract_text_from_value(&Json::Array(vec![text("x")])), None);
    assert_eq!(extract_text_from_value(&Json::Object(vec![])), None);
}

#[test]
fn last_member_of_a_name_counts() {
    let doc = object(vec![("response", text("first")), ("response", text("last"))]);
    assert_eq!(extract_text_from_value(&doc), found("last"));
    let doc = object(vec![("response", text("first")), ("response", Json::Null), ("text", text("t"))]);
    assert_eq!(extract_text_from_value(&doc), found("t"));
}

#[test]
fn member_names_are_compared_exactly() {
    let doc = object(vec![("Response", text("a")), ("response ", text("b")), ("respons", text("c"))]);
    assert_eq!(extract_text_from_value(&doc), None);
}

#[test]
fn accessors_tell_the_kinds_apart() {
    let doc = read(r#"{"s":"x","a":[1,"two"],"o":{"k":null}}"#);
    assert_eq!(doc.as_str(), None);
    assert_eq!(doc.as_array(), None);
    assert_eq!(doc.get("s"), Some(&text("x")));
    assert_eq!(doc.get("s").and_then(|m| m.as_str()), Some("x"));
    assert_eq!(doc.get("missing"), None);
    assert_eq!(
        doc.get("a").and_then(|m| m.as_array()),
        Some(&vec![Json::natural(1), text("two")])
    );
    assert_eq!(doc.get("a").and_then(|m| m.get("s")), None);
    assert_eq!(doc.get("o").and_then(|m| m.get("k")), Some(&Json::Null));
    assert_eq!(text("x").get("x"), None);
}

#[test]
fn copy_of_a_document_is_equal_to_it() {
    let doc = read(r#"{"choices":[{"message":{"content":"X"}},7,null],"n":1.5,"ok":true,"s":""}"#);
    let copy = doc.clone();
    assert_eq!(copy, doc);
    assert_eq!(extract_text_from_value(&copy), found("X"));
    assert_eq!(Json::Null.clone(), Json::Null);
}
