//! JSON text in and out, by `serde_json`.
//!
//! Reading and writing JSON text is `serde_json`'s work. What it makes of given
//! bytes or of a given document is not spelled out here: each of the two has a
//! name, and the contracts of this module say that the functions return what
//! the name stands for.

use crate::json::{Json, JsonView};
use serde_json::Value;
use vstd::prelude::*;

verus! {

#[verifier::external_type_specification]
#[verifier::external_body]
pub struct ExValue(Value);

/// What `serde_json::from_slice` makes of `body` when it is asked for a
/// `serde_json::Value`: the document it reads, or the message of the error
/// with which it turns the bytes down.
pub uninterp spec fn parsed_document(body: Seq<u8>) -> Result<JsonView, Seq<char>>;

/// The compact JSON text that `serde_json` writes for `doc`: what the
/// `Display` of the `serde_json::Value` with these contents gives.
pub uninterp spec fn rendered_document(doc: JsonView) -> Seq<char>;

/// Why a reply could not be read as JSON.
#[derive(Debug, PartialEq, Eq)]
pub struct DecodeError {
    /// The parser's own words, with the line and column where it stopped.
    pub message: String,
}

/// Copies a `serde_json::Value` into a [`Json`], variant for variant: a number
/// as it is, the members of an object in the order in which its map hands them
/// out. Nothing is claimed of the result here; it is the tree that
/// [`parsed_document`] speaks of.
#[verifier::external_body]
fn json_of_value(value: &Value) -> Json {
    match value {
        Value::Null => Json::Null,
        Value::Bool(b) => Json::Bool(*b),
        Value::Number(n) => Json::Number(n.clone()),
        Value::String(s) => Json::String(s.clone()),
        Value::Array(items) => Json::Array(items.iter().map(json_of_value).collect()),
        Value::Object(members) => Json::Object(
            members.iter().map(|(name, member)| (name.clone(), json_of_value(member))).collect(),
        ),
    }
}

/// Copies a [`Json`] into a `serde_json::Value`, variant for variant: a number
/// as it is, the members of an object by `Map::insert` in their order, so that
/// a later member replaces an earlier one of its name. Nothing is claimed of
/// the result here; it is the value whose text [`rendered_document`] speaks of.
#[verifier::external_body]
fn value_of_json(doc: &Json) -> Value {
    match doc {
        Json::Null => Value::Null,
        Json::Bool(b) => Value::Bool(*b),
        Json::Number(n) => Value::Number(n.clone()),
        Json::String(s) => Value::String(s.clone()),
        Json::Array(items) => Value::Array(items.iter().map(value_of_json).collect()),
        Json::Object(members) => {
            let mut map = serde_json::Map::new();
            for (name, member) in members {
                map.insert(name.clone(), value_of_json(member));
            }
            Value::Object(map)
        },
    }
}

/// Calls `serde_json::from_slice` for a `serde_json::Value`. The bytes alone
/// decide what comes back, and [`parsed_document`] is the name for it: the
/// document as a [`Json`], or the error as the text that it displays.
#[verifier::external_body]
fn decode(body: &[u8]) -> (read: Result<Json, String>)
    ensures
        match read {
            Ok(doc) => parsed_document(body@) == Ok::<JsonView, Seq<char>>(doc@),
            Err(message) => parsed_document(body@) == Err::<JsonView, Seq<char>>(message@),
        },
{
    match serde_json::from_slice::<Value>(body) {
        Ok(value) => Ok(json_of_value(&value)),
        Err(error) => Err(error.to_string()),
    }
}

/// Writes `doc` out by the `Display` of `serde_json::Value`, which gives the
/// compact form and cannot fail on a value. The document's value alone
/// decides the text, and [`rendered_document`] is the name for it.
#[verifier::external_body]
pub(crate) fn encode(doc: &Json) -> (text: String)
    ensures
        text@ == rendered_document(doc@),
{
    value_of_json(doc).to_string()
}

/// Reads `body` as one JSON document.
///
/// It is a document exactly where `serde_json` accepts the bytes; where it
/// does not, the error carries the parser's message.
pub fn parse_document(body: &[u8]) -> (read: Result<Json, DecodeError>)
    ensures
        match read {
            Ok(doc) => parsed_document(body@) == Ok::<JsonView, Seq<char>>(doc@),
            Err(error) => parsed_document(body@) == Err::<JsonView, Seq<char>>(error.message@),
        },
{
    match decode(body) {
        Ok(doc) => Ok(doc),
        Err(message) => Err(DecodeError { message }),
    }
}

} // verus!
