//! Finding the answer's text in a reply of unknown shape.
//!
//! Servers disagree on where they put the generated text. The search tries the
//! known places in a fixed order and takes the first that holds a string.

use crate::json::{array_view, lemma_array_view, Json, JsonView};
use vstd::prelude::*;

verus! {

/// `first` where it is present, else `second`.
pub open spec fn otherwise<T>(first: Option<T>, second: Option<T>) -> Option<T> {
    if first is Some {
        first
    } else {
        second
    }
}

/// The member `name` of the document `holder`, where there is such a document.
pub open spec fn member_in(holder: Option<JsonView>, name: Seq<char>) -> Option<JsonView> {
    match holder {
        Some(doc) => doc.member(name),
        None => None,
    }
}

/// The text of the string member `name` of `holder`.
pub open spec fn text_in(holder: Option<JsonView>, name: Seq<char>) -> Option<Seq<char>> {
    match member_in(holder, name) {
        Some(doc) => doc.as_text(),
        None => None,
    }
}

/// The first element of the array member `name` of `doc`.
pub open spec fn first_in(doc: JsonView, name: Seq<char>) -> Option<JsonView> {
    match doc.member(name) {
        Some(JsonView::Array(items)) => if items.len() > 0 {
            Some(items[0])
        } else {
            None
        },
        _ => None,
    }
}

/// The text that `doc` adds to a concatenation: its own where it is a string,
/// nothing where it is not.
pub open spec fn piece(doc: JsonView) -> Seq<char> {
    match doc {
        JsonView::String(text) => text,
        _ => Seq::empty(),
    }
}

/// The texts of the strings among `items`, in order, one after the other with
/// nothing between them.
pub open spec fn joined_text(items: Seq<JsonView>) -> Seq<char>
    decreases items.len(),
{
    if items.len() == 0 {
        Seq::empty()
    } else {
        joined_text(items.drop_last()) + piece(items.last())
    }
}

/// The joined strings of the array member `content` of `holder`, unless they
/// come to nothing.
pub open spec fn joined_content(holder: Option<JsonView>) -> Option<Seq<char>> {
    match member_in(holder, "content"@) {
        Some(JsonView::Array(items)) => if joined_text(items).len() > 0 {
            Some(joined_text(items))
        } else {
            None
        },
        _ => None,
    }
}

/// The text at the top of a document: the document itself where it is a
/// string, else its string member `response`, `output` or `text`, else the
/// string member `content` of its member `completion_message`, in that order.
pub open spec fn top_level_text(doc: JsonView) -> Option<Seq<char>> {
    otherwise(
        doc.as_text(),
        otherwise(
            text_in(Some(doc), "response"@),
            otherwise(
                text_in(Some(doc), "output"@),
                otherwise(
                    text_in(Some(doc), "text"@),
                    text_in(member_in(Some(doc), "completion_message"@), "content"@),
                ),
            ),
        ),
    )
}

/// The text of a choice: the string at `message.content`, else the one at
/// `delta.content`, else the one at `text`.
pub open spec fn choice_text(choice: Option<JsonView>) -> Option<Seq<char>> {
    otherwise(
        text_in(member_in(choice, "message"@), "content"@),
        otherwise(text_in(member_in(choice, "delta"@), "content"@), text_in(choice, "text"@)),
    )
}

/// The text of a result: the string at `output`, else the one at `text`, else
/// the joined strings of the array at `content`.
pub open spec fn result_text(result: Option<JsonView>) -> Option<Seq<char>> {
    otherwise(text_in(result, "output"@), otherwise(text_in(result, "text"@), joined_content(result)))
}

/// The answer's text in `doc`: the text at the top, else that of the first of
/// `choices`, else that of the first of `results`. `None` where none of these
/// places holds one.
pub open spec fn extracted_text(doc: JsonView) -> Option<Seq<char>> {
    otherwise(
        top_level_text(doc),
        otherwise(
            choice_text(first_in(doc, "choices"@)),
            result_text(first_in(doc, "results"@)),
        ),
    )
}

/// A document that is itself a string is its own answer, letter for letter.
pub proof fn lemma_string_is_its_own_answer(text: Seq<char>)
    ensures
        extracted_text(JsonView::String(text)) == Some(text),
{
}

/// A string member `response`, `output` or `text` at the top of a document is
/// the answer, whatever else the document holds; where more than one of them
/// is there, `response` goes before `output`, and `output` before `text`.
/// Where none of them is there, the string at `completion_message.content` is
/// the answer.
pub proof fn lemma_top_level_members_win(doc: JsonView)
    ensures
        text_in(Some(doc), "response"@) is Some ==> extracted_text(doc) == text_in(
            Some(doc),
            "response"@,
        ),
        text_in(Some(doc), "response"@) is None && text_in(Some(doc), "output"@) is Some
            ==> extracted_text(doc) == text_in(Some(doc), "output"@),
        text_in(Some(doc), "response"@) is None && text_in(Some(doc), "output"@) is None && text_in(
            Some(doc),
            "text"@,
        ) is Some ==> extracted_text(doc) == text_in(Some(doc), "text"@),
        text_in(Some(doc), "response"@) is None && text_in(Some(doc), "output"@) is None && text_in(
            Some(doc),
            "text"@,
        ) is None && text_in(member_in(Some(doc), "completion_message"@), "content"@) is Some
            ==> extracted_text(doc) == text_in(
            member_in(Some(doc), "completion_message"@),
            "content"@,
        ),
{
}

/// The text of the string member `name` of `doc`.
fn text_at<'a>(doc: &'a Json, name: &str) -> (text: Option<&'a str>)
    ensures
        match text {
            Some(t) => text_in(Some(doc@), name@) == Some(t@),
            None => text_in(Some(doc@), name@) is None,
        },
{
    match doc.get(name) {
        Some(member) => member.as_str(),
        None => None,
    }
}

/// The text of the string member `inner` of the member `outer` of `doc`.
fn nested_text_at<'a>(doc: &'a Json, outer: &str, inner: &str) -> (text: Option<&'a str>)
    ensures
        match text {
            Some(t) => text_in(member_in(Some(doc@), outer@), inner@) == Some(t@),
            None => text_in(member_in(Some(doc@), outer@), inner@) is None,
        },
{
    match doc.get(outer) {
        Some(member) => text_at(member, inner),
        None => None,
    }
}

/// The first element of the array member `name` of `doc`.
fn first_at<'a>(doc: &'a Json, name: &str) -> (first: Option<&'a Json>)
    ensures
        match first {
            Some(f) => first_in(doc@, name@) == Some(f@),
            None => first_in(doc@, name@) is None,
        },
{
    match doc.get(name) {
        Some(member) => match member.as_array() {
            Some(items) => {
                proof {
                    lemma_array_view(*items);
                }
                if items.len() > 0 {
                    Some(&items[0])
                } else {
                    None
                }
            },
            None => None,
        },
        None => None,
    }
}

/// Joins the strings among `items`.
fn join_strings(items: &Vec<Json>) -> (joined: String)
    ensures
        joined@ == joined_text(array_view(*items)),
{
    let mut joined = String::new();
    let mut i: usize = 0;
    proof {
        lemma_array_view(*items);
        assert(array_view(*items).take(0) =~= Seq::empty());
    }
    while i < items.len()
        invariant
            i <= items@.len(),
            array_view(*items).len() == items@.len(),
            forall|k: int| 0 <= k < items@.len() ==> #[trigger] array_view(*items)[k] == items@[k]@,
            joined@ == joined_text(array_view(*items).take(i as int)),
        decreases items@.len() - i,
    {
        proof {
            let all = array_view(*items);
            assert(all.take(i + 1).drop_last() =~= all.take(i as int));
            assert(all.take(i + 1).last() == items@[i as int]@);
        }
        match items[i].as_str() {
            Some(text) => {
                joined.append(text);
            },
            None => {
                assert(joined@ + Seq::<char>::empty() =~= joined@);
            },
        }
        i += 1;
    }
    proof {
        assert(array_view(*items).take(i as int) =~= array_view(*items));
    }
    joined
}

/// The joined strings of the array member `content` of `doc`, unless they come
/// to nothing.
fn joined_content_at(doc: &Json) -> (text: Option<String>)
    ensures
        match text {
            Some(t) => joined_content(Some(doc@)) == Some(t@),
            None => joined_content(Some(doc@)) is None,
        },
{
    match doc.get("content") {
        Some(member) => match member.as_array() {
            Some(items) => {
                let joined = join_strings(items);
                if joined.as_str().is_empty() {
                    None
                } else {
                    Some(joined)
                }
            },
            None => None,
        },
        None => None,
    }
}

/// Looks for the answer's text in a reply of unknown shape.
///
/// An empty string that is found is an answer like any other; only the joined
/// strings of a `content` array count as missing when they are empty.
pub fn extract_text_from_value(v: &Json) -> (text: Option<String>)
    ensures
        match text {
            Some(t) => extracted_text(v@) == Some(t@),
            None => extracted_text(v@) is None,
        },
{
    if let Some(s) = v.as_str() {
        return Some(s.to_owned());
    }
    if let Some(field) = text_at(v, "response") {
        return Some(field.to_owned());
    }
    if let Some(field) = text_at(v, "output") {
        return Some(field.to_owned());
    }
    if let Some(field) = text_at(v, "text") {
        return Some(field.to_owned());
    }
    if let Some(content) = nested_text_at(v, "completion_message", "content") {
        return Some(content.to_owned());
    }
    if let Some(first) = first_at(v, "choices") {
        if let Some(content) = nested_text_at(first, "message", "content") {
            return Some(content.to_owned());
        }
        if let Some(content) = nested_text_at(first, "delta", "content") {
            return Some(content.to_owned());
        }
        if let Some(content) = text_at(first, "text") {
            return Some(content.to_owned());
        }
    }
    if let Some(first) = first_at(v, "results") {
        if let Some(out) = text_at(first, "output") {
            return Some(out.to_owned());
        }
        if let Some(out) = text_at(first, "text") {
            return Some(out.to_owned());
        }
        if let Some(joined) = joined_content_at(first) {
            return Some(joined);
        }
    }
    None
}

} // verus!
