//! From a server's reply to what the program prints and how it exits.

use crate::codec::{encode, parse_document, parsed_document, rendered_document, DecodeError};
use crate::extract::{extract_text_from_value, extracted_text};
use crate::json::{Json, JsonView};
use crate::status::{
    decimal, is_success, reason_phrase, shown_status, status_text, success_status,
};
use vstd::prelude::*;

verus! {

/// What is shown for an error reply whose body could not be read as text.
pub const UNREADABLE_BODY: &'static str = "<unable to read body>";

/// The exit code after a run that printed an answer or the raw document.
pub const EXIT_OK: i32 = 0;

/// The exit code after a reply whose status is an error.
pub const EXIT_HTTP_ERROR: i32 = 1;

/// What a reply's document came to.
#[derive(Debug, PartialEq, Eq)]
pub enum Report {
    /// The answer's text.
    Answer(String),
    /// No known place held a text: the document itself, to be shown as it is.
    Unrecognized(Json),
}

/// The mathematical value of a [`Report`].
pub ghost enum ReportView {
    Answer(Seq<char>),
    Unrecognized(JsonView),
}

impl View for Report {
    type V = ReportView;

    open spec fn view(&self) -> ReportView {
        match self {
            Report::Answer(text) => ReportView::Answer(text@),
            Report::Unrecognized(doc) => ReportView::Unrecognized(doc@),
        }
    }
}

/// The report on a reply's document: the answer where one is found, the
/// whole document where none is.
pub open spec fn document_report(doc: JsonView) -> ReportView {
    match extracted_text(doc) {
        Some(text) => ReportView::Answer(text),
        None => ReportView::Unrecognized(doc),
    }
}

/// Sorts a reply's document: the answer where one is found, the whole
/// document where none is.
pub fn report_document(doc: Json) -> (report: Report)
    ensures
        report@ == document_report(doc@),
{
    match extract_text_from_value(&doc) {
        Some(text) => Report::Answer(text),
        None => Report::Unrecognized(doc),
    }
}

/// The report on a reply's body, given what reading the body came to: the
/// reader's message where it failed, else the report on the document.
pub open spec fn reply_report(parsed: Result<JsonView, Seq<char>>) -> Result<ReportView, Seq<char>> {
    match parsed {
        Ok(doc) => Ok(document_report(doc)),
        Err(message) => Err(message),
    }
}

/// The body of a successful reply, read and sorted: a decoding error where
/// the bytes are no JSON document, else the report on it.
pub fn read_reply(body: &[u8]) -> (read: Result<Report, DecodeError>)
    ensures
        match read {
            Ok(report) => reply_report(parsed_document(body@)) == Ok::<ReportView, Seq<char>>(
                report@,
            ),
            Err(error) => reply_report(parsed_document(body@)) == Err::<ReportView, Seq<char>>(
                error.message@,
            ),
        },
{
    match parse_document(body) {
        Ok(doc) => Ok(report_document(doc)),
        Err(error) => Err(error),
    }
}

/// Where a line goes.
#[derive(Clone, Copy, Debug, PartialEq, Eq, Structural)]
pub enum Stream {
    /// Standard output.
    Stdout,
    /// The error stream.
    Stderr,
}

/// What the program prints at its end, where, and the code it exits with.
#[derive(Debug, PartialEq, Eq)]
pub struct Outcome {
    pub stream: Stream,
    pub line: String,
    pub exit_code: i32,
}

/// The mathematical value of an [`Outcome`].
pub ghost struct OutcomeView {
    pub stream: Stream,
    pub line: Seq<char>,
    pub exit_code: i32,
}

impl View for Outcome {
    type V = OutcomeView;

    open spec fn view(&self) -> OutcomeView {
        OutcomeView { stream: self.stream, line: self.line@, exit_code: self.exit_code }
    }
}

/// An answer: `Response: ` and the text, on standard output, exit code 0.
pub open spec fn answer_view(text: Seq<char>) -> OutcomeView {
    OutcomeView { stream: Stream::Stdout, line: "Response: "@ + text, exit_code: EXIT_OK }
}

/// No text found: `Full response JSON: ` and the document as written out in
/// `raw`, on standard output, exit code 0.
pub open spec fn fallback_view(raw: Seq<char>) -> OutcomeView {
    OutcomeView { stream: Stream::Stdout, line: "Full response JSON: "@ + raw, exit_code: EXIT_OK }
}

/// An error status: `HTTP error `, the status as it is shown, `: ` and the
/// body where it could be read, a placeholder where it could not; on the error
/// stream, exit code 1.
pub open spec fn http_error_view(status: Seq<char>, body: Option<Seq<char>>) -> OutcomeView {
    let shown = match body {
        Some(text) => text,
        None => UNREADABLE_BODY@,
    };
    OutcomeView {
        stream: Stream::Stderr,
        line: "HTTP error "@ + status + ": "@ + shown,
        exit_code: EXIT_HTTP_ERROR,
    }
}

/// The outcome of a report: the answer, or the document as `serde_json`
/// writes it out.
pub open spec fn report_outcome(report: ReportView) -> OutcomeView {
    match report {
        ReportView::Answer(text) => answer_view(text),
        ReportView::Unrecognized(doc) => fallback_view(rendered_document(doc)),
    }
}

/// The outcome of an answer.
pub fn answer_outcome(text: &str) -> (outcome: Outcome)
    ensures
        outcome@ == answer_view(text@),
{
    let mut line = "Response: ".to_owned();
    line.append(text);
    Outcome { stream: Stream::Stdout, line, exit_code: EXIT_OK }
}

/// The outcome of a reply in which no text was found; `raw` is the reply's
/// document, written out.
pub fn fallback_outcome(raw: &str) -> (outcome: Outcome)
    ensures
        outcome@ == fallback_view(raw@),
{
    let mut line = "Full response JSON: ".to_owned();
    line.append(raw);
    Outcome { stream: Stream::Stdout, line, exit_code: EXIT_OK }
}

/// The text of an error reply's body, where there is one.
pub open spec fn body_view(body: Option<&str>) -> Option<Seq<char>> {
    match body {
        Some(text) => Some(text@),
        None => None,
    }
}

/// The outcome of a reply whose status is an error, given the status as it
/// is shown; `body` is the reply's body, `None` where it could not be read as
/// text.
pub fn http_error_outcome_with(status: &str, body: Option<&str>) -> (outcome: Outcome)
    ensures
        outcome@ == http_error_view(status@, body_view(body)),
{
    let mut line = "HTTP error ".to_owned();
    line.append(status);
    line.append(": ");
    match body {
        Some(text) => line.append(text),
        None => line.append(UNREADABLE_BODY),
    }
    Outcome { stream: Stream::Stderr, line, exit_code: EXIT_HTTP_ERROR }
}

/// The outcome of a reply whose status is an error: the status is shown by
/// its number and its reason phrase. `body` is the reply's body, `None` where
/// it could not be read as text.
pub fn http_error_outcome(status: u16, body: Option<&str>) -> (outcome: Outcome)
    ensures
        outcome@ == failure_view(status, body_view(body)),
{
    let shown = status_text(status);
    http_error_outcome_with(shown.as_str(), body)
}

/// The outcome of a report: the answer, or the document written out by
/// `serde_json`.
pub fn present_report(report: &Report) -> (outcome: Outcome)
    ensures
        outcome@ == report_outcome(report@),
{
    match report {
        Report::Answer(text) => answer_outcome(text.as_str()),
        Report::Unrecognized(doc) => {
            let raw = encode(doc);
            fallback_outcome(raw.as_str())
        },
    }
}

/// What is read of a reply once its status is known.
#[derive(Clone, Copy, Debug, PartialEq, Eq, Structural)]
pub enum Reading {
    /// The body as text, to be shown beside the status; the body is not
    /// searched for an answer.
    ErrorText,
    /// The body as a JSON document, to be searched for the answer.
    Document,
}

/// What is read of a reply with this status: the document where the status
/// stands for success, the error text where it does not.
pub open spec fn reading_for(status: u16) -> Reading {
    if success_status(status) {
        Reading::Document
    } else {
        Reading::ErrorText
    }
}

/// Decides from a reply's status what is read of it.
pub fn after_status(status: u16) -> (reading: Reading)
    ensures
        reading == reading_for(status),
{
    if is_success(status) {
        Reading::Document
    } else {
        Reading::ErrorText
    }
}

/// How a run ends after a reply whose status is an error and whose body, read
/// as text, is `body`.
pub open spec fn failure_view(status: u16, body: Option<Seq<char>>) -> OutcomeView {
    http_error_view(shown_status(status, reason_phrase(status)), body)
}

/// A reply whose status does not stand for success is not searched for an
/// answer, whatever its body holds: its body is read as text, and the run
/// ends on the error stream with exit code 1, its line showing the status by
/// its number and the body as it came, or the placeholder where the body
/// could not be read.
pub proof fn lemma_error_status_ends_the_run(status: u16, body: Option<Seq<char>>)
    requires
        !success_status(status),
    ensures
        reading_for(status) == Reading::ErrorText,
        failure_view(status, body).stream == Stream::Stderr,
        failure_view(status, body).exit_code == 1,
        failure_view(status, body).line == "HTTP error "@ + shown_status(
            status,
            reason_phrase(status),
        ) + ": "@ + match body {
            Some(text) => text,
            None => UNREADABLE_BODY@,
        },
        decimal(status as nat).is_prefix_of(shown_status(status, reason_phrase(status))),
{
}

} // verus!
