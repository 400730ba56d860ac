//! HTTP status codes: which of them mean success, and how one is shown.

use vstd::prelude::*;

verus! {

/// What is shown in place of a reason phrase for a status that has none.
pub const UNKNOWN_STATUS: &'static str = "<unknown status code>";

/// The reason phrase that the `http` crate keeps for `status`, as
/// `StatusCode::canonical_reason` returns it; `None` where it keeps none, and
/// for a number that is no status code.
pub uninterp spec fn reason_phrase(status: u16) -> Option<Seq<char>>;

/// Looks `status` up by `StatusCode::from_u16` and then
/// `StatusCode::canonical_reason`. The number alone decides what comes back,
/// and [`reason_phrase`] is the name for it.
#[verifier::external_body]
fn canonical_reason(status: u16) -> (reason: Option<&'static str>)
    ensures
        match reason {
            Some(phrase) => reason_phrase(status) == Some(phrase@),
            None => reason_phrase(status) is None,
        },
{
    reqwest::StatusCode::from_u16(status).ok().and_then(|code| code.canonical_reason())
}

/// Whether an HTTP status stands for success: the codes from 200 to 299.
pub open spec fn success_status(status: u16) -> bool {
    200 <= status <= 299
}

/// Whether an HTTP status stands for success.
pub fn is_success(status: u16) -> (ok: bool)
    ensures
        ok == success_status(status),
{
    200 <= status && status <= 299
}

/// The character for the digit `d`.
pub open spec fn digit(d: nat) -> char {
    if d == 0 {
        '0'
    } else if d == 1 {
        '1'
    } else if d == 2 {
        '2'
    } else if d == 3 {
        '3'
    } else if d == 4 {
        '4'
    } else if d == 5 {
        '5'
    } else if d == 6 {
        '6'
    } else if d == 7 {
        '7'
    } else if d == 8 {
        '8'
    } else {
        '9'
    }
}

/// The decimal digits of `n`, without leading zeros.
pub open spec fn decimal(n: nat) -> Seq<char>
    decreases n,
{
    if n < 10 {
        seq![digit(n)]
    } else {
        decimal(n / 10).push(digit(n % 10))
    }
}

/// The digit `d` as text.
fn digit_text(d: u16) -> (text: &'static str)
    requires
        d < 10,
    ensures
        text@ == seq![digit(d as nat)],
{
    proof {
        reveal_strlit("0");
        reveal_strlit("1");
        reveal_strlit("2");
        reveal_strlit("3");
        reveal_strlit("4");
        reveal_strlit("5");
        reveal_strlit("6");
        reveal_strlit("7");
        reveal_strlit("8");
        reveal_strlit("9");
    }
    let text = if d == 0 {
        "0"
    } else if d == 1 {
        "1"
    } else if d == 2 {
        "2"
    } else if d == 3 {
        "3"
    } else if d == 4 {
        "4"
    } else if d == 5 {
        "5"
    } else if d == 6 {
        "6"
    } else if d == 7 {
        "7"
    } else if d == 8 {
        "8"
    } else {
        "9"
    };
    assert(text@ =~= seq![digit(d as nat)]);
    text
}

/// Writes `n` in decimal digits.
pub fn decimal_text(n: u16) -> (text: String)
    ensures
        text@ == decimal(n as nat),
    decreases n,
{
    if n < 10 {
        digit_text(n).to_owned()
    } else {
        let mut text = decimal_text(n / 10);
        let last = digit_text(n % 10);
        text.append(last);
        assert(text@ =~= decimal((n / 10) as nat).push(digit((n % 10) as nat)));
        text
    }
}

/// A status as it is shown: its number, a space, and the reason phrase
/// `reason`, or a placeholder where there is none.
pub open spec fn shown_status(status: u16, reason: Option<Seq<char>>) -> Seq<char> {
    let phrase = match reason {
        Some(text) => text,
        None => UNKNOWN_STATUS@,
    };
    decimal(status as nat) + " "@ + phrase
}

/// The reason phrase `reason`, where there is one, as a sequence of characters.
pub open spec fn reason_view(reason: Option<&str>) -> Option<Seq<char>> {
    match reason {
        Some(text) => Some(text@),
        None => None,
    }
}

/// Shows `status` with the reason phrase `reason`.
pub fn status_with_reason(status: u16, reason: Option<&str>) -> (text: String)
    ensures
        text@ == shown_status(status, reason_view(reason)),
{
    let mut text = decimal_text(status);
    text.append(" ");
    match reason {
        Some(phrase) => text.append(phrase),
        None => text.append(UNKNOWN_STATUS),
    }
    text
}

/// Shows `status` with the reason phrase that the `http` crate keeps for it.
pub fn status_text(status: u16) -> (text: String)
    ensures
        text@ == shown_status(status, reason_phrase(status)),
{
    status_with_reason(status, canonical_reason(status))
}

} // verus!
