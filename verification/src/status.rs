//! HTTP status codes: which of them mean success, and how one is written
//! out for a person to read.
//!
//! Both questions are put to `reqwest::StatusCode`. What is believed of it
//! rather than proved is in the two functions [`is_success`] and
//! [`reason_phrase`].
use vstd::prelude::*;

verus! {

/// The character of a decimal digit.
pub open spec fn digit(d: nat) -> char {
    if d == 0 {
        '0'
    } else if d == 1 {
        '1'
    } else if d == 2 {
        '2'
    } else if d == 3 {
        '3'
    } else if d == 4 {
        '4'
    } else if d == 5 {
        '5'
    } else if d == 6 {
        '6'
    } else if d == 7 {
        '7'
    } else if d == 8 {
        '8'
    } else {
        '9'
    }
}

/// A number in decimal, without leading zeros.
pub open spec fn decimal(n: nat) -> Seq<char>
    decreases n,
{
    if n < 10 {
        seq![digit(n)]
    } else {
        decimal(n / 10).push(digit(n % 10))
    }
}

/// The status codes of a successful response.
pub open spec fn success(code: u16) -> bool {
    200 <= code <= 299
}

/// The standard reason phrase that `reqwest::StatusCode::canonical_reason`
/// gives for a status code, `None` where it knows none or the number is no
/// status code.
pub uninterp spec fn canonical_reason(code: u16) -> Option<Seq<char>>;

/// A status code written out with a reason phrase: the number, a blank, and
/// the phrase, or a few words in its place where there is none.
pub open spec fn with_reason(code: u16, reason: Option<Seq<char>>) -> Seq<char> {
    decimal(code as nat) + " "@ + match reason {
        Some(phrase) => phrase,
        None => "<unknown status code>"@,
    }
}

/// A status code written out with its standard reason phrase.
pub open spec fn status_line(code: u16) -> Seq<char> {
    with_reason(code, canonical_reason(code))
}

/// Asks `reqwest::StatusCode::is_success`, which is documented to hold
/// within 200-299. A number outside 100..=999 is no status code at all,
/// `reqwest::StatusCode::from_u16` rejects it, and it is no success either.
#[verifier::external_body]
pub(crate) fn is_success(code: u16) -> (ok: bool)
    ensures
        ok == success(code),
{
    match reqwest::StatusCode::from_u16(code) {
        Ok(status) => status.is_success(),
        Err(_) => false,
    }
}

/// Asks `reqwest::StatusCode::canonical_reason`, which looks the number up
/// in a fixed table. The contract claims only that the answer depends on the
/// number alone; `reqwest::StatusCode::from_u16` rejects a number outside
/// 100..=999, for which there is no phrase.
#[verifier::external_body]
pub(crate) fn reason_phrase(code: u16) -> (phrase: Option<&'static str>)
    ensures
        match phrase {
            Some(text) => canonical_reason(code) == Some(text@),
            None => canonical_reason(code) is None,
        },
{
    match reqwest::StatusCode::from_u16(code) {
        Ok(status) => status.canonical_reason(),
        Err(_) => None,
    }
}

/// The text of one decimal digit.
fn digit_text(d: u16) -> (text: &'static str)
    requires
        d < 10,
    ensures
        text@ == seq![digit(d as nat)],
{
    proof {
        reveal_strlit("0");
        reveal_strlit("1");
        reveal_strlit("2");
        reveal_strlit("3");
        reveal_strlit("4");
        reveal_strlit("5");
        reveal_strlit("6");
        reveal_strlit("7");
        reveal_strlit("8");
        reveal_strlit("9");
    }
    let text = if d == 0 {
        "0"
    } else if d == 1 {
        "1"
    } else if d == 2 {
        "2"
    } else if d == 3 {
        "3"
    } else if d == 4 {
        "4"
    } else if d == 5 {
        "5"
    } else if d == 6 {
        "6"
    } else if d == 7 {
        "7"
    } else if d == 8 {
        "8"
    } else {
        "9"
    };
    assert(text@ =~= seq![digit(d as nat)]);
    text
}

/// Writes a number in decimal.
pub fn decimal_text(n: u16) -> (text: String)
    ensures
        text@ == decimal(n as nat),
    decreases n,
{
    if n < 10 {
        String::from_str(digit_text(n))
    } else {
        let text = decimal_text(n / 10).concat(digit_text(n % 10));
        assert(text@ =~= decimal(n as nat));
        text
    }
}

/// Writes a status code out with a reason phrase, as in `404 Not Found`.
pub fn status_with_reason(code: u16, reason: Option<&str>) -> (text: String)
    ensures
        text@ == with_reason(
            code,
            match reason {
                Some(phrase) => Some(phrase@),
                None => None,
            },
        ),
{
    let phrase = match reason {
        Some(known) => known,
        None => "<unknown status code>",
    };
    decimal_text(code).concat(" ").concat(phrase)
}

/// Writes a status code out with its standard reason phrase.
pub fn status_text(code: u16) -> (text: String)
    ensures
        text@ == status_line(code),
{
    status_with_reason(code, reason_phrase(code))
}

} // verus!
