//! What the status of a reply means for the operation that sent the request.

use vstd::prelude::*;
use vstd::string::*;

use crate::error::Error;

verus! {

/// The reason phrase that `http::StatusCode::canonical_reason` gives for the
/// status with this number, or `None` where its table has no entry.
pub uninterp spec fn canonical_reason(code: u16) -> Option<Seq<char>>;

/// An HTTP status has three digits.
pub open spec fn is_status_code(code: u16) -> bool {
    100 <= code <= 999
}

/// The character of one decimal digit.
pub open spec fn digit_char(d: int) -> char
    recommends
        0 <= d <= 9,
{
    (('0' as u8) + d) as u8 as char
}

/// The three decimal digits of a status.
pub open spec fn status_digits(code: u16) -> Seq<char>
    recommends
        is_status_code(code),
{
    seq![digit_char(code as int / 100), digit_char(code as int / 10 % 10), digit_char(code as int % 10)]
}

/// Whether a status reports success: the codes 200 to 299.
pub open spec fn is_success(code: u16) -> bool {
    200 <= code <= 299
}

/// The text of a status for the user: its digits, a space, and the reason
/// phrase if there is one.
pub open spec fn status_text(digits: Seq<char>, reason: Option<Seq<char>>) -> Seq<char> {
    digits + seq![' '] + match reason {
        Some(phrase) => phrase,
        None => Seq::empty(),
    }
}

/// The text that an API error carries for the status with this number.
pub open spec fn status_line(code: u16) -> Seq<char> {
    status_text(status_digits(code), canonical_reason(code))
}

/// The number that the first three characters of a text spell in decimal.
pub open spec fn leading_number(text: Seq<char>) -> int
    recommends
        text.len() >= 3,
{
    (text[0] as int - '0' as int) * 100 + (text[1] as int - '0' as int) * 10 + (text[2] as int
        - '0' as int)
}

/// The text of a status begins with the three digits of the status and a
/// space, and the digits, read as a number, give the status back.
pub proof fn lemma_status_line_names_code(code: u16)
    requires
        is_status_code(code),
    ensures
        status_line(code).len() >= 4,
        status_line(code).subrange(0, 3) == status_digits(code),
        status_line(code)[3] == ' ',
        leading_number(status_line(code)) == code,
{
    let line = status_line(code);
    let digits = status_digits(code);
    assert(digits.len() == 3);
    assert(line.subrange(0, 3) =~= digits);
    assert(line[0] == digits[0] && line[1] == digits[1] && line[2] == digits[2]);
}

/// `http::StatusCode::is_success` of the status with this number: whether the
/// number lies in 200..=299. `StatusCode::from_u16` accepts 100..=999.
#[verifier::external_body]
fn status_is_success(code: u16) -> (yes: bool)
    requires
        is_status_code(code),
    ensures
        yes == is_success(code),
{
    reqwest::StatusCode::from_u16(code).unwrap().is_success()
}

/// `http::StatusCode::as_str` of the status with this number: its three
/// decimal digits.
#[verifier::external_body]
fn status_as_str(code: u16) -> (digits: String)
    requires
        is_status_code(code),
    ensures
        digits@ == status_digits(code),
{
    reqwest::StatusCode::from_u16(code).unwrap().as_str().to_string()
}

/// `http::StatusCode::canonical_reason` of the status with this number. The
/// phrase comes from a table in that crate: the contract only gives it its
/// name.
#[verifier::external_body]
fn status_canonical_reason(code: u16) -> (reason: Option<&'static str>)
    requires
        is_status_code(code),
    ensures
        canonical_reason(code) == match reason {
            Some(phrase) => Some(phrase@),
            None => None,
        },
{
    reqwest::StatusCode::from_u16(code).unwrap().canonical_reason()
}

/// Joins the digits of a status and its reason phrase into the text that an
/// API error carries. Without a phrase the text ends in the space.
pub fn api_status(digits: &str, reason: Option<&str>) -> (text: String)
    ensures
        text@ == status_text(
            digits@,
            match reason {
                Some(phrase) => Some(phrase@),
                None => None,
            },
        ),
{
    let mut text = String::from_str(digits);
    text.append(" ");
    proof {
        reveal_strlit(" ");
        assert(" "@ =~= seq![' ']);
    }
    match reason {
        Some(phrase) => {
            text.append(phrase);
        },
        None => {
            assert(text@ + Seq::<char>::empty() =~= text@);
        },
    }
    text
}

/// Decides what the status of a reply means. A status from 200 to 299 lets
/// the operation go on to the body; every other status ends it with an API
/// error that carries the status, whatever the body holds.
pub fn check_status(code: u16) -> (r: Result<(), Error>)
    requires
        is_status_code(code),
    ensures
        r is Ok <==> is_success(code),
        r matches Err(error) ==> error is APIError && error->status@ == status_line(code),
{
    if status_is_success(code) {
        Ok(())
    } else {
        let digits = status_as_str(code);
        let reason = status_canonical_reason(code);
        Err(Error::APIError { status: api_status(digits.as_str(), reason) })
    }
}

} // verus!
