//! HTTP status codes as the bot reads them: a number, its class, and the
//! text it is shown as (`"404 Not Found"`).
use vstd::prelude::*;
use crate::text::{decimal, u64_to_decimal};

verus! {

/// The reason phrase that the `http` crate's status table gives a code.
pub uninterp spec fn canonical_reason_of(code: u16) -> Option<Seq<char>>;

/// `reqwest::StatusCode::is_success` on the status with number `code`:
/// true exactly for the 2xx class. A number that is no status code
/// (`from_u16` refuses it) is not a success either.
#[verifier::external_body]
fn status_class_is_success(code: u16) -> (r: bool)
    ensures
        r == (200 <= code && code < 300),
{
    match reqwest::StatusCode::from_u16(code) {
        Ok(status) => status.is_success(),
        Err(_) => false,
    }
}

/// `reqwest::StatusCode::canonical_reason` on the status with number `code`:
/// the phrase of the status table, named by `canonical_reason_of`; `None` for
/// a number outside 100..=999, which `from_u16` refuses.
#[verifier::external_body]
fn canonical_reason(code: u16) -> (r: Option<&'static str>)
    ensures
        match r {
            Some(s) => canonical_reason_of(code) == Some(s@),
            None => canonical_reason_of(code) is None,
        },
        !(100 <= code && code < 1000) ==> r is None,
{
    match reqwest::StatusCode::from_u16(code) {
        Ok(status) => status.canonical_reason(),
        Err(_) => None,
    }
}

/// How a status with reason phrase `reason` is shown: its number, a space,
/// and the phrase, or `<unknown status code>` when there is none.
pub open spec fn status_shown(code: u16, reason: Option<Seq<char>>) -> Seq<char> {
    decimal(code as nat) + " "@ + match reason {
        Some(r) => r,
        None => "<unknown status code>"@,
    }
}

/// How a status is shown in messages, with the phrase of the status table.
pub open spec fn status_display(code: u16) -> Seq<char> {
    status_shown(code, canonical_reason_of(code))
}

/// Whether a reply with this status succeeded (a 2xx status).
pub fn is_success(code: u16) -> (r: bool)
    ensures
        r == (200 <= code && code < 300),
{
    status_class_is_success(code)
}

/// Whether this status says that the thing asked for does not exist.
pub fn is_not_found(code: u16) -> (r: bool)
    ensures
        r == (code == 404),
{
    code == 404
}

/// The text of a status whose reason phrase is `reason`.
pub fn format_status(code: u16, reason: Option<&str>) -> (s: String)
    ensures
        s@ == status_shown(
            code,
            match reason {
                Some(r) => Some(r@),
                None => None,
            },
        ),
{
    let mut out = u64_to_decimal(code as u64);
    out.append(" ");
    match reason {
        Some(r) => out.append(r),
        None => out.append("<unknown status code>"),
    }
    out
}

/// The text of a status, as it appears in error messages.
pub fn status_text(code: u16) -> (s: String)
    ensures
        s@ == status_display(code),
{
    format_status(code, canonical_reason(code))
}

} // verus!
