//! What the library takes from `reqwest`: the reason phrases of HTTP status
//! codes and the text of transport errors.

use vstd::prelude::*;

verus! {

#[verifier::external_type_specification]
#[verifier::external_body]
pub struct ExReqwestError(reqwest::Error);

/// The canonical reason phrase of an HTTP status code ("Not Found" for 404),
/// or `None` for a code without one.
pub uninterp spec fn http_canonical_reason(code: u16) -> Option<Seq<char>>;

/// `reqwest::StatusCode::from_u16(code)` followed by
/// `StatusCode::canonical_reason`: the reason phrase of `code`, `None` when
/// `code` is outside 100..=999 or has no registered phrase.  The phrase is a
/// fixed table lookup, so it is named by `http_canonical_reason`.
#[verifier::external_body]
pub fn canonical_reason(code: u16) -> (reason: Option<String>)
    ensures
        match reason {
            Some(r) => http_canonical_reason(code) == Some(r@),
            None => http_canonical_reason(code) is None,
        },
{
    match reqwest::StatusCode::from_u16(code) {
        Ok(status) => status.canonical_reason().map(str::to_owned),
        Err(_) => None,
    }
}

/// `reqwest::Error`'s `Display` text.  It describes the failed transfer
/// (URL, cause) in words that `reqwest` chooses; nothing is promised of it.
#[verifier::external_body]
pub fn reqwest_error_text(err: &reqwest::Error) -> (text: String) {
    err.to_string()
}

/// Whether a status code means success (200..=299), as
/// `StatusCode::is_success` decides.
pub open spec fn is_success_status(status: u16) -> bool {
    200 <= status < 300
}

/// Decides `StatusCode::is_success` for a status code.
pub fn status_is_success(status: u16) -> (ok: bool)
    ensures
        ok == is_success_status(status),
{
    200 <= status && status < 300
}

/// The text of `StatusCode`'s `Display`: the code, a space, and its reason
/// phrase (or `<unknown status code>`).
pub open spec fn status_display(status: u16) -> Seq<char> {
    crate::text::decimal(status as nat) + " "@ + match http_canonical_reason(status) {
        Some(r) => r,
        None => "<unknown status code>"@,
    }
}

/// Renders a status code as `StatusCode`'s `Display` does.
pub fn status_text(status: u16) -> (text: String)
    ensures
        text@ == status_display(status),
{
    let mut text = String::new();
    crate::text::push_decimal(&mut text, status as u64);
    text.append(" ");
    match canonical_reason(status) {
        Some(r) => text.append(r.as_str()),
        None => text.append("<unknown status code>"),
    }
    assert(text@ =~= status_display(status));
    text
}

} // verus!
