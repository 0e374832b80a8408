//! HTTP details shared by the API clients: endpoint URLs and the text of a
//! status code as reqwest displays it.

use vstd::prelude::*;
use crate::text::{decimal, decimal_text, owned, push_str};

verus! {

/// The canonical reason phrase that `http::StatusCode::canonical_reason`
/// gives for a status code, taken by its characters.
pub uninterp spec fn canonical_reason_of(code: u16) -> Option<Seq<char>>;

/// Calls `reqwest::StatusCode::canonical_reason` on the status code `code`
/// (made by `StatusCode::from_u16`, which accepts exactly 100 to 999).
/// The contract claims that the reason is a function of the code, named
/// `canonical_reason_of`; the table of reasons itself is not stated.
#[verifier::external_body]
fn canonical_reason(code: u16) -> (r: Option<&'static str>)
    requires
        100 <= code <= 999,
    ensures
        match r {
            Some(s) => canonical_reason_of(code) == Some(s@),
            None => canonical_reason_of(code).is_none(),
        },
{
    match reqwest::StatusCode::from_u16(code) {
        Ok(s) => s.canonical_reason(),
        Err(_) => None,
    }
}

/// The text of a status: its code, a space, and its canonical reason or
/// `<unknown status code>`.
pub open spec fn status_text_of(code: u16) -> Seq<char> {
    decimal_text(code as nat) + " "@ + match canonical_reason_of(code) {
        Some(r) => r,
        None => "<unknown status code>"@,
    }
}

/// The text of a status code as a `StatusCode` displays it.
pub fn status_text(code: u16) -> (r: String)
    requires
        100 <= code <= 999,
    ensures
        r@ == status_text_of(code),
{
    let mut s = decimal(code as u128);
    push_str(&mut s, " ");
    match canonical_reason(code) {
        Some(reason) => push_str(&mut s, reason),
        None => push_str(&mut s, "<unknown status code>"),
    }
    s
}

/// The URL of an endpoint: the base URL followed by the endpoint's path.
pub fn endpoint_url(base_url: &str, path: &str) -> (r: String)
    ensures
        r@ == base_url@ + path@,
{
    let mut s = owned(base_url);
    push_str(&mut s, path);
    s
}

/// A message made of a prefix and a detail.
pub fn prefixed(prefix: &str, detail: &str) -> (r: String)
    ensures
        r@ == prefix@ + detail@,
{
    let mut s = owned(prefix);
    push_str(&mut s, detail);
    s
}

} // verus!
