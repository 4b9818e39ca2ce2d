//! Reading request headers.

use axum::http::HeaderMap;
use vstd::prelude::*;
use crate::text::{lower_text, text_of};

verus! {

/// The header map of the `http` crate, as `axum` hands it on. Opaque here.
#[verifier::external_type_specification]
#[verifier::external_body]
#[verifier::reject_recursive_types(T)]
pub struct ExHeaderMap<T>(axum::http::HeaderMap<T>);

/// The value of one header. Opaque here.
#[verifier::external_type_specification]
#[verifier::external_body]
pub struct ExHeaderValue(axum::http::HeaderValue);

/// What a header map holds as text: for each header whose first value is
/// made of visible ASCII only, that value, by the header's lower-case name.
pub uninterp spec fn header_texts(headers: HeaderMap) -> Map<Seq<char>, Seq<char>>;

/// The text of the header `name`, if the map has it.
pub open spec fn header_value(headers: HeaderMap, name: Seq<char>) -> Option<Seq<char>> {
    let key = lower_text(name);
    if header_texts(headers).contains_key(key) {
        Some(header_texts(headers)[key])
    } else {
        None
    }
}

/// Calls `HeaderMap::get` and `HeaderValue::to_str`. Trusted: the result is
/// the first value stored under `name`, looked up without regard to ASCII
/// case, and only where that value is visible ASCII; a missing header, a name
/// that is no header name, and a value with other bytes all give `None`.
#[verifier::external_body]
pub(crate) fn header_text(headers: &HeaderMap, name: &str) -> (r: Option<String>)
    ensures
        text_of(r) == (if header_texts(*headers).contains_key(lower_text(name@)) {
            Some(header_texts(*headers)[lower_text(name@)])
        } else {
            None
        }),
{
    headers.get(name).and_then(|v| v.to_str().ok()).map(String::from)
}

} // verus!
