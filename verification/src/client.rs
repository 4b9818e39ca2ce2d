//! Telling native clients from browsers.

use axum::http::HeaderMap;
use vstd::prelude::*;
use crate::headers::{header_text, header_value};
use crate::text::{chars_of, eq_ignore_ascii_case, lower_text};

verus! {

/// The two classes of client. A native client keeps its tokens itself and
/// sends them in a header; a browser holds them in cookies.
#[derive(Debug, Clone, Copy, PartialEq, Eq, Structural)]
pub enum ClientKind {
    Web,
    Native,
}

/// Whether the value of `X-Client-Type` names a native client: the header is
/// there and reads `native`, in any mix of upper and lower case.
pub open spec fn is_native(client_type: Option<Seq<char>>) -> bool {
    match client_type {
        Some(v) => lower_text(v) == lower_text("native"@),
        None => false,
    }
}

/// The client class that a value of `X-Client-Type` stands for.
pub open spec fn kind_of(client_type: Option<Seq<char>>) -> ClientKind {
    if is_native(client_type) {
        ClientKind::Native
    } else {
        ClientKind::Web
    }
}

/// Whether a value of `X-Client-Type` names a native client.
pub fn is_native_value(value: &str) -> (r: bool)
    ensures
        r == is_native(Some(value@)),
{
    let v = chars_of(value);
    let native = chars_of("native");
    eq_ignore_ascii_case(&v, &native)
}

/// Derives the client class of a request from its headers.
pub fn client_kind(headers: &HeaderMap) -> (kind: ClientKind)
    ensures
        kind == kind_of(header_value(*headers, "x-client-type"@)),
{
    match header_text(headers, "x-client-type") {
        Some(v) => {
            if is_native_value(v.as_str()) {
                ClientKind::Native
            } else {
                ClientKind::Web
            }
        },
        None => ClientKind::Web,
    }
}

} // verus!
