//! Anti-forgery protection by double submit: a random token travels in a
//! cookie, and a state-changing request from a browser must repeat it in a
//! header. Nothing is stored on the server.

use axum::http::HeaderMap;
use vstd::prelude::*;
use vstd::utf8::encode_utf8_decode_utf8;
use crate::client::{is_native, is_native_value};
use crate::cookies::{build_csrf_cookie, cookie_value, csrf_cookie_text, find_cookie};
use crate::error::{ApiError, ApiErrorKind};
use crate::headers::{header_text, header_value};
use crate::text::{same_text, text_of};

verus! {

/// Number of random bytes in an anti-forgery token.
pub const CSRF_TOKEN_LENGTH: usize = 32;

/// The lower-case hexadecimal digit for a value below sixteen.
pub open spec fn hex_digit(n: int) -> char {
    if n < 10 {
        ((48 + n) as u8) as char
    } else {
        ((87 + n) as u8) as char
    }
}

/// Lower-case hexadecimal text of a byte string, two digits for each byte.
pub open spec fn hex_text(bytes: Seq<u8>) -> Seq<char> {
    Seq::new(
        2 * bytes.len(),
        |i: int|
            hex_digit(
                if i % 2 == 0 {
                    bytes[i / 2] as int / 16
                } else {
                    bytes[i / 2] as int % 16
                },
            ),
    )
}

/// Calls `rand::thread_rng` and `Rng::gen`. Trusted: nothing is claimed of
/// the byte that comes back.
#[verifier::external_body]
fn random_byte() -> (b: u8) {
    rand::Rng::gen(&mut rand::thread_rng())
}

/// Calls `hex::encode`. Trusted: the result holds two lower-case
/// hexadecimal digits for each byte, the high half first.
#[verifier::external_body]
fn hex_encode(bytes: &Vec<u8>) -> (text: String)
    ensures
        text@ == hex_text(bytes@),
{
    hex::encode(bytes)
}

/// A new anti-forgery token: thirty-two random bytes, written as sixty-four
/// hexadecimal digits.
pub fn generate_csrf_token() -> (token: String)
    ensures
        token@.len() == 64,
        exists|bytes: Seq<u8>| bytes.len() == 32 && token@ == hex_text(bytes),
{
    let mut bytes: Vec<u8> = Vec::new();
    while bytes.len() < CSRF_TOKEN_LENGTH
        invariant
            bytes.len() <= CSRF_TOKEN_LENGTH,
        decreases CSRF_TOKEN_LENGTH - bytes.len(),
    {
        bytes.push(random_byte());
    }
    hex_encode(&bytes)
}

/// Compares two strings in time that depends on their length alone: strings
/// of different length are unequal at once, the others are compared byte by
/// byte to the end, whatever differs.
pub fn constant_time_eq(a: &str, b: &str) -> (r: bool)
    ensures
        r == (a@ == b@),
        a@.len() != b@.len() ==> !r,
        (exists|i: int| 0 <= i < a@.len() && i < b@.len() && a@[i] != b@[i]) ==> !r,
{
    proof {
        encode_utf8_decode_utf8(a@);
        encode_utf8_decode_utf8(b@);
    }
    let x = a.as_bytes();
    let y = b.as_bytes();
    if x.len() != y.len() {
        return false;
    }
    let mut result: u8 = 0;
    let mut i: usize = 0;
    assert(x@.subrange(0, 0) =~= y@.subrange(0, 0));
    while i < x.len()
        invariant
            i <= x.len(),
            x.len() == y.len(),
            result == 0 <==> x@.subrange(0, i as int) == y@.subrange(0, i as int),
        decreases x.len() - i,
    {
        let d: u8 = x[i] ^ y[i];
        let ghost before = result;
        result = result | d;
        proof {
            let p = x[i as int];
            let q = y[i as int];
            assert((before | (p ^ q)) == 0 <==> (before == 0 && p == q)) by (bit_vector);
            if x@.subrange(0, i + 1) == y@.subrange(0, i + 1) {
                assert(x@.subrange(0, i as int) =~= x@.subrange(0, i + 1).subrange(0, i as int));
                assert(y@.subrange(0, i as int) =~= y@.subrange(0, i + 1).subrange(0, i as int));
                assert(x@.subrange(0, i + 1)[i as int] == y@.subrange(0, i + 1)[i as int]);
            }
            if x@.subrange(0, i as int) == y@.subrange(0, i as int) && p == q {
                assert(x@.subrange(0, i + 1) =~= x@.subrange(0, i as int).push(p));
                assert(y@.subrange(0, i + 1) =~= y@.subrange(0, i as int).push(q));
            }
        }
        i += 1;
    }
    proof {
        assert(x@.subrange(0, i as int) =~= x@);
        assert(y@.subrange(0, i as int) =~= y@);
    }
    result == 0
}

/// What the guard decides about a request.
#[derive(Debug, Clone, Copy, PartialEq, Eq, Structural)]
pub enum CsrfVerdict {
    /// The request goes on to its handler.
    Proceed,
    /// The request has no anti-forgery cookie: the client must fetch one.
    MissingToken,
    /// The header is missing or differs from the cookie.
    InvalidToken,
}

/// Methods that change no state and so need no anti-forgery token.
pub open spec fn is_safe_method(method: Seq<char>) -> bool {
    method == "GET"@ || method == "HEAD"@ || method == "OPTIONS"@
}

/// The token in the anti-forgery cookie of a `Cookie` header.
pub open spec fn csrf_cookie_of(cookie_header: Option<Seq<char>>) -> Option<Seq<char>> {
    match cookie_header {
        Some(c) => cookie_value(c, "csrf_token"@),
        None => None,
    }
}

/// The rule of the guard. Safe methods and native clients pass. Any other
/// request needs the cookie, and a header equal to it.
pub open spec fn csrf_verdict(
    method: Seq<char>,
    client_type: Option<Seq<char>>,
    cookie_header: Option<Seq<char>>,
    csrf_header: Option<Seq<char>>,
) -> CsrfVerdict {
    if is_safe_method(method) || is_native(client_type) {
        CsrfVerdict::Proceed
    } else {
        match (csrf_cookie_of(cookie_header), csrf_header) {
            (None, _) => CsrfVerdict::MissingToken,
            (Some(c), Some(h)) => if c == h {
                CsrfVerdict::Proceed
            } else {
                CsrfVerdict::InvalidToken
            },
            (Some(_), None) => CsrfVerdict::InvalidToken,
        }
    }
}

/// Safe methods and native clients pass the guard, whatever else the
/// request holds.
pub proof fn lemma_exempt_requests_proceed(
    method: Seq<char>,
    client_type: Option<Seq<char>>,
    cookie_header: Option<Seq<char>>,
    csrf_header: Option<Seq<char>>,
)
    requires
        is_safe_method(method) || is_native(client_type),
    ensures
        csrf_verdict(method, client_type, cookie_header, csrf_header) == CsrfVerdict::Proceed,
{
}

/// Any other request passes the guard only with the cookie and a header
/// that repeats it.
pub proof fn lemma_guarded_request_needs_its_pair(
    method: Seq<char>,
    client_type: Option<Seq<char>>,
    cookie_header: Option<Seq<char>>,
    csrf_header: Option<Seq<char>>,
)
    requires
        !is_safe_method(method),
        !is_native(client_type),
    ensures
        csrf_verdict(method, client_type, cookie_header, csrf_header) == CsrfVerdict::Proceed
            <==> csrf_cookie_of(cookie_header) is Some && csrf_header == csrf_cookie_of(
            cookie_header,
        ),
        csrf_verdict(method, client_type, cookie_header, csrf_header) == CsrfVerdict::MissingToken
            <==> csrf_cookie_of(cookie_header) is None,
{
}

impl CsrfVerdict {
    /// The error that a rejected request is answered with.
    pub fn rejection(&self) -> (r: Option<ApiError>)
        ensures
            *self == CsrfVerdict::Proceed ==> r is None,
            *self == CsrfVerdict::MissingToken ==> r is Some && r->0.has(
                ApiErrorKind::Forbidden,
                "CSRF token missing. Fetch /api/v1/csrf first."@,
            ),
            *self == CsrfVerdict::InvalidToken ==> r is Some && r->0.has(
                ApiErrorKind::Forbidden,
                "CSRF token invalid"@,
            ),
    {
        match self {
            CsrfVerdict::Proceed => None,
            CsrfVerdict::MissingToken => Some(
                ApiError::Forbidden("CSRF token missing. Fetch /api/v1/csrf first.".to_owned()),
            ),
            CsrfVerdict::InvalidToken => Some(ApiError::Forbidden("CSRF token invalid".to_owned())),
        }
    }
}

/// Whether a method is one of `GET`, `HEAD` and `OPTIONS`.
pub fn is_safe(method: &str) -> (r: bool)
    ensures
        r == is_safe_method(method@),
{
    same_text(method, "GET") || same_text(method, "HEAD") || same_text(method, "OPTIONS")
}

/// The guard's decision from the method and the three header values that
/// matter: `X-Client-Type`, `Cookie` and `X-CSRF-Token`.
pub fn csrf_decide(
    method: &str,
    client_type: &Option<String>,
    cookie_header: &Option<String>,
    csrf_header: &Option<String>,
) -> (verdict: CsrfVerdict)
    ensures
        verdict == csrf_verdict(
            method@,
            text_of(*client_type),
            text_of(*cookie_header),
            text_of(*csrf_header),
        ),
{
    if is_safe(method) {
        return CsrfVerdict::Proceed;
    }
    if let Some(kind) = client_type {
        if is_native_value(kind.as_str()) {
            return CsrfVerdict::Proceed;
        }
    }
    let cookie_token = match cookie_header {
        Some(c) => find_cookie(c.as_str(), "csrf_token"),
        None => None,
    };
    match cookie_token {
        None => CsrfVerdict::MissingToken,
        Some(cookie) => match csrf_header {
            Some(header) => {
                if constant_time_eq(cookie.as_str(), header.as_str()) {
                    CsrfVerdict::Proceed
                } else {
                    CsrfVerdict::InvalidToken
                }
            },
            None => CsrfVerdict::InvalidToken,
        },
    }
}

/// The token in the anti-forgery cookie of a request.
pub fn extract_csrf_from_cookie(headers: &HeaderMap) -> (token: Option<String>)
    ensures
        text_of(token) == csrf_cookie_of(header_value(*headers, "cookie"@)),
{
    match header_text(headers, "cookie") {
        Some(c) => find_cookie(c.as_str(), "csrf_token"),
        None => None,
    }
}

/// Guards a request: decides from its method and headers whether it may go
/// on to its handler.
pub fn csrf_middleware(method: &str, headers: &HeaderMap) -> (verdict: CsrfVerdict)
    ensures
        verdict == csrf_verdict(
            method@,
            header_value(*headers, "x-client-type"@),
            header_value(*headers, "cookie"@),
            header_value(*headers, "x-csrf-token"@),
        ),
{
    let client_type = header_text(headers, "x-client-type");
    let cookie_header = header_text(headers, "cookie");
    let csrf_header = header_text(headers, "x-csrf-token");
    csrf_decide(method, &client_type, &cookie_header, &csrf_header)
}

/// A freshly issued anti-forgery token with the cookie that carries it.
#[derive(Debug, Clone)]
pub struct CsrfIssue {
    /// The token, for the response body.
    pub csrf_token: String,
    /// The `Set-Cookie` value.
    pub cookie: String,
}

/// Issues a new anti-forgery token, for the body and for the cookie alike.
pub fn get_csrf_token(secure: bool) -> (issue: CsrfIssue)
    ensures
        issue.cookie@ == csrf_cookie_text(issue.csrf_token@, secure),
        exists|bytes: Seq<u8>| bytes.len() == 32 && issue.csrf_token@ == hex_text(bytes),
{
    let token = generate_csrf_token();
    let cookie = build_csrf_cookie(token.as_str(), secure);
    CsrfIssue { csrf_token: token, cookie }
}

} // verus!
