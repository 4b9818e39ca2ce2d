//! Cookies: the `Set-Cookie` values that carry tokens to browsers, and the
//! lookup of one cookie in a `Cookie` request header.

use vstd::prelude::*;
use crate::decimal::{decimal, i64_text};
use crate::text::{
    chars_of, find_sep, has_prefix_at, lemma_next_sep_bounds, lemma_trim_bounds, next_sep,
    skip_spaces, skip_spaces_back, slice_text, text_of, trim_end, trim_start,
};

verus! {

/// Lifetime of the access-token cookie, in seconds.
pub const ACCESS_TOKEN_MAX_AGE_SECONDS: i64 = 900;

/// Lifetime of the refresh-token cookie, in seconds.
pub const REFRESH_TOKEN_MAX_AGE_SECONDS: i64 = 604800;

/// The cookie that the pair `name=value` in `s[from..end]` gives, once white
/// space around the pair is dropped: its value, if the name matches and the
/// value is not empty.
pub open spec fn cookie_in_segment(s: Seq<char>, name: Seq<char>, from: int, end: int) -> Option<
    Seq<char>,
> {
    let lo = trim_start(s, from, end);
    let hi = trim_end(s, lo, end);
    let key = name.push('=');
    if hi - lo > key.len() && s.subrange(lo, lo + key.len()) == key {
        Some(s.subrange(lo + key.len(), hi))
    } else {
        None
    }
}

/// The first cookie named `name` with a value among the `;`-separated pairs
/// of `s` that start at or after `from`.
pub open spec fn cookie_from(s: Seq<char>, name: Seq<char>, from: int) -> Option<Seq<char>>
    decreases s.len() - from,
{
    let end = next_sep(s, ';', from);
    if from < 0 || from > s.len() || end < from {
        None
    } else if cookie_in_segment(s, name, from, end) is Some {
        cookie_in_segment(s, name, from, end)
    } else if end >= s.len() {
        None
    } else {
        cookie_from(s, name, end + 1)
    }
}

/// The value of the cookie `name` in the `Cookie` header text `s`.
pub open spec fn cookie_value(s: Seq<char>, name: Seq<char>) -> Option<Seq<char>> {
    cookie_from(s, name, 0)
}

/// A cookie that is found has a value: a pair with an empty value is passed
/// over.
pub proof fn lemma_cookie_value_not_empty(s: Seq<char>, name: Seq<char>, from: int)
    ensures
        cookie_from(s, name, from) matches Some(v) ==> v.len() > 0,
    decreases s.len() - from,
{
    let end = next_sep(s, ';', from);
    if 0 <= from <= s.len() {
        lemma_next_sep_bounds(s, ';', from);
        lemma_trim_bounds(s, from, end);
        let lo = trim_start(s, from, end);
        lemma_trim_bounds(s, lo, end);
        if cookie_in_segment(s, name, from, end) is None && end < s.len() {
            lemma_cookie_value_not_empty(s, name, end + 1);
        }
    }
}

/// Looks `name` up in a `Cookie` header: the pairs are split at `;`, white
/// space around each is dropped, and the first pair `name=value` with a value
/// wins.
pub fn find_cookie(header: &str, name: &str) -> (r: Option<String>)
    ensures
        text_of(r) == cookie_value(header@, name@),
{
    let s = chars_of(header);
    let mut key = chars_of(name);
    key.push('=');
    let n = s.len();
    let mut from: usize = 0;
    loop
        invariant
            s@ == header@,
            key@ == name@.push('='),
            n == s.len(),
            from <= n,
            cookie_from(s@, name@, from as int) == cookie_value(header@, name@),
        decreases n - from,
    {
        let end = find_sep(&s, ';', from);
        let lo = skip_spaces(&s, from, end);
        let hi = skip_spaces_back(&s, lo, end);
        if hi - lo > key.len() && has_prefix_at(&s, lo, &key) {
            return Some(slice_text(header, lo + key.len(), hi));
        }
        if end >= n {
            return None;
        }
        from = end + 1;
    }
}

/// The seconds after `Max-Age=`: the cookie's lifetime, or zero when the
/// cookie is being cleared.
pub open spec fn max_age(clear: bool, lifetime: int) -> int {
    if clear {
        0
    } else {
        lifetime
    }
}

/// The `Secure` attribute, present in production only.
pub open spec fn secure_suffix(secure: bool) -> Seq<char> {
    if secure {
        "; Secure"@
    } else {
        Seq::<char>::empty()
    }
}

/// The `Set-Cookie` value of the access-token cookie.
pub open spec fn auth_cookie_text(token: Seq<char>, clear: bool, secure: bool) -> Seq<char> {
    "access_token="@ + token + "; HttpOnly; SameSite=Lax; Path=/; Max-Age="@ + decimal(
        max_age(clear, 900),
    ) + secure_suffix(secure)
}

/// The `Set-Cookie` value of the refresh-token cookie.
pub open spec fn refresh_cookie_text(token: Seq<char>, clear: bool, secure: bool) -> Seq<char> {
    "refresh_token="@ + token + "; HttpOnly; SameSite=Lax; Path=/api/v1/auth; Max-Age="@
        + decimal(max_age(clear, 604800)) + secure_suffix(secure)
}

/// The `Set-Cookie` value of the anti-forgery cookie, which scripts may read.
pub open spec fn csrf_cookie_text(token: Seq<char>, secure: bool) -> Seq<char> {
    "csrf_token="@ + token + "; SameSite=Lax; Path=/"@ + secure_suffix(secure)
}

fn append_secure(cookie: &mut String, secure: bool)
    ensures
        final(cookie)@ == old(cookie)@ + secure_suffix(secure),
{
    if secure {
        cookie.append("; Secure");
    } else {
        assert(cookie@ + Seq::<char>::empty() =~= cookie@);
    }
}

/// Builds the `Set-Cookie` value for the access token: readable by no
/// script, valid on every path, for fifteen minutes, or for no time at all
/// when `clear` is set. `secure` adds the `Secure` attribute.
pub fn build_auth_cookie(token: &str, clear: bool, secure: bool) -> (cookie: String)
    ensures
        cookie@ == auth_cookie_text(token@, clear, secure),
{
    let mut cookie = "access_token=".to_owned();
    cookie.append(token);
    cookie.append("; HttpOnly; SameSite=Lax; Path=/; Max-Age=");
    let seconds = i64_text(if clear {
        0
    } else {
        ACCESS_TOKEN_MAX_AGE_SECONDS
    });
    cookie.append(seconds.as_str());
    append_secure(&mut cookie, secure);
    cookie
}

/// Builds the `Set-Cookie` value for the refresh token: as the access
/// cookie, but sent to the authentication endpoints only and kept for seven
/// days.
pub fn build_refresh_cookie(token: &str, clear: bool, secure: bool) -> (cookie: String)
    ensures
        cookie@ == refresh_cookie_text(token@, clear, secure),
{
    let mut cookie = "refresh_token=".to_owned();
    cookie.append(token);
    cookie.append("; HttpOnly; SameSite=Lax; Path=/api/v1/auth; Max-Age=");
    let seconds = i64_text(if clear {
        0
    } else {
        REFRESH_TOKEN_MAX_AGE_SECONDS
    });
    cookie.append(seconds.as_str());
    append_secure(&mut cookie, secure);
    cookie
}

/// Builds the `Set-Cookie` value for the anti-forgery token.
pub fn build_csrf_cookie(token: &str, secure: bool) -> (cookie: String)
    ensures
        cookie@ == csrf_cookie_text(token@, secure),
{
    let mut cookie = "csrf_token=".to_owned();
    cookie.append(token);
    cookie.append("; SameSite=Lax; Path=/");
    append_secure(&mut cookie, secure);
    cookie
}

} // verus!
