//! The token engine: claims, and the signing and validation of access and
//! refresh tokens under one shared secret.

use vstd::prelude::*;
use crate::decimal::{decimal, i64_text, lemma_parse_decimal, parse_i64, parsed_decimal};
use crate::error::{ApiError, ApiErrorKind};
use crate::text::{same_text, text_of};

verus! {

/// Minutes for which an access token is valid.
pub const ACCESS_TOKEN_DURATION_MINUTES: i64 = 15;

/// Days for which a refresh token is valid.
pub const REFRESH_TOKEN_DURATION_DAYS: i64 = 7;

/// The two uses of a token. One issued for one use is never accepted for
/// the other.
#[derive(Debug, Clone, Copy, PartialEq, Eq, Structural)]
pub enum TokenType {
    Access,
    Refresh,
}

/// The name under which a token carries its type.
pub open spec fn kind_name(kind: TokenType) -> Seq<char> {
    match kind {
        TokenType::Access => "access"@,
        TokenType::Refresh => "refresh"@,
    }
}

/// Seconds between the issue and the expiry of a token.
pub open spec fn lifetime(kind: TokenType) -> int {
    match kind {
        TokenType::Access => 900,
        TokenType::Refresh => 604800,
    }
}

/// What a signed token states.
#[derive(Debug, Clone)]
pub struct Claims {
    /// The user's id, in decimal.
    pub sub: String,
    /// The user's email address at the time of issue.
    pub email: String,
    /// `access` or `refresh`.
    pub token_type: String,
    /// Expiry, in seconds since the epoch.
    pub exp: i64,
    /// Time of issue, in seconds since the epoch.
    pub iat: i64,
    /// An identifier that no other token shares.
    pub jti: String,
}

/// The claims as plain values.
pub struct ClaimsView {
    pub sub: Seq<char>,
    pub email: Seq<char>,
    pub token_type: Seq<char>,
    pub exp: i64,
    pub iat: i64,
    pub jti: Seq<char>,
}

impl View for Claims {
    type V = ClaimsView;

    open spec fn view(&self) -> ClaimsView {
        ClaimsView {
            sub: self.sub@,
            email: self.email@,
            token_type: self.token_type@,
            exp: self.exp,
            iat: self.iat,
            jti: self.jti@,
        }
    }
}

/// The claims of a token of the given type, issued to a user at a time.
pub open spec fn issued_claims(
    kind: TokenType,
    user_id: i64,
    email: Seq<char>,
    issued_at: i64,
    token_id: Seq<char>,
) -> ClaimsView {
    ClaimsView {
        sub: decimal(user_id as int),
        email,
        token_type: kind_name(kind),
        exp: (issued_at + lifetime(kind)) as i64,
        iat: issued_at,
        jti: token_id,
    }
}

/// Whether `claims` are those of a token of the given type for a user: the
/// subject, the email and the type are the user's, and the token expires
/// one lifetime after its issue.
pub open spec fn is_issued(claims: ClaimsView, kind: TokenType, user_id: i64, email: Seq<char>) -> bool {
    &&& claims.sub == decimal(user_id as int)
    &&& claims.email == email
    &&& claims.token_type == kind_name(kind)
    &&& claims.exp == claims.iat + lifetime(kind)
}

/// Whether claims are accepted where a token of type `required` is asked
/// for.
pub open spec fn accepts(required: TokenType, claims: ClaimsView) -> bool {
    claims.token_type == kind_name(required)
}

/// A JSON value of `serde_json`. Opaque here: its members are read through
/// `json_text` and `json_int`.
#[verifier::external_type_specification]
#[verifier::external_body]
pub struct ExJsonValue(serde_json::Value);

/// The error of `jsonwebtoken`. Opaque here: `failure_of` tells its kinds
/// apart.
#[verifier::external_type_specification]
#[verifier::external_body]
pub struct ExTokenError(jsonwebtoken::errors::Error);

/// The token that signing the given claims under `secret` yields, with
/// HS256 and the default header; `None` where signing fails.
pub uninterp spec fn signed_token(
    secret: Seq<char>,
    sub: Seq<char>,
    email: Seq<char>,
    token_type: Seq<char>,
    exp: i64,
    iat: i64,
    jti: Seq<char>,
) -> Option<Seq<char>>;

/// The token for a set of claims.
pub open spec fn signed(secret: Seq<char>, claims: ClaimsView) -> Option<Seq<char>> {
    signed_token(
        secret,
        claims.sub,
        claims.email,
        claims.token_type,
        claims.exp,
        claims.iat,
        claims.jti,
    )
}

/// The members of a JSON object that are strings, by their names.
pub uninterp spec fn json_texts(value: serde_json::Value) -> Map<Seq<char>, Seq<char>>;

/// The members of a JSON object that are integers of 64 bits, by their
/// names.
pub uninterp spec fn json_ints(value: serde_json::Value) -> Map<Seq<char>, i64>;

/// Why a token was turned down.
#[derive(Debug, Clone, Copy, PartialEq, Eq, Structural)]
pub enum TokenFailure {
    /// The token is past its expiry.
    Expired,
    /// The text is no token.
    Malformed,
    /// Anything else: a wrong signature, a wrong algorithm, unreadable
    /// claims.
    Rejected,
}

/// Calls `Utc::now` and `DateTime::timestamp`. Trusted: the result is less
/// than 2^48 in magnitude, as the seconds of a date whose day number has 32
/// bits are.
#[verifier::external_body]
fn current_timestamp() -> (now: i64)
    ensures
        -281474976710656 < now < 281474976710656,
{
    chrono::Utc::now().timestamp()
}

/// Calls `Uuid::new_v4` and writes the identifier as text. Trusted: nothing
/// is claimed of the result.
#[verifier::external_body]
fn fresh_token_id() -> (id: String) {
    uuid::Uuid::new_v4().to_string()
}

/// Calls `jsonwebtoken::encode` with the default header on a JSON object of
/// the six claims, under the names `sub`, `email`, `token_type`, `exp`, `iat`
/// and `jti`. Trusted: the outcome depends on the secret and the claims alone.
#[verifier::external_body]
fn sign_claims(secret: &str, claims: &Claims) -> (r: Result<String, jsonwebtoken::errors::Error>)
    ensures
        match signed_token(
            secret@,
            claims.sub@,
            claims.email@,
            claims.token_type@,
            claims.exp,
            claims.iat,
            claims.jti@,
        ) {
            Some(token) => r is Ok && r->Ok_0@ == token,
            None => r is Err,
        },
{
    let payload = serde_json::Map::from_iter([
        ("sub".to_owned(), claims.sub.as_str().into()),
        ("email".to_owned(), claims.email.as_str().into()),
        ("token_type".to_owned(), claims.token_type.as_str().into()),
        ("exp".to_owned(), claims.exp.into()),
        ("iat".to_owned(), claims.iat.into()),
        ("jti".to_owned(), claims.jti.as_str().into()),
    ]);
    let key = jsonwebtoken::EncodingKey::from_secret(secret.as_bytes());
    jsonwebtoken::encode(&jsonwebtoken::Header::default(), &payload, &key)
}

/// Calls `jsonwebtoken::decode` with the default validation: HS256, a
/// required expiry that is held against the clock. Trusted: whether the
/// token passes depends on the time of the call, and nothing is claimed of
/// it; a payload that comes back for a token which was signed for some
/// claims states those claims.
#[verifier::external_body]
fn decode_payload(secret: &str, token: &str) -> (r: Result<
    serde_json::Value,
    jsonwebtoken::errors::Error,
>)
    ensures
        r matches Ok(payload) ==> forall|
            sub: Seq<char>,
            email: Seq<char>,
            token_type: Seq<char>,
            exp: i64,
            iat: i64,
            jti: Seq<char>,
        |
            #[trigger] signed_token(secret@, sub, email, token_type, exp, iat, jti) == Some(token@)
                ==> payload_claims(json_texts(payload), json_ints(payload)) == Some(
                ClaimsView { sub, email, token_type, exp, iat, jti },
            ),
{
    let key = jsonwebtoken::DecodingKey::from_secret(secret.as_bytes());
    jsonwebtoken::decode::<serde_json::Value>(token, &key, &jsonwebtoken::Validation::default())
        .map(|data| data.claims)
}

/// Calls `Value::get` and `Value::as_str`. Trusted: the result is the member
/// `name` where the value is an object that has it as a string.
#[verifier::external_body]
fn json_text(value: &serde_json::Value, name: &str) -> (r: Option<String>)
    ensures
        text_of(r) == (if json_texts(*value).contains_key(name@) {
            Some(json_texts(*value)[name@])
        } else {
            None
        }),
{
    value.get(name).and_then(|member| member.as_str()).map(String::from)
}

/// Calls `Value::get` and `Value::as_i64`. Trusted: the result is the member
/// `name` where the value is an object that has it as an integer that fits.
#[verifier::external_body]
fn json_int(value: &serde_json::Value, name: &str) -> (r: Option<i64>)
    ensures
        r == (if json_ints(*value).contains_key(name@) {
            Some(json_ints(*value)[name@])
        } else {
            None
        }),
{
    value.get(name).and_then(|member| member.as_i64())
}

/// Calls `Error::kind`. Trusted: the three cases are told apart by the
/// error's kind, and nothing is claimed of which one comes.
#[verifier::external_body]
fn failure_of(error: &jsonwebtoken::errors::Error) -> (failure: TokenFailure) {
    match error.kind() {
        jsonwebtoken::errors::ErrorKind::ExpiredSignature => TokenFailure::Expired,
        jsonwebtoken::errors::ErrorKind::InvalidToken => TokenFailure::Malformed,
        _ => TokenFailure::Rejected,
    }
}

impl TokenType {
    /// The name under which a token carries this type.
    pub fn name(&self) -> (r: &'static str)
        ensures
            r@ == kind_name(*self),
    {
        match self {
            TokenType::Access => "access",
            TokenType::Refresh => "refresh",
        }
    }

    /// Seconds between the issue and the expiry of a token of this type.
    pub fn lifetime_seconds(&self) -> (r: i64)
        ensures
            r == lifetime(*self),
    {
        match self {
            TokenType::Access => ACCESS_TOKEN_DURATION_MINUTES * 60,
            TokenType::Refresh => REFRESH_TOKEN_DURATION_DAYS * 86400,
        }
    }
}

impl Claims {
    /// The claims of a token of type `kind` for a user, issued at
    /// `issued_at` under the identifier `token_id`.
    pub fn issued(kind: TokenType, user_id: i64, email: &str, issued_at: i64, token_id: String) -> (claims:
        Claims)
        requires
            issued_at + lifetime(kind) <= i64::MAX,
        ensures
            claims@ == issued_claims(kind, user_id, email@, issued_at, token_id@),
            is_issued(claims@, kind, user_id, email@),
    {
        Claims {
            sub: i64_text(user_id),
            email: email.to_owned(),
            token_type: kind.name().to_owned(),
            exp: issued_at + kind.lifetime_seconds(),
            iat: issued_at,
            jti: token_id,
        }
    }

    /// Claims for a new access token: issued now, valid for fifteen minutes,
    /// under a fresh identifier.
    pub fn new_access(user_id: i64, email: &str) -> (claims: Claims)
        ensures
            is_issued(claims@, TokenType::Access, user_id, email@),
    {
        Claims::issued(TokenType::Access, user_id, email, current_timestamp(), fresh_token_id())
    }

    /// Claims for a new refresh token: issued now, valid for seven days,
    /// under a fresh identifier.
    pub fn new_refresh(user_id: i64, email: &str) -> (claims: Claims)
        ensures
            is_issued(claims@, TokenType::Refresh, user_id, email@),
    {
        Claims::issued(TokenType::Refresh, user_id, email, current_timestamp(), fresh_token_id())
    }

    /// The user's id, read from the subject.
    pub fn user_id(&self) -> (r: Result<i64, ApiError>)
        ensures
            match parsed_decimal(self.sub@) {
                Some(id) => r == Ok::<i64, ApiError>(id),
                None => r is Err && r->Err_0.has(
                    ApiErrorKind::Unauthorized,
                    "Invalid token subject"@,
                ),
            },
    {
        match parse_i64(self.sub.as_str()) {
            Some(id) => Ok(id),
            None => Err(ApiError::Unauthorized("Invalid token subject".to_owned())),
        }
    }

    /// Whether these are the claims of an access token.
    pub fn is_access_token(&self) -> (r: bool)
        ensures
            r == accepts(TokenType::Access, self@),
    {
        same_text(self.token_type.as_str(), "access")
    }

    /// Whether these are the claims of a refresh token.
    pub fn is_refresh_token(&self) -> (r: bool)
        ensures
            r == accepts(TokenType::Refresh, self@),
    {
        same_text(self.token_type.as_str(), "refresh")
    }

    /// Whether these are the claims of a token of the given type.
    pub fn has_type(&self, kind: TokenType) -> (r: bool)
        ensures
            r == accepts(kind, self@),
    {
        same_text(self.token_type.as_str(), kind.name())
    }
}

/// What issuing tokens at login returns.
#[derive(Debug, Clone)]
pub struct TokenPair {
    pub access_token: String,
    pub refresh_token: String,
    /// Seconds until the access token expires.
    pub expires_in: i64,
}

/// Whether `r` is what signing gives for a token that came out as `token`:
/// the token itself, or the one failure that clients are told of.
pub open spec fn is_signing_result(r: Result<String, ApiError>, token: Option<Seq<char>>) -> bool {
    match token {
        Some(t) => r is Ok && r->Ok_0@ == t,
        None => r is Err && r->Err_0.has(ApiErrorKind::InternalError, "Token generation failed"@),
    }
}

/// Signs claims under the secret.
pub fn sign(secret: &str, claims: &Claims) -> (r: Result<String, ApiError>)
    ensures
        is_signing_result(r, signed(secret@, claims@)),
{
    match sign_claims(secret, claims) {
        Ok(token) => Ok(token),
        Err(_) => Err(ApiError::InternalError("Token generation failed".to_owned())),
    }
}

/// Whether `r` is what issuing a pair gives when the access claims `access`
/// and the refresh claims `refresh` are signed under `secret`.
pub open spec fn is_pair_result(
    r: Result<TokenPair, ApiError>,
    secret: Seq<char>,
    access: ClaimsView,
    refresh: ClaimsView,
) -> bool {
    match (signed(secret, access), signed(secret, refresh)) {
        (Some(a), Some(f)) => {
            &&& r is Ok
            &&& r->Ok_0.access_token@ == a
            &&& r->Ok_0.refresh_token@ == f
            &&& r->Ok_0.expires_in == 900
        },
        _ => r is Err && r->Err_0.has(ApiErrorKind::InternalError, "Token generation failed"@),
    }
}

/// Signs a pair of claims: the access token first, and the refresh token
/// only once that has succeeded.
pub fn sign_pair(secret: &str, access: &Claims, refresh: &Claims) -> (r: Result<
    TokenPair,
    ApiError,
>)
    ensures
        is_pair_result(r, secret@, access@, refresh@),
{
    let access_token = match sign(secret, access) {
        Ok(token) => token,
        Err(e) => {
            return Err(e);
        },
    };
    let refresh_token = match sign(secret, refresh) {
        Ok(token) => token,
        Err(e) => {
            return Err(e);
        },
    };
    Ok(TokenPair { access_token, refresh_token, expires_in: ACCESS_TOKEN_DURATION_MINUTES * 60 })
}

/// Whether `r` is what issuing a pair for a user gives: for some access
/// claims and some refresh claims of that user, the pair of their tokens,
/// or the failure to sign them.
pub open spec fn is_generated_pair(
    r: Result<TokenPair, ApiError>,
    secret: Seq<char>,
    user_id: i64,
    email: Seq<char>,
) -> bool {
    exists|access: ClaimsView, refresh: ClaimsView|
        {
            &&& #[trigger] is_issued(access, TokenType::Access, user_id, email)
            &&& #[trigger] is_issued(refresh, TokenType::Refresh, user_id, email)
            &&& is_pair_result(r, secret, access, refresh)
        }
}

/// Whether `r` is what issuing an access token for a user gives: for some
/// access claims of that user, their token, or the failure to sign them.
pub open spec fn is_generated_access(
    r: Result<String, ApiError>,
    secret: Seq<char>,
    user_id: i64,
    email: Seq<char>,
) -> bool {
    exists|access: ClaimsView|
        {
            &&& #[trigger] is_issued(access, TokenType::Access, user_id, email)
            &&& is_signing_result(r, signed(secret, access))
        }
}

/// Issues an access and a refresh token for a user. Both carry the user's
/// id and email; the access token lives fifteen minutes, the refresh token
/// seven days, and the pair says the first of these in seconds.
pub fn generate_token_pair(secret: &str, user_id: i64, email: &str) -> (r: Result<
    TokenPair,
    ApiError,
>)
    ensures
        is_generated_pair(r, secret@, user_id, email@),
{
    let access = Claims::new_access(user_id, email);
    let refresh = Claims::new_refresh(user_id, email);
    let r = sign_pair(secret, &access, &refresh);
    proof {
        assert(is_issued(access@, TokenType::Access, user_id, email@));
        assert(is_issued(refresh@, TokenType::Refresh, user_id, email@));
        assert(is_pair_result(r, secret@, access@, refresh@));
    }
    r
}

/// Issues an access token alone, as a refresh does: the refresh token that
/// was presented stays as it is.
pub fn generate_access_token(secret: &str, user_id: i64, email: &str) -> (r: Result<
    String,
    ApiError,
>)
    ensures
        is_generated_access(r, secret@, user_id, email@),
{
    let access = Claims::new_access(user_id, email);
    let r = sign(secret, &access);
    proof {
        assert(is_issued(access@, TokenType::Access, user_id, email@));
    }
    r
}

/// What a client is told of each failure.
pub open spec fn failure_message(failure: TokenFailure) -> Seq<char> {
    match failure {
        TokenFailure::Expired => "Token expired"@,
        TokenFailure::Malformed => "Invalid token"@,
        TokenFailure::Rejected => "Token validation failed"@,
    }
}

/// The error that stands for a failure.
pub fn token_error(failure: TokenFailure) -> (e: ApiError)
    ensures
        e.has(ApiErrorKind::Unauthorized, failure_message(failure)),
{
    match failure {
        TokenFailure::Expired => ApiError::Unauthorized("Token expired".to_owned()),
        TokenFailure::Malformed => ApiError::Unauthorized("Invalid token".to_owned()),
        TokenFailure::Rejected => ApiError::Unauthorized("Token validation failed".to_owned()),
    }
}

/// The text under `name`, if the members have it.
pub open spec fn member<T>(members: Map<Seq<char>, T>, name: Seq<char>) -> Option<T> {
    if members.contains_key(name) {
        Some(members[name])
    } else {
        None
    }
}

/// The claims that a payload states: all six members must be there, each
/// of its type.
pub open spec fn payload_claims(texts: Map<Seq<char>, Seq<char>>, ints: Map<Seq<char>, i64>) -> Option<
    ClaimsView,
> {
    if texts.contains_key("sub"@) && texts.contains_key("email"@) && texts.contains_key(
        "token_type"@,
    ) && ints.contains_key("exp"@) && ints.contains_key("iat"@) && texts.contains_key("jti"@) {
        Some(
            ClaimsView {
                sub: texts["sub"@],
                email: texts["email"@],
                token_type: texts["token_type"@],
                exp: ints["exp"@],
                iat: ints["iat"@],
                jti: texts["jti"@],
            },
        )
    } else {
        None
    }
}

/// The view of optional claims.
pub open spec fn claims_of(claims: Option<Claims>) -> Option<ClaimsView> {
    match claims {
        Some(c) => Some(c@),
        None => None,
    }
}

/// Reads the claims from the payload of a token whose signature and expiry
/// have been checked. A payload that lacks a claim gives `None`.
pub fn claims_from_payload(payload: &serde_json::Value) -> (claims: Option<Claims>)
    ensures
        claims_of(claims) == payload_claims(json_texts(*payload), json_ints(*payload)),
{
    let sub = match json_text(payload, "sub") {
        Some(v) => v,
        None => {
            return None;
        },
    };
    let email = match json_text(payload, "email") {
        Some(v) => v,
        None => {
            return None;
        },
    };
    let token_type = match json_text(payload, "token_type") {
        Some(v) => v,
        None => {
            return None;
        },
    };
    let exp = match json_int(payload, "exp") {
        Some(v) => v,
        None => {
            return None;
        },
    };
    let iat = match json_int(payload, "iat") {
        Some(v) => v,
        None => {
            return None;
        },
    };
    let jti = match json_text(payload, "jti") {
        Some(v) => v,
        None => {
            return None;
        },
    };
    Some(Claims { sub, email, token_type, exp, iat, jti })
}

/// Whether `e` is one of the answers to a token that fails validation.
pub open spec fn is_validation_error(e: ApiError) -> bool {
    e.kind_spec() == ApiErrorKind::Unauthorized && exists|failure: TokenFailure|
        e.message() == #[trigger] failure_message(failure)
}

/// Whether `claims` are what a token states: whatever claims the token was
/// signed for under the secret, they are these.
pub open spec fn reads_signed(claims: ClaimsView, secret: Seq<char>, token: Seq<char>) -> bool {
    forall|signed_for: ClaimsView| #[trigger]
        signed(secret, signed_for) == Some(token) ==> claims == signed_for
}

/// Whether `r` is what validation returns once the signature and the
/// expiry have been looked at: a failure there is passed on in words, and a
/// payload gives its claims, or a rejection where it lacks one.
pub open spec fn is_validation_result(
    r: Result<Claims, ApiError>,
    decoded: Result<serde_json::Value, TokenFailure>,
) -> bool {
    match decoded {
        Err(failure) => r is Err && r->Err_0.has(
            ApiErrorKind::Unauthorized,
            failure_message(failure),
        ),
        Ok(payload) => match payload_claims(json_texts(payload), json_ints(payload)) {
            Some(claims) => r is Ok && r->Ok_0@ == claims,
            None => r is Err && r->Err_0.has(
                ApiErrorKind::Unauthorized,
                failure_message(TokenFailure::Rejected),
            ),
        },
    }
}

/// Turns what the check of signature and expiry gave into the outcome of the
/// validation. Claims are read from a payload that passed, and from no
/// other.
pub fn validated(decoded: Result<serde_json::Value, TokenFailure>) -> (r: Result<Claims, ApiError>)
    ensures
        is_validation_result(r, decoded),
{
    match decoded {
        Err(failure) => Err(token_error(failure)),
        Ok(payload) => match claims_from_payload(&payload) {
            Some(claims) => Ok(claims),
            None => Err(token_error(TokenFailure::Rejected)),
        },
    }
}

/// Validates a token: the signature must be made with the secret and the
/// expiry must not have passed, and only then are the claims read. Any
/// defect is a rejection.
pub fn validate_token(secret: &str, token: &str) -> (r: Result<Claims, ApiError>)
    ensures
        r is Ok ==> reads_signed(r->Ok_0@, secret@, token@),
        r is Err ==> is_validation_error(r->Err_0),
{
    let decoded = match decode_payload(secret, token) {
        Ok(payload) => Ok(payload),
        Err(e) => Err(failure_of(&e)),
    };
    let ghost outcome = decoded;
    let r = validated(decoded);
    proof {
        if r is Err {
            let failure = match outcome {
                Err(f) => f,
                Ok(_) => TokenFailure::Rejected,
            };
            assert(r->Err_0.message() == failure_message(failure));
        }
    }
    r
}

/// Whether `r` is what the type check makes of validated claims: the claims
/// themselves where they are of the required type, else the one error for a
/// token of the wrong type.
pub open spec fn is_type_checked(r: Result<Claims, ApiError>, claims: Claims, required: TokenType) -> bool {
    if accepts(required, claims@) {
        r == Ok::<Claims, ApiError>(claims)
    } else {
        r is Err && r->Err_0.has(ApiErrorKind::Unauthorized, "Invalid token type"@)
    }
}

/// Accepts validated claims only where they are of the required type.
pub fn require_type(claims: Claims, required: TokenType) -> (r: Result<Claims, ApiError>)
    ensures
        is_type_checked(r, claims, required),
{
    if claims.has_type(required) {
        Ok(claims)
    } else {
        Err(ApiError::Unauthorized("Invalid token type".to_owned()))
    }
}

/// Whether `r` is what the type check makes of the outcome of a validation:
/// a failed validation stays as it is, and the claims of a valid token are
/// held to the required type.
pub open spec fn is_checked_as(
    r: Result<Claims, ApiError>,
    validated: Result<Claims, ApiError>,
    required: TokenType,
) -> bool {
    match validated {
        Ok(claims) => is_type_checked(r, claims, required),
        Err(e) => r == Err::<Claims, ApiError>(e),
    }
}

/// Holds the outcome of a validation to a token type. The type is looked at
/// only in claims whose token has passed validation.
pub fn checked_as(validated: Result<Claims, ApiError>, required: TokenType) -> (r: Result<
    Claims,
    ApiError,
>)
    ensures
        is_checked_as(r, validated, required),
{
    match validated {
        Ok(claims) => require_type(claims, required),
        Err(e) => Err(e),
    }
}

/// Whether `e` is one of the answers to a token that is not accepted as one
/// of a given type.
pub open spec fn is_rejection(e: ApiError) -> bool {
    is_validation_error(e) || e.has(ApiErrorKind::Unauthorized, "Invalid token type"@)
}

/// Whether `r` is an outcome of validating `token` as one of the required
/// type: claims of that type that the token states, or a rejection.
pub open spec fn is_validated_as(
    r: Result<Claims, ApiError>,
    secret: Seq<char>,
    token: Seq<char>,
    required: TokenType,
) -> bool {
    match r {
        Ok(claims) => accepts(required, claims@) && reads_signed(claims@, secret, token),
        Err(e) => is_rejection(e),
    }
}

/// Validates a token and accepts it only as one of the required type.
pub fn validate_as(secret: &str, token: &str, required: TokenType) -> (r: Result<
    Claims,
    ApiError,
>)
    ensures
        is_validated_as(r, secret@, token@, required),
{
    checked_as(validate_token(secret, token), required)
}

/// Validates a token and accepts it only as an access token.
pub fn validate_access_token(secret: &str, token: &str) -> (r: Result<Claims, ApiError>)
    ensures
        is_validated_as(r, secret@, token@, TokenType::Access),
{
    validate_as(secret, token, TokenType::Access)
}

/// Validates a token and accepts it only as a refresh token.
pub fn validate_refresh_token(secret: &str, token: &str) -> (r: Result<Claims, ApiError>)
    ensures
        is_validated_as(r, secret@, token@, TokenType::Refresh),
{
    validate_as(secret, token, TokenType::Refresh)
}

/// The two token types have different names.
pub proof fn lemma_type_names_differ()
    ensures
        kind_name(TokenType::Access) != kind_name(TokenType::Refresh),
{
    reveal_strlit("access");
    reveal_strlit("refresh");
    assert("access"@.len() != "refresh"@.len());
}

/// Claims issued for one token type are accepted as that type and as no
/// other: an access token never passes for a refresh token, nor a refresh
/// token for an access token.
pub proof fn lemma_issued_claims_accepted_as_own_type_only(
    claims: ClaimsView,
    kind: TokenType,
    required: TokenType,
    user_id: i64,
    email: Seq<char>,
)
    requires
        is_issued(claims, kind, user_id, email),
    ensures
        accepts(required, claims) <==> kind == required,
{
    lemma_type_names_differ();
}

/// No claims are accepted both as an access and as a refresh token.
pub proof fn lemma_never_accepted_as_both(claims: ClaimsView)
    ensures
        !(accepts(TokenType::Access, claims) && accepts(TokenType::Refresh, claims)),
{
    lemma_type_names_differ();
}

/// A token that was issued for one type is refused as the other, at any
/// time: whatever validating it as the other type returns, it is an error.
pub proof fn lemma_issued_token_refused_as_other_type(
    r: Result<Claims, ApiError>,
    secret: Seq<char>,
    token: Seq<char>,
    claims: ClaimsView,
    kind: TokenType,
    required: TokenType,
    user_id: i64,
    email: Seq<char>,
)
    requires
        is_issued(claims, kind, user_id, email),
        signed(secret, claims) == Some(token),
        is_validated_as(r, secret, token, required),
        kind != required,
    ensures
        r is Err,
{
    lemma_type_names_differ();
}

/// Neither token of an issued pair passes for the other: whatever validating
/// the access token as a refresh token returns, and the refresh token as an
/// access token, it is an error.
pub proof fn lemma_pair_tokens_refused_as_other_type(
    pair: Result<TokenPair, ApiError>,
    secret: Seq<char>,
    user_id: i64,
    email: Seq<char>,
    access_as_refresh: Result<Claims, ApiError>,
    refresh_as_access: Result<Claims, ApiError>,
)
    requires
        is_generated_pair(pair, secret, user_id, email),
        pair is Ok,
        is_validated_as(access_as_refresh, secret, pair->Ok_0.access_token@, TokenType::Refresh),
        is_validated_as(refresh_as_access, secret, pair->Ok_0.refresh_token@, TokenType::Access),
    ensures
        access_as_refresh is Err,
        refresh_as_access is Err,
{
    let (access, refresh) = choose|access: ClaimsView, refresh: ClaimsView|
        {
            &&& #[trigger] is_issued(access, TokenType::Access, user_id, email)
            &&& #[trigger] is_issued(refresh, TokenType::Refresh, user_id, email)
            &&& is_pair_result(pair, secret, access, refresh)
        };
    lemma_issued_token_refused_as_other_type(
        access_as_refresh,
        secret,
        pair->Ok_0.access_token@,
        access,
        TokenType::Access,
        TokenType::Refresh,
        user_id,
        email,
    );
    lemma_issued_token_refused_as_other_type(
        refresh_as_access,
        secret,
        pair->Ok_0.refresh_token@,
        refresh,
        TokenType::Refresh,
        TokenType::Access,
        user_id,
        email,
    );
}

/// A token that was issued for one type and passes validation as that type
/// yields the claims it was issued with.
pub proof fn lemma_issued_token_yields_its_claims(
    r: Result<Claims, ApiError>,
    secret: Seq<char>,
    token: Seq<char>,
    claims: ClaimsView,
    kind: TokenType,
    user_id: i64,
    email: Seq<char>,
)
    requires
        is_issued(claims, kind, user_id, email),
        signed(secret, claims) == Some(token),
        is_validated_as(r, secret, token, kind),
        r is Ok,
    ensures
        r->Ok_0@ == claims,
        parsed_decimal(r->Ok_0@.sub) == Some(user_id),
{
    lemma_parse_decimal(user_id);
}

/// A token expires after it was issued.
pub proof fn lemma_issued_claims_expire_later(
    claims: ClaimsView,
    kind: TokenType,
    user_id: i64,
    email: Seq<char>,
)
    requires
        is_issued(claims, kind, user_id, email),
    ensures
        claims.exp > claims.iat,
{
}

} // verus!
