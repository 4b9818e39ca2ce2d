//! The authentication endpoints: login, refresh and logout. Each decides,
//! from the request and from what the token engine returns, the status, the
//! cookies and the body of its response. Browsers get their tokens in
//! cookies that no script can read; native clients get them in the body.

use axum::http::HeaderMap;
use vstd::prelude::*;
use crate::client::{client_kind, kind_of, ClientKind};
use crate::cookies::{
    auth_cookie_text, build_auth_cookie, build_refresh_cookie, cookie_value, find_cookie,
    refresh_cookie_text,
};
use crate::decimal::parsed_decimal;
use crate::error::ApiError;
use crate::headers::{header_text, header_value};
use crate::jwt::{
    generate_access_token, generate_token_pair, is_generated_access, is_generated_pair, is_issued,
    is_validated_as, lemma_issued_token_refused_as_other_type, signed, validate_refresh_token,
    Claims, ClaimsView, TokenPair, TokenType,
};
use crate::text::{chars_of, has_prefix_at, slice_text, text_of};

verus! {

/// What the endpoints need to know of the deployment.
#[derive(Debug, Clone)]
pub struct AuthConfig {
    /// The secret that tokens are signed with.
    pub jwt_secret: String,
    /// Whether cookies are marked `Secure`.
    pub production: bool,
}

/// The body of a login request.
#[derive(Debug, Clone)]
pub struct LoginRequest {
    pub email: String,
    pub password: String,
}

/// The body of a login response. The tokens are there for native clients
/// only.
#[derive(Debug, Clone)]
pub struct LoginResponse {
    pub success: bool,
    pub message: String,
    pub access_token: Option<String>,
    pub refresh_token: Option<String>,
    pub expires_in: Option<i64>,
}

/// The body of a refresh request from a native client.
#[derive(Debug, Clone)]
pub struct RefreshRequest {
    pub refresh_token: String,
}

/// The body of a refresh response to a native client.
#[derive(Debug, Clone)]
pub struct RefreshResponse {
    pub success: bool,
    pub access_token: String,
    pub expires_in: i64,
}

/// What the credential verifier found for a login.
#[derive(Debug, Clone)]
pub enum CredentialCheck {
    /// The email and the password are those of this user.
    Verified { user_id: i64, email: String },
    /// No such user, or a wrong password: the two are not told apart.
    Rejected,
}

/// The body of a response of an authentication endpoint.
#[derive(Debug, Clone)]
pub enum AuthBody {
    Login(LoginResponse),
    Refresh(RefreshResponse),
    /// `success` and `message`.
    Notice { success: bool, message: String },
    /// `success` and `expires_in`.
    Expiry { success: bool, expires_in: i64 },
}

/// A response of an authentication endpoint.
#[derive(Debug, Clone)]
pub struct AuthReply {
    /// The HTTP status.
    pub status: u16,
    /// The values of the `Set-Cookie` headers, in order.
    pub cookies: Vec<String>,
    pub body: AuthBody,
}

/// A login body as plain values.
pub struct LoginResponseView {
    pub success: bool,
    pub message: Seq<char>,
    pub access_token: Option<Seq<char>>,
    pub refresh_token: Option<Seq<char>>,
    pub expires_in: Option<i64>,
}

/// A body as plain values.
pub enum AuthBodyView {
    Login(LoginResponseView),
    Refresh { success: bool, access_token: Seq<char>, expires_in: i64 },
    Notice { success: bool, message: Seq<char> },
    Expiry { success: bool, expires_in: i64 },
}

/// A response as plain values.
pub struct AuthReplyView {
    pub status: int,
    pub cookies: Seq<Seq<char>>,
    pub body: AuthBodyView,
}

impl View for LoginResponse {
    type V = LoginResponseView;

    open spec fn view(&self) -> LoginResponseView {
        LoginResponseView {
            success: self.success,
            message: self.message@,
            access_token: text_of(self.access_token),
            refresh_token: text_of(self.refresh_token),
            expires_in: self.expires_in,
        }
    }
}

impl View for AuthBody {
    type V = AuthBodyView;

    open spec fn view(&self) -> AuthBodyView {
        match self {
            AuthBody::Login(r) => AuthBodyView::Login(r@),
            AuthBody::Refresh(r) => AuthBodyView::Refresh {
                success: r.success,
                access_token: r.access_token@,
                expires_in: r.expires_in,
            },
            AuthBody::Notice { success, message } => AuthBodyView::Notice {
                success: *success,
                message: message@,
            },
            AuthBody::Expiry { success, expires_in } => AuthBodyView::Expiry {
                success: *success,
                expires_in: *expires_in,
            },
        }
    }
}

impl View for AuthReply {
    type V = AuthReplyView;

    open spec fn view(&self) -> AuthReplyView {
        AuthReplyView {
            status: self.status as int,
            cookies: Seq::new(self.cookies@.len(), |i: int| self.cookies@[i]@),
            body: self.body@,
        }
    }
}

/// A reply without cookies that carries `success: false` and a message.
pub open spec fn refusal(status: int, message: Seq<char>) -> AuthReplyView {
    AuthReplyView {
        status,
        cookies: Seq::empty(),
        body: AuthBodyView::Notice { success: false, message },
    }
}

/// A login reply that carries no token at all.
pub open spec fn login_failure(status: int, message: Seq<char>) -> AuthReplyView {
    AuthReplyView {
        status,
        cookies: Seq::empty(),
        body: AuthBodyView::Login(
            LoginResponseView {
                success: false,
                message,
                access_token: None,
                refresh_token: None,
                expires_in: None,
            },
        ),
    }
}

/// The reply to a login whose tokens were, or were not, issued. A native
/// client finds both tokens in the body and gets no cookie. A browser gets
/// the two cookies, and a body that holds the lifetime and no token.
pub open spec fn login_reply(kind: ClientKind, secure: bool, issued: Result<TokenPair, ApiError>) -> AuthReplyView {
    match issued {
        Err(_) => login_failure(500, "Authentication failed"@),
        Ok(pair) => match kind {
            ClientKind::Native => AuthReplyView {
                status: 200,
                cookies: Seq::empty(),
                body: AuthBodyView::Login(
                    LoginResponseView {
                        success: true,
                        message: "Login successful"@,
                        access_token: Some(pair.access_token@),
                        refresh_token: Some(pair.refresh_token@),
                        expires_in: Some(pair.expires_in),
                    },
                ),
            },
            ClientKind::Web => AuthReplyView {
                status: 200,
                cookies: seq![
                    auth_cookie_text(pair.access_token@, false, secure),
                    refresh_cookie_text(pair.refresh_token@, false, secure),
                ],
                body: AuthBodyView::Login(
                    LoginResponseView {
                        success: true,
                        message: "Login successful"@,
                        access_token: None,
                        refresh_token: None,
                        expires_in: Some(pair.expires_in),
                    },
                ),
            },
        },
    }
}

/// A browser never finds a token in the body of a login reply, and a native
/// client never gets a cookie.
pub proof fn lemma_login_tokens_travel_one_way(
    kind: ClientKind,
    secure: bool,
    issued: Result<TokenPair, ApiError>,
)
    ensures
        login_reply(kind, secure, issued).body matches AuthBodyView::Login(body) && (kind
            == ClientKind::Web ==> body.access_token is None && body.refresh_token is None),
        kind == ClientKind::Native ==> login_reply(kind, secure, issued).cookies.len() == 0,
        issued is Ok && kind == ClientKind::Web ==> login_reply(kind, secure, issued).cookies.len()
            == 2,
        issued is Ok ==> login_reply(kind, secure, issued).body->Login_0.expires_in == Some(
            issued->Ok_0.expires_in,
        ),
{
}

fn login_failure_reply(status: u16, message: &str) -> (r: AuthReply)
    ensures
        r@ == login_failure(status as int, message@),
{
    let r = AuthReply {
        status,
        cookies: Vec::new(),
        body: AuthBody::Login(
            LoginResponse {
                success: false,
                message: message.to_owned(),
                access_token: None,
                refresh_token: None,
                expires_in: None,
            },
        ),
    };
    assert(r@.cookies =~= Seq::empty());
    r
}

fn refusal_reply(status: u16, message: &str) -> (r: AuthReply)
    ensures
        r@ == refusal(status as int, message@),
{
    let r = AuthReply {
        status,
        cookies: Vec::new(),
        body: AuthBody::Notice { success: false, message: message.to_owned() },
    };
    assert(r@.cookies =~= Seq::empty());
    r
}

/// Builds the reply to a login from the client's class and from what
/// issuing the tokens returned.
pub fn login_response(kind: ClientKind, secure: bool, issued: Result<TokenPair, ApiError>) -> (r:
    AuthReply)
    ensures
        r@ == login_reply(kind, secure, issued),
{
    match issued {
        Err(_) => login_failure_reply(500, "Authentication failed"),
        Ok(pair) => match kind {
            ClientKind::Native => {
                let r = AuthReply {
                    status: 200,
                    cookies: Vec::new(),
                    body: AuthBody::Login(
                        LoginResponse {
                            success: true,
                            message: "Login successful".to_owned(),
                            access_token: Some(pair.access_token),
                            refresh_token: Some(pair.refresh_token),
                            expires_in: Some(pair.expires_in),
                        },
                    ),
                };
                assert(r@.cookies =~= Seq::empty());
                r
            },
            ClientKind::Web => {
                let mut cookies: Vec<String> = Vec::new();
                cookies.push(build_auth_cookie(pair.access_token.as_str(), false, secure));
                cookies.push(build_refresh_cookie(pair.refresh_token.as_str(), false, secure));
                let r = AuthReply {
                    status: 200,
                    cookies,
                    body: AuthBody::Login(
                        LoginResponse {
                            success: true,
                            message: "Login successful".to_owned(),
                            access_token: None,
                            refresh_token: None,
                            expires_in: Some(pair.expires_in),
                        },
                    ),
                };
                assert(r@.cookies =~= seq![
                    auth_cookie_text(pair.access_token@, false, secure),
                    refresh_cookie_text(pair.refresh_token@, false, secure),
                ]);
                r
            },
        },
    }
}

/// Whether a login request lacks its email or its password.
pub open spec fn is_incomplete(request: LoginRequest) -> bool {
    request.email@.len() == 0 || request.password@.len() == 0
}

/// Whether `r` answers a login. A request without email or password is a
/// bad request. Rejected credentials are answered with one message, whatever
/// was wrong with them. For a verified user tokens are issued, and the reply
/// is the one that `login_reply` gives for them.
pub open spec fn is_login_reply(
    r: AuthReplyView,
    secret: Seq<char>,
    secure: bool,
    kind: ClientKind,
    request: LoginRequest,
    credentials: CredentialCheck,
) -> bool {
    if is_incomplete(request) {
        r == login_failure(400, "Email and password are required"@)
    } else {
        match credentials {
            CredentialCheck::Rejected => r == login_failure(401, "Invalid email or password"@),
            CredentialCheck::Verified { user_id, email } => exists|
                issued: Result<TokenPair, ApiError>,
            |
                #[trigger] is_generated_pair(issued, secret, user_id, email@) && r == login_reply(
                    kind,
                    secure,
                    issued,
                ),
        }
    }
}

/// Answers a login request, given what the credential verifier found.
pub fn login(
    config: &AuthConfig,
    headers: &HeaderMap,
    request: &LoginRequest,
    credentials: &CredentialCheck,
) -> (r: AuthReply)
    ensures
        is_login_reply(
            r@,
            config.jwt_secret@,
            config.production,
            kind_of(header_value(*headers, "x-client-type"@)),
            *request,
            *credentials,
        ),
{
    if request.email.as_str().is_empty() || request.password.as_str().is_empty() {
        return login_failure_reply(400, "Email and password are required");
    }
    match credentials {
        CredentialCheck::Rejected => login_failure_reply(401, "Invalid email or password"),
        CredentialCheck::Verified { user_id, email } => {
            let issued = generate_token_pair(config.jwt_secret.as_str(), *user_id, email.as_str());
            let kind = client_kind(headers);
            let ghost outcome = issued;
            let r = login_response(kind, config.production, issued);
            assert(is_generated_pair(outcome, config.jwt_secret@, *user_id, email@));
            r
        },
    }
}

/// The reply to a logout: both cookies are cleared, whoever asks.
pub open spec fn logout_reply(secure: bool) -> AuthReplyView {
    AuthReplyView {
        status: 200,
        cookies: seq![
            auth_cookie_text(Seq::empty(), true, secure),
            refresh_cookie_text(Seq::empty(), true, secure),
        ],
        body: AuthBodyView::Notice { success: true, message: "Logged out successfully"@ },
    }
}

/// Answers a logout: tells the browser to drop both cookies. The tokens
/// themselves stay valid until they expire.
pub fn logout(config: &AuthConfig) -> (r: AuthReply)
    ensures
        r@ == logout_reply(config.production),
{
    let mut cookies: Vec<String> = Vec::new();
    let empty = String::new();
    cookies.push(build_auth_cookie(empty.as_str(), true, config.production));
    cookies.push(build_refresh_cookie(empty.as_str(), true, config.production));
    let r = AuthReply {
        status: 200,
        cookies,
        body: AuthBody::Notice { success: true, message: "Logged out successfully".to_owned() },
    };
    assert(r@.cookies =~= logout_reply(config.production).cookies);
    r
}

/// The refresh token in the cookies of a request.
pub open spec fn refresh_cookie_of(cookie_header: Option<Seq<char>>) -> Option<Seq<char>> {
    match cookie_header {
        Some(c) => cookie_value(c, "refresh_token"@),
        None => None,
    }
}

/// The refresh token that a request presents. A body wins over the cookie,
/// even where its token is empty; an empty token counts as none.
pub open spec fn presented_token(body: Option<RefreshRequest>, cookie_header: Option<Seq<char>>) -> Option<
    Seq<char>,
> {
    match body {
        Some(request) => if request.refresh_token@.len() == 0 {
            None
        } else {
            Some(request.refresh_token@)
        },
        None => refresh_cookie_of(cookie_header),
    }
}

/// The refresh token in the cookies of a request.
pub fn extract_refresh_token_from_cookie(headers: &HeaderMap) -> (token: Option<String>)
    ensures
        text_of(token) == refresh_cookie_of(header_value(*headers, "cookie"@)),
{
    match header_text(headers, "cookie") {
        Some(c) => find_cookie(c.as_str(), "refresh_token"),
        None => None,
    }
}

/// The refresh token that a request presents, from its body or else from
/// its cookies.
pub fn presented_refresh_token(headers: &HeaderMap, body: &Option<RefreshRequest>) -> (token:
    Option<String>)
    ensures
        text_of(token) == presented_token(*body, header_value(*headers, "cookie"@)),
{
    match body {
        Some(request) => {
            if request.refresh_token.as_str().is_empty() {
                None
            } else {
                Some(request.refresh_token.clone())
            }
        },
        None => extract_refresh_token_from_cookie(headers),
    }
}

/// The user that validated claims name, or the refusal that answers a
/// token which failed validation or names no user.
pub open spec fn subject_of(validated: Result<Claims, ApiError>) -> Result<(i64, Seq<char>), AuthReplyView> {
    match validated {
        Err(_) => Err(refusal(401, "Invalid or expired refresh token"@)),
        Ok(claims) => match parsed_decimal(claims.sub@) {
            None => Err(refusal(401, "Invalid token claims"@)),
            Some(user_id) => Ok((user_id, claims.email@)),
        },
    }
}

/// Reads the user from the outcome of validating a refresh token. Why a
/// token failed is not passed on to the client.
pub fn refresh_subject(validated: Result<Claims, ApiError>) -> (r: Result<(i64, String), AuthReply>)
    ensures
        match subject_of(validated) {
            Ok(user) => r is Ok && r->Ok_0.0 == user.0 && r->Ok_0.1@ == user.1,
            Err(reply) => r is Err && r->Err_0@ == reply,
        },
{
    match validated {
        Err(_) => Err(refusal_reply(401, "Invalid or expired refresh token")),
        Ok(claims) => match claims.user_id() {
            Err(_) => Err(refusal_reply(401, "Invalid token claims")),
            Ok(user_id) => Ok((user_id, claims.email)),
        },
    }
}

/// The reply to a refresh whose access token was, or was not, issued. Only
/// the access token is renewed: a native client finds it in the body, a
/// browser in the access cookie, and the refresh cookie is not touched.
pub open spec fn refresh_reply(kind: ClientKind, secure: bool, issued: Result<String, ApiError>) -> AuthReplyView {
    match issued {
        Err(_) => refusal(500, "Token generation failed"@),
        Ok(token) => match kind {
            ClientKind::Native => AuthReplyView {
                status: 200,
                cookies: Seq::empty(),
                body: AuthBodyView::Refresh { success: true, access_token: token@, expires_in: 900 },
            },
            ClientKind::Web => AuthReplyView {
                status: 200,
                cookies: seq![auth_cookie_text(token@, false, secure)],
                body: AuthBodyView::Expiry { success: true, expires_in: 900 },
            },
        },
    }
}

/// A refresh sets no cookie but the access cookie, and that one for a
/// browser only: the refresh cookie stays as it is.
pub proof fn lemma_refresh_renews_access_only(
    kind: ClientKind,
    secure: bool,
    issued: Result<String, ApiError>,
)
    ensures
        refresh_reply(kind, secure, issued).cookies.len() <= 1,
        refresh_reply(kind, secure, issued).cookies.len() == 1 ==> {
            &&& kind == ClientKind::Web
            &&& issued is Ok
            &&& refresh_reply(kind, secure, issued).cookies[0] == auth_cookie_text(
                issued->Ok_0@,
                false,
                secure,
            )
        },
{
}

/// Builds the reply to a refresh from the client's class and from what
/// issuing the access token returned.
pub fn refresh_response(kind: ClientKind, secure: bool, issued: Result<String, ApiError>) -> (r:
    AuthReply)
    ensures
        r@ == refresh_reply(kind, secure, issued),
{
    match issued {
        Err(_) => refusal_reply(500, "Token generation failed"),
        Ok(token) => match kind {
            ClientKind::Native => {
                let r = AuthReply {
                    status: 200,
                    cookies: Vec::new(),
                    body: AuthBody::Refresh(
                        RefreshResponse { success: true, access_token: token, expires_in: 900 },
                    ),
                };
                assert(r@.cookies =~= Seq::empty());
                r
            },
            ClientKind::Web => {
                let mut cookies: Vec<String> = Vec::new();
                cookies.push(build_auth_cookie(token.as_str(), false, secure));
                let r = AuthReply {
                    status: 200,
                    cookies,
                    body: AuthBody::Expiry { success: true, expires_in: 900 },
                };
                assert(r@.cookies =~= seq![auth_cookie_text(token@, false, secure)]);
                r
            },
        },
    }
}

/// Whether `r` is the reply that follows the outcome `validated` of the
/// validation, where `issued` is what issuing the access token returned.
pub open spec fn follows_validation(
    r: AuthReplyView,
    secret: Seq<char>,
    secure: bool,
    kind: ClientKind,
    validated: Result<Claims, ApiError>,
    issued: Result<String, ApiError>,
) -> bool {
    match subject_of(validated) {
        Err(reply) => r == reply,
        Ok(user) => is_generated_access(issued, secret, user.0, user.1) && r == refresh_reply(
            kind,
            secure,
            issued,
        ),
    }
}

/// Whether `r` answers a refresh. Without a token the request is refused.
/// Else the token is validated as a refresh token, and the reply follows
/// from the outcome: a refusal, or a new access token for the user that the
/// token names.
pub open spec fn is_refresh_reply(
    r: AuthReplyView,
    secret: Seq<char>,
    secure: bool,
    kind: ClientKind,
    presented: Option<Seq<char>>,
) -> bool {
    match presented {
        None => r == refusal(401, "Refresh token required"@),
        Some(_) => exists|validated: Result<Claims, ApiError>, issued: Result<String, ApiError>|
            {
                &&& is_validated_as(validated, secret, presented->0, TokenType::Refresh)
                &&& #[trigger] follows_validation(r, secret, secure, kind, validated, issued)
            },
    }
}

/// An access token in the place of the refresh token is refused: the
/// answer to such a refresh is the refusal for an invalid token, at any
/// time and for either class of client.
pub proof fn lemma_refresh_refuses_access_token(
    r: AuthReplyView,
    secret: Seq<char>,
    secure: bool,
    kind: ClientKind,
    token: Seq<char>,
    claims: ClaimsView,
    user_id: i64,
    email: Seq<char>,
)
    requires
        is_issued(claims, TokenType::Access, user_id, email),
        signed(secret, claims) == Some(token),
        is_refresh_reply(r, secret, secure, kind, Some(token)),
    ensures
        r == refusal(401, "Invalid or expired refresh token"@),
{
    let (validated, issued) = choose|
        validated: Result<Claims, ApiError>,
        issued: Result<String, ApiError>,
    |
        {
            &&& is_validated_as(validated, secret, token, TokenType::Refresh)
            &&& #[trigger] follows_validation(r, secret, secure, kind, validated, issued)
        };
    lemma_issued_token_refused_as_other_type(
        validated,
        secret,
        token,
        claims,
        TokenType::Access,
        TokenType::Refresh,
        user_id,
        email,
    );
}

/// Answers a refresh request.
pub fn refresh(config: &AuthConfig, headers: &HeaderMap, body: &Option<RefreshRequest>) -> (r:
    AuthReply)
    ensures
        is_refresh_reply(
            r@,
            config.jwt_secret@,
            config.production,
            kind_of(header_value(*headers, "x-client-type"@)),
            presented_token(*body, header_value(*headers, "cookie"@)),
        ),
{
    let token = match presented_refresh_token(headers, body) {
        Some(t) => t,
        None => {
            return refusal_reply(401, "Refresh token required");
        },
    };
    let validated = validate_refresh_token(config.jwt_secret.as_str(), token.as_str());
    let ghost outcome = validated;
    let ghost kind = kind_of(header_value(*headers, "x-client-type"@));
    match refresh_subject(validated) {
        Err(reply) => {
            let ghost unused: Result<String, ApiError> = arbitrary();
            assert(follows_validation(
                reply@,
                config.jwt_secret@,
                config.production,
                kind,
                outcome,
                unused,
            ));
            reply
        },
        Ok((user_id, email)) => {
            let issued = generate_access_token(config.jwt_secret.as_str(), user_id, email.as_str());
            let ghost signing = issued;
            let r = refresh_response(client_kind(headers), config.production, issued);
            assert(follows_validation(
                r@,
                config.jwt_secret@,
                config.production,
                kind,
                outcome,
                signing,
            ));
            r
        },
    }
}

/// The token after `Bearer ` in an `Authorization` header.
pub open spec fn bearer_token(authorization: Option<Seq<char>>) -> Option<Seq<char>> {
    match authorization {
        Some(a) => if "Bearer "@.is_prefix_of(a) {
            Some(a.skip("Bearer "@.len() as int))
        } else {
            None
        },
        None => None,
    }
}

/// The access token of a request: the bearer token where there is one,
/// else the access cookie.
pub open spec fn request_token(authorization: Option<Seq<char>>, cookie_header: Option<Seq<char>>) -> Option<
    Seq<char>,
> {
    match bearer_token(authorization) {
        Some(t) => Some(t),
        None => match cookie_header {
            Some(c) => cookie_value(c, "access_token"@),
            None => None,
        },
    }
}

/// A bearer token wins over the cookie.
pub proof fn lemma_bearer_wins(authorization: Option<Seq<char>>, cookie_header: Option<Seq<char>>)
    requires
        bearer_token(authorization) is Some,
    ensures
        request_token(authorization, cookie_header) == bearer_token(authorization),
{
}

/// The token after `Bearer ` in the value of an `Authorization` header.
pub fn bearer_of(authorization: &str) -> (token: Option<String>)
    ensures
        text_of(token) == bearer_token(Some(authorization@)),
{
    let a = chars_of(authorization);
    let prefix = chars_of("Bearer ");
    if prefix.len() <= a.len() && has_prefix_at(&a, 0, &prefix) {
        assert(a@.skip(prefix.len() as int) =~= a@.subrange(prefix.len() as int, a.len() as int));
        Some(slice_text(authorization, prefix.len(), a.len()))
    } else {
        None
    }
}

/// Finds the access token of a request: in the `Authorization` header of a
/// native client, or else in the cookie of a browser.
pub fn extract_token_from_request(headers: &HeaderMap) -> (token: Option<String>)
    ensures
        text_of(token) == request_token(
            header_value(*headers, "authorization"@),
            header_value(*headers, "cookie"@),
        ),
{
    if let Some(authorization) = header_text(headers, "authorization") {
        if let Some(token) = bearer_of(authorization.as_str()) {
            return Some(token);
        }
    }
    match header_text(headers, "cookie") {
        Some(c) => find_cookie(c.as_str(), "access_token"),
        None => None,
    }
}

} // verus!
