use axum::http::{header, HeaderMap, HeaderValue};
use backend::auth::{
    bearer_of, extract_refresh_token_from_cookie, extract_token_from_request, login,
    login_response, logout, presented_refresh_token, refresh, refresh_response, refresh_subject,
    AuthBody, AuthConfig, CredentialCheck, LoginRequest, RefreshRequest,
};
use backend::client::{client_kind, is_native_value, ClientKind};
use backend::error::ApiError;
use backend::jwt::{generate_token_pair, validate_access_token, validate_refresh_token, Claims, TokenPair, TokenType};

fn config() -> AuthConfig {
    AuthConfig {
        jwt_secret: "DEVELOPMENT_ONLY_SECRET_CHANGE_IN_PRODUCTION_32bytes".to_string(),
        production: false,
    }
}

fn request() -> LoginRequest {
    LoginRequest { email: "a@b.com".to_string(), password: "Secure123".to_string() }
}

fn verified() -> CredentialCheck {
    CredentialCheck::Verified { user_id: 1, email: "a@b.com".to_string() }
}

fn native_headers() -> HeaderMap {
    let mut headers = HeaderMap::new();
    headers.insert("x-client-type", HeaderValue::from_static("native"));
    headers
}

#[test]
fn test_extract_token_from_bearer_header() {
    let mut headers = axum::http::HeaderMap::new();
    headers.insert(
        header::AUTHORIZATION,
        HeaderValue::from_static("Bearer my_secret_token"),
    );
    let token = extract_token_from_request(&headers);
    assert_eq!(token, Some("my_secret_token".to_string()));
}

#[test]
fn test_extract_token_from_cookie() {
    let mut headers = axum::http::HeaderMap::new();
    headers.insert(
        header::COOKIE,
        HeaderValue::from_static("access_token=cookie_token; other=value"),
    );
    let token = extract_token_from_request(&headers);
    assert_eq!(token, Some("cookie_token".to_string()));
}

#[test]
fn test_bearer_header_takes_priority_over_cookie() {
    let mut headers = axum::http::HeaderMap::new();
    headers.insert(
        header::AUTHORIZATION,
        HeaderValue::from_static("Bearer header_token"),
    );
    headers.insert(
        header::COOKIE,
        HeaderValue::from_static("access_token=cookie_token"),
    );
    let token = extract_token_from_request(&headers);
    // Bearer header should take priority (for native clients)
    assert_eq!(token, Some("header_token".to_string()));
}

#[test]
fn extract_token_edge_cases() {
    assert_eq!(extract_token_from_request(&HeaderMap::new()), None);
    let mut basic = HeaderMap::new();
    basic.insert(header::AUTHORIZATION, HeaderValue::from_static("Basic abc"));
    basic.insert(header::COOKIE, HeaderValue::from_static("access_token=cookie_token"));
    assert_eq!(extract_token_from_request(&basic), Some("cookie_token".to_string()));
    let mut empty_bearer = HeaderMap::new();
    empty_bearer.insert(header::AUTHORIZATION, HeaderValue::from_static("Bearer "));
    empty_bearer.insert(header::COOKIE, HeaderValue::from_static("access_token=cookie_token"));
    assert_eq!(extract_token_from_request(&empty_bearer), Some("".to_string()));
    let mut lower = HeaderMap::new();
    lower.insert(header::AUTHORIZATION, HeaderValue::from_static("bearer abc"));
    assert_eq!(extract_token_from_request(&lower), None);
    let mut unreadable = HeaderMap::new();
    unreadable.insert(header::AUTHORIZATION, HeaderValue::from_bytes(b"Bearer \xff").unwrap());
    unreadable.insert(header::COOKIE, HeaderValue::from_static("access_token=cookie_token"));
    assert_eq!(extract_token_from_request(&unreadable), Some("cookie_token".to_string()));
}

#[test]
fn bearer_prefix() {
    assert_eq!(bearer_of("Bearer abc"), Some("abc".to_string()));
    assert_eq!(bearer_of("Bearer  abc"), Some(" abc".to_string()));
    assert_eq!(bearer_of("Bearer"), None);
    assert_eq!(bearer_of(""), None);
    assert_eq!(bearer_of("Token abc"), None);
}

#[test]
fn client_type_detection() {
    assert!(is_native_value("native"));
    assert!(is_native_value("NATIVE"));
    assert!(is_native_value("Native"));
    assert!(!is_native_value("web"));
    assert!(!is_native_value(""));
    assert!(!is_native_value("native "));
    assert!(!is_native_value("nativ"));
    assert_eq!(client_kind(&native_headers()), ClientKind::Native);
    assert_eq!(client_kind(&HeaderMap::new()), ClientKind::Web);
    let mut mixed = HeaderMap::new();
    mixed.insert("X-Client-Type", HeaderValue::from_static("NaTiVe"));
    assert_eq!(client_kind(&mixed), ClientKind::Native);
    let mut web = HeaderMap::new();
    web.insert("x-client-type", HeaderValue::from_static("browser"));
    assert_eq!(client_kind(&web), ClientKind::Web);
}

#[test]
fn web_login_sets_cookies_and_keeps_tokens_out_of_the_body() {
    let reply = login(&config(), &HeaderMap::new(), &request(), &verified());
    assert_eq!(reply.status, 200);
    assert_eq!(reply.cookies.len(), 2);
    assert!(reply.cookies[0].starts_with("access_token="));
    assert!(reply.cookies[1].starts_with("refresh_token="));
    assert!(reply.cookies[0].ends_with("; HttpOnly; SameSite=Lax; Path=/; Max-Age=900"));
    assert!(reply.cookies[1].ends_with("; HttpOnly; SameSite=Lax; Path=/api/v1/auth; Max-Age=604800"));
    match reply.body {
        AuthBody::Login(body) => {
            assert!(body.success);
            assert_eq!(body.message, "Login successful");
            assert_eq!(body.access_token, None);
            assert_eq!(body.refresh_token, None);
            assert_eq!(body.expires_in, Some(900));
        }
        _ => panic!("a login body is expected"),
    }
}

#[test]
fn web_login_cookies_carry_valid_tokens() {
    let reply = login(&config(), &HeaderMap::new(), &request(), &verified());
    let access = reply.cookies[0].strip_prefix("access_token=").unwrap().split(';').next().unwrap().to_string();
    let refresh_token = reply.cookies[1].strip_prefix("refresh_token=").unwrap().split(';').next().unwrap().to_string();
    let claims = validate_access_token(&config().jwt_secret, &access).unwrap();
    assert_eq!(claims.sub, "1");
    assert_eq!(claims.email, "a@b.com");
    assert!(validate_refresh_token(&config().jwt_secret, &refresh_token).is_ok());
}

#[test]
fn native_login_returns_tokens_in_the_body() {
    let reply = login(&config(), &native_headers(), &request(), &verified());
    assert_eq!(reply.status, 200);
    assert!(reply.cookies.is_empty());
    match reply.body {
        AuthBody::Login(body) => {
            assert!(body.success);
            assert!(!body.access_token.clone().unwrap().is_empty());
            assert!(!body.refresh_token.clone().unwrap().is_empty());
            assert_eq!(body.expires_in, Some(900));
            assert!(validate_access_token(&config().jwt_secret, &body.access_token.unwrap()).is_ok());
        }
        _ => panic!("a login body is expected"),
    }
}

#[test]
fn production_login_cookies_are_secure() {
    let mut production = config();
    production.production = true;
    let reply = login(&production, &HeaderMap::new(), &request(), &verified());
    assert!(reply.cookies[0].ends_with("; Secure"));
    assert!(reply.cookies[1].ends_with("; Secure"));
}

#[test]
fn login_without_email_or_password_is_a_bad_request() {
    let no_email = LoginRequest { email: "".to_string(), password: "Secure123".to_string() };
    let reply = login(&config(), &HeaderMap::new(), &no_email, &verified());
    assert_eq!(reply.status, 400);
    assert!(reply.cookies.is_empty());
    match reply.body {
        AuthBody::Login(body) => {
            assert!(!body.success);
            assert_eq!(body.message, "Email and password are required");
            assert_eq!(body.access_token, None);
            assert_eq!(body.refresh_token, None);
            assert_eq!(body.expires_in, None);
        }
        _ => panic!("a login body is expected"),
    }
    let no_password = LoginRequest { email: "a@b.com".to_string(), password: "".to_string() };
    assert_eq!(login(&config(), &native_headers(), &no_password, &verified()).status, 400);
}

#[test]
fn rejected_credentials_are_unauthorized() {
    let reply = login(&config(), &HeaderMap::new(), &request(), &CredentialCheck::Rejected);
    assert_eq!(reply.status, 401);
    assert!(reply.cookies.is_empty());
    match reply.body {
        AuthBody::Login(body) => {
            assert!(!body.success);
            assert_eq!(body.message, "Invalid email or password");
            assert_eq!(body.access_token, None);
        }
        _ => panic!("a login body is expected"),
    }
}

#[test]
fn login_response_for_a_signing_failure() {
    let failed = Err(ApiError::InternalError("Token generation failed".to_string()));
    let reply = login_response(ClientKind::Web, false, failed);
    assert_eq!(reply.status, 500);
    assert!(reply.cookies.is_empty());
    match reply.body {
        AuthBody::Login(body) => {
            assert!(!body.success);
            assert_eq!(body.message, "Authentication failed");
        }
        _ => panic!("a login body is expected"),
    }
}

#[test]
fn login_response_on_given_tokens() {
    let pair = TokenPair { access_token: "A".to_string(), refresh_token: "R".to_string(), expires_in: 900 };
    let reply = login_response(ClientKind::Web, true, Ok(pair));
    assert_eq!(
        reply.cookies,
        vec![
            "access_token=A; HttpOnly; SameSite=Lax; Path=/; Max-Age=900; Secure".to_string(),
            "refresh_token=R; HttpOnly; SameSite=Lax; Path=/api/v1/auth; Max-Age=604800; Secure".to_string(),
        ]
    );
}

#[test]
fn refresh_with_an_access_token_is_unauthorized() {
    let pair = generate_token_pair(&config().jwt_secret, 1, "a@b.com").unwrap();
    let body = Some(RefreshRequest { refresh_token: pair.access_token });
    let reply = refresh(&config(), &native_headers(), &body);
    assert_eq!(reply.status, 401);
    assert!(reply.cookies.is_empty());
    match reply.body {
        AuthBody::Notice { success, message } => {
            assert!(!success);
            assert_eq!(message, "Invalid or expired refresh token");
        }
        _ => panic!("a notice is expected"),
    }
}

#[test]
fn native_refresh_returns_a_new_access_token() {
    let pair = generate_token_pair(&config().jwt_secret, 5, "a@b.com").unwrap();
    let body = Some(RefreshRequest { refresh_token: pair.refresh_token });
    let reply = refresh(&config(), &native_headers(), &body);
    assert_eq!(reply.status, 200);
    assert!(reply.cookies.is_empty());
    match reply.body {
        AuthBody::Refresh(body) => {
            assert!(body.success);
            assert_eq!(body.expires_in, 900);
            let claims = validate_access_token(&config().jwt_secret, &body.access_token).unwrap();
            assert_eq!(claims.sub, "5");
            assert_eq!(claims.email, "a@b.com");
        }
        _ => panic!("a refresh body is expected"),
    }
}

#[test]
fn web_refresh_sets_the_access_cookie_only() {
    let pair = generate_token_pair(&config().jwt_secret, 5, "a@b.com").unwrap();
    let mut headers = HeaderMap::new();
    let cookie = format!("refresh_token={}", pair.refresh_token);
    headers.insert(header::COOKIE, HeaderValue::from_str(&cookie).unwrap());
    let reply = refresh(&config(), &headers, &None);
    assert_eq!(reply.status, 200);
    assert_eq!(reply.cookies.len(), 1);
    assert!(reply.cookies[0].starts_with("access_token="));
    assert!(reply.cookies[0].ends_with("; HttpOnly; SameSite=Lax; Path=/; Max-Age=900"));
    match reply.body {
        AuthBody::Expiry { success, expires_in } => {
            assert!(success);
            assert_eq!(expires_in, 900);
        }
        _ => panic!("an expiry body is expected"),
    }
}

#[test]
fn refresh_without_a_token_is_unauthorized() {
    let reply = refresh(&config(), &HeaderMap::new(), &None);
    assert_eq!(reply.status, 401);
    match reply.body {
        AuthBody::Notice { success, message } => {
            assert!(!success);
            assert_eq!(message, "Refresh token required");
        }
        _ => panic!("a notice is expected"),
    }
}

#[test]
fn body_wins_over_cookie_even_when_empty() {
    let pair = generate_token_pair(&config().jwt_secret, 5, "a@b.com").unwrap();
    let mut headers = HeaderMap::new();
    let cookie = format!("refresh_token={}", pair.refresh_token);
    headers.insert(header::COOKIE, HeaderValue::from_str(&cookie).unwrap());
    let empty = Some(RefreshRequest { refresh_token: "".to_string() });
    assert_eq!(presented_refresh_token(&headers, &empty), None);
    assert_eq!(refresh(&config(), &headers, &empty).status, 401);
    let given = Some(RefreshRequest { refresh_token: "from-body".to_string() });
    assert_eq!(presented_refresh_token(&headers, &given), Some("from-body".to_string()));
    assert_eq!(presented_refresh_token(&headers, &None), Some(pair.refresh_token.clone()));
    assert_eq!(extract_refresh_token_from_cookie(&headers), Some(pair.refresh_token));
    assert_eq!(extract_refresh_token_from_cookie(&HeaderMap::new()), None);
}

#[test]
fn refresh_subject_outcomes() {
    let claims = Claims::issued(TokenType::Refresh, 17, "a@b.com", 0, "id".to_string());
    assert_eq!(refresh_subject(Ok(claims.clone())).unwrap(), (17, "a@b.com".to_string()));
    let mut odd = claims;
    odd.sub = "seventeen".to_string();
    let reply = refresh_subject(Ok(odd)).unwrap_err();
    assert_eq!(reply.status, 401);
    match reply.body {
        AuthBody::Notice { success, message } => {
            assert!(!success);
            assert_eq!(message, "Invalid token claims");
        }
        _ => panic!("a notice is expected"),
    }
    let failed = refresh_subject(Err(ApiError::Unauthorized("Token expired".to_string()))).unwrap_err();
    assert_eq!(failed.status, 401);
    match failed.body {
        AuthBody::Notice { message, .. } => assert_eq!(message, "Invalid or expired refresh token"),
        _ => panic!("a notice is expected"),
    }
}

#[test]
fn refresh_response_for_a_signing_failure() {
    let failed = Err(ApiError::InternalError("Token generation failed".to_string()));
    let reply = refresh_response(ClientKind::Native, false, failed);
    assert_eq!(reply.status, 500);
    match reply.body {
        AuthBody::Notice { success, message } => {
            assert!(!success);
            assert_eq!(message, "Token generation failed");
        }
        _ => panic!("a notice is expected"),
    }
}

#[test]
fn logout_clears_both_cookies() {
    let reply = logout(&config());
    assert_eq!(reply.status, 200);
    assert_eq!(
        reply.cookies,
        vec![
            "access_token=; HttpOnly; SameSite=Lax; Path=/; Max-Age=0".to_string(),
            "refresh_token=; HttpOnly; SameSite=Lax; Path=/api/v1/auth; Max-Age=0".to_string(),
        ]
    );
    match reply.body {
        AuthBody::Notice { success, message } => {
            assert!(success);
            assert_eq!(message, "Logged out successfully");
        }
        _ => panic!("a notice is expected"),
    }
}

#[test]
fn logout_does_not_invalidate_the_token() {
    let pair = generate_token_pair(&config().jwt_secret, 1, "a@b.com").unwrap();
    let _ = logout(&config());
    assert!(validate_access_token(&config().jwt_secret, &pair.access_token).is_ok());
}
