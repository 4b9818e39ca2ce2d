use backend::decimal::{i64_text, parse_i64, parse_unsigned};
use backend::error::{ApiError, ApiErrorKind};
use backend::jwt::{
    checked_as, generate_access_token, generate_token_pair, require_type, sign, token_error,
    validate_access_token, validate_as, validate_refresh_token, validate_token, Claims,
    TokenFailure, TokenType,
};

fn secret() -> &'static str {
    "DEVELOPMENT_ONLY_SECRET_CHANGE_IN_PRODUCTION_32bytes"
}

#[test]
fn test_generate_and_validate_token_pair() {
    let pair = generate_token_pair(secret(), 123, "test@example.com").unwrap();

    // Validate access token
    let access_claims = validate_access_token(secret(), &pair.access_token).unwrap();
    assert_eq!(access_claims.sub, "123");
    assert_eq!(access_claims.email, "test@example.com");
    assert!(access_claims.is_access_token());

    // Validate refresh token
    let refresh_claims = validate_refresh_token(secret(), &pair.refresh_token).unwrap();
    assert_eq!(refresh_claims.sub, "123");
    assert!(refresh_claims.is_refresh_token());
}

#[test]
fn test_access_token_rejected_as_refresh() {
    let pair = generate_token_pair(secret(), 123, "test@example.com").unwrap();

    // Access token should fail when validated as refresh token
    let result = validate_refresh_token(secret(), &pair.access_token);
    assert!(result.is_err());
}

#[test]
fn test_refresh_token_rejected_as_access() {
    let pair = generate_token_pair(secret(), 123, "test@example.com").unwrap();

    // Refresh token should fail when validated as access token
    let result = validate_access_token(secret(), &pair.refresh_token);
    assert!(result.is_err());
}

#[test]
fn test_invalid_token_rejected() {
    let result = validate_token(secret(), "invalid.token.here");
    assert!(result.is_err());
}

#[test]
fn pair_tokens_are_told_apart_by_type() {
    let pair = generate_token_pair(secret(), 7, "u@example.com").unwrap();
    assert!(validate_as(secret(), &pair.access_token, TokenType::Access).is_ok());
    assert!(validate_as(secret(), &pair.refresh_token, TokenType::Refresh).is_ok());
    let wrong = validate_as(secret(), &pair.access_token, TokenType::Refresh).unwrap_err();
    assert_eq!(wrong.kind(), ApiErrorKind::Unauthorized);
    assert_eq!(wrong.status_code(), 401);
    assert_eq!(wrong.public_message(), "Invalid token type");
    let other = validate_as(secret(), &pair.refresh_token, TokenType::Access).unwrap_err();
    assert_eq!(other.public_message(), "Invalid token type");
}

#[test]
fn pair_states_access_lifetime() {
    let pair = generate_token_pair(secret(), 1, "a@b.com").unwrap();
    assert_eq!(pair.expires_in, 900);
    assert!(!pair.access_token.is_empty());
    assert!(!pair.refresh_token.is_empty());
    assert_eq!(pair.access_token.split('.').count(), 3);
}

#[test]
fn two_issuances_give_different_tokens() {
    let first = generate_token_pair(secret(), 1, "a@b.com").unwrap();
    let second = generate_token_pair(secret(), 1, "a@b.com").unwrap();
    assert_ne!(first.access_token, second.access_token);
    assert_ne!(first.refresh_token, second.refresh_token);
    assert_ne!(first.access_token, first.refresh_token);
    let a = generate_access_token(secret(), 1, "a@b.com").unwrap();
    let b = generate_access_token(secret(), 1, "a@b.com").unwrap();
    assert_ne!(a, b);
}

#[test]
fn claims_lifetimes() {
    let access = Claims::new_access(42, "a@b.com");
    assert_eq!(access.sub, "42");
    assert_eq!(access.email, "a@b.com");
    assert_eq!(access.token_type, "access");
    assert_eq!(access.exp - access.iat, 900);
    assert_eq!(access.jti.len(), 36);
    let refresh = Claims::new_refresh(42, "a@b.com");
    assert_eq!(refresh.token_type, "refresh");
    assert_eq!(refresh.exp - refresh.iat, 604800);
    assert_ne!(access.jti, refresh.jti);
    assert!(access.exp > access.iat);
}

#[test]
fn claims_issued_at_a_given_time() {
    let claims = Claims::issued(TokenType::Refresh, -5, "x@y.z", 1000, "id-1".to_string());
    assert_eq!(claims.sub, "-5");
    assert_eq!(claims.email, "x@y.z");
    assert_eq!(claims.token_type, "refresh");
    assert_eq!(claims.iat, 1000);
    assert_eq!(claims.exp, 605800);
    assert_eq!(claims.jti, "id-1");
    assert_eq!(TokenType::Access.lifetime_seconds(), 900);
    assert_eq!(TokenType::Refresh.lifetime_seconds(), 604800);
    assert_eq!(TokenType::Access.name(), "access");
    assert_eq!(TokenType::Refresh.name(), "refresh");
}

#[test]
fn signed_claims_come_back_unchanged() {
    let now = Claims::new_access(1, "a@b.com").iat;
    let claims = Claims::issued(TokenType::Access, 99, "who@example.com", now, "the-id".to_string());
    let token = sign(secret(), &claims).unwrap();
    assert_ne!(token, secret());
    let read = validate_token(secret(), &token).unwrap();
    assert_eq!(read.sub, "99");
    assert_eq!(read.email, "who@example.com");
    assert_eq!(read.token_type, "access");
    assert_eq!(read.iat, now);
    assert_eq!(read.exp, now + 900);
    assert_eq!(read.jti, "the-id");
    assert_eq!(read.user_id().unwrap(), 99);
}

#[test]
fn signing_is_a_function_of_secret_and_claims() {
    let claims = Claims::issued(TokenType::Access, 1, "a@b.com", 10, "id".to_string());
    assert_eq!(sign(secret(), &claims).unwrap(), sign(secret(), &claims).unwrap());
    assert_ne!(sign(secret(), &claims).unwrap(), sign("another secret", &claims).unwrap());
}

#[test]
fn expired_token_is_rejected() {
    let claims = Claims::issued(TokenType::Access, 1, "a@b.com", 1000, "id".to_string());
    let token = sign(secret(), &claims).unwrap();
    let error = validate_token(secret(), &token).unwrap_err();
    assert_eq!(error.kind(), ApiErrorKind::Unauthorized);
    assert_eq!(error.public_message(), "Token expired");
}

#[test]
fn token_of_another_secret_is_rejected() {
    let pair = generate_token_pair("another secret", 1, "a@b.com").unwrap();
    let error = validate_token(secret(), &pair.access_token).unwrap_err();
    assert_eq!(error.kind(), ApiErrorKind::Unauthorized);
    assert_eq!(error.public_message(), "Token validation failed");
}

#[test]
fn text_that_is_no_token_is_rejected() {
    let error = validate_token(secret(), "nodots").unwrap_err();
    assert_eq!(error.kind(), ApiErrorKind::Unauthorized);
    assert_eq!(error.public_message(), "Invalid token");
    assert!(validate_token(secret(), "").is_err());
}

#[test]
fn tampered_token_is_rejected() {
    let pair = generate_token_pair(secret(), 1, "a@b.com").unwrap();
    let mut tampered = pair.access_token.clone();
    let last = tampered.pop().unwrap();
    tampered.push(if last == 'A' { 'B' } else { 'A' });
    assert!(validate_token(secret(), &tampered).is_err());
}

#[test]
fn failure_messages() {
    assert_eq!(token_error(TokenFailure::Expired).public_message(), "Token expired");
    assert_eq!(token_error(TokenFailure::Malformed).public_message(), "Invalid token");
    assert_eq!(token_error(TokenFailure::Rejected).public_message(), "Token validation failed");
    assert_eq!(token_error(TokenFailure::Expired).kind(), ApiErrorKind::Unauthorized);
}

#[test]
fn type_check_on_claims() {
    let access = Claims::issued(TokenType::Access, 1, "a@b.com", 0, "id".to_string());
    assert!(access.is_access_token());
    assert!(!access.is_refresh_token());
    assert!(access.has_type(TokenType::Access));
    assert!(require_type(access.clone(), TokenType::Access).is_ok());
    let error = require_type(access.clone(), TokenType::Refresh).unwrap_err();
    assert_eq!(error.public_message(), "Invalid token type");
    let refresh = Claims::issued(TokenType::Refresh, 1, "a@b.com", 0, "id".to_string());
    assert!(refresh.is_refresh_token());
    assert!(!refresh.is_access_token());
    assert!(require_type(refresh, TokenType::Access).is_err());
    let mut odd = access;
    odd.token_type = "Access".to_string();
    assert!(!odd.is_access_token());
    assert!(!odd.is_refresh_token());
}

#[test]
fn failed_validation_is_passed_on_unchanged() {
    let failed = Err(ApiError::Unauthorized("Token expired".to_string()));
    let error = checked_as(failed, TokenType::Access).unwrap_err();
    assert_eq!(error.public_message(), "Token expired");
}

#[test]
fn user_id_reads_the_subject() {
    let mut claims = Claims::issued(TokenType::Access, 123, "a@b.com", 0, "id".to_string());
    assert_eq!(claims.user_id().unwrap(), 123);
    claims.sub = "abc".to_string();
    let error = claims.user_id().unwrap_err();
    assert_eq!(error.kind(), ApiErrorKind::Unauthorized);
    assert_eq!(error.public_message(), "Invalid token subject");
    claims.sub = "".to_string();
    assert!(claims.user_id().is_err());
}

#[test]
fn decimal_text_of_integers() {
    assert_eq!(i64_text(0), "0");
    assert_eq!(i64_text(7), "7");
    assert_eq!(i64_text(10), "10");
    assert_eq!(i64_text(123), "123");
    assert_eq!(i64_text(-1), "-1");
    assert_eq!(i64_text(-450), "-450");
    assert_eq!(i64_text(i64::MAX), "9223372036854775807");
    assert_eq!(i64_text(i64::MIN), "-9223372036854775808");
}

#[test]
fn integers_from_decimal_text() {
    assert_eq!(parse_i64("0"), Some(0));
    assert_eq!(parse_i64("123"), Some(123));
    assert_eq!(parse_i64("+123"), Some(123));
    assert_eq!(parse_i64("-123"), Some(-123));
    assert_eq!(parse_i64("007"), Some(7));
    assert_eq!(parse_i64("-0"), Some(0));
    assert_eq!(parse_i64("9223372036854775807"), Some(i64::MAX));
    assert_eq!(parse_i64("-9223372036854775808"), Some(i64::MIN));
    assert_eq!(parse_i64("9223372036854775808"), None);
    assert_eq!(parse_i64("-9223372036854775809"), None);
    assert_eq!(parse_i64("99999999999999999999999"), None);
    assert_eq!(parse_i64(""), None);
    assert_eq!(parse_i64("-"), None);
    assert_eq!(parse_i64("+"), None);
    assert_eq!(parse_i64("12a"), None);
    assert_eq!(parse_i64(" 12"), None);
    assert_eq!(parse_i64("1-2"), None);
    assert_eq!(parse_i64("--1"), None);
    assert_eq!(parse_i64("\u{661}"), None);
}

#[test]
fn parsing_agrees_with_the_standard_library() {
    for text in ["0", "-0", "+0", "12", "-12", "+12", "", "-", "+", "1x", "x1", "00012", "9223372036854775807", "9223372036854775808", "-9223372036854775808", "-9223372036854775809"] {
        assert_eq!(parse_i64(text), text.parse::<i64>().ok());
    }
    for n in [0i64, 1, -1, 9, 10, 11, 99, 100, -100, 4096, i64::MAX, i64::MIN, i64::MIN + 1] {
        assert_eq!(i64_text(n), n.to_string());
        assert_eq!(parse_i64(&i64_text(n)), Some(n));
    }
}

fn payload(members: &[(&str, serde_json::Value)]) -> serde_json::Value {
    let mut object = serde_json::Map::new();
    for (name, value) in members {
        object.insert(name.to_string(), value.clone());
    }
    serde_json::Value::Object(object)
}

fn full_payload() -> Vec<(&'static str, serde_json::Value)> {
    vec![
        ("sub", serde_json::Value::from("12")),
        ("email", serde_json::Value::from("a@b.com")),
        ("token_type", serde_json::Value::from("refresh")),
        ("exp", serde_json::Value::from(2000i64)),
        ("iat", serde_json::Value::from(1000i64)),
        ("jti", serde_json::Value::from("id-9")),
    ]
}

#[test]
fn claims_are_read_from_a_complete_payload() {
    let claims = backend::jwt::validated(Ok(payload(&full_payload()))).unwrap();
    assert_eq!(claims.sub, "12");
    assert_eq!(claims.email, "a@b.com");
    assert_eq!(claims.token_type, "refresh");
    assert_eq!(claims.exp, 2000);
    assert_eq!(claims.iat, 1000);
    assert_eq!(claims.jti, "id-9");
    let same = backend::jwt::claims_from_payload(&payload(&full_payload())).unwrap();
    assert_eq!(same.sub, "12");
    assert_eq!(same.exp, 2000);
}

#[test]
fn payload_that_lacks_a_claim_is_rejected() {
    for missing in ["sub", "email", "token_type", "exp", "iat", "jti"] {
        let members: Vec<(&str, serde_json::Value)> =
            full_payload().into_iter().filter(|(name, _)| *name != missing).collect();
        let error = backend::jwt::validated(Ok(payload(&members))).unwrap_err();
        assert_eq!(error.kind(), ApiErrorKind::Unauthorized);
        assert_eq!(error.public_message(), "Token validation failed");
        assert!(backend::jwt::claims_from_payload(&payload(&members)).is_none());
    }
}

#[test]
fn payload_with_a_claim_of_another_type_is_rejected() {
    let mut members = full_payload();
    members[3] = ("exp", serde_json::Value::from("2000"));
    assert!(backend::jwt::validated(Ok(payload(&members))).is_err());
    let mut members = full_payload();
    members[0] = ("sub", serde_json::Value::from(12i64));
    assert!(backend::jwt::validated(Ok(payload(&members))).is_err());
    let mut members = full_payload();
    members[4] = ("iat", serde_json::Value::from(u64::MAX));
    assert!(backend::jwt::validated(Ok(payload(&members))).is_err());
    assert!(backend::jwt::validated(Ok(serde_json::Value::Null)).is_err());
    assert!(backend::jwt::validated(Ok(serde_json::Value::from("text"))).is_err());
}

#[test]
fn failed_check_is_passed_on_in_words() {
    let error = backend::jwt::validated(Err(TokenFailure::Expired)).unwrap_err();
    assert_eq!(error.kind(), ApiErrorKind::Unauthorized);
    assert_eq!(error.public_message(), "Token expired");
    let error = backend::jwt::validated(Err(TokenFailure::Malformed)).unwrap_err();
    assert_eq!(error.public_message(), "Invalid token");
    let error = backend::jwt::validated(Err(TokenFailure::Rejected)).unwrap_err();
    assert_eq!(error.public_message(), "Token validation failed");
}

#[test]
fn issue_time_is_the_present() {
    let before = std::time::SystemTime::now()
        .duration_since(std::time::UNIX_EPOCH)
        .unwrap()
        .as_secs() as i64;
    let claims = Claims::new_access(1, "a@b.com");
    assert!(claims.iat >= before - 1);
    assert!(claims.iat <= before + 5);
}

#[test]
fn unsigned_integers_from_decimal_text() {
    assert_eq!(parse_unsigned("0", 0), Some(0));
    assert_eq!(parse_unsigned("000", 0), Some(0));
    assert_eq!(parse_unsigned("1", 0), None);
    assert_eq!(parse_unsigned("3", 3), Some(3));
    assert_eq!(parse_unsigned("4", 3), None);
    assert_eq!(parse_unsigned("0", 9), Some(0));
    assert_eq!(parse_unsigned("9", 9), Some(9));
    assert_eq!(parse_unsigned("10", 9), None);
    assert_eq!(parse_unsigned("+5", 9), Some(5));
    assert_eq!(parse_unsigned("-5", 9), None);
    assert_eq!(parse_unsigned("", 9), None);
    assert_eq!(parse_unsigned("+", 9), None);
    assert_eq!(parse_unsigned("4294967295", u32::MAX as u64), Some(4294967295));
    assert_eq!(parse_unsigned("4294967296", u32::MAX as u64), None);
    for text in ["0", "+0", "-0", "18446744073709551615", "18446744073709551616", "1e3", "12", "++1"] {
        assert_eq!(parse_unsigned(text, u64::MAX), text.parse::<u64>().ok());
    }
}
