use quoteyourlife_be::error::{AppError, CredentialError, TokenError};
use quoteyourlife_be::gate::{bearer_token, jwt_validation, verify_session};
use quoteyourlife_be::token::{create_jwt, issue_claims, read_claims, verify_jwt, Payload, TOKEN_LIFETIME_SECS};

const SECRET: &str = "server-signing-key";
const T0: u64 = 1_700_000_000;

#[test]
fn issued_claims_last_one_day() {
    let c = issue_claims("user-7", T0);
    assert_eq!(c.sub, "user-7");
    assert_eq!(c.iat, T0);
    assert_eq!(c.exp, T0 + 86400);
    assert_eq!(TOKEN_LIFETIME_SECS, 24 * 3600);
}

#[test]
fn token_verifies_until_expiry() {
    let token = create_jwt(SECRET, "user-7", T0).unwrap();
    assert_ne!(token, "user-7");
    assert_eq!(token.split('.').count(), 3);
    let c = verify_jwt(SECRET, &token, T0).unwrap();
    assert_eq!(c.sub, "user-7");
    assert_eq!(c.iat, T0);
    assert_eq!(c.exp, T0 + 86400);
    let last = verify_jwt(SECRET, &token, T0 + 86400).unwrap();
    assert_eq!(last.sub, "user-7");
}

#[test]
fn token_expired_after_lifetime() {
    let token = create_jwt(SECRET, "user-7", T0).unwrap();
    assert!(matches!(verify_jwt(SECRET, &token, T0 + 86401), Err(TokenError::Expired)));
    assert!(matches!(verify_jwt(SECRET, &token, u64::MAX), Err(TokenError::Expired)));
}

#[test]
fn subject_round_trips_exactly() {
    let subject = "0b6c1f7e-3f1a-4c57-9e55-2d1b8f0a9c11 ünï";
    let token = create_jwt(SECRET, subject, T0).unwrap();
    assert_eq!(verify_jwt(SECRET, &token, T0 + 10).unwrap().sub, subject);
}

#[test]
fn token_with_other_secret_is_refused() {
    let token = create_jwt(SECRET, "user-7", T0).unwrap();
    assert!(matches!(verify_jwt("another-key", &token, T0), Err(TokenError::BadSignature)));
}

#[test]
fn garbage_token_is_malformed() {
    assert!(matches!(verify_jwt(SECRET, "not-a-token", T0), Err(TokenError::Malformed)));
    assert!(matches!(verify_jwt(SECRET, "", T0), Err(TokenError::Malformed)));
}

#[test]
fn read_claims_needs_every_claim() {
    let full = Payload { sub: Some("a".to_string()), exp: Some(10), iat: Some(5) };
    assert_eq!(read_claims(Ok(full.clone()), 10).unwrap().sub, "a");
    assert!(matches!(read_claims(Ok(full), 11), Err(TokenError::Expired)));
    let no_sub = Payload { sub: None, exp: Some(10), iat: Some(5) };
    assert!(matches!(read_claims(Ok(no_sub), 1), Err(TokenError::Malformed)));
    let no_iat = Payload { sub: Some("a".to_string()), exp: Some(10), iat: None };
    assert!(matches!(read_claims(Ok(no_iat), 1), Err(TokenError::Malformed)));
    assert!(matches!(read_claims(Err(TokenError::BadSignature), 1), Err(TokenError::BadSignature)));
}

#[test]
fn bearer_prefix_is_stripped() {
    assert_eq!(bearer_token("Bearer abc.def.ghi"), Some("abc.def.ghi"));
    assert_eq!(bearer_token("Bearer "), None);
    assert_eq!(bearer_token("bearer abc"), None);
    assert_eq!(bearer_token("Basic abc"), None);
    assert_eq!(bearer_token(""), None);
}

#[test]
fn gate_rejects_missing_header() {
    assert!(matches!(jwt_validation(None, SECRET, T0), Err(CredentialError::Missing)));
}

#[test]
fn gate_rejects_malformed_header() {
    assert!(matches!(jwt_validation(Some("Token abc"), SECRET, T0), Err(CredentialError::Malformed)));
    assert!(matches!(jwt_validation(Some("Bearer "), SECRET, T0), Err(CredentialError::Malformed)));
}

#[test]
fn gate_rejects_invalid_token() {
    let token = create_jwt(SECRET, "user-7", T0).unwrap();
    let header = format!("Bearer {}", token);
    assert!(matches!(
        jwt_validation(Some(&header), SECRET, T0 + 86401),
        Err(CredentialError::Invalid(TokenError::Expired))
    ));
    assert!(matches!(
        jwt_validation(Some(&header), "wrong", T0),
        Err(CredentialError::Invalid(TokenError::BadSignature))
    ));
}

#[test]
fn gate_passes_valid_token() {
    let token = create_jwt(SECRET, "user-7", T0).unwrap();
    let header = format!("Bearer {}", token);
    let c = jwt_validation(Some(&header), SECRET, T0 + 60).unwrap();
    assert_eq!(c.sub, "user-7");
    let v = verify_session(Some(&header), SECRET, T0).unwrap();
    assert_eq!(v.exp, T0 + 86400);
}

#[test]
fn verify_endpoint_answers_401() {
    let e = verify_session(None, SECRET, T0).unwrap_err();
    assert!(matches!(e, AppError::CredentialError(CredentialError::Missing)));
    assert_eq!(e.into_response().status, 401);
}
