use ms_services::guard::{authorize_at, bearer_token, verify_token_middleware, GuardFailure};
use ms_services::http::ErrorResponse;
use ms_services::token::{expired_token, validate_claims, validate_token, validate_token_at, AuthError, Token};
use serde_json::Value;

fn now() -> i64 {
    chrono::Utc::now().timestamp()
}

fn claims(exp: Option<i64>) -> Value {
    let mut m = serde_json::Map::new();
    m.insert("uid".to_string(), Value::from(1i64));
    if let Some(e) = exp {
        m.insert("exp".to_string(), Value::from(e));
    }
    m.insert("iat".to_string(), Value::from("2024-01-01T00:00:00Z"));
    m.insert("scopes".to_string(), Value::Array(vec![Value::from("read")]));
    m.insert("role".to_string(), Value::from("1"));
    Value::Object(m)
}

fn sign(claims: &Value, secret: &str) -> String {
    jsonwebtoken::encode(
        &jsonwebtoken::Header::default(),
        claims,
        &jsonwebtoken::EncodingKey::from_secret(secret.as_ref()),
    )
    .unwrap()
}

#[test]
fn test_validate_token_valid() {
    let secret_key = "secret_key";
    let token_string = sign(&claims(Some(now() + 3600)), secret_key);

    let result = validate_token(&token_string, secret_key);
    assert!(result.is_ok());
    let validated_token = result.ok().unwrap();
    assert_eq!(validated_token.uid, Some(1));
    assert_eq!(validated_token.scopes, Some(vec!["read".to_string()]));
    assert_eq!(validated_token.role, Some("1".to_string()));
}

#[test]
fn test_validate_token_expired() {
    let secret_key = "secret_key";
    let token_string = sign(&claims(Some(now() - 1)), secret_key);

    let result = validate_token(&token_string, secret_key);
    assert!(result.is_err());
    assert_eq!(result.err().unwrap().message(), "access token expired");
}

#[test]
fn test_validate_token_invalid_secret() {
    let secret_key = "secret_key";
    let token_string = sign(&claims(Some(now() + 3600)), secret_key);

    let result = validate_token(&token_string, "wrong_secret_key");
    assert!(result.is_err());
}

#[test]
fn test_expired_token() {
    let t = now();
    assert!(expired_token(Some(t - 1), t));
    assert!(!expired_token(Some(t + 1), t));
}

#[test]
fn expiry_at_now_counts_as_expired() {
    assert!(expired_token(Some(100), 100));
    assert!(!expired_token(Some(101), 100));
    assert!(!expired_token(None, i64::MAX));
}

#[test]
fn token_without_expiry_is_accepted() {
    let token_string = sign(&claims(None), "k");
    let result = validate_token_at(&token_string, "k", i64::MAX);
    let c = result.ok().unwrap();
    assert_eq!(c.exp, None);
    assert_eq!(c.uid, Some(1));
}

#[test]
fn token_expired_long_ago_reports_expiry_not_invalid() {
    let token_string = sign(&claims(Some(1_000)), "k");
    match validate_token_at(&token_string, "k", 1_000_000) {
        Err(AuthError::Expired) => {}
        _ => panic!("expected expiry"),
    }
}

#[test]
fn token_with_future_expiry_is_accepted_at_given_time() {
    let token_string = sign(&claims(Some(2_000)), "k");
    assert!(validate_token_at(&token_string, "k", 1_999).is_ok());
    assert!(matches!(validate_token_at(&token_string, "k", 2_000), Err(AuthError::Expired)));
}

#[test]
fn issue_time_is_read_as_epoch_seconds() {
    let token_string = sign(&claims(None), "k");
    let c = validate_token_at(&token_string, "k", 0).ok().unwrap();
    assert_eq!(c.iat, Some(1_704_067_200));
}

#[test]
fn wrong_secret_is_invalid_with_diagnostic() {
    let token_string = sign(&claims(None), "right");
    match validate_token_at(&token_string, "wrong", 0) {
        Err(AuthError::Invalid(m)) => assert_eq!(m, "InvalidSignature"),
        _ => panic!("expected an invalid signature"),
    }
}

#[test]
fn malformed_token_is_invalid() {
    assert!(matches!(validate_token_at("not-a-token", "k", 0), Err(AuthError::Invalid(_))));
}

#[test]
fn claim_of_wrong_type_is_invalid() {
    let mut m = serde_json::Map::new();
    m.insert("uid".to_string(), Value::from("one"));
    let token_string = sign(&Value::Object(m), "k");
    assert!(matches!(validate_token_at(&token_string, "k", 0), Err(AuthError::Invalid(_))));
}

#[test]
fn validate_claims_applies_expiry_only() {
    let t = Token { uid: Some(7), exp: Some(10), iat: None, scopes: None, role: None };
    assert!(matches!(validate_claims(t, 10), Err(AuthError::Expired)));
    let t = Token { uid: Some(7), exp: Some(11), iat: None, scopes: None, role: None };
    assert_eq!(validate_claims(t, 10).ok().unwrap().uid, Some(7));
}

fn rejection(r: Result<Token, ErrorResponse>) -> ErrorResponse {
    match r {
        Ok(_) => panic!("expected a rejection"),
        Err(e) => e,
    }
}

#[test]
fn guard_rejects_missing_basic_and_empty_with_distinct_messages() {
    let a = rejection(authorize_at(None, "k", 0));
    let b = rejection(authorize_at(Some("Basic abc"), "k", 0));
    let c = rejection(authorize_at(Some("Bearer"), "k", 0));
    for e in [&a, &b, &c] {
        assert_eq!(e.error, "Unauthorized");
        assert_eq!(e.status_code(), 401);
    }
    assert_eq!(a.message, "Authorization header not found");
    assert_eq!(b.message, "Authorization header is not Bearer");
    assert_eq!(c.message, "Token is empty");
}

#[test]
fn guard_scheme_is_case_sensitive() {
    assert!(matches!(bearer_token(Some("bearer abc")), Err(GuardFailure::NotBearer)));
    assert_eq!(bearer_token(Some("  Bearer\tabc  ")).ok().unwrap(), "abc");
}

#[test]
fn guard_passes_claims_of_a_valid_token() {
    let token_string = sign(&claims(Some(5_000)), "k");
    let header = format!("Bearer {}", token_string);
    let c = authorize_at(Some(&header), "k", 4_000).ok().unwrap();
    assert_eq!(c.uid, Some(1));
}

#[test]
fn guard_rejects_token_of_other_secret() {
    let token_string = sign(&claims(None), "other");
    let header = format!("Bearer {}", token_string);
    let e = rejection(verify_token_middleware(Some(&header), "k"));
    assert_eq!(e.status_code(), 401);
    assert_eq!(e.message, "InvalidSignature");
}

#[test]
fn token_one_second_past_expiry_is_refused_as_expired() {
    let token_string = sign(&claims(Some(now() - 1)), "k");
    let header = format!("Bearer {}", token_string);
    let e = rejection(verify_token_middleware(Some(&header), "k"));
    assert_eq!(e.status_code(), 401);
    assert_eq!(e.message, "access token expired");
}

#[test]
fn error_categories_map_to_status_codes() {
    let codes = [
        ("NotFound", 404),
        ("Unauthorized", 401),
        ("Forbidden", 403),
        ("BadRequest", 400),
        ("Conflict", 409),
        ("Teapot", 500),
    ];
    for (error, code) in codes {
        let r = ErrorResponse { error: error.to_string(), message: String::new() };
        assert_eq!(r.status_code(), code);
    }
}
