use user_auth::dtos::{Timestamp, UserDBDTO};
use user_auth::http::{sign_in, Status};
use user_auth::repository::StoreError;
use user_auth::token::{encode_jwt, encode_jwt_at, Claims, TOKEN_LIFETIME_SECS};

fn decode(token: &str, secret: &str) -> serde_json::Value {
    let key = jsonwebtoken::DecodingKey::from_secret(secret.as_bytes());
    let validation = jsonwebtoken::Validation::default();
    jsonwebtoken::decode::<serde_json::Value>(token, &key, &validation).unwrap().claims
}

#[test]
fn token_for_john_lasts_a_day() {
    let token = encode_jwt("John", "random").unwrap();
    let claims = decode(&token, "random");
    let exp = claims["exp"].as_u64().unwrap();
    let iat = claims["iat"].as_u64().unwrap();
    assert_eq!(exp - iat, 86400);
    assert_eq!(claims["username"].as_str().unwrap(), "John");
}

#[test]
fn claims_expire_a_day_after_issue() {
    let claims = Claims::issued_at("John", 1_000);
    assert_eq!(claims.iat, 1_000);
    assert_eq!(claims.exp, 87_400);
    assert_eq!(claims.username, "John");
    assert_eq!(TOKEN_LIFETIME_SECS, 86400);
}

#[test]
fn token_at_a_given_second_is_fixed() {
    let a = encode_jwt_at("John", "random", 1_700_000_000).unwrap();
    let b = encode_jwt_at("John", "random", 1_700_000_000).unwrap();
    assert_eq!(a, b);
    assert_ne!(a, "John");
    assert_eq!(a.split('.').count(), 3);
    let c = encode_jwt_at("John", "other", 1_700_000_000).unwrap();
    assert_ne!(a, c);
    let mut validation = jsonwebtoken::Validation::default();
    validation.validate_exp = false;
    let key = jsonwebtoken::DecodingKey::from_secret(b"random");
    let claims = jsonwebtoken::decode::<serde_json::Value>(&a, &key, &validation).unwrap().claims;
    assert_eq!(claims["iat"].as_u64(), Some(1_700_000_000));
    assert_eq!(claims["exp"].as_u64(), Some(1_700_086_400));
}

#[test]
fn claims_encode_matches_encode_jwt_at() {
    let claims = Claims::issued_at("ann", 5);
    assert_eq!(claims.encode("k").unwrap(), encode_jwt_at("ann", "k", 5).unwrap());
}

#[test]
fn sign_in_without_user_is_unauthorized() {
    assert_eq!(sign_in(Ok(None), "random"), Err(Status::Unauthorized));
}

#[test]
fn sign_in_with_user_issues_token() {
    let user = UserDBDTO {
        id: 1,
        username: "John".to_string(),
        hashed_pwd: "h".to_string(),
        registration_date: Timestamp { micros: 0 },
        interests: "Programming, gaming".to_string(),
    };
    let token = sign_in(Ok(Some(user)), "random").unwrap();
    let claims = decode(&token, "random");
    assert_eq!(claims["username"].as_str().unwrap(), "John");
    let exp = claims["exp"].as_u64().unwrap();
    let iat = claims["iat"].as_u64().unwrap();
    assert_eq!(exp - iat, 86400);
}

#[test]
fn sign_in_store_failures() {
    assert_eq!(sign_in(Err(StoreError::Unavailable), "random"), Err(Status::ServiceUnavailable));
    assert_eq!(sign_in(Err(StoreError::Other), "random"), Err(Status::InternalError));
}

#[test]
fn token_for_john_at_fixed_second() {
    let token = encode_jwt_at("John", "random", 1_700_000_000).unwrap();
    let mut validation = jsonwebtoken::Validation::default();
    validation.validate_exp = false;
    let key = jsonwebtoken::DecodingKey::from_secret(b"random");
    let claims = jsonwebtoken::decode::<serde_json::Value>(&token, &key, &validation).unwrap().claims;
    assert_eq!(claims["username"].as_str(), Some("John"));
    assert_eq!(claims["exp"].as_u64().unwrap() - claims["iat"].as_u64().unwrap(), TOKEN_LIFETIME_SECS);
}
