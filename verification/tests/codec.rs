use resume_critique::auth::{
    authenticate, create_jwt, create_jwt_at, hash_password, verify_jwt, verify_jwt_at,
    verify_password,
};
use resume_critique::errors::TokenError;

#[test]
fn password_hash_round_trip() {
    let hash = hash_password("pw123456").unwrap();
    assert!(verify_password("pw123456", &hash).unwrap());
    assert!(!verify_password("otherpassword", &hash).unwrap());
}

#[test]
fn password_verify_rejects_malformed_hash() {
    assert!(verify_password("pw123456", "not-a-bcrypt-hash").is_err());
}

#[test]
fn token_round_trip_is_time_bounded() {
    let issue_time: u64 = 1_000_000;
    let token = create_jwt_at(7, "a@b.com", "s3cret", issue_time).unwrap();
    let claims = verify_jwt_at(&token, "s3cret", issue_time + 86399).unwrap();
    assert_eq!(claims.sub, 7);
    assert_eq!(claims.email, "a@b.com");
    assert_eq!(claims.exp, issue_time + 86400);
    let expired = verify_jwt_at(&token, "s3cret", issue_time + 86400);
    assert_eq!(expired.unwrap_err(), TokenError::Expired);
    let late = verify_jwt_at(&token, "s3cret", issue_time + 1_000_000);
    assert_eq!(late.unwrap_err(), TokenError::Expired);
}

#[test]
fn token_rejected_under_other_secret() {
    let token = create_jwt_at(7, "a@b.com", "s3cret", 1_000_000).unwrap();
    let wrong = verify_jwt_at(&token, "another-secret", 1_000_000);
    assert_eq!(wrong.unwrap_err(), TokenError::Invalid);
}

#[test]
fn garbage_token_is_invalid() {
    let bad = verify_jwt_at("definitely.not.ajwt", "s3cret", 0);
    assert_eq!(bad.unwrap_err(), TokenError::Invalid);
}

#[test]
fn current_time_token_verifies_now() {
    let token = create_jwt(9, "now@b.com", "s3cret").unwrap();
    let claims = verify_jwt(&token, "s3cret").unwrap();
    assert_eq!(claims.sub, 9);
    assert_eq!(claims.email, "now@b.com");
}

#[test]
fn gate_requires_bearer_prefix() {
    let now: u64 = 1_000_000;
    let token = create_jwt_at(3, "g@b.com", "s3cret", now).unwrap();
    let header = format!("Bearer {}", token);
    let claims = authenticate(Some(&header), "s3cret", now).unwrap();
    assert_eq!(claims.sub, 3);
    assert_eq!(claims.email, "g@b.com");

    assert!(authenticate(None, "s3cret", now).is_err());
    assert!(authenticate(Some(&token), "s3cret", now).is_err());
    let lower = format!("bearer {}", token);
    assert!(authenticate(Some(&lower), "s3cret", now).is_err());
    let expired = authenticate(Some(&header), "s3cret", now + 86400);
    assert!(expired.is_err());
    let wrong_secret = authenticate(Some(&header), "other", now);
    assert!(wrong_secret.is_err());
}
