use backend::adapters::crypto::argon2_hasher::ArgonPasswordHasher;
use backend::adapters::http::routes::auth::{refresh_request_token, refresh_token_id};
use backend::adapters::http::routes::user::ProfileResponse;
use backend::application::app_error::AppError;
use backend::application::use_cases::auth::{
    authenticate, decide_refresh_at, login_decision, Claims, RefreshDecision, RefreshToken,
};
use backend::application::use_cases::user::{
    new_registered_user, require_user, validate_user_exists, UserCredentialsHasher, UserCredentialsVerifier,
};
use backend::domain::entities::user::User;
use backend::infrastructure::argon2_password_hasher;

struct MockUserCredentialsHasher;

impl UserCredentialsHasher for MockUserCredentialsHasher {
    fn hash_password(&self, password: &str) -> Result<String, AppError> {
        Ok(format!("{}_hash", password))
    }
}

#[test]
fn add_user_works() {
    let result = new_registered_user(
        &MockUserCredentialsHasher,
        "testuser".to_string(),
        "testuser@gmail.com".to_string(),
        "testuser_pw",
    );
    assert!(result.is_ok());
    let user = result.unwrap();
    assert_eq!(user.username, "testuser");
    assert_eq!(user.email, "testuser@gmail.com");
    assert_eq!(user.password_hash, "testuser_pw_hash");
}

fn user(hash: String) -> User {
    User { id: 3, username: "u".to_string(), email: "u@x.io".to_string(), password_hash: hash, created_at: 0 }
}

#[test]
fn argon_hash_verifies_its_password_only() {
    let hasher = argon2_password_hasher();
    let hash = hasher.hash_password("s3cret").unwrap();
    assert_ne!(hash, "s3cret");
    assert!(hash.starts_with("$argon2"));
    assert!(hasher.verify_user_password("s3cret", &hash));
    assert!(!hasher.verify_user_password("other", &hash));
    assert!(!hasher.verify_user_password("s3cret", "not a phc string"));
}

#[test]
fn authenticate_checks_password() {
    let hasher = ArgonPasswordHasher::default();
    let hash = hasher.hash_password("pw").unwrap();
    assert_eq!(authenticate(&hasher, Some(user(hash.clone())), "pw").unwrap().id, 3);
    assert!(matches!(authenticate(&hasher, Some(user(hash)), "bad"), Err(AppError::InvalidCredentials)));
    assert!(matches!(authenticate(&hasher, None, "pw"), Err(AppError::InvalidCredentials)));
    assert!(matches!(login_decision(Some(user("h".to_string())), false), Err(AppError::InvalidCredentials)));
    assert!(login_decision(Some(user("h".to_string())), true).is_ok());
}

#[test]
fn claims_expire_after_ttl() {
    let c = Claims::new_at(5, 900, 1_700_000_000_999_999);
    assert_eq!(c.sub, 5);
    assert_eq!(c.exp, 1_700_000_900);
    let c = Claims::new(5, 900).unwrap();
    assert_eq!(c.sub, 5);
    assert!(c.exp > 1_700_000_000);
    assert!(Claims::new(5, u64::MAX).is_none());
}

#[test]
fn refresh_token_expiry() {
    let t = RefreshToken::new_at(8, 30 * 86400, 1_000_000);
    assert_eq!(t.user_id, 8);
    assert_eq!(t.created_at, 1_000_000);
    assert_eq!(t.expires_at, 1_000_000 + 30 * 86400 * 1_000_000);
    let expiry_nanos = t.expires_at as i128 * 1000;
    assert!(!t.is_expired_at(expiry_nanos));
    assert!(t.is_expired_at(expiry_nanos + 1));
    let live = RefreshToken::new(8, 60).unwrap();
    assert!(!live.is_expired());
    assert!(RefreshToken::new(8, u64::MAX).is_none());
}

#[test]
fn refresh_decisions() {
    let t = RefreshToken { token: 77, user_id: 8, expires_at: 100, created_at: 0 };
    assert_eq!(decide_refresh_at(None, 0), RefreshDecision::Reject);
    assert_eq!(decide_refresh_at(Some(t), 100_000), RefreshDecision::IssueFor(8));
    // Half a microsecond past the expiry is past it.
    assert_eq!(decide_refresh_at(Some(t), 100_500), RefreshDecision::RevokeAndReject(77));
    assert_eq!(decide_refresh_at(Some(t), 100_001), RefreshDecision::RevokeAndReject(77));
}

#[test]
fn user_lookups() {
    assert!(matches!(require_user(None, 4), Err(AppError::ResourceNotFound("User", 4))));
    assert_eq!(require_user(Some(user("h".to_string())), 3).unwrap().id, 3);
    assert!(validate_user_exists(true, 1).is_ok());
    assert!(matches!(validate_user_exists(false, 1), Err(AppError::ResourceNotFound("User", 1))));
    let p = ProfileResponse::from(user("h".to_string()));
    assert_eq!((p.id, p.username.as_str(), p.email.as_str()), (3, "u", "u@x.io"));
}

#[test]
fn new_user_gets_fresh_id() {
    let a = User::new("a".to_string(), "a@x".to_string(), "h".to_string());
    let b = User::new("a".to_string(), "a@x".to_string(), "h".to_string());
    assert_ne!(a.id, b.id);
    assert!(a.created_at > 0);
}

#[test]
fn refresh_cookie_parsing() {
    let id = refresh_token_id("67e55044-10b1-426f-9247-bb680e5fe0c8");
    assert_eq!(id, Some(0x67e55044_10b1_426f_9247_bb680e5fe0c8));
    assert_eq!(refresh_token_id("not a uuid"), None);
    let ok = refresh_request_token(Some("67e5504410b1426f9247bb680e5fe0c8"));
    assert!(matches!(ok, Ok(0x67e55044_10b1_426f_9247_bb680e5fe0c8)));
    assert!(matches!(
        refresh_request_token(None),
        Err(AppError::InvalidCredentials)
    ));
    assert!(matches!(
        refresh_request_token(Some("")),
        Err(AppError::InvalidCredentials)
    ));
}

#[test]
fn claims_and_tokens_at_fixed_times() {
    let c = Claims::at(5, 60, 1_500_000).unwrap();
    assert_eq!((c.sub, c.exp), (5, 61));
    assert!(Claims::at(5, 60, -1).is_none());
    assert!(Claims::at(5, u64::MAX, 0).is_none());
    let t = RefreshToken::at(7, 10, 1_000).unwrap();
    assert_eq!((t.user_id, t.created_at, t.expires_at), (7, 1_000, 10_001_000));
    assert!(RefreshToken::at(7, 10, i64::MAX - 5).is_none());
}

#[test]
fn argon_hashes_are_argon2id_v19_and_malformed_hashes_verify_nothing() {
    let hasher = argon2_password_hasher();
    let hash = hasher.hash_password("pw").unwrap();
    assert!(hash.starts_with("$argon2id$v=19$"));
    assert_ne!(hash, "pw");
    assert!(argon2_password_hasher().verify_user_password("pw", &hash));
    assert!(!hasher.verify_user_password("pw", ""));
    assert!(!hasher.verify_user_password("pw", "not-a-hash"));
}
