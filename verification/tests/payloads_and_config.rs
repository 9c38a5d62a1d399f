use backend::adapters::http::routes::auth::LoginPayload;
use backend::adapters::http::routes::item::{AddItemPayload, PaginationQuery, UpdateItemPayload};
use backend::adapters::http::validation::PayloadError;
use backend::domain::entities::item_priority::ItemPriority;
use backend::infrastructure::config::{parse_u64, AppConfig, ConfigError};

fn login(email: &str, password: &str) -> LoginPayload {
    LoginPayload { email: email.to_string(), password: password.to_string() }
}

#[test]
fn login_payload_checks() {
    assert!(login("a@b.com", "pw").validate().is_ok());
    assert_eq!(login("not-an-email", "pw").validate(), Err(vec![PayloadError::InvalidEmail]));
    assert_eq!(login("a@b.com", &"x".repeat(256)).validate(), Err(vec![PayloadError::PasswordTooLong]));
    assert!(login("a@b.com", &"é".repeat(255)).validate().is_ok());
    assert_eq!(
        login("", &"x".repeat(300)).validate(),
        Err(vec![PayloadError::InvalidEmail, PayloadError::PasswordTooLong])
    );
    assert_eq!(PayloadError::InvalidEmail.message(), "Invalid email format");
    assert_eq!(PayloadError::PasswordTooLong.field(), "password");
}

#[test]
fn item_payload_checks() {
    let ok = AddItemPayload { title: "t".to_string(), description: None, assigned_to: None, priority: ItemPriority::Low };
    assert!(ok.validate().is_ok());
    let empty = AddItemPayload { title: "".to_string(), description: Some("d".repeat(2001)), assigned_to: None, priority: ItemPriority::Low };
    assert_eq!(empty.validate(), Err(vec![PayloadError::TitleLength, PayloadError::DescriptionTooLong]));
    let long = UpdateItemPayload { title: "t".repeat(256), description: Some("d".repeat(2000)), assigned_to: Some(1), priority: ItemPriority::High };
    assert_eq!(long.validate(), Err(vec![PayloadError::TitleLength]));
}

#[test]
fn pagination_defaults() {
    assert_eq!(PaginationQuery { limit: None, offset: None }.limit_and_offset(), (10, 0));
    assert_eq!(PaginationQuery { limit: Some(3), offset: Some(6) }.limit_and_offset(), (3, 6));
}

fn s(v: &str) -> Option<String> {
    Some(v.to_string())
}

#[test]
fn config_defaults_and_ttls() {
    let c = AppConfig::from_settings(None, None, s("secret"), None, None).unwrap();
    assert_eq!(c.host, "127.0.0.1");
    assert_eq!(c.port, "8080");
    assert_eq!(c.jwt_secret, "secret");
    assert_eq!(c.refresh_token_ttl, 30 * 86400);
    assert_eq!(c.access_token_ttl, 15 * 60);
    let c = AppConfig::from_settings(s("0.0.0.0"), s("9000"), s("k"), s("+2"), s("1")).unwrap();
    assert_eq!((c.host.as_str(), c.port.as_str()), ("0.0.0.0", "9000"));
    assert_eq!((c.refresh_token_ttl, c.access_token_ttl), (2 * 86400, 60));
}

#[test]
fn config_errors() {
    assert_eq!(AppConfig::from_settings(None, None, None, None, None).err(), Some(ConfigError::MissingJwtSecret));
    assert_eq!(AppConfig::from_settings(None, None, s("k"), s("ten"), None).err(), Some(ConfigError::InvalidRefreshTokenTtl));
    assert_eq!(AppConfig::from_settings(None, None, s("k"), s(" 1"), None).err(), Some(ConfigError::InvalidRefreshTokenTtl));
    assert_eq!(AppConfig::from_settings(None, None, s("k"), None, s("-1")).err(), Some(ConfigError::InvalidAccessTokenTtl));
    assert_eq!(
        AppConfig::from_settings(None, None, s("k"), None, s("18446744073709551615")).err(),
        Some(ConfigError::InvalidAccessTokenTtl)
    );
    assert_eq!(ConfigError::MissingJwtSecret.message(), "JWT_SECRET must be set");
}

#[test]
fn parse_u64_reads_as_from_str() {
    for text in ["0", "+12", "007", "18446744073709551615", "", "+", "-1", " 1", "1a", "18446744073709551616", "99999999999999999999"] {
        assert_eq!(parse_u64(text), text.parse::<u64>().ok(), "{:?}", text);
    }
    assert_eq!(parse_u64("+12"), Some(12));
    assert_eq!(parse_u64("18446744073709551616"), None);
}
