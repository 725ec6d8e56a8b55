use mkk_basis::adapter::config::ConfigError;
use mkk_basis::adapter::email::{Email, EmailSender};
use mkk_basis::adapter::helpers::{is_valid_email, rand_str_limit};
use mkk_basis::adapter::jwt::{JWTError, Jwt, TYPE_ACCESS, TYPE_REFRESH};
use mkk_basis::adapter::logger::{level_filter, LevelFilter};
use mkk_basis::consts;
use mkk_basis::custom_error::CustomError;
use mkk_basis::err_msg::ErrMsg;
use mkk_basis::types::{DateTime, Uuid};
use mkk_basis::usecase::UseCase;
use mkk_basis::adapter::db::postgres::Postgres;
use std::time::Duration;

#[test]
fn uuid_text() {
    let u = Uuid { value: 0x0123456789abcdef0123456789abcdef };
    assert_eq!(u.to_string(), "01234567-89ab-cdef-0123-456789abcdef");
    assert_eq!(u.simple_string(), "0123456789abcdef0123456789abcdef");
    assert_eq!(Uuid::parse_str(&u.to_string()), Ok(u));
    assert_eq!(Uuid::parse_str("{01234567-89ab-cdef-0123-456789abcdef}"), Ok(u));
    assert!(Uuid::parse_str("0123").is_err());
    assert_eq!(Uuid::nil().to_string(), "00000000-0000-0000-0000-000000000000");
    assert_ne!(Uuid::new_v4(), Uuid::new_v4());
    let v = Uuid::new_v4().value;
    assert_eq!((v >> 76) & 0xf, 4);
    assert_eq!((v >> 62) & 0x3, 2);
}

#[test]
fn instants() {
    let d = DateTime::from_timestamp(1431648000, 0).unwrap();
    assert_eq!(d.to_string(), "2015-05-15 00:00:00 UTC");
    assert_eq!(d.timestamp(), 1431648000);
    assert_eq!(DateTime::default().to_string(), "1970-01-01 00:00:00 UTC");
    assert!(DateTime::from_timestamp(0, 2_000_000_000).is_none());
    assert!(DateTime::from_timestamp(i64::MAX, 0).is_none());
    assert!(DateTime::now().timestamp() > 1431648000);
}

#[test]
fn instant_range_edges() {
    assert!(DateTime::from_timestamp(8_210_266_876_799, 999_999_999).is_some());
    assert!(DateTime::from_timestamp(8_210_266_876_800, 0).is_none());
    assert!(DateTime::from_timestamp(-8_334_601_228_800, 0).is_some());
    assert!(DateTime::from_timestamp(-8_334_601_228_801, 0).is_none());
    assert!(DateTime::from_timestamp(59, 1_500_000_000).is_some());
    assert!(DateTime::from_timestamp(-1, 1_999_999_999).is_some());
    assert!(DateTime::from_timestamp(58, 1_000_000_000).is_none());
    assert!(DateTime::from_timestamp(59, 2_000_000_000).is_none());
}

#[test]
fn envelopes() {
    let mail = Email::new("smtp.example.com", "login", "pass", "support@example.com", "support", Duration::from_secs(3));
    let env = mail.envelope("user@example.org").unwrap();
    assert_eq!(env.from.address().to_string(), "support@example.com");
    assert_eq!(env.to.address().to_string(), "user@example.org");
    assert_eq!((env.from.user(), env.from.domain()), ("support", "example.com"));
    assert_eq!((env.to.user(), env.to.domain()), ("user", "example.org"));
    assert_eq!(env.from_name, "support");
    assert_eq!(mail.envelope("nobody").err().as_deref(), Some("invalid email: missing @ from 'to'"));
    assert!(mail
        .envelope("a b@example.org")
        .err()
        .unwrap()
        .starts_with("failed to create address from 'to': "));
    let bad = Email::new("h", "l", "p", "support", "s", Duration::from_secs(1));
    assert_eq!(bad.envelope("a@b.ru").err().as_deref(), Some("invalid email: missing @ from 'from'"));
    assert_eq!(mail.host(), "smtp.example.com");
    assert_eq!(mail.timeout(), Duration::from_secs(3));
}

#[test]
fn token_claims() {
    let jwt = Jwt::new(vec![7; 32], consts::ACCESS_TOKEN_TTL_SEC, consts::REFRESH_TOKEN_TTL_SEC);
    let a = jwt.access_claims(Uuid { value: 1 }, Some("admin".to_string()), 1_000);
    assert_eq!((a.exp, a.iat), (2_200, 1_000));
    assert_eq!(a.token_type, TYPE_ACCESS);
    assert_eq!(a.role.as_deref(), Some("admin"));
    let r = jwt.refresh_claims(Uuid { value: 1 }, 1_000);
    assert_eq!((r.exp, r.iat), (2_593_000, 1_000));
    assert_eq!(r.token_type, TYPE_REFRESH);
    assert_ne!(TYPE_ACCESS, TYPE_REFRESH);
    assert_eq!(jwt.private_key_bytes(), &[7u8; 32][..]);
    assert_eq!(jwt.access_expire_secs(), 1_200);
    assert_eq!(jwt.refresh_expire_secs(), 2_592_000);
    assert!(matches!(JWTError::from_failure(true, "x".to_string()), JWTError::ExpiredToken));
    assert_eq!(JWTError::from_failure(false, "InvalidToken".to_string()).to_string(), "InvalidToken");
    assert_eq!(JWTError::ExpiredToken.to_string(), "token expired");
}

#[test]
fn log_levels() {
    assert_eq!(level_filter("INFO"), LevelFilter::Info);
    assert_eq!(level_filter("Warn"), LevelFilter::Warn);
    assert_eq!(level_filter("error"), LevelFilter::Error);
    assert_eq!(level_filter("trace"), LevelFilter::Debug);
    assert_eq!(level_filter(""), LevelFilter::Debug);
}

#[test]
fn email_validity_and_random_text() {
    assert!(is_valid_email("user.name+tag+sorting@example.com"));
    assert!(!is_valid_email("Abc.example.com"));
    assert!(!is_valid_email(""));
    let s = rand_str_limit(12);
    assert_eq!(s.chars().count(), 12);
    assert!(s.chars().all(|c| c.is_ascii_alphanumeric()));
    assert_eq!(rand_str_limit(0), "");
}

#[test]
fn messages() {
    assert_eq!(ErrMsg::PasswordIsShort.to_string(), "пароль слишком короткий, нужно более или равно 5");
    assert_eq!(ErrMsg::NotFoundItem.to_string(), "запись не найдена");
    assert_eq!(ConfigError::build_failed("no file").to_string(), "failed to build: no file");
    assert_eq!(ConfigError::deserialize_failed("bad").to_string(), "failed to deserialize: bad");
    let e = CustomError::new(404, "nope".to_string(), "missing row".to_string());
    assert_eq!(
        e.to_string(),
        "Custom error. status code - 404 Not Found, public msg - nope, internal error msg - missing row"
    );
    assert_eq!(e.into_response(), (404, "nope".to_string()));
    let e = CustomError::from_str("oops");
    assert_eq!(
        e.to_string(),
        "Custom error. status code - 500 Internal Server Error, public msg - oops, internal error msg - oops"
    );
    assert_eq!(CustomError::from_string("x".to_string()).into_response(), (500, "x".to_string()));
}

struct Recorder;

impl EmailSender for Recorder {
    fn send(&self, _to: &str, _subject: &str, _body: &str) -> Result<(), String> {
        Err("offline".to_string())
    }
}

#[test]
fn use_case_wiring() {
    let uc = UseCase::new(
        "https://example.com".to_string(),
        Postgres::new(),
        Jwt::new(vec![1], 1, 2),
        Recorder,
    );
    let reg = uc.auth.register("a@b.ru", "12345", "12345", true, true).unwrap();
    assert_eq!(reg.email_subject, "Confirm email from https://example.com");
    assert!(uc.auth.email_sender().send("a@b.ru", "s", "b").is_err());
    assert_eq!(uc.users.users_repo().delete_query(), "DELETE FROM users WHERE user_id=$1");
}
