use yuehai_bookmark::common::error::AppError;
use yuehai_bookmark::modules::auth::dto::login::{check_login, LoginRequest, LoginResponse};
use yuehai_bookmark::modules::auth::dto::me::MeResponse;
use yuehai_bookmark::modules::auth::dto::register::{check_registration, is_valid_email, RegisterRequest};
use yuehai_bookmark::modules::auth::extractors::current_user::bearer_token;
use yuehai_bookmark::modules::auth::model::user::{SystemRole, User, UserStatus, UtcTime};

fn register(email: &str, password: &str, name: &str) -> Result<RegisterRequest, AppError> {
    RegisterRequest { email: email.to_string(), password: password.to_string(), display_name: name.to_string() }.validate()
}

fn bad_request(r: Result<RegisterRequest, AppError>) -> &'static str {
    match r {
        Err(AppError::BadRequest(m)) => m,
        Err(e) => panic!("unexpected error {:?}", e),
        Ok(_) => panic!("unexpectedly accepted"),
    }
}

#[test]
fn valid_emails() {
    assert!(is_valid_email("a@b.c"));
    assert!(is_valid_email("user.name@example.com"));
    assert!(is_valid_email("a@b@c.d"));
}

#[test]
fn invalid_emails() {
    for e in ["", "abc", "@b.c", "a@", "a@.b", "a@b.", "a@bc", "a@.", "@"] {
        assert!(!is_valid_email(e), "{:?}", e);
    }
}

#[test]
fn registration_is_cleaned() {
    let r = register("  Alice@Example.COM ", "password1", "  Alice  ").unwrap();
    assert_eq!(r.email, "alice@example.com");
    assert_eq!(r.password, "password1");
    assert_eq!(r.display_name, "Alice");
}

#[test]
fn registration_rules_in_order() {
    assert_eq!(bad_request(register("   ", "x", "")), "邮箱不能为空");
    assert_eq!(bad_request(register("alice", "", "")), "邮箱格式不正确");
    assert_eq!(bad_request(register("a@b.c", "", "")), "密码不能为空");
    assert_eq!(bad_request(register("a@b.c", "1234567", "")), "密码长度不能少于 8 个字符");
    assert_eq!(bad_request(register("a@b.c", "12345678", " \t ")), "显示名称不能为空");
    let long_name: String = std::iter::repeat('名').take(101).collect();
    assert_eq!(bad_request(register("a@b.c", "12345678", &long_name)), "显示名称长度不能超过 100 个字符");
    let max_name: String = std::iter::repeat('名').take(100).collect();
    assert!(register("a@b.c", "12345678", &max_name).is_ok());
}

#[test]
fn password_length_counts_chars_not_bytes() {
    assert_eq!(bad_request(register("a@b.c", "密码密码密码密", "n")), "密码长度不能少于 8 个字符");
    assert!(register("a@b.c", "密码密码密码密码", "n").is_ok());
}

#[test]
fn checking_a_clean_registration_again_keeps_it() {
    let first = register(" Bob@Example.org", "secret-pass", " Bob ").unwrap();
    let again = check_registration(first.email.clone(), first.password.clone(), first.display_name.clone()).unwrap();
    assert_eq!((again.email, again.password, again.display_name), (first.email, first.password, first.display_name));
}

#[test]
fn validating_an_accepted_registration_again_keeps_it() {
    let first = register("\u{3000} Carol@Example.NET\t", "carol-pass", "\u{a0}Carol ").unwrap();
    let again = register(&first.email, &first.password, &first.display_name).unwrap();
    assert_eq!((again.email, again.password, again.display_name), (first.email, first.password, first.display_name));
}

#[test]
fn unicode_white_space_around_an_email_is_ignored() {
    let padded = register("\u{3000}\u{2003}Dana@Example.com\u{85}\n", "dana-pass", "Dana").unwrap();
    let plain = register("Dana@Example.com", "dana-pass", "Dana").unwrap();
    assert_eq!(padded.email, plain.email);
    assert_eq!(padded.email, "dana@example.com");
}

#[test]
fn login_request_is_normalized() {
    let r = LoginRequest { email: " Bob@Example.ORG ".to_string(), password: "pw".to_string() }.validate().unwrap();
    assert_eq!(r.email, "bob@example.org");
    assert_eq!(r.password, "pw");
    assert!(matches!(check_login(String::new(), "pw".to_string()), Err(AppError::BadRequest("邮箱不能为空"))));
    assert!(matches!(check_login("a@b.c".to_string(), String::new()), Err(AppError::BadRequest("密码不能为空"))));
}

#[test]
fn bearer_tokens() {
    assert_eq!(bearer_token(Some("Bearer abc123")).unwrap(), "abc123");
    assert_eq!(bearer_token(Some("Bearer  x")).unwrap(), " x");
    assert!(matches!(bearer_token(Some("Bearer ")), Err(AppError::Unauthorized)));
    assert!(matches!(bearer_token(Some("bearer abc")), Err(AppError::Unauthorized)));
    assert!(matches!(bearer_token(Some("Basic abc")), Err(AppError::Unauthorized)));
    assert!(matches!(bearer_token(Some("")), Err(AppError::Unauthorized)));
    assert!(matches!(bearer_token(None), Err(AppError::Unauthorized)));
}

fn sample_user() -> User {
    User {
        id: 42,
        email: "a@b.c".to_string(),
        password_hash: "$argon2id$v=19$m=19456,t=2,p=1$c2FsdHNhbHQ$aGFzaA".to_string(),
        display_name: "A".to_string(),
        system_role: SystemRole::Admin,
        status: UserStatus::Active,
        email_verified_at: Some(UtcTime { unix_micros: 1 }),
        last_login_at: None,
        created_at: UtcTime { unix_micros: 2 },
        updated_at: UtcTime { unix_micros: 3 },
        deleted_at: None,
    }
}

#[test]
fn replies_expose_public_user_fields() {
    let login = LoginResponse::from_user(sample_user(), "tok".to_string(), "Bearer");
    assert_eq!(login.email, "a@b.c");
    assert_eq!(login.display_name, "A");
    assert_eq!(login.system_role, SystemRole::Admin);
    assert_eq!(login.status, UserStatus::Active);
    assert_eq!(login.email_verified_at, Some(UtcTime { unix_micros: 1 }));
    assert_eq!(login.last_login_at, None);
    assert_eq!(login.created_at, UtcTime { unix_micros: 2 });
    assert_eq!(login.updated_at, UtcTime { unix_micros: 3 });
    assert_eq!(login.access_token, "tok");
    assert_eq!(login.token_type, "Bearer");
    let me = MeResponse::from_user(sample_user());
    assert_eq!(me.id, 42);
    assert_eq!(me.email, "a@b.c");
    assert_eq!(me.created_at, UtcTime { unix_micros: 2 });
}
