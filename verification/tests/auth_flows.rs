use yuehai_bookmark::common::error::AppError;
use yuehai_bookmark::modules::auth::dto::login::LoginRequest;
use yuehai_bookmark::modules::auth::dto::register::RegisterRequest;
use yuehai_bookmark::modules::auth::model::user::{SystemRole, User, UserStatus, UtcTime};
use yuehai_bookmark::modules::auth::service::auth::{
    authenticate_step, hash_access_token, issue_session_token, login_step, login_step_with, session_token_from_bytes,
    AuthAction, AuthEvent, AuthState, LoginAction, LoginEvent, LoginState,
};
use yuehai_bookmark::modules::auth::service::password::{hash_password, hash_password_with_salt, verify_password};
use yuehai_bookmark::modules::auth::service::user::{
    register_step, register_step_with, RegisterAction, RegisterEvent, RegisterState,
};

const SECRET: &[u8] = b"server-secret";

fn user_with_hash(password_hash: String) -> User {
    User {
        id: 7,
        email: "alice@example.com".to_string(),
        password_hash,
        display_name: "Alice".to_string(),
        system_role: SystemRole::User,
        status: UserStatus::Active,
        email_verified_at: None,
        last_login_at: None,
        created_at: UtcTime { unix_micros: 10 },
        updated_at: UtcTime { unix_micros: 20 },
        deleted_at: None,
    }
}

#[test]
fn hmac_sha256_matches_rfc_4231_case_1() {
    let key = [0x0bu8; 20];
    let h = hash_access_token("Hi There", &key).unwrap();
    assert_eq!(h, "b0344c61d8db38535ca8afceaf0bf12b881dc200c9833da726e9376c2e32cff7");
}

#[test]
fn token_from_bytes_is_hex_and_its_hash() {
    let bytes = [0xabu8; 32];
    let (token, hash) = session_token_from_bytes(&bytes, SECRET).unwrap();
    assert_eq!(token, "ab".repeat(32));
    assert_eq!(hash, hash_access_token(&token, SECRET).unwrap());
    assert_eq!(hash.len(), 64);
    assert_ne!(hash, token);
}

#[test]
fn issued_tokens_are_fresh_64_hex_chars() {
    let (t1, h1) = issue_session_token(SECRET).unwrap();
    let (t2, _) = issue_session_token(SECRET).unwrap();
    assert_eq!(t1.len(), 64);
    assert!(t1.chars().all(|c| matches!(c, '0'..='9' | 'a'..='f')));
    assert_ne!(t1, t2);
    assert_eq!(h1, hash_access_token(&t1, SECRET).unwrap());
    assert_ne!(h1, hash_access_token(&t1, b"other-secret").unwrap());
}

#[test]
fn password_hash_round_trip() {
    let h = hash_password_with_salt("correct horse", &[7u8; 32]).unwrap();
    assert!(h.starts_with("$argon2id$v=19$m=19456,t=2,p=1$"));
    assert_ne!(h, "correct horse");
    assert_eq!(h, hash_password_with_salt("correct horse", &[7u8; 32]).unwrap());
    assert_ne!(h, hash_password_with_salt("correct horse", &[8u8; 32]).unwrap());
    assert!(verify_password("correct horse".to_string(), h.clone()).is_ok());
    assert!(matches!(verify_password("wrong horse".to_string(), h), Err(AppError::InvalidCredentials)));
    assert!(matches!(verify_password("x".to_string(), "not a hash".to_string()), Err(AppError::Internal)));
    let random = hash_password("correct horse".to_string()).unwrap();
    assert!(verify_password("correct horse".to_string(), random).is_ok());
}

fn begin_login(email: &str, password: &str) -> (LoginState, LoginAction) {
    login_step(
        LoginState::Start(LoginRequest { email: email.to_string(), password: password.to_string() }),
        LoginEvent::Begin,
        SECRET,
    )
}

#[test]
fn login_unknown_email_and_wrong_password_answer_alike() {
    let (state, action) = begin_login(" Alice@Example.com", "password1");
    match &action {
        LoginAction::FindActiveUserByEmail(e) => assert_eq!(e, "alice@example.com"),
        _ => panic!("expected a lookup"),
    }
    let (_, unknown) = login_step(state, LoginEvent::UserFound(None), SECRET);
    assert!(matches!(unknown, LoginAction::Reply(Err(AppError::InvalidCredentials))));

    let (state, _) = begin_login("alice@example.com", "wrong-password");
    let user = user_with_hash(hash_password("password1".to_string()).unwrap());
    let (next, wrong) = login_step(state, LoginEvent::UserFound(Some(user)), SECRET);
    assert!(matches!(next, LoginState::Done));
    assert!(matches!(wrong, LoginAction::Reply(Err(AppError::InvalidCredentials))));
}

#[test]
fn login_refuses_empty_fields() {
    let (_, a) = begin_login("  ", "x");
    assert!(matches!(a, LoginAction::Reply(Err(AppError::BadRequest("邮箱不能为空")))));
    let (_, a) = begin_login("a@b.c", "");
    assert!(matches!(a, LoginAction::Reply(Err(AppError::BadRequest("密码不能为空")))));
}

#[test]
fn login_then_authenticate_finds_the_stored_session() {
    let (state, _) = begin_login("alice@example.com", "password1");
    let user = user_with_hash(hash_password("password1".to_string()).unwrap());
    let (state, store) = login_step(state, LoginEvent::UserFound(Some(user)), SECRET);
    let stored_hash = match store {
        LoginAction::StoreSession { user_id, token_hash } => {
            assert_eq!(user_id, 7);
            token_hash
        }
        _ => panic!("expected a session to store"),
    };
    let (state, reply) = login_step(state, LoginEvent::SessionStored, SECRET);
    assert!(matches!(state, LoginState::Done));
    let response = match reply {
        LoginAction::Reply(Ok(r)) => r,
        _ => panic!("expected a successful reply"),
    };
    assert_eq!(response.email, "alice@example.com");
    assert_eq!(response.token_type, "Bearer");
    assert_eq!(response.access_token.len(), 64);

    let (state, lookup) = authenticate_step(AuthState::Start(response.access_token.clone()), AuthEvent::Begin, SECRET);
    match lookup {
        AuthAction::FindActiveSession(h) => assert_eq!(h, stored_hash),
        _ => panic!("expected a session lookup"),
    }
    let (state, find_user) = authenticate_step(state, AuthEvent::SessionFound(Some(7)), SECRET);
    assert!(matches!(find_user, AuthAction::FindActiveUserById(7)));
    let (state, reply) = authenticate_step(state, AuthEvent::UserFound(Some(user_with_hash(String::new()))), SECRET);
    assert!(matches!(state, AuthState::Done));
    assert!(matches!(reply, AuthAction::Reply(Ok(ref u)) if u.id == 7));
}

#[test]
fn authentication_refusals() {
    let (_, a) = authenticate_step(AuthState::Start(String::new()), AuthEvent::Begin, SECRET);
    assert!(matches!(a, AuthAction::Reply(Err(AppError::Unauthorized))));
    let (_, a) = authenticate_step(AuthState::AwaitSession, AuthEvent::SessionFound(None), SECRET);
    assert!(matches!(a, AuthAction::Reply(Err(AppError::Unauthorized))));
    let (_, a) = authenticate_step(AuthState::AwaitUser, AuthEvent::UserFound(None), SECRET);
    assert!(matches!(a, AuthAction::Reply(Err(AppError::Unauthorized))));
    let (_, a) = authenticate_step(AuthState::AwaitUser, AuthEvent::DatabaseFailed(sqlx::Error::PoolTimedOut), SECRET);
    assert!(matches!(a, AuthAction::Reply(Err(AppError::Database(sqlx::Error::PoolTimedOut)))));
    let (_, a) = authenticate_step(AuthState::Done, AuthEvent::Begin, SECRET);
    assert!(matches!(a, AuthAction::Reply(Err(AppError::Internal))));
}

fn begin_register(email: &str, password: &str, name: &str) -> (RegisterState, RegisterAction) {
    register_step(
        RegisterState::Start(RegisterRequest {
            email: email.to_string(),
            password: password.to_string(),
            display_name: name.to_string(),
        }),
        RegisterEvent::Begin,
        SECRET,
    )
}

#[test]
fn registration_inserts_a_cleaned_user_with_a_verifiable_hash() {
    let (state, action) = begin_register(" Carol@Example.com ", "carol-pass", " Carol ");
    assert!(matches!(state, RegisterState::AwaitUser));
    let (email, password_hash, display_name) = match action {
        RegisterAction::InsertUser { email, password_hash, display_name } => (email, password_hash, display_name),
        _ => panic!("expected an insert"),
    };
    assert_eq!(email, "carol@example.com");
    assert_eq!(display_name, "Carol");
    assert!(verify_password("carol-pass".to_string(), password_hash.clone()).is_ok());

    let mut user = user_with_hash(password_hash);
    user.id = 9;
    let (state, store) = register_step(state, RegisterEvent::UserInserted(user), SECRET);
    let stored_hash = match store {
        RegisterAction::StoreSession { user_id, token_hash } => {
            assert_eq!(user_id, 9);
            token_hash
        }
        _ => panic!("expected a session to store"),
    };
    let (_, reply) = register_step(state, RegisterEvent::SessionStored, SECRET);
    let response = match reply {
        RegisterAction::Reply(Ok(r)) => r,
        _ => panic!("expected a successful reply"),
    };
    assert_eq!(hash_access_token(&response.access_token, SECRET).unwrap(), stored_hash);
}

#[test]
fn registered_password_logs_in() {
    let (_, action) = begin_register("dave@example.com", "dave-pass-1", "Dave");
    let hash = match action {
        RegisterAction::InsertUser { password_hash, .. } => password_hash,
        _ => panic!("expected an insert"),
    };
    let (state, _) = begin_login("dave@example.com", "dave-pass-1");
    let (_, a) = login_step(state, LoginEvent::UserFound(Some(user_with_hash(hash))), SECRET);
    assert!(matches!(a, LoginAction::StoreSession { .. }));
}

#[test]
fn registration_refusals() {
    let (_, a) = begin_register("not-an-email", "password1", "x");
    assert!(matches!(a, RegisterAction::Reply(Err(AppError::BadRequest("邮箱格式不正确")))));
    let (_, a) = register_step(
        RegisterState::AwaitUser,
        RegisterEvent::InsertFailed { error: sqlx::Error::RowNotFound, code: Some("23505".to_string()) },
        SECRET,
    );
    assert!(matches!(a, RegisterAction::Reply(Err(AppError::BadRequest("邮箱已经注册")))));
    let (_, a) = register_step(
        RegisterState::AwaitUser,
        RegisterEvent::InsertFailed { error: sqlx::Error::RowNotFound, code: Some("23503".to_string()) },
        SECRET,
    );
    assert!(matches!(a, RegisterAction::Reply(Err(AppError::Database(sqlx::Error::RowNotFound)))));
    let (_, a) = register_step(
        RegisterState::AwaitUser,
        RegisterEvent::InsertFailed { error: sqlx::Error::RowNotFound, code: None },
        SECRET,
    );
    assert!(matches!(a, RegisterAction::Reply(Err(AppError::Database(_)))));
    let (_, a) = register_step(RegisterState::AwaitUser, RegisterEvent::DatabaseFailed(sqlx::Error::PoolClosed), SECRET);
    assert!(matches!(a, RegisterAction::Reply(Err(AppError::Database(sqlx::Error::PoolClosed)))));
    let (_, a) = register_step(RegisterState::Done, RegisterEvent::SessionStored, SECRET);
    assert!(matches!(a, RegisterAction::Reply(Err(AppError::Internal))));
}

#[test]
fn login_with_padded_email_looks_up_the_registered_one() {
    let (_, insert) = begin_register("Erin@Example.com", "erin-pass-1", "Erin");
    let stored_email = match insert {
        RegisterAction::InsertUser { email, .. } => email,
        _ => panic!("expected an insert"),
    };
    let (_, lookup) = begin_login("\u{3000} Erin@Example.com\t\n", "erin-pass-1");
    match lookup {
        LoginAction::FindActiveUserByEmail(email) => assert_eq!(email, stored_email),
        _ => panic!("expected a lookup"),
    }
}

#[test]
fn login_with_given_token_bytes_is_deterministic() {
    let hash = hash_password_with_salt("password1", &[3u8; 32]).unwrap();
    let (state, _) = begin_login("alice@example.com", "password1");
    let (next, action) =
        login_step_with(state, LoginEvent::UserFound(Some(user_with_hash(hash.clone()))), SECRET, Some(vec![0x11u8; 32]));
    match (next, action) {
        (LoginState::AwaitSession { access_token, .. }, LoginAction::StoreSession { user_id, token_hash }) => {
            assert_eq!(access_token, "11".repeat(32));
            assert_eq!(user_id, 7);
            assert_eq!(token_hash, hash_access_token(&access_token, SECRET).unwrap());
        }
        _ => panic!("expected a session to store"),
    }
    let (state, _) = begin_login("alice@example.com", "password1");
    let (_, action) = login_step_with(state, LoginEvent::UserFound(Some(user_with_hash(hash))), SECRET, None);
    assert!(matches!(action, LoginAction::Reply(Err(AppError::Internal))));
}

#[test]
fn registration_with_given_salt_is_deterministic() {
    let request = || RegisterRequest {
        email: "Frank@Example.com".to_string(),
        password: "frank-pass".to_string(),
        display_name: "Frank".to_string(),
    };
    let (_, action) = register_step_with(RegisterState::Start(request()), RegisterEvent::Begin, SECRET, Some(vec![5u8; 32]));
    match action {
        RegisterAction::InsertUser { password_hash, .. } => {
            assert_eq!(password_hash, hash_password_with_salt("frank-pass", &[5u8; 32]).unwrap())
        }
        _ => panic!("expected an insert"),
    }
    let (_, action) = register_step_with(RegisterState::Start(request()), RegisterEvent::Begin, SECRET, None);
    assert!(matches!(action, RegisterAction::Reply(Err(AppError::Internal))));
    let (_, action) =
        register_step_with(RegisterState::AwaitUser, RegisterEvent::UserInserted(user_with_hash(String::new())), SECRET, None);
    assert!(matches!(action, RegisterAction::Reply(Err(AppError::Internal))));
}

#[test]
fn registration_refuses_an_unusable_salt() {
    let request = || RegisterRequest {
        email: "gina@example.com".to_string(),
        password: "gina-pass-1".to_string(),
        display_name: "Gina".to_string(),
    };
    for salt in [vec![], vec![1u8; 2], vec![1u8; 7], vec![1u8; 49]] {
        let (_, action) = register_step_with(RegisterState::Start(request()), RegisterEvent::Begin, SECRET, Some(salt));
        assert!(matches!(action, RegisterAction::Reply(Err(AppError::Internal))));
    }
    for len in [8usize, 48] {
        let (_, action) =
            register_step_with(RegisterState::Start(request()), RegisterEvent::Begin, SECRET, Some(vec![2u8; len]));
        assert!(matches!(action, RegisterAction::InsertUser { .. }));
    }
}

#[test]
fn other_case_and_padding_find_the_same_account() {
    let (_, insert) = begin_register("Alice@Example.com", "password1", "A");
    let first = match insert {
        RegisterAction::InsertUser { email, .. } => email,
        _ => panic!("expected an insert"),
    };
    let (_, insert) = begin_register("  alice@EXAMPLE.COM ", "password2", "B");
    let second = match insert {
        RegisterAction::InsertUser { email, .. } => email,
        _ => panic!("expected an insert"),
    };
    assert_eq!(first, second);
    let (_, lookup) = begin_login(" ALICE@example.Com", "password1");
    assert!(matches!(lookup, LoginAction::FindActiveUserByEmail(ref e) if *e == first));
}
