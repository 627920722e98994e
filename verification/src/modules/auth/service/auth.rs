//! Session tokens, and the decision steps of login and of token authentication.

use crate::common::error::AppError;
use crate::common::text::{hex_encode, hex_of, is_lower_hex, lemma_hex_of_shape};
use crate::modules::auth::dto::login::{
    login_response_spec, LoginRequest, LoginResponse,
};
use crate::modules::auth::dto::register::normalized_email;
use crate::modules::auth::model::user::User;
use crate::modules::auth::service::password::{
    argon2_accepts, phc_parses, random_bytes, verify_password,
};
use hmac::{Hmac, KeyInit, Mac};
use sha2::Sha256;
use vstd::prelude::*;
use vstd::string::StrSliceExecFns;
use vstd::utf8::encode_utf8;

verus! {

/// Name for the HMAC-SHA-256 tag of `msg` under `key`, as computed by the `hmac` crate.
pub uninterp spec fn hmac_sha256(key: Seq<u8>, msg: Seq<u8>) -> Seq<u8>;

/// `Hmac::<Sha256>::new_from_slice(key)`, `update(msg)`, `finalize().into_bytes()`. HMAC
/// accepts keys of any length (the `hmac` source never returns its `InvalidLength` error),
/// and the SHA-256 tag has 32 bytes.
#[verifier::external_body]
fn hmac_sha256_tag(key: &[u8], msg: &[u8]) -> (r: Option<Vec<u8>>)
    ensures
        r is Some,
        r matches Some(t) ==> t@ == hmac_sha256(key@, msg@) && t@.len() == 32,
{
    let mut mac = <Hmac<Sha256> as KeyInit>::new_from_slice(key).ok()?;
    mac.update(msg);
    Some(mac.finalize().into_bytes().as_slice().to_vec())
}

/// What the database stores for a session token: the lowercase hexadecimal HMAC-SHA-256 of
/// the token's UTF-8 bytes under the server secret.
pub open spec fn session_token_hash(secret: Seq<u8>, token: Seq<char>) -> Seq<char> {
    hex_of(hmac_sha256(secret, encode_utf8(token)))
}

/// Computes the stored form of a session token: HMAC-SHA-256 under `secret`, as 64 lowercase
/// hexadecimal chars.
pub fn hash_access_token(access_token: &str, secret: &[u8]) -> (r: Result<String, AppError>)
    ensures
        r matches Ok(h) && h@ == session_token_hash(secret@, access_token@) && h@.len() == 64
            && is_lower_hex(h@),
{
    let tag = match hmac_sha256_tag(secret, access_token.as_bytes()) {
        Some(tag) => tag,
        None => return Err(AppError::Internal),
    };
    Ok(hex_encode(tag.as_slice()))
}

/// The session token made from these random bytes (their hexadecimal encoding) and its
/// stored hash.
pub fn session_token_from_bytes(token_bytes: &[u8], secret: &[u8]) -> (r: Result<
    (String, String),
    AppError,
>)
    ensures
        r matches Ok((token, hash)) && token@ == hex_of(token_bytes@) && hash@
            == session_token_hash(secret@, token@),
{
    let access_token = hex_encode(token_bytes);
    let token_hash = hash_access_token(access_token.as_str(), secret);
    match token_hash {
        Ok(h) => Ok((access_token, h)),
        Err(e) => Err(e),
    }
}

/// A freshly issued token: 64 lowercase hexadecimal chars encoding 32 bytes, with `hash`
/// its stored form.
pub open spec fn is_issued_token(secret: Seq<u8>, token: Seq<char>, hash: Seq<char>) -> bool {
    &&& exists|b: Seq<u8>| b.len() == 32 && #[trigger] hex_of(b) == token
    &&& token.len() == 64
    &&& is_lower_hex(token)
    &&& hash == session_token_hash(secret, token)
}

/// Issues a session token from 32 secure random bytes and returns it with its stored hash;
/// an internal error when the random source fails.
pub fn issue_session_token(secret: &[u8]) -> (r: Result<(String, String), AppError>)
    ensures
        r matches Ok((token, hash)) ==> is_issued_token(secret@, token@, hash@),
        r matches Err(e) ==> e is Internal,
{
    let token_bytes = match random_bytes(32) {
        Some(b) => b,
        None => return Err(AppError::Internal),
    };
    let r = session_token_from_bytes(token_bytes.as_slice(), secret);
    proof {
        lemma_hex_of_shape(token_bytes@);
    }
    r
}

/// Where a login stands between two steps.
pub enum LoginState {
    /// Nothing done yet for this request.
    Start(LoginRequest),
    /// The request is checked; the active user with its email is being looked up.
    AwaitUser(LoginRequest),
    /// The password matched; the session row is being stored.
    AwaitSession { user: User, access_token: String },
    /// A reply was given.
    Done,
}

/// What the caller reports back to a login step.
pub enum LoginEvent {
    /// Start the login.
    Begin,
    /// The active, not deleted user with the requested email, if any.
    UserFound(Option<User>),
    /// The session row was stored and the transaction committed.
    SessionStored,
    /// The last database operation failed.
    DatabaseFailed(sqlx::Error),
}

/// What a login step asks the caller to do.
pub enum LoginAction {
    /// Look up the active, not deleted user with this (normalized) email.
    FindActiveUserByEmail(String),
    /// In one transaction, store a session of this user under this token hash.
    StoreSession { user_id: i64, token_hash: String },
    /// Answer the request.
    Reply(Result<LoginResponse, AppError>),
}

/// The bytes held by an optional buffer.
pub open spec fn bytes_of(b: Option<Vec<u8>>) -> Option<Seq<u8>> {
    match b {
        Some(v) => Some(v@),
        None => None,
    }
}

/// The step after a looked-up user, for this request, this secret and these random bytes
/// (`None` when the random source failed). Unknown email: `InvalidCredentials`. Unparsable
/// stored hash: internal error. Wrong password: `InvalidCredentials`. Right password: the
/// token encoding the random bytes is issued and its hash stored, or an internal error when
/// there are no random bytes.
pub open spec fn login_after_lookup(
    request: LoginRequest,
    found: Option<User>,
    secret: Seq<u8>,
    token_bytes: Option<Seq<u8>>,
    next: LoginState,
    action: LoginAction,
) -> bool {
    match found {
        None => next is Done && action == LoginAction::Reply(Err(AppError::InvalidCredentials)),
        Some(user) => if !phc_parses(user.password_hash@) {
            next is Done && action == LoginAction::Reply(Err(AppError::Internal))
        } else if !argon2_accepts(encode_utf8(request.password@), user.password_hash@) {
            next is Done && action == LoginAction::Reply(Err(AppError::InvalidCredentials))
        } else {
            match token_bytes {
                None => next is Done && action == LoginAction::Reply(Err(AppError::Internal)),
                Some(b) => {
                    &&& next matches LoginState::AwaitSession { user: u, access_token: t } && u
                        == user && t@ == hex_of(b)
                    &&& action matches LoginAction::StoreSession { user_id, token_hash } && user_id
                        == user.id && token_hash@ == session_token_hash(secret, hex_of(b))
                },
            }
        },
    }
}

/// The login transition: from a state, what the caller reports and the random bytes drawn
/// for a token, the next state and what the caller must do. The database work is the
/// caller's; every decision is here.
pub open spec fn login_transition(
    state: LoginState,
    event: LoginEvent,
    secret: Seq<u8>,
    token_bytes: Option<Seq<u8>>,
    next: LoginState,
    action: LoginAction,
) -> bool {
    match (state, event) {
        (_, LoginEvent::DatabaseFailed(e)) => next is Done && action == LoginAction::Reply(
            Err(AppError::Database(e)),
        ),
        (LoginState::Start(request), LoginEvent::Begin) => {
            let email = normalized_email(request.email@);
            if email.len() == 0 {
                &&& next is Done
                &&& action matches LoginAction::Reply(Err(AppError::BadRequest(m))) && m@
                    == "邮箱不能为空"@
            } else if request.password@.len() == 0 {
                &&& next is Done
                &&& action matches LoginAction::Reply(Err(AppError::BadRequest(m))) && m@
                    == "密码不能为空"@
            } else {
                &&& next matches LoginState::AwaitUser(r) && r.email@ == email && r.password@
                    == request.password@
                &&& action matches LoginAction::FindActiveUserByEmail(e) && e@ == email
            }
        },
        (LoginState::AwaitUser(request), LoginEvent::UserFound(found)) => login_after_lookup(
            request,
            found,
            secret,
            token_bytes,
            next,
            action,
        ),
        (LoginState::AwaitSession { user, access_token }, LoginEvent::SessionStored) => next is Done
            && action == LoginAction::Reply(
            Ok(login_response_spec(user, access_token, "Bearer")),
        ),
        _ => next is Done && action == LoginAction::Reply(Err(AppError::Internal)),
    }
}

/// One step of a login, given the random bytes for a new token (`None` when the random
/// source failed; used only when a password has just matched).
pub fn login_step_with(
    state: LoginState,
    event: LoginEvent,
    secret: &[u8],
    token_bytes: Option<Vec<u8>>,
) -> (r: (LoginState, LoginAction))
    ensures
        login_transition(state, event, secret@, bytes_of(token_bytes), r.0, r.1),
        state matches LoginState::Start(request) ==> (event is Begin ==> (r.0 matches LoginState::AwaitUser(
            checked,
        ) ==> checked.password@ == request.password@ && checked.email@ == normalized_email(
            request.email@,
        ))),
{
    match (state, event) {
        (_, LoginEvent::DatabaseFailed(e)) => (
            LoginState::Done,
            LoginAction::Reply(Err(AppError::Database(e))),
        ),
        (LoginState::Start(request), LoginEvent::Begin) => {
            match request.validate() {
                Err(e) => (LoginState::Done, LoginAction::Reply(Err(e))),
                Ok(checked) => {
                    let email = checked.email.clone();
                    (LoginState::AwaitUser(checked), LoginAction::FindActiveUserByEmail(email))
                },
            }
        },
        (LoginState::AwaitUser(request), LoginEvent::UserFound(found)) => {
            match found {
                None => (LoginState::Done, LoginAction::Reply(Err(AppError::InvalidCredentials))),
                Some(user) => {
                    match verify_password(request.password, user.password_hash.clone()) {
                        Err(e) => (LoginState::Done, LoginAction::Reply(Err(e))),
                        Ok(()) => {
                            let bytes = match token_bytes {
                                Some(b) => b,
                                None => {
                                    return (
                                        LoginState::Done,
                                        LoginAction::Reply(Err(AppError::Internal)),
                                    )
                                },
                            };
                            match session_token_from_bytes(bytes.as_slice(), secret) {
                                Err(e) => (LoginState::Done, LoginAction::Reply(Err(e))),
                                Ok((access_token, token_hash)) => {
                                    let user_id = user.id;
                                    (
                                        LoginState::AwaitSession { user, access_token },
                                        LoginAction::StoreSession { user_id, token_hash },
                                    )
                                },
                            }
                        },
                    }
                },
            }
        },
        (LoginState::AwaitSession { user, access_token }, LoginEvent::SessionStored) => (
            LoginState::Done,
            LoginAction::Reply(Ok(LoginResponse::from_user(user, access_token, "Bearer"))),
        ),
        _ => (LoginState::Done, LoginAction::Reply(Err(AppError::Internal))),
    }
}

/// One step of a login. When a looked-up user is reported, 32 bytes are drawn from the
/// operating system's random source for the token that a matching password gets.
pub fn login_step(state: LoginState, event: LoginEvent, secret: &[u8]) -> (r: (
    LoginState,
    LoginAction,
))
    ensures
        exists|token_bytes: Option<Seq<u8>>|
            (token_bytes matches Some(b) ==> b.len() == 32) && #[trigger] login_transition(
                state,
                event,
                secret@,
                token_bytes,
                r.0,
                r.1,
            ),
{
    let draws = match (&state, &event) {
        (LoginState::AwaitUser(_), LoginEvent::UserFound(Some(_))) => true,
        _ => false,
    };
    let token_bytes = if draws {
        random_bytes(32)
    } else {
        None
    };
    let ghost drawn = bytes_of(token_bytes);
    let r = login_step_with(state, event, secret, token_bytes);
    assert(drawn matches Some(b) ==> b.len() == 32);
    r
}

/// Where a token authentication stands between two steps.
pub enum AuthState {
    /// Nothing done yet for this raw token.
    Start(String),
    /// The token's active session is being looked up.
    AwaitSession,
    /// The session's active user is being looked up.
    AwaitUser,
    /// A reply was given.
    Done,
}

/// What the caller reports back to an authentication step.
pub enum AuthEvent {
    /// Start the authentication.
    Begin,
    /// The user id of the unexpired, unrevoked session with the requested hash, if any.
    SessionFound(Option<i64>),
    /// The active, not deleted user with the requested id, if any.
    UserFound(Option<User>),
    /// The last database operation failed.
    DatabaseFailed(sqlx::Error),
}

/// What an authentication step asks the caller to do.
pub enum AuthAction {
    /// Look up the unexpired, unrevoked session stored under this token hash.
    FindActiveSession(String),
    /// Look up the active, not deleted user with this id.
    FindActiveUserById(i64),
    /// Answer: the authenticated user, or why not.
    Reply(Result<User, AppError>),
}

/// The authentication transition: from a state and what the caller reports, the next state
/// and what the caller must do.
pub open spec fn auth_transition(
    state: AuthState,
    event: AuthEvent,
    secret: Seq<u8>,
    next: AuthState,
    action: AuthAction,
) -> bool {
    match (state, event) {
        (_, AuthEvent::DatabaseFailed(e)) => next is Done && action == AuthAction::Reply(
            Err(AppError::Database(e)),
        ),
        (AuthState::Start(token), AuthEvent::Begin) => if token@.len() == 0 {
            next is Done && action == AuthAction::Reply(Err(AppError::Unauthorized))
        } else {
            &&& next is AwaitSession
            &&& action matches AuthAction::FindActiveSession(h) && h@ == session_token_hash(
                secret,
                token@,
            )
        },
        (AuthState::AwaitSession, AuthEvent::SessionFound(found)) => match found {
            None => next is Done && action == AuthAction::Reply(Err(AppError::Unauthorized)),
            Some(user_id) => next is AwaitUser && action == AuthAction::FindActiveUserById(user_id),
        },
        (AuthState::AwaitUser, AuthEvent::UserFound(found)) => match found {
            None => next is Done && action == AuthAction::Reply(Err(AppError::Unauthorized)),
            Some(user) => next is Done && action == AuthAction::Reply(Ok(user)),
        },
        _ => next is Done && action == AuthAction::Reply(Err(AppError::Internal)),
    }
}

/// One step of authenticating a raw session token.
pub fn authenticate_step(state: AuthState, event: AuthEvent, secret: &[u8]) -> (r: (
    AuthState,
    AuthAction,
))
    ensures
        auth_transition(state, event, secret@, r.0, r.1),
{
    match (state, event) {
        (_, AuthEvent::DatabaseFailed(e)) => (
            AuthState::Done,
            AuthAction::Reply(Err(AppError::Database(e))),
        ),
        (AuthState::Start(token), AuthEvent::Begin) => {
            if token.as_str().unicode_len() == 0 {
                return (AuthState::Done, AuthAction::Reply(Err(AppError::Unauthorized)));
            }
            match hash_access_token(token.as_str(), secret) {
                Ok(h) => (AuthState::AwaitSession, AuthAction::FindActiveSession(h)),
                Err(e) => (AuthState::Done, AuthAction::Reply(Err(e))),
            }
        },
        (AuthState::AwaitSession, AuthEvent::SessionFound(found)) => match found {
            None => (AuthState::Done, AuthAction::Reply(Err(AppError::Unauthorized))),
            Some(user_id) => (AuthState::AwaitUser, AuthAction::FindActiveUserById(user_id)),
        },
        (AuthState::AwaitUser, AuthEvent::UserFound(found)) => match found {
            None => (AuthState::Done, AuthAction::Reply(Err(AppError::Unauthorized))),
            Some(user) => (AuthState::Done, AuthAction::Reply(Ok(user))),
        },
        _ => (AuthState::Done, AuthAction::Reply(Err(AppError::Internal))),
    }
}

/// A session is stored only for a looked-up user whose stored hash parses and accepts the
/// submitted password, and it is stored for that user.
pub proof fn lemma_session_only_after_password_match(
    state: LoginState,
    event: LoginEvent,
    secret: Seq<u8>,
    token_bytes: Option<Seq<u8>>,
    next: LoginState,
    action: LoginAction,
)
    requires
        login_transition(state, event, secret, token_bytes, next, action),
        action is StoreSession,
    ensures
        state matches LoginState::AwaitUser(request) && event matches LoginEvent::UserFound(
            Some(user),
        ) && phc_parses(user.password_hash@) && argon2_accepts(
            encode_utf8(request.password@),
            user.password_hash@,
        ) && action->user_id == user.id,
{
}

/// An unknown email and a wrong password are answered alike: with `InvalidCredentials`.
pub proof fn lemma_unknown_email_and_wrong_password_answer_alike(
    request: LoginRequest,
    user: User,
    secret: Seq<u8>,
    token_bytes: Option<Seq<u8>>,
    next_unknown: LoginState,
    action_unknown: LoginAction,
    next_wrong: LoginState,
    action_wrong: LoginAction,
)
    requires
        phc_parses(user.password_hash@),
        !argon2_accepts(encode_utf8(request.password@), user.password_hash@),
        login_transition(
            LoginState::AwaitUser(request),
            LoginEvent::UserFound(None),
            secret,
            token_bytes,
            next_unknown,
            action_unknown,
        ),
        login_transition(
            LoginState::AwaitUser(request),
            LoginEvent::UserFound(Some(user)),
            secret,
            token_bytes,
            next_wrong,
            action_wrong,
        ),
    ensures
        action_unknown == action_wrong,
        action_wrong == LoginAction::Reply(Err(AppError::InvalidCredentials)),
{
}

/// The token a login replies with is the one whose hash it stored: authenticating that token
/// looks up exactly the stored hash.
pub proof fn lemma_login_token_authenticates(
    request: LoginRequest,
    user: User,
    secret: Seq<u8>,
    token_bytes: Option<Seq<u8>>,
    stored: LoginState,
    store: LoginAction,
    done: LoginState,
    reply: LoginAction,
    auth_next: AuthState,
    auth_action: AuthAction,
)
    requires
        token_bytes matches Some(b) ==> b.len() == 32,
        login_transition(
            LoginState::AwaitUser(request),
            LoginEvent::UserFound(Some(user)),
            secret,
            token_bytes,
            stored,
            store,
        ),
        store is StoreSession,
        login_transition(stored, LoginEvent::SessionStored, secret, None, done, reply),
        reply matches LoginAction::Reply(Ok(response)) && auth_transition(
            AuthState::Start(response.access_token),
            AuthEvent::Begin,
            secret,
            auth_next,
            auth_action,
        ),
    ensures
        auth_action matches AuthAction::FindActiveSession(h) && h@ == store->token_hash@,
{
    lemma_hex_of_shape(token_bytes->0);
}

/// The first login step passes the submitted password on unchanged: whenever it goes on to
/// look a user up, the request it keeps holds the very password given, next to the
/// normalized email it looks up.
pub proof fn lemma_login_begin_keeps_password(
    request: LoginRequest,
    secret: Seq<u8>,
    token_bytes: Option<Seq<u8>>,
    next: LoginState,
    action: LoginAction,
)
    requires
        login_transition(LoginState::Start(request), LoginEvent::Begin, secret, token_bytes, next, action),
        normalized_email(request.email@).len() > 0,
        request.password@.len() > 0,
    ensures
        next matches LoginState::AwaitUser(checked) && checked.password@ == request.password@
            && checked.email@ == normalized_email(request.email@),
        action matches LoginAction::FindActiveUserByEmail(e) && e@ == normalized_email(request.email@),
{
}

} // verus!
