//! The decision steps of registration.

use crate::common::error::AppError;
use crate::common::text::{
    all_white_space, ascii_lower_char, is_white_space, lemma_trim_chars_shape, hex_of, lemma_ascii_lower_same_case, lemma_hex_of_shape,
    lemma_trim_chars_ascii, lemma_trim_chars_ignores_surrounding_white_space,
    lemma_trim_chars_keeps_case_difference, same_but_ascii_case, trim_chars,
};
use crate::modules::auth::dto::login::{login_response_spec, LoginRequest, LoginResponse};
use crate::modules::auth::dto::register::{
    normalized_email, registration_outcome, registration_rejection, RegisterRequest,
};
use crate::modules::auth::model::user::User;
use crate::modules::auth::service::auth::{
    auth_transition, bytes_of, login_transition, session_token_from_bytes, session_token_hash,
    AuthAction, AuthEvent, AuthState, LoginAction, LoginEvent, LoginState,
};
use crate::modules::auth::service::password::{
    argon2_accepts, argon2_max_password_len, hash_password_with_salt, is_argon2_hash_of, random_bytes,
};
use vstd::utf8::encode_utf8;
use vstd::prelude::*;

verus! {

/// Where a registration stands between two steps.
pub enum RegisterState {
    /// Nothing done yet for this request.
    Start(RegisterRequest),
    /// The user row is being inserted (in a transaction that the caller keeps open).
    AwaitUser,
    /// The user exists; the session row is being stored in the same transaction.
    AwaitSession { user: User, access_token: String },
    /// A reply was given; an uncommitted transaction is rolled back.
    Done,
}

/// What the caller reports back to a registration step.
pub enum RegisterEvent {
    /// Start the registration.
    Begin,
    /// The user row was inserted; this is the stored user.
    UserInserted(User),
    /// Inserting the user failed with this error, whose database error code (if any) is `code`.
    InsertFailed { error: sqlx::Error, code: Option<String> },
    /// The session row was stored and the transaction committed.
    SessionStored,
    /// Any other database operation failed.
    DatabaseFailed(sqlx::Error),
}

/// What a registration step asks the caller to do.
pub enum RegisterAction {
    /// Begin a transaction and insert a user with these (checked) fields.
    InsertUser { email: String, password_hash: String, display_name: String },
    /// In the same transaction, store a session of this user under this token hash, then commit.
    StoreSession { user_id: i64, token_hash: String },
    /// Answer the request (rolling back what is not committed).
    Reply(Result<LoginResponse, AppError>),
}

/// PostgreSQL's error code for a unique-constraint violation.
pub open spec fn is_unique_violation(code: Option<String>) -> bool {
    code matches Some(c) && c@ == "23505"@
}

/// Whether a database error code reports a unique-constraint violation.
pub fn unique_violation(code: &Option<String>) -> (b: bool)
    ensures
        b == is_unique_violation(*code),
{
    match code {
        Some(c) => *c == String::from_str("23505"),
        None => false,
    }
}

/// Whether random bytes can serve as an Argon2 salt here: 8 to 48 bytes.
pub open spec fn is_usable_salt(salt: Seq<u8>) -> bool {
    8 <= salt.len() <= 48
}

/// The first registration step, given the random bytes for the password salt (`None` when
/// the random source failed): the first rule the request breaks, as a 400; otherwise, with a
/// salt of 8 to 48 bytes and a password within Argon2's limit, the insert of the cleaned
/// request with the Argon2 hash of the password under that salt; otherwise an internal error.
pub open spec fn register_after_begin(
    request: RegisterRequest,
    salt: Option<Seq<u8>>,
    next: RegisterState,
    action: RegisterAction,
) -> bool {
    let email = normalized_email(request.email@);
    let password = encode_utf8(request.password@);
    match registration_rejection(email, request.password@, request.display_name@) {
        Some(m) => {
            &&& next is Done
            &&& action matches RegisterAction::Reply(Err(AppError::BadRequest(x))) && x@
                == m
        },
        None => if salt matches Some(salt) && is_usable_salt(salt) && password.len()
            <= argon2_max_password_len() {
            &&& next is AwaitUser
            &&& action is InsertUser
            &&& action->email@ == email
            &&& action->display_name@ == trim_chars(request.display_name@)
            &&& is_argon2_hash_of(action->password_hash@, password, salt->0)
        } else {
            next is Done && action == RegisterAction::Reply(Err(AppError::Internal))
        },
    }
}

/// The registration transition: from a state, what the caller reports and the random bytes
/// drawn (for the salt at the start, for the token after the insert), the next state and
/// what the caller must do.
pub open spec fn register_transition(
    state: RegisterState,
    event: RegisterEvent,
    secret: Seq<u8>,
    random: Option<Seq<u8>>,
    next: RegisterState,
    action: RegisterAction,
) -> bool {
    match (state, event) {
        (_, RegisterEvent::DatabaseFailed(e)) => next is Done && action == RegisterAction::Reply(
            Err(AppError::Database(e)),
        ),
        (RegisterState::Start(request), RegisterEvent::Begin) => register_after_begin(
            request,
            random,
            next,
            action,
        ),
        (RegisterState::AwaitUser, RegisterEvent::UserInserted(user)) => match random {
            None => next is Done && action == RegisterAction::Reply(Err(AppError::Internal)),
            Some(b) => {
                &&& next matches RegisterState::AwaitSession { user: u, access_token: t } && u
                    == user && t@ == hex_of(b)
                &&& action matches RegisterAction::StoreSession { user_id, token_hash } && user_id
                    == user.id && token_hash@ == session_token_hash(secret, hex_of(b))
            },
        },
        (RegisterState::AwaitUser, RegisterEvent::InsertFailed { error, code }) => {
            &&& next is Done
            &&& if is_unique_violation(code) {
                action matches RegisterAction::Reply(Err(AppError::BadRequest(m))) && m@
                    == "邮箱已经注册"@
            } else {
                action == RegisterAction::Reply(Err(AppError::Database(error)))
            }
        },
        (
            RegisterState::AwaitSession { user, access_token },
            RegisterEvent::SessionStored,
        ) => next is Done && action == RegisterAction::Reply(
            Ok(login_response_spec(user, access_token, "Bearer")),
        ),
        _ => next is Done && action == RegisterAction::Reply(Err(AppError::Internal)),
    }
}

/// The first registration step: check the request, hash the password, ask for the insert.
fn register_begin(request: RegisterRequest, salt: Option<Vec<u8>>) -> (r: (
    RegisterState,
    RegisterAction,
))
    ensures
        register_after_begin(request, bytes_of(salt), r.0, r.1),
{
    let checked = match request.validate() {
        Ok(checked) => checked,
        Err(e) => return (RegisterState::Done, RegisterAction::Reply(Err(e))),
    };
    let salt = match salt {
        Some(salt) => salt,
        None => return (RegisterState::Done, RegisterAction::Reply(Err(AppError::Internal))),
    };
    if salt.len() < 8 || salt.len() > 48 {
        return (RegisterState::Done, RegisterAction::Reply(Err(AppError::Internal)));
    }
    let password_hash = match hash_password_with_salt(checked.password.as_str(), salt.as_slice()) {
        Ok(h) => h,
        Err(e) => return (RegisterState::Done, RegisterAction::Reply(Err(e))),
    };
    (
        RegisterState::AwaitUser,
        RegisterAction::InsertUser {
            email: checked.email,
            password_hash,
            display_name: checked.display_name,
        },
    )
}

/// One step of a registration, given the random bytes it needs: the password salt at the
/// start, the token bytes once the user is inserted (`None` when the random source failed).
pub fn register_step_with(
    state: RegisterState,
    event: RegisterEvent,
    secret: &[u8],
    random: Option<Vec<u8>>,
) -> (r: (RegisterState, RegisterAction))
    ensures
        register_transition(state, event, secret@, bytes_of(random), r.0, r.1),
        state matches RegisterState::Start(request) ==> (event is Begin ==> (r.1 matches RegisterAction::InsertUser {
            email,
            display_name,
            ..
        } ==> email@ == normalized_email(request.email@) && display_name@ == trim_chars(
            request.display_name@,
        ))),
{
    match (state, event) {
        (_, RegisterEvent::DatabaseFailed(e)) => (
            RegisterState::Done,
            RegisterAction::Reply(Err(AppError::Database(e))),
        ),
        (RegisterState::Start(request), RegisterEvent::Begin) => register_begin(request, random),
        (RegisterState::AwaitUser, RegisterEvent::UserInserted(user)) => {
            let bytes = match random {
                Some(b) => b,
                None => return (RegisterState::Done, RegisterAction::Reply(Err(AppError::Internal))),
            };
            match session_token_from_bytes(bytes.as_slice(), secret) {
                Err(e) => (RegisterState::Done, RegisterAction::Reply(Err(e))),
                Ok((access_token, token_hash)) => {
                    let user_id = user.id;
                    (
                        RegisterState::AwaitSession { user, access_token },
                        RegisterAction::StoreSession { user_id, token_hash },
                    )
                },
            }
        },
        (RegisterState::AwaitUser, RegisterEvent::InsertFailed { error, code }) => {
            if unique_violation(&code) {
                (RegisterState::Done, RegisterAction::Reply(Err(AppError::BadRequest("邮箱已经注册"))))
            } else {
                (RegisterState::Done, RegisterAction::Reply(Err(AppError::Database(error))))
            }
        },
        (RegisterState::AwaitSession { user, access_token }, RegisterEvent::SessionStored) => (
            RegisterState::Done,
            RegisterAction::Reply(Ok(LoginResponse::from_user(user, access_token, "Bearer"))),
        ),
        _ => (RegisterState::Done, RegisterAction::Reply(Err(AppError::Internal))),
    }
}

/// One step of a registration. At the start 32 bytes are drawn from the operating system's
/// random source for the password salt, and after the insert 32 more for the session token.
pub fn register_step(state: RegisterState, event: RegisterEvent, secret: &[u8]) -> (r: (
    RegisterState,
    RegisterAction,
))
    ensures
        exists|random: Option<Seq<u8>>|
            (random matches Some(b) ==> b.len() == 32) && #[trigger] register_transition(
                state,
                event,
                secret@,
                random,
                r.0,
                r.1,
            ),
{
    let draws = match (&state, &event) {
        (RegisterState::Start(_), RegisterEvent::Begin) => true,
        (RegisterState::AwaitUser, RegisterEvent::UserInserted(_)) => true,
        _ => false,
    };
    let random = if draws {
        random_bytes(32)
    } else {
        None
    };
    let ghost drawn = bytes_of(random);
    let r = register_step_with(state, event, secret, random);
    assert(drawn matches Some(b) ==> b.len() == 32);
    r
}

/// The token a registration replies with is the one whose hash it stored: authenticating
/// that token looks up exactly the stored hash.
pub proof fn lemma_registration_token_authenticates(
    user: User,
    secret: Seq<u8>,
    token_bytes: Option<Seq<u8>>,
    stored: RegisterState,
    store: RegisterAction,
    done: RegisterState,
    reply: RegisterAction,
    auth_next: AuthState,
    auth_action: AuthAction,
)
    requires
        token_bytes matches Some(b) ==> b.len() == 32,
        register_transition(
            RegisterState::AwaitUser,
            RegisterEvent::UserInserted(user),
            secret,
            token_bytes,
            stored,
            store,
        ),
        store is StoreSession,
        register_transition(stored, RegisterEvent::SessionStored, secret, None, done, reply),
        reply matches RegisterAction::Reply(Ok(response)) && auth_transition(
            AuthState::Start(response.access_token),
            AuthEvent::Begin,
            secret,
            auth_next,
            auth_action,
        ),
    ensures
        auth_action matches AuthAction::FindActiveSession(h) && h@ == store->token_hash@,
{
    lemma_hex_of_shape(token_bytes->0);
}

/// The password given at registration is accepted at login: a user stored with the hash a
/// registration computed is never refused for that password; it gets a session, unless the
/// random source for the session token failed.
pub proof fn lemma_registered_password_accepted_at_login(
    registration: RegisterRequest,
    secret: Seq<u8>,
    salt: Option<Seq<u8>>,
    inserting: RegisterState,
    insert: RegisterAction,
    login: LoginRequest,
    user: User,
    token_bytes: Option<Seq<u8>>,
    next: LoginState,
    action: LoginAction,
)
    requires
        register_transition(
            RegisterState::Start(registration),
            RegisterEvent::Begin,
            secret,
            salt,
            inserting,
            insert,
        ),
        insert is InsertUser,
        user.password_hash@ == insert->password_hash@,
        login.password@ == registration.password@,
        login_transition(
            LoginState::AwaitUser(login),
            LoginEvent::UserFound(Some(user)),
            secret,
            token_bytes,
            next,
            action,
        ),
    ensures
        token_bytes is Some ==> action is StoreSession,
        token_bytes is None ==> action == LoginAction::Reply(Err(AppError::Internal)),
{
}

/// Two emails that differ only by white space around them and by ASCII case normalize alike
/// (the first is ASCII).
pub proof fn lemma_normalized_email_ignores_case_and_padding(
    email: Seq<char>,
    before: Seq<char>,
    typed: Seq<char>,
    after: Seq<char>,
)
    requires
        vstd::utf8::is_ascii_chars(email),
        all_white_space(before),
        all_white_space(after),
        same_but_ascii_case(typed, email),
    ensures
        normalized_email(before + typed + after) == normalized_email(email),
{
    assert(vstd::utf8::is_ascii_chars(typed)) by {
        assert forall|i: int| 0 <= i < typed.len() implies '\0' <= #[trigger] typed[i]
            <= '\u{7f}' by {
            assert(ascii_lower_char(typed[i]) == ascii_lower_char(email[i]));
        }
    }
    lemma_trim_chars_ignores_surrounding_white_space(before, typed, after);
    lemma_trim_chars_keeps_case_difference(typed, email);
    lemma_trim_chars_ascii(typed);
    lemma_trim_chars_ascii(email);
    lemma_ascii_lower_same_case(trim_chars(typed), trim_chars(email));
}

/// Login looks an account up under the email registration stored for it, also when the
/// (ASCII) email is typed with other letter case and extra white space around it.
pub proof fn lemma_login_looks_up_registered_email(
    registration: RegisterRequest,
    secret: Seq<u8>,
    salt: Option<Seq<u8>>,
    inserting: RegisterState,
    insert: RegisterAction,
    login: LoginRequest,
    before: Seq<char>,
    typed: Seq<char>,
    after: Seq<char>,
    looking: LoginState,
    lookup: LoginAction,
)
    requires
        register_transition(
            RegisterState::Start(registration),
            RegisterEvent::Begin,
            secret,
            salt,
            inserting,
            insert,
        ),
        insert is InsertUser,
        vstd::utf8::is_ascii_chars(registration.email@),
        all_white_space(before),
        all_white_space(after),
        same_but_ascii_case(typed, registration.email@),
        login.email@ == before + typed + after,
        login.password@.len() > 0,
        login_transition(LoginState::Start(login), LoginEvent::Begin, secret, None, looking, lookup),
    ensures
        lookup matches LoginAction::FindActiveUserByEmail(email) && email@ == insert->email@,
{
    lemma_normalized_email_ignores_case_and_padding(registration.email@, before, typed, after);
}

/// A second registration whose (ASCII) email differs from the first only by letter case and
/// white space around it asks to insert the very same email, so the database's unique email
/// refuses it, and that refusal is answered with "邮箱已经注册".
pub proof fn lemma_case_variant_registration_collides(
    first: RegisterRequest,
    second: RegisterRequest,
    secret: Seq<u8>,
    salt1: Option<Seq<u8>>,
    salt2: Option<Seq<u8>>,
    next1: RegisterState,
    insert1: RegisterAction,
    next2: RegisterState,
    insert2: RegisterAction,
    before: Seq<char>,
    typed: Seq<char>,
    after: Seq<char>,
    error: sqlx::Error,
    code: Option<String>,
    refused: RegisterState,
    reply: RegisterAction,
)
    requires
        vstd::utf8::is_ascii_chars(first.email@),
        all_white_space(before),
        all_white_space(after),
        same_but_ascii_case(typed, first.email@),
        second.email@ == before + typed + after,
        register_transition(
            RegisterState::Start(first),
            RegisterEvent::Begin,
            secret,
            salt1,
            next1,
            insert1,
        ),
        register_transition(
            RegisterState::Start(second),
            RegisterEvent::Begin,
            secret,
            salt2,
            next2,
            insert2,
        ),
        insert1 is InsertUser,
        insert2 is InsertUser,
        is_unique_violation(code),
        register_transition(
            next2,
            RegisterEvent::InsertFailed { error, code },
            secret,
            None,
            refused,
            reply,
        ),
    ensures
        insert2->email@ == insert1->email@,
        reply matches RegisterAction::Reply(Err(AppError::BadRequest(m))) && m@ == "邮箱已经注册"@,
{
    lemma_normalized_email_ignores_case_and_padding(first.email@, before, typed, after);
}

/// What the first registration step inserts is the request the registration check accepts:
/// the same normalized email, and the display name that the check returns, which is the
/// submitted one with exactly the white space at its two ends removed (`pad.0` before it,
/// `pad.1` after it), 1 to 100 chars; the stored hash accepts the submitted password.
pub proof fn lemma_registration_inserts_checked_request(
    request: RegisterRequest,
    secret: Seq<u8>,
    salt: Option<Seq<u8>>,
    next: RegisterState,
    action: RegisterAction,
) -> (pad: (Seq<char>, Seq<char>))
    requires
        register_transition(RegisterState::Start(request), RegisterEvent::Begin, secret, salt, next, action),
        action is InsertUser,
    ensures
        forall|checked: Result<RegisterRequest, AppError>|
            #[trigger] registration_outcome(
                checked,
                normalized_email(request.email@),
                request.password@,
                request.display_name@,
            ) ==> (checked matches Ok(c) && c.email@ == action->email@ && c.display_name@
                == action->display_name@ && c.password@ == request.password@),
        action->email@ == normalized_email(request.email@),
        all_white_space(pad.0),
        all_white_space(pad.1),
        request.display_name@ == pad.0 + action->display_name@ + pad.1,
        1 <= action->display_name@.len() <= 100,
        !is_white_space(action->display_name@[0]),
        !is_white_space(action->display_name@[action->display_name@.len() - 1]),
        argon2_accepts(encode_utf8(request.password@), action->password_hash@),
{
    let d = request.display_name@;
    lemma_trim_chars_shape(d);
    let a = crate::common::text::skip_white_space(d, 0);
    let b = crate::common::text::back_white_space(d, a, d.len() as int);
    let before = d.subrange(0, a);
    let after = d.subrange(b, d.len() as int);
    assert(d =~= before + d.subrange(a, b) + after);
    assert(all_white_space(before)) by {
        assert forall|k: int| 0 <= k < before.len() implies is_white_space(#[trigger] before[k]) by {
            assert(before[k] == d[k]);
        }
    }
    assert(all_white_space(after)) by {
        assert forall|k: int| 0 <= k < after.len() implies is_white_space(#[trigger] after[k]) by {
            assert(after[k] == d[b + k]);
        }
    }
    let name = action->display_name@;
    assert(name[0] == d[a]);
    assert(name[name.len() - 1] == d[b - 1]);
    (before, after)
}

/// Registering and then logging in from scratch with the same email and the same password
/// gets a session for the stored user, unless the random source for the token fails: the
/// password the login verifies is the one that was registered, unchanged.
pub proof fn lemma_register_then_login(
    registration: RegisterRequest,
    secret: Seq<u8>,
    salt: Option<Seq<u8>>,
    inserting: RegisterState,
    insert: RegisterAction,
    user: User,
    login: LoginRequest,
    looking: LoginState,
    lookup: LoginAction,
    token_bytes: Option<Seq<u8>>,
    next: LoginState,
    action: LoginAction,
)
    requires
        register_transition(
            RegisterState::Start(registration),
            RegisterEvent::Begin,
            secret,
            salt,
            inserting,
            insert,
        ),
        insert is InsertUser,
        user.password_hash@ == insert->password_hash@,
        login.email@ == registration.email@,
        login.password@ == registration.password@,
        login_transition(LoginState::Start(login), LoginEvent::Begin, secret, None, looking, lookup),
        login_transition(looking, LoginEvent::UserFound(Some(user)), secret, token_bytes, next, action),
    ensures
        lookup matches LoginAction::FindActiveUserByEmail(e) && e@ == insert->email@,
        token_bytes is Some ==> (action matches LoginAction::StoreSession { user_id, .. }
            && user_id == user.id),
        token_bytes is None ==> action == LoginAction::Reply(Err(AppError::Internal)),
{
}

} // verus!
