//! Password hashing with Argon2 and a random salt, and password verification.

use crate::common::error::AppError;
use crate::modules::auth::service::auth::bytes_of;
use argon2::password_hash::SaltString;
use argon2::{Argon2, PasswordHash, PasswordHasher, PasswordVerifier};
use vstd::prelude::*;

verus! {

/// Name for what `Argon2::default().hash_password` returns, as a PHC string, for these
/// password bytes and the salt made by `SaltString::encode_b64` from these salt bytes.
pub uninterp spec fn argon2_phc(password: Seq<u8>, salt: Seq<u8>) -> Seq<char>;

/// Name for whether `PasswordHash::new` parses this string.
pub uninterp spec fn phc_parses(phc: Seq<char>) -> bool;

/// Name for whether `Argon2::default().verify_password` accepts these password bytes for
/// this parsed PHC string.
pub uninterp spec fn argon2_accepts(password: Seq<u8>, phc: Seq<char>) -> bool;

/// `getrandom::fill` on a fresh buffer of `len` bytes. What it writes, and whether the
/// operating system's random source answers at all, depend on the machine: the contract
/// states only the length of a filled buffer.
#[verifier::external_body]
pub(crate) fn random_bytes(len: usize) -> (r: Option<Vec<u8>>)
    ensures
        r matches Some(b) ==> b@.len() == len,
{
    let mut buf = vec![0u8; len];
    getrandom::fill(&mut buf).ok()?;
    Some(buf)
}

/// The start of every PHC string `Argon2::default()` produces: algorithm argon2id, version 19,
/// memory 19456 KiB, 2 passes, 1 lane.
pub open spec fn argon2_default_prefix() -> Seq<char> {
    "$argon2id$v=19$m=19456,t=2,p=1$"@
}

/// The largest password, in bytes, Argon2 accepts.
pub open spec fn argon2_max_password_len() -> int {
    0xffff_ffff
}

/// `h` is the Argon2 hash of these password bytes under these salt bytes: the named PHC
/// string, which starts with the default parameters, parses back, and accepts the password.
pub open spec fn is_argon2_hash_of(h: Seq<char>, password: Seq<u8>, salt: Seq<u8>) -> bool {
    &&& h == argon2_phc(password, salt)
    &&& argon2_default_prefix().is_prefix_of(h)
    &&& phc_parses(h)
    &&& argon2_accepts(password, h)
}

/// `SaltString::encode_b64(salt)` followed by `Argon2::default().hash_password(password,
/// &salt)`, rendered with `to_string`. A salt of 8 to 48 bytes encodes to 11 to 64 Base64
/// chars, which `SaltString` holds and Argon2 accepts (a salt of 0 to 2 bytes would make the
/// `password-hash` crate panic). With such a salt the only error left is a password longer
/// than 0xFFFF_FFFF bytes. The result is the named hash; its text is
/// `$argon2id$v=19$m=19456,t=2,p=1$`, the salt and the hash (the `Display` of `PasswordHash`),
/// and (as the password-hash documentation gives it) `PasswordHash::new` parses it back and
/// `verify_password` accepts the same password for it.
#[verifier::external_body]
fn argon2_hash(password: &[u8], salt: &[u8]) -> (r: Option<String>)
    requires
        8 <= salt@.len() <= 48,
    ensures
        r is Some <==> password@.len() <= argon2_max_password_len(),
        r matches Some(h) ==> h@ == argon2_phc(password@, salt@),
        r matches Some(h) ==> is_argon2_hash_of(h@, password@, salt@),
{
    let salt = SaltString::encode_b64(salt).ok()?;
    let hash = Argon2::default().hash_password(password, &salt).ok()?;
    Some(hash.to_string())
}

/// `PasswordHash::new(phc)` followed by `Argon2::default().verify_password(password,
/// &parsed)`: `None` when the string does not parse, else whether verification succeeded.
#[verifier::external_body]
fn argon2_verify(password: &[u8], phc: &str) -> (r: Option<bool>)
    ensures
        r is None <==> !phc_parses(phc@),
        r matches Some(ok) ==> ok == argon2_accepts(password@, phc@),
{
    let parsed = PasswordHash::new(phc).ok()?;
    Some(Argon2::default().verify_password(password, &parsed).is_ok())
}

/// What hashing `password` with these salt bytes returns: the Argon2 hash of the password's
/// UTF-8 bytes under the salt; an internal error only for a password over Argon2's limit.
pub open spec fn password_hash_outcome(
    r: Result<String, AppError>,
    password: Seq<char>,
    salt: Seq<u8>,
) -> bool {
    let bytes = vstd::utf8::encode_utf8(password);
    if bytes.len() <= argon2_max_password_len() {
        r matches Ok(h) && is_argon2_hash_of(h@, bytes, salt)
    } else {
        r matches Err(e) && e is Internal
    }
}

/// Hashes `password` with Argon2 (default parameters) and the given salt of 8 to 48 bytes.
pub fn hash_password_with_salt(password: &str, salt: &[u8]) -> (r: Result<String, AppError>)
    requires
        8 <= salt@.len() <= 48,
    ensures
        password_hash_outcome(r, password@, salt@),
{
    match argon2_hash(password.as_bytes(), salt) {
        Some(hash) => Ok(hash),
        None => Err(AppError::Internal),
    }
}

/// `h` is the Argon2 hash of this password's UTF-8 bytes under some 32-byte salt.
pub open spec fn is_password_hash_of(h: Seq<char>, password: Seq<char>) -> bool {
    exists|salt: Seq<u8>|
        salt.len() == 32 && #[trigger] is_argon2_hash_of(
            h,
            vstd::utf8::encode_utf8(password),
            salt,
        )
}

/// What hashing `password` returns given the salt bytes drawn for it (`None` when the random
/// source failed): the Argon2 hash under a salt of 8 to 48 bytes (an internal error only for
/// a password over Argon2's limit); an internal error without a usable salt.
pub open spec fn password_hash_draw_outcome(
    r: Result<String, AppError>,
    password: Seq<char>,
    salt: Option<Seq<u8>>,
) -> bool {
    if salt matches Some(s) && 8 <= s.len() <= 48 {
        password_hash_outcome(r, password, salt->0)
    } else {
        r matches Err(e) && e is Internal
    }
}

/// Hashes `password` with Argon2 and the salt bytes drawn for it; without salt bytes, or with
/// a salt shorter than 8 or longer than 48 bytes, the answer is an internal error.
pub fn hash_password_with(password: &str, salt: Option<Vec<u8>>) -> (r: Result<String, AppError>)
    ensures
        password_hash_draw_outcome(r, password@, bytes_of(salt)),
        salt matches Some(s) ==> (8 <= s@.len() <= 48 && vstd::utf8::encode_utf8(password@).len()
            <= argon2_max_password_len() ==> (r matches Ok(h) && is_argon2_hash_of(
            h@,
            vstd::utf8::encode_utf8(password@),
            s@,
        ))),
{
    let salt = match salt {
        Some(salt) => salt,
        None => return Err(AppError::Internal),
    };
    if salt.len() < 8 || salt.len() > 48 {
        return Err(AppError::Internal);
    }
    hash_password_with_salt(password, salt.as_slice())
}

/// Hashes `password` with Argon2 and a fresh 32-byte random salt. The result is a PHC
/// string holding the algorithm, its parameters, the salt and the hash. An internal error
/// comes only when the random source fails or the password is over Argon2's limit.
pub fn hash_password(password: String) -> (r: Result<String, AppError>)
    ensures
        exists|salt: Option<Seq<u8>>|
            (salt matches Some(s) ==> s.len() == 32) && #[trigger] password_hash_draw_outcome(
                r,
                password@,
                salt,
            ),
        r matches Ok(h) ==> is_password_hash_of(h@, password@),
        r matches Err(e) ==> e is Internal,
        vstd::utf8::encode_utf8(password@).len() > argon2_max_password_len() ==> r is Err,
{
    let salt = random_bytes(32);
    let ghost drawn = bytes_of(salt);
    let r = hash_password_with(password.as_str(), salt);
    assert(drawn matches Some(s) ==> s.len() == 32);
    assert(password_hash_draw_outcome(r, password@, drawn));
    r
}

/// Hashing a password within Argon2's limit with 32 drawn salt bytes always succeeds, for any
/// password (ASCII or not): the result is the Argon2 PHC string under the default parameters,
/// and it parses back and accepts that same password.
pub proof fn lemma_hash_within_limit_succeeds(
    r: Result<String, AppError>,
    password: Seq<char>,
    salt: Seq<u8>,
)
    requires
        password_hash_draw_outcome(r, password, Some(salt)),
        salt.len() == 32,
        vstd::utf8::encode_utf8(password).len() <= argon2_max_password_len(),
    ensures
        r matches Ok(h) && argon2_default_prefix().is_prefix_of(h@) && phc_parses(h@)
            && argon2_accepts(vstd::utf8::encode_utf8(password), h@),
{
}

/// A password checked against a hash made from it is accepted.
pub proof fn lemma_hashed_password_verifies(
    h: Seq<char>,
    password: Seq<char>,
    salt: Seq<u8>,
    r: Result<(), AppError>,
)
    requires
        is_argon2_hash_of(h, vstd::utf8::encode_utf8(password), salt),
        password_check_outcome(r, password, h),
    ensures
        r is Ok,
{
}

/// What verifying `password` against the stored PHC string returns: an internal error when
/// the string does not parse, `InvalidCredentials` when Argon2 refuses the password, else `Ok`.
pub open spec fn password_check_outcome(
    r: Result<(), AppError>,
    password: Seq<char>,
    stored: Seq<char>,
) -> bool {
    if !phc_parses(stored) {
        r matches Err(e) && e is Internal
    } else if !argon2_accepts(vstd::utf8::encode_utf8(password), stored) {
        r matches Err(e) && e is InvalidCredentials
    } else {
        r is Ok
    }
}

/// Verifies `password` against the stored PHC hash; a wrong password is answered with
/// `InvalidCredentials`, the same answer as an unknown account.
pub fn verify_password(password: String, stored_password_hash: String) -> (r: Result<
    (),
    AppError,
>)
    ensures
        password_check_outcome(r, password@, stored_password_hash@),
{
    match argon2_verify(password.as_str().as_bytes(), stored_password_hash.as_str()) {
        None => Err(AppError::Internal),
        Some(false) => Err(AppError::InvalidCredentials),
        Some(true) => Ok(()),
    }
}

} // verus!
