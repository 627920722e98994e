//! The current user, and reading the session token from the `Authorization` header.

use crate::common::error::AppError;
use crate::common::text::{string_from_chars, to_chars};
use crate::modules::auth::model::user::User;
use vstd::prelude::*;

verus! {

/// A user whose session token was verified.
pub struct CurrentUser(pub User);

/// The scheme prefix of a bearer credential.
pub open spec fn bearer_prefix() -> Seq<char> {
    seq!['B', 'e', 'a', 'r', 'e', 'r', ' ']
}

/// The token an `Authorization` header value carries: what follows `Bearer `, when that is not
/// empty.
pub open spec fn bearer_token_of(header: Seq<char>) -> Option<Seq<char>> {
    if header.len() > 7 && header.subrange(0, 7) == bearer_prefix() {
        Some(header.subrange(7, header.len() as int))
    } else {
        None
    }
}

/// Reads the session token from the `Authorization` header value (`None` when the header is
/// missing or not text). Anything but `Bearer ` followed by a non-empty token is answered
/// with `Unauthorized`.
pub fn bearer_token(authorization: Option<&str>) -> (r: Result<String, AppError>)
    ensures
        match authorization {
            Some(h) => match bearer_token_of(h@) {
                Some(t) => r matches Ok(token) && token@ == t,
                None => r == Err::<String, AppError>(AppError::Unauthorized),
            },
            None => r == Err::<String, AppError>(AppError::Unauthorized),
        },
{
    let header = match authorization {
        Some(h) => h,
        None => return Err(AppError::Unauthorized),
    };
    let v = to_chars(header);
    let n = v.len();
    if n <= 7 || !(v[0] == 'B' && v[1] == 'e' && v[2] == 'a' && v[3] == 'r' && v[4] == 'e' && v[5]
        == 'r' && v[6] == ' ') {
        proof {
            if n > 7 && v@.subrange(0, 7) == bearer_prefix() {
                assert(v@.subrange(0, 7)[0] == v@[0]);
                assert(v@.subrange(0, 7)[1] == v@[1]);
                assert(v@.subrange(0, 7)[2] == v@[2]);
                assert(v@.subrange(0, 7)[3] == v@[3]);
                assert(v@.subrange(0, 7)[4] == v@[4]);
                assert(v@.subrange(0, 7)[5] == v@[5]);
                assert(v@.subrange(0, 7)[6] == v@[6]);
            }
        }
        return Err(AppError::Unauthorized);
    }
    assert(v@.subrange(0, 7) =~= bearer_prefix());
    Ok(string_from_chars(&v, 7, n))
}

/// A header made of `Bearer ` and a non-empty token carries exactly that token.
pub proof fn lemma_bearer_header_round_trip(token: Seq<char>)
    requires
        token.len() > 0,
    ensures
        bearer_token_of(bearer_prefix() + token) == Some(token),
{
    let h = bearer_prefix() + token;
    assert(h.subrange(0, 7) =~= bearer_prefix());
    assert(h.subrange(7, h.len() as int) =~= token);
}

} // verus!
