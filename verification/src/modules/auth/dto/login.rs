//! Login DTOs.

use crate::common::error::AppError;
use crate::common::text::{to_lowercase, trim};
use crate::modules::auth::dto::register::normalized_email;
use crate::modules::auth::model::user::{SystemRole, User, UserStatus, UtcTime};
use vstd::prelude::*;
use vstd::string::StrSliceExecFns;

verus! {

/// Login request body.
pub struct LoginRequest {
    /// Email.
    pub email: String,
    /// Password.
    pub password: String,
}

/// What the login check returns for this (already normalized) email and this password.
pub open spec fn login_request_outcome(
    r: Result<LoginRequest, AppError>,
    email: Seq<char>,
    password: Seq<char>,
) -> bool {
    if email.len() == 0 {
        r matches Err(AppError::BadRequest(m)) && m@ == "邮箱不能为空"@
    } else if password.len() == 0 {
        r matches Err(AppError::BadRequest(m)) && m@ == "密码不能为空"@
    } else {
        r matches Ok(req) && req.email@ == email && req.password@ == password
    }
}

impl LoginRequest {
    /// Normalizes the email as registration does (trimmed, lowercased) and refuses an empty
    /// email or an empty password with a 400.
    pub fn validate(self) -> (r: Result<Self, AppError>)
        ensures
            login_request_outcome(r, normalized_email(self.email@), self.password@),
            r matches Ok(req) ==> req.email@ == normalized_email(self.email@) && req.password@
                == self.password@,
            r is Ok <==> normalized_email(self.email@).len() > 0 && self.password@.len() > 0,
    {
        let email = to_lowercase(trim(self.email.as_str()).as_str());
        check_login(email, self.password)
    }
}

/// The login request rules applied to an already normalized email and the password.
pub fn check_login(email: String, password: String) -> (r: Result<LoginRequest, AppError>)
    ensures
        login_request_outcome(r, email@, password@),
        r matches Ok(req) ==> req.email@ == email@ && req.password@ == password@,
        r is Ok <==> email@.len() > 0 && password@.len() > 0,
{
    if email.as_str().unicode_len() == 0 {
        return Err(AppError::BadRequest("邮箱不能为空"));
    }
    if password.as_str().unicode_len() == 0 {
        return Err(AppError::BadRequest("密码不能为空"));
    }
    Ok(LoginRequest { email, password })
}

/// Login reply body: the public user fields and the session token.
pub struct LoginResponse {
    /// Login email.
    pub email: String,
    /// Display name.
    pub display_name: String,
    /// System role.
    pub system_role: SystemRole,
    /// Account status.
    pub status: UserStatus,
    /// When the email was verified.
    pub email_verified_at: Option<UtcTime>,
    /// Last login time.
    pub last_login_at: Option<UtcTime>,
    /// Creation time.
    pub created_at: UtcTime,
    /// Last update time.
    pub updated_at: UtcTime,
    /// The raw session token.
    pub access_token: String,
    /// How the client presents the token (`Bearer`).
    pub token_type: &'static str,
}

/// The login reply built from a user, a raw token and a token type.
pub open spec fn login_response_spec(
    user: User,
    access_token: String,
    token_type: &'static str,
) -> LoginResponse {
    LoginResponse {
        email: user.email,
        display_name: user.display_name,
        system_role: user.system_role,
        status: user.status,
        email_verified_at: user.email_verified_at,
        last_login_at: user.last_login_at,
        created_at: user.created_at,
        updated_at: user.updated_at,
        access_token,
        token_type,
    }
}

impl LoginResponse {
    /// Builds the reply from the user, the raw token and the token type; the password hash
    /// and the user id are not part of it.
    pub fn from_user(user: User, access_token: String, token_type: &'static str) -> (r: Self)
        ensures
            r == login_response_spec(user, access_token, token_type),
    {
        LoginResponse {
            email: user.email,
            display_name: user.display_name,
            system_role: user.system_role,
            status: user.status,
            email_verified_at: user.email_verified_at,
            last_login_at: user.last_login_at,
            created_at: user.created_at,
            updated_at: user.updated_at,
            access_token,
            token_type,
        }
    }
}

} // verus!
