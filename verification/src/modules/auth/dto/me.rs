//! Current-user DTO.

use crate::modules::auth::model::user::{SystemRole, User, UserStatus, UtcTime};
use vstd::prelude::*;

verus! {

/// Public information about the current user.
pub struct MeResponse {
    /// User id.
    pub id: i64,
    /// Login email.
    pub email: String,
    /// Display name.
    pub display_name: String,
    /// System role.
    pub system_role: SystemRole,
    /// Account status.
    pub status: UserStatus,
    /// When the email was verified.
    pub email_verified_at: Option<UtcTime>,
    /// Last login time.
    pub last_login_at: Option<UtcTime>,
    /// Creation time.
    pub created_at: UtcTime,
    /// Last update time.
    pub updated_at: UtcTime,
}

impl MeResponse {
    /// The public view of a stored user: everything but the password hash and the
    /// deletion time.
    pub fn from_user(user: User) -> (r: Self)
        ensures
            r.id == user.id,
            r.email == user.email,
            r.display_name == user.display_name,
            r.system_role == user.system_role,
            r.status == user.status,
            r.email_verified_at == user.email_verified_at,
            r.last_login_at == user.last_login_at,
            r.created_at == user.created_at,
            r.updated_at == user.updated_at,
    {
        MeResponse {
            id: user.id,
            email: user.email,
            display_name: user.display_name,
            system_role: user.system_role,
            status: user.status,
            email_verified_at: user.email_verified_at,
            last_login_at: user.last_login_at,
            created_at: user.created_at,
            updated_at: user.updated_at,
        }
    }
}

} // verus!
