//! The user model.

use vstd::prelude::*;

verus! {

/// A point in time in UTC, as microseconds since the Unix epoch (the precision of a
/// PostgreSQL `TIMESTAMPTZ`).
#[derive(Clone, Copy, Debug, PartialEq, Eq, Structural)]
pub struct UtcTime {
    /// Microseconds since 1970-01-01T00:00:00Z.
    pub unix_micros: i64,
}

/// System role of an account.
#[derive(Clone, Copy, Debug, PartialEq, Eq, Structural)]
pub enum SystemRole {
    User,
    Admin,
}

/// Status of an account.
#[derive(Clone, Copy, Debug, PartialEq, Eq, Structural)]
pub enum UserStatus {
    Pending,
    Active,
    Disabled,
}

/// A stored user.
pub struct User {
    /// User id.
    pub id: i64,
    /// Login email.
    pub email: String,
    /// PHC-format password hash.
    pub password_hash: String,
    /// Display name.
    pub display_name: String,
    /// System role.
    pub system_role: SystemRole,
    /// Account status.
    pub status: UserStatus,
    /// When the email was verified.
    pub email_verified_at: Option<UtcTime>,
    /// Last login time.
    pub last_login_at: Option<UtcTime>,
    /// Creation time.
    pub created_at: UtcTime,
    /// Last update time.
    pub updated_at: UtcTime,
    /// Soft-deletion time.
    pub deleted_at: Option<UtcTime>,
}

} // verus!
