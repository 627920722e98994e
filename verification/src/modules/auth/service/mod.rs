pub mod auth;
pub mod password;
pub mod user;
