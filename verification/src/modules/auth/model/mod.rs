//! Data models of the authentication module.

pub mod user;
