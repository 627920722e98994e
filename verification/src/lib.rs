//! Bookmark service library: request checks, session tokens, password hashing and the
//! decision steps of the authentication flows.

pub mod common;
pub mod app_core;
pub mod domains;
pub mod modules;
pub mod app;
