//! Business modules.

pub mod auth;
