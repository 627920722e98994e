//! Request and reply DTOs of the authentication module.

pub mod login;
pub mod me;
pub mod register;
