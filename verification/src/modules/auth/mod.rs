//! Authentication: registration, login and session-token checks.

pub mod dto;
pub mod extractors;
pub mod model;
pub mod service;
