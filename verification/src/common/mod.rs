//! Shared building blocks: errors, HTTP payload shapes and text helpers.

pub mod error;
pub mod http;
pub mod text;
