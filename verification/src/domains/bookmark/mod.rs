//! The bookmark domain: its request and entity shapes.

pub mod models;
