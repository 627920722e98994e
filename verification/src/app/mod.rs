//! Application assembly: the settings read at start-up.

pub mod config;
