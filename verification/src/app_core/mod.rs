//! The earlier shared layer used by the bookmark domain: its error and reply envelope.

pub mod error;
pub mod response;
