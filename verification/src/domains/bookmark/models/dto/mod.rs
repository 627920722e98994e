//! Data transfer objects at the API boundary.

pub mod create;
