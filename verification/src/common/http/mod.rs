//! HTTP payload shapes that do not depend on any business domain.

pub mod json;
pub mod response;
