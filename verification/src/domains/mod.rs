//! Business domains organised by subject.

pub mod bookmark;
