//! The bookmark entity.

use vstd::prelude::*;

verus! {

/// One stored bookmark.
pub struct Bookmark {
    /// Bookmark id.
    pub id: i64,
    /// Bookmark title.
    pub title: String,
    /// Bookmark URL.
    pub url: String,
}

} // verus!
