//! Request DTO of bookmark creation.

use vstd::prelude::*;

verus! {

/// What `POST /bookmarks` receives.
pub struct CreateBookmarkReq {
    /// Bookmark title.
    pub title: String,
    /// Bookmark URL.
    pub url: String,
}

} // verus!
