use yuehai_bookmark::domains::bookmark::models::dto::create::CreateBookmarkReq;
use yuehai_bookmark::domains::bookmark::models::entity::Bookmark;

#[test]
fn bookmark_shapes_hold_their_fields() {
    let req = CreateBookmarkReq { title: "Rust".to_string(), url: "https://www.rust-lang.org".to_string() };
    let b = Bookmark { id: 1, title: req.title.clone(), url: req.url.clone() };
    assert_eq!((b.id, b.title.as_str(), b.url.as_str()), (1, "Rust", "https://www.rust-lang.org"));
}
