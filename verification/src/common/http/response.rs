//! The uniform `code` / `msg` / `data` envelope of every API reply.

use vstd::prelude::*;

verus! {

/// API reply envelope; `T` is the payload type.
pub struct ApiResponse<T> {
    /// Business status code (the HTTP status it travels with).
    pub code: u16,
    /// Message for display or debugging.
    pub msg: String,
    /// Payload: `Some` when there is data, `None` when there is none.
    pub data: Option<T>,
}

impl<T> ApiResponse<T> {
    /// Standard success reply: code 200, message `Success`, the payload in `data`.
    pub fn success(data: T) -> (r: Self)
        ensures
            r.code == 200,
            r.msg@ == "Success"@,
            r.data == Some(data),
    {
        ApiResponse { code: 200, msg: String::from_str("Success"), data: Some(data) }
    }

    /// Success reply with a caller-chosen message.
    pub fn success_with_msg(data: T, msg: String) -> (r: Self)
        ensures
            r.code == 200,
            r.msg == msg,
            r.data == Some(data),
    {
        ApiResponse { code: 200, msg, data: Some(data) }
    }
}

} // verus!
