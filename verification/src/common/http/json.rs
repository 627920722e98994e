//! The JSON request-body extractor and the answers to a body it cannot read.

use crate::common::error::AppError;
use vstd::prelude::*;

verus! {

/// A request body deserialized from JSON.
pub struct AppJson<T>(pub T);

/// Why a JSON request body was rejected.
#[derive(Clone, Copy, Debug, PartialEq, Eq, Structural)]
pub enum JsonRejectionKind {
    /// The JSON is well-formed but does not fit the expected fields.
    DataError,
    /// The body is not valid JSON.
    SyntaxError,
    /// The `Content-Type: application/json` header is missing.
    MissingContentType,
    /// The body could not be read.
    BytesRejection,
    /// Any other rejection.
    Other,
}

/// The message each rejection is answered with.
pub open spec fn rejection_message_spec(kind: JsonRejectionKind) -> Seq<char> {
    match kind {
        JsonRejectionKind::DataError => "请求字段格式不正确"@,
        JsonRejectionKind::SyntaxError => "请求体不是合法的 JSON"@,
        JsonRejectionKind::MissingContentType => "请求头必须包含 application/json"@,
        JsonRejectionKind::BytesRejection => "读取请求体失败"@,
        JsonRejectionKind::Other => "请求体格式不正确"@,
    }
}

/// The error a rejected JSON body is answered with: always a 400 with the rejection's message.
pub fn rejection_error(kind: JsonRejectionKind) -> (e: AppError)
    ensures
        e matches AppError::BadRequest(m) && m@ == rejection_message_spec(kind),
{
    let message: &'static str = match kind {
        JsonRejectionKind::DataError => "请求字段格式不正确",
        JsonRejectionKind::SyntaxError => "请求体不是合法的 JSON",
        JsonRejectionKind::MissingContentType => "请求头必须包含 application/json",
        JsonRejectionKind::BytesRejection => "读取请求体失败",
        JsonRejectionKind::Other => "请求体格式不正确",
    };
    AppError::BadRequest(message)
}

} // verus!
