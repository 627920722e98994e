//! The application error and the reply it is answered with.

use crate::common::http::response::ApiResponse;
use vstd::prelude::*;

verus! {

/// `sqlx::Error`, carried through unchanged as the cause of a database failure.
#[verifier::external_type_specification]
#[verifier::external_body]
pub struct ExSqlxError(sqlx::Error);

/// Errors the application answers requests with.
#[derive(Debug)]
pub enum AppError {
    /// 400: the request is invalid; the text says why.
    BadRequest(&'static str),
    /// 401: wrong email or password (one answer for both).
    InvalidCredentials,
    /// 401: no valid session token.
    Unauthorized,
    /// 404: the named resource does not exist.
    NotFound(String),
    /// 500: the database failed.
    Database(sqlx::Error),
    /// 500: an unrecoverable server-side failure.
    Internal,
}

impl AppError {
    /// The HTTP status each error is answered with.
    pub open spec fn status_spec(&self) -> u16 {
        match self {
            AppError::BadRequest(_) => 400,
            AppError::InvalidCredentials | AppError::Unauthorized => 401,
            AppError::NotFound(_) => 404,
            AppError::Database(_) | AppError::Internal => 500,
        }
    }

    /// The text each error is displayed as.
    pub open spec fn message_spec(&self) -> Seq<char> {
        match self {
            AppError::BadRequest(m) => "请求参数无效："@ + m@,
            AppError::InvalidCredentials => "邮箱或密码错误"@,
            AppError::Unauthorized => "当前请求未授权，请检查 Token"@,
            AppError::NotFound(s) => "未找到指定的资源: "@ + s@,
            AppError::Database(_) => "数据库操作失败"@,
            AppError::Internal => "服务器内部错误"@,
        }
    }

    /// HTTP status code of this error.
    pub fn status_code(&self) -> (r: u16)
        ensures
            r == self.status_spec(),
    {
        match self {
            AppError::BadRequest(_) => 400,
            AppError::InvalidCredentials | AppError::Unauthorized => 401,
            AppError::NotFound(_) => 404,
            AppError::Database(_) | AppError::Internal => 500,
        }
    }

    /// Display text of this error.
    pub fn message(&self) -> (r: String)
        ensures
            r@ == self.message_spec(),
    {
        match self {
            AppError::BadRequest(m) => String::from_str("请求参数无效：").concat(m),
            AppError::InvalidCredentials => String::from_str("邮箱或密码错误"),
            AppError::Unauthorized => String::from_str("当前请求未授权，请检查 Token"),
            AppError::NotFound(s) => String::from_str("未找到指定的资源: ").concat(s.as_str()),
            AppError::Database(_) => String::from_str("数据库操作失败"),
            AppError::Internal => String::from_str("服务器内部错误"),
        }
    }

    /// The reply body of this error: its status as code, its text as message, no data.
    pub fn to_api_response(&self) -> (r: ApiResponse<()>)
        ensures
            r.code == self.status_spec(),
            r.msg@ == self.message_spec(),
            r.data is None,
    {
        ApiResponse { code: self.status_code(), msg: self.message(), data: None }
    }
}

/// A database failure becomes the database error.
impl From<sqlx::Error> for AppError {
    fn from(error: sqlx::Error) -> (r: Self) {
        AppError::Database(error)
    }
}

impl vstd::std_specs::convert::FromSpecImpl<sqlx::Error> for AppError {
    open spec fn obeys_from_spec() -> bool {
        true
    }

    open spec fn from_spec(v: sqlx::Error) -> Self {
        AppError::Database(v)
    }
}

} // verus!
