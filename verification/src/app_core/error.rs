//! The error of the bookmark domain and the reply it is answered with.

use crate::app_core::response::ApiResponse;
use vstd::prelude::*;

verus! {

/// Errors of the bookmark domain.
#[derive(Debug)]
pub enum AppError {
    /// 401: no valid credentials.
    Unauthorized,
    /// 404: the named resource does not exist.
    NotFound(String),
    /// 500: the database failed.
    DatabaseError(sqlx::Error),
}

impl AppError {
    /// The HTTP status each error is answered with.
    pub open spec fn status_spec(&self) -> u16 {
        match self {
            AppError::Unauthorized => 401,
            AppError::NotFound(_) => 404,
            AppError::DatabaseError(_) => 500,
        }
    }

    /// The text each error is displayed as.
    pub open spec fn message_spec(&self) -> Seq<char> {
        match self {
            AppError::Unauthorized => "当前请求未授权，请检查 Token"@,
            AppError::NotFound(s) => "未找到指定的资源: "@ + s@,
            AppError::DatabaseError(_) => "数据库底层运行异常"@,
        }
    }

    /// HTTP status code of this error.
    pub fn status_code(&self) -> (r: u16)
        ensures
            r == self.status_spec(),
    {
        match self {
            AppError::Unauthorized => 401,
            AppError::NotFound(_) => 404,
            AppError::DatabaseError(_) => 500,
        }
    }

    /// Display text of this error.
    pub fn message(&self) -> (r: String)
        ensures
            r@ == self.message_spec(),
    {
        match self {
            AppError::Unauthorized => String::from_str("当前请求未授权，请检查 Token"),
            AppError::NotFound(s) => String::from_str("未找到指定的资源: ").concat(s.as_str()),
            AppError::DatabaseError(_) => String::from_str("数据库底层运行异常"),
        }
    }

    /// The reply body of this error: its status as code, its text as message, no data.
    pub fn to_api_response(&self) -> (r: ApiResponse<()>)
        ensures
            r.code == self.status_spec(),
            r.msg@ == self.message_spec(),
            r.data is None,
    {
        ApiResponse { code: self.status_code(), msg: self.message(), data: None }
    }
}

/// A database failure becomes the database error.
impl From<sqlx::Error> for AppError {
    fn from(error: sqlx::Error) -> (r: Self) {
        AppError::DatabaseError(error)
    }
}

impl vstd::std_specs::convert::FromSpecImpl<sqlx::Error> for AppError {
    open spec fn obeys_from_spec() -> bool {
        true
    }

    open spec fn from_spec(v: sqlx::Error) -> Self {
        AppError::DatabaseError(v)
    }
}

} // verus!
