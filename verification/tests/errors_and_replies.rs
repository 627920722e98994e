use yuehai_bookmark::app_core::error::AppError as CoreError;
use yuehai_bookmark::app_core::response::ApiResponse as CoreResponse;
use yuehai_bookmark::common::error::AppError;
use yuehai_bookmark::common::http::json::{rejection_error, JsonRejectionKind};
use yuehai_bookmark::common::http::response::ApiResponse;

#[test]
fn error_status_codes() {
    assert_eq!(AppError::BadRequest("x").status_code(), 400);
    assert_eq!(AppError::InvalidCredentials.status_code(), 401);
    assert_eq!(AppError::Unauthorized.status_code(), 401);
    assert_eq!(AppError::NotFound("a".to_string()).status_code(), 404);
    assert_eq!(AppError::Database(sqlx::Error::RowNotFound).status_code(), 500);
    assert_eq!(AppError::Internal.status_code(), 500);
}

#[test]
fn error_messages() {
    assert_eq!(AppError::BadRequest("邮箱不能为空").message(), "请求参数无效：邮箱不能为空");
    assert_eq!(AppError::InvalidCredentials.message(), "邮箱或密码错误");
    assert_eq!(AppError::Unauthorized.message(), "当前请求未授权，请检查 Token");
    assert_eq!(AppError::NotFound("书签".to_string()).message(), "未找到指定的资源: 书签");
    assert_eq!(AppError::Database(sqlx::Error::RowNotFound).message(), "数据库操作失败");
    assert_eq!(AppError::Internal.message(), "服务器内部错误");
}

#[test]
fn error_reply_body_carries_status_and_message_without_data() {
    let body = AppError::Unauthorized.to_api_response();
    assert_eq!(body.code, 401);
    assert_eq!(body.msg, "当前请求未授权，请检查 Token");
    assert!(body.data.is_none());
    let body = AppError::BadRequest("读取请求体失败").to_api_response();
    assert_eq!(body.code, 400);
    assert_eq!(body.msg, "请求参数无效：读取请求体失败");
}

#[test]
fn success_replies() {
    let r = ApiResponse::success(7i64);
    assert_eq!(r.code, 200);
    assert_eq!(r.msg, "Success");
    assert_eq!(r.data, Some(7));
    let r = ApiResponse::success_with_msg("x", "done".to_string());
    assert_eq!(r.code, 200);
    assert_eq!(r.msg, "done");
    assert_eq!(r.data, Some("x"));
}

#[test]
fn json_rejections_are_bad_requests() {
    let cases = [
        (JsonRejectionKind::DataError, "请求字段格式不正确"),
        (JsonRejectionKind::SyntaxError, "请求体不是合法的 JSON"),
        (JsonRejectionKind::MissingContentType, "请求头必须包含 application/json"),
        (JsonRejectionKind::BytesRejection, "读取请求体失败"),
        (JsonRejectionKind::Other, "请求体格式不正确"),
    ];
    for (kind, text) in cases {
        match rejection_error(kind) {
            AppError::BadRequest(m) => assert_eq!(m, text),
            other => panic!("unexpected {:?}", other),
        }
    }
}

#[test]
fn core_errors_and_replies() {
    assert_eq!(CoreError::Unauthorized.status_code(), 401);
    assert_eq!(CoreError::NotFound("x".to_string()).status_code(), 404);
    assert_eq!(CoreError::DatabaseError(sqlx::Error::RowNotFound).status_code(), 500);
    assert_eq!(CoreError::DatabaseError(sqlx::Error::RowNotFound).message(), "数据库底层运行异常");
    assert_eq!(CoreError::NotFound("x".to_string()).message(), "未找到指定的资源: x");
    let body = CoreError::Unauthorized.to_api_response();
    assert_eq!((body.code, body.msg.as_str(), body.data.is_none()), (401, "当前请求未授权，请检查 Token", true));
    let ok = CoreResponse::success(1i64);
    assert_eq!((ok.code, ok.msg.as_str(), ok.data), (200, "Success", Some(1)));
}

#[test]
fn database_failures_convert_to_database_errors() {
    assert!(matches!(AppError::from(sqlx::Error::RowNotFound), AppError::Database(sqlx::Error::RowNotFound)));
    assert!(matches!(CoreError::from(sqlx::Error::PoolClosed), CoreError::DatabaseError(sqlx::Error::PoolClosed)));
}
