use server::error_handler::{
    handler_404, AppError, DbError, JsonRejection, STATUS_BAD_REQUEST, STATUS_INTERNAL_SERVER_ERROR,
    STATUS_NOT_FOUND, STATUS_OK, STATUS_UNAUTHORIZED,
};
use server::utils::{err, err_with_fields, ok};
use server::validators::{
    format_validation_errors, FieldErrors, FieldMessages, ValidationError, ValidationErrors,
};

fn code_and_message(e: AppError) -> (u16, bool, String, Option<String>, bool) {
    let (status, body) = e.into_response();
    (status, body.success, body.error.code, body.error.message, body.error.fields.is_some())
}

#[test]
fn bad_request_keeps_its_message() {
    let r = code_and_message(AppError::BadRequest("oops".to_string()));
    assert_eq!(r, (400, false, "BAD_REQUEST".to_string(), Some("oops".to_string()), false));
}

#[test]
fn invalid_credentials_response() {
    let r = code_and_message(AppError::InvalidCredentials);
    assert_eq!(
        r,
        (401, false, "INVALID_CREDENTIALS".to_string(), Some("Email hoặc mật khẩu không đúng".to_string()), false)
    );
}

#[test]
fn unauthorized_response() {
    let r = code_and_message(AppError::Unauthorized);
    assert_eq!(r, (401, false, "UNAUTHORIZED".to_string(), Some("Unauthorized".to_string()), false));
}

#[test]
fn internal_response() {
    let r = code_and_message(AppError::Internal);
    assert_eq!(r, (500, false, "INTERNAL_ERROR".to_string(), Some("Something went wrong".to_string()), false));
}

#[test]
fn not_found_response() {
    let r = code_and_message(handler_404());
    assert_eq!(r, (404, false, "NOT_FOUND".to_string(), Some("Resource not found".to_string()), false));
}

#[test]
fn deactivated_response() {
    let r = code_and_message(AppError::DeactivatedAccount);
    assert_eq!(
        r,
        (401, false, "DEACTIVATED_ACCOUNT".to_string(), Some("Deactivated account".to_string()), false)
    );
}

#[test]
fn json_syntax_error_response() {
    let r = code_and_message(AppError::AxumJsonRejection(JsonRejection::SyntaxError));
    assert_eq!(r, (400, false, "BAD_JSON".to_string(), Some("JSON không hợp lệ".to_string()), false));
}

#[test]
fn json_unknown_field_response() {
    let msg = "Failed to deserialize the JSON body into the target type: unknown field `x`, expected `email`";
    let r = code_and_message(AppError::AxumJsonRejection(JsonRejection::DataError(msg.to_string())));
    assert_eq!(
        r,
        (400, false, "INVALID_REQUEST".to_string(), Some("Request chứa field không hợp lệ".to_string()), false)
    );
}

#[test]
fn json_data_error_response() {
    let msg = "Failed to deserialize the JSON body into the target type: missing field `email`";
    let r = code_and_message(AppError::AxumJsonRejection(JsonRejection::DataError(msg.to_string())));
    assert_eq!(r, (400, false, "INVALID_REQUEST".to_string(), Some("Dữ liệu không hợp lệ".to_string()), false));
}

#[test]
fn missing_content_type_response() {
    let r = code_and_message(AppError::AxumJsonRejection(JsonRejection::MissingJsonContentType));
    assert_eq!(
        r,
        (400, false, "BAD_REQUEST".to_string(), Some("Content-Type phải là application/json".to_string()), false)
    );
}

#[test]
fn other_rejection_response() {
    let r = code_and_message(AppError::AxumJsonRejection(JsonRejection::Other));
    assert_eq!(r, (400, false, "BAD_REQUEST".to_string(), Some("Request không hợp lệ".to_string()), false));
}

fn sample_errors() -> ValidationErrors {
    ValidationErrors {
        fields: vec![
            FieldErrors {
                field: "email".to_string(),
                errors: vec![ValidationError { code: "email".to_string(), message: Some("bad email".to_string()) }],
            },
            FieldErrors {
                field: "description".to_string(),
                errors: vec![
                    ValidationError { code: "length".to_string(), message: None },
                    ValidationError { code: "x".to_string(), message: Some("second".to_string()) },
                ],
            },
        ],
    }
}

fn as_pairs(v: &[FieldMessages]) -> Vec<(String, Vec<String>)> {
    v.iter().map(|f| (f.field.clone(), f.messages.clone())).collect()
}

#[test]
fn format_validation_errors_uses_default_message() {
    let out = format_validation_errors(sample_errors());
    assert_eq!(
        as_pairs(&out),
        vec![
            ("email".to_string(), vec!["bad email".to_string()]),
            ("description".to_string(), vec!["invalid value".to_string(), "second".to_string()]),
        ]
    );
}

#[test]
fn validation_error_response_reports_fields() {
    let (status, body) = AppError::ValidationError(sample_errors()).into_response();
    assert_eq!(status, STATUS_BAD_REQUEST);
    assert!(!body.success);
    assert_eq!(body.error.code, "VALIDATION_ERROR");
    assert_eq!(body.error.message.as_deref(), Some("Dữ liệu không hợp lệ"));
    let fields = body.error.fields.expect("fields");
    assert_eq!(as_pairs(&fields).len(), 2);
    assert_eq!(fields[1].messages, vec!["invalid value".to_string(), "second".to_string()]);
}

#[test]
fn row_not_found_is_bad_request() {
    match AppError::from_db_error(DbError::RowNotFound) {
        AppError::BadRequest(m) => assert_eq!(m, "Không tìm thấy dữ liệu"),
        _ => panic!("expected BadRequest"),
    }
}

#[test]
fn unique_violation_is_bad_request() {
    match AppError::from_db_error(DbError::Database(Some("23505".to_string()))) {
        AppError::BadRequest(m) => assert_eq!(m, "Dữ liệu đã tồn tại"),
        _ => panic!("expected BadRequest"),
    }
}

#[test]
fn other_database_errors_are_internal() {
    assert!(matches!(AppError::from_db_error(DbError::Database(Some("23503".to_string()))), AppError::Internal));
    assert!(matches!(AppError::from_db_error(DbError::Database(None)), AppError::Internal));
    assert!(matches!(AppError::from_db_error(DbError::Other), AppError::Internal));
}

#[test]
fn ok_wraps_data() {
    let (status, body) = ok(42u32);
    assert_eq!(status, STATUS_OK);
    assert!(body.success);
    assert_eq!(body.data, Some(42));
}

#[test]
fn err_builds_failure_body() {
    let (status, body) = err("CODE", "message", STATUS_NOT_FOUND);
    assert_eq!(status, 404);
    assert!(!body.success);
    assert_eq!(body.error.code, "CODE");
    assert_eq!(body.error.message.as_deref(), Some("message"));
    assert!(body.error.fields.is_none());
}

#[test]
fn err_with_fields_keeps_fields() {
    let fields = vec![FieldMessages { field: "name".to_string(), messages: vec!["m".to_string()] }];
    let (status, body) = err_with_fields("VALIDATION_ERROR", "msg", fields, STATUS_BAD_REQUEST);
    assert_eq!(status, 400);
    assert_eq!(as_pairs(&body.error.fields.unwrap()), vec![("name".to_string(), vec!["m".to_string()])]);
}

#[test]
fn statuses_are_the_http_codes() {
    assert_eq!(
        (STATUS_OK, STATUS_BAD_REQUEST, STATUS_UNAUTHORIZED, STATUS_NOT_FOUND, STATUS_INTERNAL_SERVER_ERROR),
        (200, 400, 401, 404, 500)
    );
}
