use vstd::prelude::*;

use crate::text::{occurs_in, contains_str, str_equal};
use crate::utils::{err, err_with_fields};
use crate::validators::{
    format_validation_errors, report_messages, FieldMessages, FieldMessagesView, ValidationErrors,
};

verus! {

/// HTTP status of a successful request.
pub const STATUS_OK: u16 = 200;

/// HTTP status of a request that is malformed or refused as invalid.
pub const STATUS_BAD_REQUEST: u16 = 400;

/// HTTP status of a request whose caller is not authenticated.
pub const STATUS_UNAUTHORIZED: u16 = 401;

/// HTTP status of a request for something that does not exist.
pub const STATUS_NOT_FOUND: u16 = 404;

/// HTTP status of a request that failed on the server's side.
pub const STATUS_INTERNAL_SERVER_ERROR: u16 = 500;

/// The message that reports wrong e-mail or password.
pub const MSG_INVALID_CREDENTIALS: &'static str = "Email hoặc mật khẩu không đúng";
/// The message that reports a caller that is not authenticated.
pub const MSG_UNAUTHORIZED: &'static str = "Unauthorized";
/// The message that reports a failure on our side.
pub const MSG_INTERNAL: &'static str = "Something went wrong";
/// The message that reports something that does not exist.
pub const MSG_NOT_FOUND: &'static str = "Resource not found";
/// The message that reports a deactivated account.
pub const MSG_DEACTIVATED: &'static str = "Deactivated account";
/// The message that reports a request that failed its checks.
pub const MSG_VALIDATION: &'static str = "Dữ liệu không hợp lệ";
/// The message that reports a body that is not JSON.
pub const MSG_BAD_JSON: &'static str = "JSON không hợp lệ";
/// The message that reports a body with a field the request does not have.
pub const MSG_UNKNOWN_FIELD: &'static str = "Request chứa field không hợp lệ";
/// The message that reports a JSON body of the wrong shape.
pub const MSG_INVALID_DATA: &'static str = "Dữ liệu không hợp lệ";
/// The message that reports a request without a JSON content type.
pub const MSG_MISSING_CONTENT_TYPE: &'static str = "Content-Type phải là application/json";
/// The message that reports any other unreadable body.
pub const MSG_BAD_REQUEST: &'static str = "Request không hợp lệ";
/// The message that reports a missing database row.
pub const MSG_ROW_NOT_FOUND: &'static str = "Không tìm thấy dữ liệu";
/// The message that reports a unique-constraint violation.
pub const MSG_DUPLICATE: &'static str = "Dữ liệu đã tồn tại";

/// The text that marks a JSON shape error as caused by a field the request
/// type does not have.
pub const UNKNOWN_FIELD_MARK: &'static str = "unknown field";

/// The database error code of a unique-constraint violation.
pub const UNIQUE_VIOLATION: &'static str = "23505";

/// The body of a successful response.
#[derive(Debug)]
pub struct ApiResponse<T> {
    pub success: bool,
    pub data: Option<T>,
}

/// The body of a failed response.
#[derive(Debug)]
pub struct ApiError {
    pub success: bool,
    pub error: ErrorDetail,
}

/// What a failed response says about the failure.
#[derive(Debug)]
pub struct ErrorDetail {
    pub code: String,
    pub message: Option<String>,
    pub fields: Option<Vec<FieldMessages>>,
}

/// The mathematical content of an [`ErrorDetail`].
pub struct ErrorDetailView {
    pub code: Seq<char>,
    pub message: Option<Seq<char>>,
    pub fields: Option<Seq<FieldMessagesView>>,
}

impl View for ErrorDetail {
    type V = ErrorDetailView;

    open spec fn view(&self) -> ErrorDetailView {
        ErrorDetailView {
            code: self.code@,
            message: match self.message {
                Some(m) => Some(m@),
                None => None,
            },
            fields: match self.fields {
                Some(f) => Some(f@.map_values(|x: FieldMessages| x@)),
                None => None,
            },
        }
    }
}

/// The mathematical content of an [`ApiError`].
pub struct ApiErrorView {
    pub success: bool,
    pub error: ErrorDetailView,
}

impl View for ApiError {
    type V = ApiErrorView;

    open spec fn view(&self) -> ApiErrorView {
        ApiErrorView { success: self.success, error: self.error@ }
    }
}

/// What went wrong while reading a JSON request body.
#[derive(Debug)]
pub enum JsonRejection {
    /// The body is not syntactically valid JSON.
    SyntaxError,
    /// The body is JSON but does not fit the expected shape; the text is the
    /// description of the failure.
    DataError(String),
    /// The request does not declare a JSON content type.
    MissingJsonContentType,
    /// Any other failure to read the body.
    Other,
}

/// What went wrong in a database call.
#[derive(Debug)]
pub enum DbError {
    /// A query that must return a row returned none.
    RowNotFound,
    /// The database refused the statement, with its error code where it gave one.
    Database(Option<String>),
    /// Any other failure (connection, protocol, decoding, ...).
    Other,
}

/// Every way a request can fail.
#[derive(Debug)]
pub enum AppError {
    Unauthorized,
    InvalidCredentials,
    DeactivatedAccount,
    BadRequest(String),
    NotFound,
    Internal,
    ValidationError(ValidationErrors),
    AxumJsonRejection(JsonRejection),
}

/// A failure response with a code and a message and no field details.
pub open spec fn plain_error(status: u16, code: Seq<char>, message: Seq<char>) -> (u16, ApiErrorView) {
    (
        status,
        ApiErrorView {
            success: false,
            error: ErrorDetailView { code, message: Some(message), fields: None },
        },
    )
}

/// The code reported for a body that could not be read as JSON.
pub open spec fn rejection_code(rej: JsonRejection) -> Seq<char> {
    match rej {
        JsonRejection::SyntaxError => "BAD_JSON"@,
        JsonRejection::DataError(_) => "INVALID_REQUEST"@,
        JsonRejection::MissingJsonContentType => "BAD_REQUEST"@,
        JsonRejection::Other => "BAD_REQUEST"@,
    }
}

/// The message reported for a body that could not be read as JSON.
pub open spec fn rejection_message(rej: JsonRejection) -> Seq<char> {
    match rej {
        JsonRejection::SyntaxError => MSG_BAD_JSON@,
        JsonRejection::DataError(d) => if occurs_in(UNKNOWN_FIELD_MARK@, d@) {
            MSG_UNKNOWN_FIELD@
        } else {
            MSG_INVALID_DATA@
        },
        JsonRejection::MissingJsonContentType => MSG_MISSING_CONTENT_TYPE@,
        JsonRejection::Other => MSG_BAD_REQUEST@,
    }
}

/// The response that reports an error: its status and body.
pub open spec fn error_response(e: AppError) -> (u16, ApiErrorView) {
    match e {
        AppError::BadRequest(msg) => plain_error(STATUS_BAD_REQUEST, "BAD_REQUEST"@, msg@),
        AppError::InvalidCredentials => plain_error(
            STATUS_UNAUTHORIZED,
            "INVALID_CREDENTIALS"@,
            MSG_INVALID_CREDENTIALS@,
        ),
        AppError::Unauthorized => plain_error(STATUS_UNAUTHORIZED, "UNAUTHORIZED"@, MSG_UNAUTHORIZED@),
        AppError::Internal => plain_error(
            STATUS_INTERNAL_SERVER_ERROR,
            "INTERNAL_ERROR"@,
            MSG_INTERNAL@,
        ),
        AppError::NotFound => plain_error(STATUS_NOT_FOUND, "NOT_FOUND"@, MSG_NOT_FOUND@),
        AppError::DeactivatedAccount => plain_error(
            STATUS_UNAUTHORIZED,
            "DEACTIVATED_ACCOUNT"@,
            MSG_DEACTIVATED@,
        ),
        AppError::ValidationError(errs) => (
            STATUS_BAD_REQUEST,
            ApiErrorView {
                success: false,
                error: ErrorDetailView {
                    code: "VALIDATION_ERROR"@,
                    message: Some(MSG_VALIDATION@),
                    fields: Some(report_messages(errs@)),
                },
            },
        ),
        AppError::AxumJsonRejection(rej) => plain_error(
            STATUS_BAD_REQUEST,
            rejection_code(rej),
            rejection_message(rej),
        ),
    }
}

impl AppError {
    /// The status and body of the response that reports this error.
    pub fn into_response(self) -> (r: (u16, ApiError))
        ensures
            (r.0, r.1@) == error_response(self),
    {
        match self {
            AppError::BadRequest(msg) => err("BAD_REQUEST", msg.as_str(), STATUS_BAD_REQUEST),
            AppError::InvalidCredentials => err(
                "INVALID_CREDENTIALS",
                MSG_INVALID_CREDENTIALS,
                STATUS_UNAUTHORIZED,
            ),
            AppError::Unauthorized => err("UNAUTHORIZED", MSG_UNAUTHORIZED, STATUS_UNAUTHORIZED),
            AppError::Internal => err("INTERNAL_ERROR", MSG_INTERNAL, STATUS_INTERNAL_SERVER_ERROR),
            AppError::NotFound => err("NOT_FOUND", MSG_NOT_FOUND, STATUS_NOT_FOUND),
            AppError::DeactivatedAccount => err(
                "DEACTIVATED_ACCOUNT",
                MSG_DEACTIVATED,
                STATUS_UNAUTHORIZED,
            ),
            AppError::ValidationError(errs) => {
                let fields = format_validation_errors(errs);
                err_with_fields("VALIDATION_ERROR", MSG_VALIDATION, fields, STATUS_BAD_REQUEST)
            },
            AppError::AxumJsonRejection(rej) => {
                let (code, message) = match &rej {
                    JsonRejection::SyntaxError => ("BAD_JSON", MSG_BAD_JSON),
                    JsonRejection::DataError(d) => {
                        if contains_str(d.as_str(), UNKNOWN_FIELD_MARK) {
                            ("INVALID_REQUEST", MSG_UNKNOWN_FIELD)
                        } else {
                            ("INVALID_REQUEST", MSG_INVALID_DATA)
                        }
                    },
                    JsonRejection::MissingJsonContentType => (
                        "BAD_REQUEST",
                        MSG_MISSING_CONTENT_TYPE,
                    ),
                    JsonRejection::Other => ("BAD_REQUEST", MSG_BAD_REQUEST),
                };
                err(code, message, STATUS_BAD_REQUEST)
            },
        }
    }

    /// The error that a failed database call becomes: a missing row or a
    /// unique-constraint violation is the caller's fault, anything else is ours.
    pub fn from_db_error(e: DbError) -> (r: AppError)
        ensures
            match e {
                DbError::RowNotFound => r matches AppError::BadRequest(m) && m@ == MSG_ROW_NOT_FOUND@,
                DbError::Database(Some(c)) => if c@ == UNIQUE_VIOLATION@ {
                    r matches AppError::BadRequest(m) && m@ == MSG_DUPLICATE@
                } else {
                    r == AppError::Internal
                },
                _ => r == AppError::Internal,
            },
    {
        match e {
            DbError::RowNotFound => AppError::BadRequest(MSG_ROW_NOT_FOUND.to_owned()),
            DbError::Database(Some(c)) => {
                if str_equal(c.as_str(), UNIQUE_VIOLATION) {
                    AppError::BadRequest(MSG_DUPLICATE.to_owned())
                } else {
                    AppError::Internal
                }
            },
            _ => AppError::Internal,
        }
    }
}

/// The error answered for a path that no route serves.
pub fn handler_404() -> (r: AppError)
    ensures
        r == AppError::NotFound,
{
    AppError::NotFound
}

/// Every error is answered with a failure body, with a client-error status
/// (400, 401 or 404) or 500; 401 is the answer exactly to the three
/// authentication failures, and 500 exactly to our own failures.
pub proof fn error_responses_report_failure(e: AppError)
    ensures
        !error_response(e).1.success,
        error_response(e).0 == STATUS_BAD_REQUEST || error_response(e).0 == STATUS_UNAUTHORIZED
            || error_response(e).0 == STATUS_NOT_FOUND || error_response(e).0
            == STATUS_INTERNAL_SERVER_ERROR,
        error_response(e).0 == STATUS_UNAUTHORIZED <==> (e is Unauthorized || e is InvalidCredentials
            || e is DeactivatedAccount),
        error_response(e).0 == STATUS_INTERNAL_SERVER_ERROR <==> e is Internal,
        error_response(e).1.error.fields is Some <==> e is ValidationError,
{
}

/// A refused validation is answered with one entry per reported field, in
/// order, with one message per failed check.
pub proof fn validation_response_keeps_fields(errs: ValidationErrors)
    ensures
        error_response(AppError::ValidationError(errs)).1.error.fields matches Some(f) && f.len()
            == errs@.len() && forall|i: int|
            0 <= i < f.len() ==> #[trigger] f[i].field == errs@[i].field && f[i].messages.len()
                == errs@[i].errors.len(),
{
}

} // verus!
