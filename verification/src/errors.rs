//! The closed error taxonomy and its mapping to HTTP status codes and
//! JSON-shaped response bodies.

use vstd::prelude::*;
use vstd::string::StringExecFns;

verus! {

/// Body shape for every non-validation error: `{"error": CODE, "message": text}`.
pub struct ErrorResponse {
    pub error: String,
    pub message: String,
}

/// One reported validation failure: a field name and a human-readable message.
pub struct FieldError {
    pub field: String,
    pub message: String,
}

/// Body shape for validation errors: `{"error": "VALIDATION_ERROR", "errors": [...]}`.
pub struct ValidationErrorResponse {
    pub error: String,
    pub errors: Vec<FieldError>,
}

#[verifier::ext_equal]
pub struct FieldErrorView {
    pub field: Seq<char>,
    pub message: Seq<char>,
}

impl View for FieldError {
    type V = FieldErrorView;

    open spec fn view(&self) -> FieldErrorView {
        FieldErrorView { field: self.field@, message: self.message@ }
    }
}

pub open spec fn field_errors_view(errs: Seq<FieldError>) -> Seq<FieldErrorView> {
    errs.map_values(|e: FieldError| e@)
}

impl FieldError {
    /// Builds a field error from literal field/message text.
    pub fn new(field: &str, message: &str) -> (r: FieldError)
        ensures
            r@ == (FieldErrorView { field: field@, message: message@ }),
    {
        FieldError { field: field.to_owned(), message: message.to_owned() }
    }
}

/// What a store operation can report instead of a row: either the query
/// matched no rows, or the store failed for some other stated reason.
#[derive(Debug)]
pub enum StoreError {
    NoRows,
    Failure(String),
}

/// Every failure the service can surface, each paired with a fixed HTTP
/// status and machine-readable code.
pub enum AppError {
    DatabaseError(String),
    NotFound(String),
    BadRequest(String),
    ValidationError(Vec<FieldError>),
    InternalServerError(String),
}

/// An error body is one of exactly two JSON shapes.
pub enum ErrorBody {
    Plain(ErrorResponse),
    Validation(ValidationErrorResponse),
}

#[verifier::ext_equal]
pub struct ErrorResponseView {
    pub error: Seq<char>,
    pub message: Seq<char>,
}

impl View for ErrorResponse {
    type V = ErrorResponseView;

    open spec fn view(&self) -> ErrorResponseView {
        ErrorResponseView { error: self.error@, message: self.message@ }
    }
}

#[verifier::ext_equal]
pub struct ValidationErrorResponseView {
    pub error: Seq<char>,
    pub errors: Seq<FieldErrorView>,
}

impl View for ValidationErrorResponse {
    type V = ValidationErrorResponseView;

    open spec fn view(&self) -> ValidationErrorResponseView {
        ValidationErrorResponseView { error: self.error@, errors: field_errors_view(self.errors@) }
    }
}

#[verifier::ext_equal]
pub enum ErrorBodyView {
    Plain(ErrorResponseView),
    Validation(ValidationErrorResponseView),
}

impl View for ErrorBody {
    type V = ErrorBodyView;

    open spec fn view(&self) -> ErrorBodyView {
        match self {
            ErrorBody::Plain(b) => ErrorBodyView::Plain(b@),
            ErrorBody::Validation(v) => ErrorBodyView::Validation(v@),
        }
    }
}

impl AppError {
    /// A zero-rows store condition is always reclassified as NotFound;
    /// every other store failure becomes DatabaseError.
    pub fn from_store(e: StoreError) -> (r: AppError)
        ensures
            e is NoRows ==> (r matches AppError::NotFound(m) && m@ == "Resource not found"@),
            e matches StoreError::Failure(msg) ==> (r matches AppError::DatabaseError(m) && m
                == msg),
    {
        match e {
            StoreError::NoRows => AppError::NotFound("Resource not found".to_owned()),
            StoreError::Failure(msg) => AppError::DatabaseError(msg),
        }
    }

    /// The HTTP status this error kind always maps to.
    pub fn status_code(&self) -> (r: u16)
        ensures
            r == self.spec_status_code(),
    {
        match self {
            AppError::DatabaseError(_) => 500,
            AppError::NotFound(_) => 404,
            AppError::BadRequest(_) => 400,
            AppError::ValidationError(_) => 400,
            AppError::InternalServerError(_) => 500,
        }
    }

    pub open spec fn spec_status_code(&self) -> u16 {
        match self {
            AppError::DatabaseError(_) => 500u16,
            AppError::NotFound(_) => 404u16,
            AppError::BadRequest(_) => 400u16,
            AppError::ValidationError(_) => 400u16,
            AppError::InternalServerError(_) => 500u16,
        }
    }

    /// The machine-readable code of this error kind.
    pub open spec fn spec_code(&self) -> Seq<char> {
        match self {
            AppError::DatabaseError(_) => "DATABASE_ERROR"@,
            AppError::NotFound(_) => "NOT_FOUND"@,
            AppError::BadRequest(_) => "BAD_REQUEST"@,
            AppError::ValidationError(_) => "VALIDATION_ERROR"@,
            AppError::InternalServerError(_) => "INTERNAL_SERVER_ERROR"@,
        }
    }

    /// The message carried by a non-validation error.
    pub open spec fn spec_message(&self) -> Seq<char>
        recommends !(self is ValidationError),
    {
        match self {
            AppError::DatabaseError(m) => m@,
            AppError::NotFound(m) => m@,
            AppError::BadRequest(m) => m@,
            AppError::ValidationError(_) => Seq::<char>::empty(),
            AppError::InternalServerError(m) => m@,
        }
    }

    /// Renders this error as the status and body the client receives.
    /// Validation errors use the per-field body; every other kind uses the
    /// single `{error, message}` body with its fixed code.
    pub fn error_response(self) -> (r: (u16, ErrorBody))
        ensures
            r.0 == self.spec_status_code(),
            self matches AppError::ValidationError(errs) ==> {
                &&& r.1 matches ErrorBody::Validation(v)
                &&& v.error@ == self.spec_code()
                &&& field_errors_view(v.errors@) == field_errors_view(errs@)
            },
            !(self is ValidationError) ==> {
                &&& r.1 matches ErrorBody::Plain(b)
                &&& b.error@ == self.spec_code()
                &&& b.message@ == self.spec_message()
            },
    {
        match self {
            AppError::ValidationError(errs) => (
                400,
                ErrorBody::Validation(
                    ValidationErrorResponse {
                        error: "VALIDATION_ERROR".to_owned(),
                        errors: errs,
                    },
                ),
            ),
            AppError::DatabaseError(msg) => (
                500,
                ErrorBody::Plain(ErrorResponse { error: "DATABASE_ERROR".to_owned(), message: msg }),
            ),
            AppError::NotFound(msg) => (
                404,
                ErrorBody::Plain(ErrorResponse { error: "NOT_FOUND".to_owned(), message: msg }),
            ),
            AppError::BadRequest(msg) => (
                400,
                ErrorBody::Plain(ErrorResponse { error: "BAD_REQUEST".to_owned(), message: msg }),
            ),
            AppError::InternalServerError(msg) => (
                500,
                ErrorBody::Plain(
                    ErrorResponse { error: "INTERNAL_SERVER_ERROR".to_owned(), message: msg },
                ),
            ),
        }
    }

    /// The error written out as one line of text, as a log would show it.
    pub fn message_string(&self) -> (r: String)
        ensures
            self matches AppError::DatabaseError(m) ==> (r@ == "Database error: "@ + m@),
            self matches AppError::NotFound(m) ==> (r@ == "Not found: "@ + m@),
            self matches AppError::BadRequest(m) ==> (r@ == "Bad request: "@ + m@),
            self matches AppError::ValidationError(_) ==> (r@ == "Validation error"@),
            self matches AppError::InternalServerError(m) ==> (r@ == "Internal server error: "@
                + m@),
    {
        match self {
            AppError::DatabaseError(m) => {
                let mut s = "Database error: ".to_owned();
                s.append(m.as_str());
                s
            },
            AppError::NotFound(m) => {
                let mut s = "Not found: ".to_owned();
                s.append(m.as_str());
                s
            },
            AppError::BadRequest(m) => {
                let mut s = "Bad request: ".to_owned();
                s.append(m.as_str());
                s
            },
            AppError::ValidationError(_) => "Validation error".to_owned(),
            AppError::InternalServerError(m) => {
                let mut s = "Internal server error: ".to_owned();
                s.append(m.as_str());
                s
            },
        }
    }
}

} // verus!
