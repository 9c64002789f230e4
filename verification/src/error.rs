//! The failures that the service reports.

use vstd::prelude::*;

verus! {

/// The class of a failure, without its message.
#[derive(Debug, Clone, Copy, PartialEq, Eq, Structural)]
pub enum ErrorKind {
    BadRequest,
    Unauthorized,
    Forbidden,
    NotFound,
    Internal,
    ExternalService,
    Validation,
}

/// What a failure is to the contracts: its class and the characters of its message.
pub struct Failure {
    pub kind: ErrorKind,
    pub message: Seq<char>,
}

/// A failure of the service, with a message for the caller.
#[derive(Debug)]
pub enum AppError {
    /// The request was malformed.
    BadRequest(String),
    /// The caller did not say who they are.
    Unauthorized(String),
    /// The caller may not do this.
    Forbidden(String),
    /// The thing asked for does not exist.
    NotFound(String),
    /// Something went wrong inside the service.
    Internal(String),
    /// A collaborating service failed.
    ExternalService(String),
    /// The input did not pass validation.
    Validation(String),
}

pub type AppResult<T> = Result<T, AppError>;

impl View for AppError {
    type V = Failure;

    open spec fn view(&self) -> Failure {
        match self {
            AppError::BadRequest(m) => Failure { kind: ErrorKind::BadRequest, message: m@ },
            AppError::Unauthorized(m) => Failure { kind: ErrorKind::Unauthorized, message: m@ },
            AppError::Forbidden(m) => Failure { kind: ErrorKind::Forbidden, message: m@ },
            AppError::NotFound(m) => Failure { kind: ErrorKind::NotFound, message: m@ },
            AppError::Internal(m) => Failure { kind: ErrorKind::Internal, message: m@ },
            AppError::ExternalService(m) => Failure {
                kind: ErrorKind::ExternalService,
                message: m@,
            },
            AppError::Validation(m) => Failure { kind: ErrorKind::Validation, message: m@ },
        }
    }
}

impl DeepView for AppError {
    type V = Failure;

    open spec fn deep_view(&self) -> Failure {
        self@
    }
}

impl Clone for AppError {
    fn clone(&self) -> (r: Self)
        ensures
            r@ == self@,
    {
        match self {
            AppError::BadRequest(m) => AppError::BadRequest(m.clone()),
            AppError::Unauthorized(m) => AppError::Unauthorized(m.clone()),
            AppError::Forbidden(m) => AppError::Forbidden(m.clone()),
            AppError::NotFound(m) => AppError::NotFound(m.clone()),
            AppError::Internal(m) => AppError::Internal(m.clone()),
            AppError::ExternalService(m) => AppError::ExternalService(m.clone()),
            AppError::Validation(m) => AppError::Validation(m.clone()),
        }
    }
}

impl ErrorKind {
    /// The words that open the text of a failure of this class.
    pub open spec fn heading(self) -> Seq<char> {
        match self {
            ErrorKind::BadRequest => "Bad Request: "@,
            ErrorKind::Unauthorized => "Unauthorized: "@,
            ErrorKind::Forbidden => "Forbidden: "@,
            ErrorKind::NotFound => "Not Found: "@,
            ErrorKind::Internal => "Internal Error: "@,
            ErrorKind::ExternalService => "External Service Error: "@,
            ErrorKind::Validation => "Validation Error: "@,
        }
    }

    /// The HTTP status that a failure of this class is answered with.
    pub open spec fn status(self) -> u16 {
        match self {
            ErrorKind::BadRequest => 400,
            ErrorKind::Unauthorized => 401,
            ErrorKind::Forbidden => 403,
            ErrorKind::NotFound => 404,
            ErrorKind::Internal => 500,
            ErrorKind::ExternalService => 502,
            ErrorKind::Validation => 422,
        }
    }

    /// The machine-readable code that a failure of this class is answered with.
    pub open spec fn code(self) -> Seq<char> {
        match self {
            ErrorKind::BadRequest => "BAD_REQUEST"@,
            ErrorKind::Unauthorized => "UNAUTHORIZED"@,
            ErrorKind::Forbidden => "FORBIDDEN"@,
            ErrorKind::NotFound => "NOT_FOUND"@,
            ErrorKind::Internal => "INTERNAL_ERROR"@,
            ErrorKind::ExternalService => "EXTERNAL_SERVICE_ERROR"@,
            ErrorKind::Validation => "VALIDATION_ERROR"@,
        }
    }
}

impl Failure {
    /// The text of the failure as a person reads it: the heading of its class, then the message.
    pub open spec fn text(self) -> Seq<char> {
        self.kind.heading() + self.message
    }
}

impl AppError {
    /// The class of the failure.
    pub fn kind(&self) -> (k: ErrorKind)
        ensures
            k == self@.kind,
    {
        match self {
            AppError::BadRequest(_) => ErrorKind::BadRequest,
            AppError::Unauthorized(_) => ErrorKind::Unauthorized,
            AppError::Forbidden(_) => ErrorKind::Forbidden,
            AppError::NotFound(_) => ErrorKind::NotFound,
            AppError::Internal(_) => ErrorKind::Internal,
            AppError::ExternalService(_) => ErrorKind::ExternalService,
            AppError::Validation(_) => ErrorKind::Validation,
        }
    }

    /// The message of the failure, without the heading.
    pub fn message(&self) -> (m: &String)
        ensures
            m@ == self@.message,
    {
        match self {
            AppError::BadRequest(m) => m,
            AppError::Unauthorized(m) => m,
            AppError::Forbidden(m) => m,
            AppError::NotFound(m) => m,
            AppError::Internal(m) => m,
            AppError::ExternalService(m) => m,
            AppError::Validation(m) => m,
        }
    }

    /// The text of the failure: the heading of its class, then the message.
    pub fn to_text(&self) -> (r: String)
        ensures
            r@ == self@.text(),
    {
        let heading = match self {
            AppError::BadRequest(_) => "Bad Request: ",
            AppError::Unauthorized(_) => "Unauthorized: ",
            AppError::Forbidden(_) => "Forbidden: ",
            AppError::NotFound(_) => "Not Found: ",
            AppError::Internal(_) => "Internal Error: ",
            AppError::ExternalService(_) => "External Service Error: ",
            AppError::Validation(_) => "Validation Error: ",
        };
        String::from_str(heading).concat(self.message().as_str())
    }

    /// The HTTP status that the failure is answered with.
    pub fn status_code(&self) -> (r: u16)
        ensures
            r == self@.kind.status(),
    {
        match self {
            AppError::BadRequest(_) => 400,
            AppError::Unauthorized(_) => 401,
            AppError::Forbidden(_) => 403,
            AppError::NotFound(_) => 404,
            AppError::Internal(_) => 500,
            AppError::ExternalService(_) => 502,
            AppError::Validation(_) => 422,
        }
    }

    /// The machine-readable code that the failure is answered with.
    pub fn error_code(&self) -> (r: &'static str)
        ensures
            r@ == self@.kind.code(),
    {
        match self {
            AppError::BadRequest(_) => "BAD_REQUEST",
            AppError::Unauthorized(_) => "UNAUTHORIZED",
            AppError::Forbidden(_) => "FORBIDDEN",
            AppError::NotFound(_) => "NOT_FOUND",
            AppError::Internal(_) => "INTERNAL_ERROR",
            AppError::ExternalService(_) => "EXTERNAL_SERVICE_ERROR",
            AppError::Validation(_) => "VALIDATION_ERROR",
        }
    }
}

} // verus!
