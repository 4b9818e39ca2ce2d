//! The error type that every endpoint reports failures with.

use vstd::prelude::*;

verus! {

/// A failure as a client may see it: a kind, which fixes the HTTP status,
/// and a message that gives no secret away.
#[derive(Debug, Clone)]
pub enum ApiError {
    BadRequest(String),
    Unauthorized(String),
    Forbidden(String),
    NotFound(String),
    Conflict(String),
    ServiceUnavailable(String),
    InternalError(String),
}

/// The kind of an [`ApiError`], without its message.
#[derive(Debug, Clone, Copy, PartialEq, Eq, Structural)]
pub enum ApiErrorKind {
    BadRequest,
    Unauthorized,
    Forbidden,
    NotFound,
    Conflict,
    ServiceUnavailable,
    InternalError,
}

/// The HTTP status that stands for an error kind.
pub open spec fn status_of(kind: ApiErrorKind) -> int {
    match kind {
        ApiErrorKind::BadRequest => 400,
        ApiErrorKind::Unauthorized => 401,
        ApiErrorKind::Forbidden => 403,
        ApiErrorKind::NotFound => 404,
        ApiErrorKind::Conflict => 409,
        ApiErrorKind::ServiceUnavailable => 503,
        ApiErrorKind::InternalError => 500,
    }
}

impl ApiError {
    /// The kind of this error.
    pub open spec fn kind_spec(&self) -> ApiErrorKind {
        match self {
            ApiError::BadRequest(_) => ApiErrorKind::BadRequest,
            ApiError::Unauthorized(_) => ApiErrorKind::Unauthorized,
            ApiError::Forbidden(_) => ApiErrorKind::Forbidden,
            ApiError::NotFound(_) => ApiErrorKind::NotFound,
            ApiError::Conflict(_) => ApiErrorKind::Conflict,
            ApiError::ServiceUnavailable(_) => ApiErrorKind::ServiceUnavailable,
            ApiError::InternalError(_) => ApiErrorKind::InternalError,
        }
    }

    /// The message of this error.
    pub open spec fn message(&self) -> Seq<char> {
        match self {
            ApiError::BadRequest(m) => m@,
            ApiError::Unauthorized(m) => m@,
            ApiError::Forbidden(m) => m@,
            ApiError::NotFound(m) => m@,
            ApiError::Conflict(m) => m@,
            ApiError::ServiceUnavailable(m) => m@,
            ApiError::InternalError(m) => m@,
        }
    }

    /// Whether this error has the given kind and message.
    pub open spec fn has(&self, kind: ApiErrorKind, message: Seq<char>) -> bool {
        self.kind_spec() == kind && self.message() == message
    }

    /// The kind of this error.
    pub fn kind(&self) -> (k: ApiErrorKind)
        ensures
            k == self.kind_spec(),
    {
        match self {
            ApiError::BadRequest(_) => ApiErrorKind::BadRequest,
            ApiError::Unauthorized(_) => ApiErrorKind::Unauthorized,
            ApiError::Forbidden(_) => ApiErrorKind::Forbidden,
            ApiError::NotFound(_) => ApiErrorKind::NotFound,
            ApiError::Conflict(_) => ApiErrorKind::Conflict,
            ApiError::ServiceUnavailable(_) => ApiErrorKind::ServiceUnavailable,
            ApiError::InternalError(_) => ApiErrorKind::InternalError,
        }
    }

    /// The HTTP status code that a response for this error carries.
    pub fn status_code(&self) -> (code: u16)
        ensures
            code == status_of(self.kind_spec()),
    {
        match self {
            ApiError::BadRequest(_) => 400,
            ApiError::Unauthorized(_) => 401,
            ApiError::Forbidden(_) => 403,
            ApiError::NotFound(_) => 404,
            ApiError::Conflict(_) => 409,
            ApiError::ServiceUnavailable(_) => 503,
            ApiError::InternalError(_) => 500,
        }
    }

    /// The message that may be shown to the client.
    pub fn public_message(&self) -> (text: String)
        ensures
            text@ == self.message(),
    {
        match self {
            ApiError::BadRequest(msg) => msg.clone(),
            ApiError::Unauthorized(msg) => msg.clone(),
            ApiError::Forbidden(msg) => msg.clone(),
            ApiError::NotFound(msg) => msg.clone(),
            ApiError::Conflict(msg) => msg.clone(),
            ApiError::ServiceUnavailable(msg) => msg.clone(),
            ApiError::InternalError(msg) => msg.clone(),
        }
    }
}

} // verus!
