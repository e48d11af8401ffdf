//! The closed set of failures that the services report, and the HTTP status
//! and message each one is answered with.

use vstd::prelude::*;

verus! {

/// A failure surfaced at the service boundary.
#[derive(Debug)]
pub enum ApiError {
    /// Authentication is required, or the presented credential was refused.
    Unauthorized(String),
    /// The password did not match the stored hash.
    InvalidLoginAttempt,
    /// The caller is known but lacks the privilege.
    Forbidden,
    /// The user or e-mail address is unknown.
    NotFound(String),
    /// The process could not be started with the given configuration.
    ApplicationStartup(String),
    /// The request, or a token payload, was malformed.
    BadRequest(String),
    /// An unexpected failure without further detail.
    InternalServerError,
    /// A hashing, signing, configuration or store failure.
    InternalServerErrorWithContext(String),
    /// The record to create exists already.
    ObjectConflict(String),
}

pub type ApiResult<T> = Result<T, ApiError>;

pub const STATUS_BAD_REQUEST: u16 = 400;

pub const STATUS_REQUEST_TIMEOUT: u16 = 408;

pub const STATUS_UNAUTHORIZED: u16 = 401;

pub const STATUS_NOT_FOUND: u16 = 404;

pub const STATUS_CONFLICT: u16 = 409;

pub const STATUS_INTERNAL_SERVER_ERROR: u16 = 500;

impl ApiError {
    /// The HTTP status that answers this failure.
    pub open spec fn spec_status_code(&self) -> u16 {
        match self {
            ApiError::Unauthorized(_) => STATUS_UNAUTHORIZED,
            ApiError::InvalidLoginAttempt => STATUS_BAD_REQUEST,
            ApiError::NotFound(_) => STATUS_NOT_FOUND,
            ApiError::BadRequest(_) => STATUS_BAD_REQUEST,
            ApiError::ObjectConflict(_) => STATUS_CONFLICT,
            ApiError::Forbidden
            | ApiError::ApplicationStartup(_)
            | ApiError::InternalServerError
            | ApiError::InternalServerErrorWithContext(_) => STATUS_INTERNAL_SERVER_ERROR,
        }
    }

    /// The text sent to the client: the carried message where the failure is
    /// one that is explained to the client, a fixed sentence otherwise.
    pub open spec fn spec_message(&self) -> Seq<char> {
        match self {
            ApiError::Unauthorized(m) => m@,
            ApiError::InvalidLoginAttempt => "username or password is incorrect"@,
            ApiError::NotFound(m) => m@,
            ApiError::BadRequest(m) => m@,
            ApiError::InternalServerErrorWithContext(m) => m@,
            ApiError::ObjectConflict(m) => m@,
            ApiError::Forbidden
            | ApiError::ApplicationStartup(_)
            | ApiError::InternalServerError => "Unexpected error"@,
        }
    }

    pub fn status_code(&self) -> (code: u16)
        ensures
            code == self.spec_status_code(),
    {
        match self {
            ApiError::Unauthorized(_) => STATUS_UNAUTHORIZED,
            ApiError::InvalidLoginAttempt => STATUS_BAD_REQUEST,
            ApiError::NotFound(_) => STATUS_NOT_FOUND,
            ApiError::BadRequest(_) => STATUS_BAD_REQUEST,
            ApiError::ObjectConflict(_) => STATUS_CONFLICT,
            _ => STATUS_INTERNAL_SERVER_ERROR,
        }
    }

    pub fn message(&self) -> (text: String)
        ensures
            text@ == self.spec_message(),
    {
        match self {
            ApiError::Unauthorized(m) => m.clone(),
            ApiError::InvalidLoginAttempt => "username or password is incorrect".to_owned(),
            ApiError::NotFound(m) => m.clone(),
            ApiError::BadRequest(m) => m.clone(),
            ApiError::InternalServerErrorWithContext(m) => m.clone(),
            ApiError::ObjectConflict(m) => m.clone(),
            _ => "Unexpected error".to_owned(),
        }
    }

    /// What `into_response` hands to the HTTP layer: status and body text.
    pub fn into_response(self) -> (response: (u16, String))
        ensures
            response.0 == self.spec_status_code(),
            response.1@ == self.spec_message(),
    {
        let code: u16 = self.status_code();
        let text = self.message();
        (code, text)
    }
}

/// What a request that failed outside every handler is answered with: `408`
/// where it ran out of time, `500` with the failure's own text otherwise.
pub open spec fn spec_unhandled_error_response(timed_out: bool, detail: Seq<char>) -> (
    u16,
    Seq<char>,
) {
    if timed_out {
        (
            STATUS_REQUEST_TIMEOUT,
            "request took longer than the configured 30 second timeout"@,
        )
    } else {
        (STATUS_INTERNAL_SERVER_ERROR, "unhandled internal error: "@ + detail)
    }
}

/// Answers a request that failed outside every handler.
pub fn handle_timeout_error(timed_out: bool, detail: &str) -> (response: (u16, String))
    ensures
        (response.0, response.1@) == spec_unhandled_error_response(timed_out, detail@),
{
    if timed_out {
        (
            STATUS_REQUEST_TIMEOUT,
            "request took longer than the configured 30 second timeout".to_owned(),
        )
    } else {
        (STATUS_INTERNAL_SERVER_ERROR, "unhandled internal error: ".to_owned().concat(detail))
    }
}

} // verus!
