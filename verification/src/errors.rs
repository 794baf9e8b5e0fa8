//! Error taxonomy for the service core.
//!
//! Validation and authorization failures are recovered at the boundary and
//! turned into a typed rejection; store and offload failures surface as
//! internal errors. Each variant carries a safe, caller-facing message.

use vstd::prelude::*;

verus! {

/// Typed failure of a request: which condition occurred and the safe
/// message to show the caller.
#[derive(Debug)]
pub enum AppError {
    /// Referenced identity or record is absent.
    NotFound(String),
    /// Missing, invalid or expired credential, or a failed secret check.
    Unauthorized(String),
    /// The identifier is already claimed.
    Conflict(String),
    /// Store, offload or configuration failure.
    InternalServerError(String),
    /// Malformed or missing caller input.
    BadRequest(String),
}

impl AppError {
    /// The message carried by the error, whichever variant it is.
    pub open spec fn msg_view(&self) -> Seq<char> {
        match self {
            AppError::NotFound(m) => m@,
            AppError::Unauthorized(m) => m@,
            AppError::Conflict(m) => m@,
            AppError::InternalServerError(m) => m@,
            AppError::BadRequest(m) => m@,
        }
    }

    /// The HTTP status that the boundary maps this error to.
    pub open spec fn spec_status_code(&self) -> u16 {
        match self {
            AppError::NotFound(_) => 404,
            AppError::Unauthorized(_) => 401,
            AppError::Conflict(_) => 409,
            AppError::InternalServerError(_) => 500,
            AppError::BadRequest(_) => 400,
        }
    }

    /// HTTP status code for this error.
    pub fn status_code(&self) -> (code: u16)
        ensures
            code == self.spec_status_code(),
    {
        match self {
            AppError::NotFound(_) => 404,
            AppError::Unauthorized(_) => 401,
            AppError::Conflict(_) => 409,
            AppError::InternalServerError(_) => 500,
            AppError::BadRequest(_) => 400,
        }
    }

    /// The caller-facing message.
    pub fn message(&self) -> (msg: &String)
        ensures
            msg@ == self.msg_view(),
    {
        match self {
            AppError::NotFound(m) => m,
            AppError::Unauthorized(m) => m,
            AppError::Conflict(m) => m,
            AppError::InternalServerError(m) => m,
            AppError::BadRequest(m) => m,
        }
    }
}

} // verus!
