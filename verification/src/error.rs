//! The application's error kinds, their HTTP statuses and their messages.
use vstd::prelude::*;

use crate::text::cat;

verus! {

/// Application-level error type.
#[derive(Debug, Clone)]
pub enum AppError {
    NotFound(String),
    Unauthorized,
    Forbidden(String),
    BadRequest(String),
    Conflict(String),
    PreconditionFailed(String),
    /// A database failure, with the driver's message.
    Database(String),
    /// Any other failure, with its message.
    Internal(String),
}

/// The HTTP status of each error kind.
pub open spec fn spec_status(e: AppError) -> u16 {
    match e {
        AppError::NotFound(_) => 404,
        AppError::Unauthorized => 401,
        AppError::Forbidden(_) => 403,
        AppError::BadRequest(_) => 400,
        AppError::Conflict(_) => 409,
        AppError::PreconditionFailed(_) => 412,
        AppError::Database(_) => 500,
        AppError::Internal(_) => 500,
    }
}

/// The text of each error: its kind and its detail.
pub open spec fn spec_message(e: AppError) -> Seq<char> {
    match e {
        AppError::NotFound(s) => "not found: "@ + s@,
        AppError::Unauthorized => "unauthorized"@,
        AppError::Forbidden(s) => "forbidden: "@ + s@,
        AppError::BadRequest(s) => "bad request: "@ + s@,
        AppError::Conflict(s) => "conflict: "@ + s@,
        AppError::PreconditionFailed(s) => "precondition failed: "@ + s@,
        AppError::Database(s) => "database error: "@ + s@,
        AppError::Internal(s) => "internal error: "@ + s@,
    }
}

impl AppError {
    /// The HTTP status the error answers with.
    pub fn status_code(&self) -> (s: u16)
        ensures
            s == spec_status(*self),
    {
        match self {
            AppError::NotFound(_) => 404,
            AppError::Unauthorized => 401,
            AppError::Forbidden(_) => 403,
            AppError::BadRequest(_) => 400,
            AppError::Conflict(_) => 409,
            AppError::PreconditionFailed(_) => 412,
            AppError::Database(_) => 500,
            AppError::Internal(_) => 500,
        }
    }

    /// The error's text (the body of its response).
    pub fn message(&self) -> (m: String)
        ensures
            m@ == spec_message(*self),
    {
        match self {
            AppError::NotFound(s) => cat("not found: ", s.as_str()),
            AppError::Unauthorized => String::from_str("unauthorized"),
            AppError::Forbidden(s) => cat("forbidden: ", s.as_str()),
            AppError::BadRequest(s) => cat("bad request: ", s.as_str()),
            AppError::Conflict(s) => cat("conflict: ", s.as_str()),
            AppError::PreconditionFailed(s) => cat("precondition failed: ", s.as_str()),
            AppError::Database(s) => cat("database error: ", s.as_str()),
            AppError::Internal(s) => cat("internal error: ", s.as_str()),
        }
    }

    /// Whether the error is a server-side failure (logged at error level).
    pub fn is_server_error(&self) -> (b: bool)
        ensures
            b == (spec_status(*self) == 500),
    {
        match self {
            AppError::Database(_) | AppError::Internal(_) => true,
            _ => false,
        }
    }
}

} // verus!
