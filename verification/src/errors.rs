//! Typed errors surfaced to the client, each mapped to one HTTP status code.
//!
//! Internal failures carry their detail for server-side logging only; the
//! client-facing message for them is a fixed generic string.

use vstd::prelude::*;

verus! {

/// An error reported to the client as a JSON body with an HTTP status.
#[derive(Debug)]
pub enum AppError {
    /// Unknown token, mismatched client id, or an unclaimed/taken session.
    Unauthorized(String),
    /// Unknown resource.
    NotFound(String),
    /// Bounds errors, malformed manifests, failed AEAD authentication,
    /// unsafe filenames.
    BadRequest(String),
    /// Duplicate manifest file index, or a double finalize.
    Conflict(String),
    /// Preallocation or write failure when the disk is full.
    InsufficientStorage(String),
    /// Any uncategorized failure; the client sees only a generic message.
    Internal(String),
}

impl AppError {
    /// The HTTP status code each error kind is reported with.
    pub open spec fn spec_status_code(&self) -> u16 {
        match self {
            AppError::Unauthorized(_) => 401,
            AppError::NotFound(_) => 404,
            AppError::BadRequest(_) => 400,
            AppError::Conflict(_) => 409,
            AppError::InsufficientStorage(_) => 507,
            AppError::Internal(_) => 500,
        }
    }

    /// The machine-readable error type sent in the JSON body.
    pub open spec fn spec_error_type(&self) -> Seq<char> {
        match self {
            AppError::Unauthorized(_) => "unauthorized"@,
            AppError::NotFound(_) => "not_found"@,
            AppError::BadRequest(_) => "bad_request"@,
            AppError::Conflict(_) => "conflict"@,
            AppError::InsufficientStorage(_) => "insufficient_storage"@,
            AppError::Internal(_) => "internal_error"@,
        }
    }

    /// The message shown to the client: the carried detail, except for
    /// internal errors, whose detail stays server-side.
    pub open spec fn spec_client_message(&self) -> Seq<char> {
        match self {
            AppError::Unauthorized(m) => m@,
            AppError::NotFound(m) => m@,
            AppError::BadRequest(m) => m@,
            AppError::Conflict(m) => m@,
            AppError::InsufficientStorage(m) => m@,
            AppError::Internal(_) => "An internal error occurred"@,
        }
    }

    pub fn status_code(&self) -> (code: u16)
        ensures
            code == self.spec_status_code(),
    {
        match self {
            AppError::Unauthorized(_) => 401,
            AppError::NotFound(_) => 404,
            AppError::BadRequest(_) => 400,
            AppError::Conflict(_) => 409,
            AppError::InsufficientStorage(_) => 507,
            AppError::Internal(_) => 500,
        }
    }

    pub fn error_type(&self) -> (t: &'static str)
        ensures
            t@ == self.spec_error_type(),
    {
        match self {
            AppError::Unauthorized(_) => "unauthorized",
            AppError::NotFound(_) => "not_found",
            AppError::BadRequest(_) => "bad_request",
            AppError::Conflict(_) => "conflict",
            AppError::InsufficientStorage(_) => "insufficient_storage",
            AppError::Internal(_) => "internal_error",
        }
    }

    pub fn client_message(&self) -> (m: &str)
        ensures
            m@ == self.spec_client_message(),
    {
        match self {
            AppError::Unauthorized(m) => m.as_str(),
            AppError::NotFound(m) => m.as_str(),
            AppError::BadRequest(m) => m.as_str(),
            AppError::Conflict(m) => m.as_str(),
            AppError::InsufficientStorage(m) => m.as_str(),
            AppError::Internal(_) => "An internal error occurred",
        }
    }
}

} // verus!
