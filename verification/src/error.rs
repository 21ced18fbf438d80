//! The error type shared by every repository and service, with its mapping to
//! an HTTP status code and to the generic message shown to clients.
use vstd::prelude::*;

verus! {

/// Everything that can go wrong while handling a request. The payload of each
/// variant is the detailed, server-side description; clients only ever see the
/// generic text of `message`.
#[derive(Debug)]
pub enum AppError {
    BadRequest(String),
    NotFound(String),
    InternalServerError(String),
    Forbidden(String),
    Unauthorized(String),
    /// A failure reported by the relational store.
    Database(String),
    /// A failure to obtain a connection from the pool.
    Pool(String),
    /// A failure while parsing a multipart request body.
    Multipart(String),
    /// A failure of the underlying file storage.
    IO(String),
}

impl AppError {
    /// The HTTP status code each error kind maps to.
    pub open spec fn spec_status_code(&self) -> u16 {
        match self {
            AppError::BadRequest(_) => 400,
            AppError::NotFound(_) => 404,
            AppError::InternalServerError(_) => 500,
            AppError::Forbidden(_) => 403,
            AppError::Unauthorized(_) => 401,
            AppError::Database(_) => 500,
            AppError::Pool(_) => 500,
            AppError::Multipart(_) => 500,
            AppError::IO(_) => 500,
        }
    }

    pub fn status_code(&self) -> (code: u16)
        ensures
            code == self.spec_status_code(),
    {
        match self {
            AppError::BadRequest(_) => 400,
            AppError::NotFound(_) => 404,
            AppError::InternalServerError(_) => 500,
            AppError::Forbidden(_) => 403,
            AppError::Unauthorized(_) => 401,
            AppError::Database(_) => 500,
            AppError::Pool(_) => 500,
            AppError::Multipart(_) => 500,
            AppError::IO(_) => 500,
        }
    }

    /// The generic message a client sees for each error kind; the detailed
    /// payload is never echoed back.
    pub open spec fn spec_message(&self) -> Seq<char> {
        match self {
            AppError::BadRequest(_) => "Bad request"@,
            AppError::NotFound(_) => "Resource not found"@,
            AppError::InternalServerError(_) => "Internal server error"@,
            AppError::Forbidden(_) => "Forbidden access"@,
            AppError::Unauthorized(_) => "Unauthorized access"@,
            AppError::Database(_) => "Database error occurred"@,
            AppError::Pool(_) => "Connection pool error occurred"@,
            AppError::Multipart(_) => "Multipart error occurred"@,
            AppError::IO(_) => "I/O error occurred"@,
        }
    }

    pub fn message(&self) -> (msg: String)
        ensures
            msg@ == self.spec_message(),
    {
        match self {
            AppError::BadRequest(_) => "Bad request".to_owned(),
            AppError::NotFound(_) => "Resource not found".to_owned(),
            AppError::InternalServerError(_) => "Internal server error".to_owned(),
            AppError::Forbidden(_) => "Forbidden access".to_owned(),
            AppError::Unauthorized(_) => "Unauthorized access".to_owned(),
            AppError::Database(_) => "Database error occurred".to_owned(),
            AppError::Pool(_) => "Connection pool error occurred".to_owned(),
            AppError::Multipart(_) => "Multipart error occurred".to_owned(),
            AppError::IO(_) => "I/O error occurred".to_owned(),
        }
    }
}

} // verus!
