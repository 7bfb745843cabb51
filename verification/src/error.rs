//! The error taxonomy shared by every component: each failure is one kind
//! carrying a human-readable message, and each kind maps to one HTTP status.

use vstd::prelude::*;

verus! {

/// One error kind per failure family; the payload is the human-readable
/// message shown to the caller.
#[derive(Debug)]
pub enum ApiError {
    BadRequest(String),
    NotFound(String),
    Unauthorized(String),
    InternalError(String),
    DatabaseError(String),
    StorageError(String),
    ValidationError(String),
}

pub type ApiResult<T> = Result<T, ApiError>;

impl ApiError {
    /// The HTTP status this error kind maps to.
    pub open spec fn spec_status_code(&self) -> u16 {
        match self {
            ApiError::BadRequest(_) => 400,
            ApiError::NotFound(_) => 404,
            ApiError::Unauthorized(_) => 401,
            ApiError::InternalError(_) => 500,
            ApiError::DatabaseError(_) => 500,
            ApiError::StorageError(_) => 500,
            ApiError::ValidationError(_) => 400,
        }
    }

    pub fn status_code(&self) -> (code: u16)
        ensures
            code == self.spec_status_code(),
    {
        match self {
            ApiError::BadRequest(_) => 400,
            ApiError::NotFound(_) => 404,
            ApiError::Unauthorized(_) => 401,
            ApiError::InternalError(_) => 500,
            ApiError::DatabaseError(_) => 500,
            ApiError::StorageError(_) => 500,
            ApiError::ValidationError(_) => 400,
        }
    }

    /// The short label naming the error category in a response body.
    pub open spec fn spec_label(&self) -> Seq<char> {
        match self {
            ApiError::BadRequest(_) => "Bad Request"@,
            ApiError::NotFound(_) => "Not Found"@,
            ApiError::Unauthorized(_) => "Unauthorized"@,
            _ => "Internal Server Error"@,
        }
    }

    pub fn label(&self) -> (label: &'static str)
        ensures
            label@ == self.spec_label(),
    {
        match self {
            ApiError::BadRequest(_) => "Bad Request",
            ApiError::NotFound(_) => "Not Found",
            ApiError::Unauthorized(_) => "Unauthorized",
            _ => "Internal Server Error",
        }
    }

    /// The message carried by the error, whatever its kind.
    pub open spec fn spec_message(&self) -> Seq<char> {
        match self {
            ApiError::BadRequest(m) => m@,
            ApiError::NotFound(m) => m@,
            ApiError::Unauthorized(m) => m@,
            ApiError::InternalError(m) => m@,
            ApiError::DatabaseError(m) => m@,
            ApiError::StorageError(m) => m@,
            ApiError::ValidationError(m) => m@,
        }
    }

    pub fn message(&self) -> (message: &String)
        ensures
            message@ == self.spec_message(),
    {
        match self {
            ApiError::BadRequest(m) => m,
            ApiError::NotFound(m) => m,
            ApiError::Unauthorized(m) => m,
            ApiError::InternalError(m) => m,
            ApiError::DatabaseError(m) => m,
            ApiError::StorageError(m) => m,
            ApiError::ValidationError(m) => m,
        }
    }

    /// Whether this error is the validation kind, whatever message it carries.
    pub open spec fn is_validation(&self) -> bool {
        self matches ApiError::ValidationError(_)
    }
}

} // verus!
