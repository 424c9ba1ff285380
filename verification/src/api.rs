//! The HTTP error outcomes that the services' decisions lead to.
use vstd::prelude::*;

verus! {

/// A rejected request, by the HTTP status that answers it.
#[derive(Debug, Clone, Copy, PartialEq, Eq, Structural)]
pub enum ApiError {
    BadRequest,
    Unauthorized,
    NotFound,
    Conflict,
    Internal,
    Unavailable,
}

impl ApiError {
    /// The numeric HTTP status of this outcome.
    pub open spec fn code(self) -> u16 {
        match self {
            ApiError::BadRequest => 400,
            ApiError::Unauthorized => 401,
            ApiError::NotFound => 404,
            ApiError::Conflict => 409,
            ApiError::Internal => 500,
            ApiError::Unavailable => 503,
        }
    }

    /// The numeric HTTP status that answers this outcome.
    pub fn status_code(&self) -> (c: u16)
        ensures
            c == self.code(),
    {
        match self {
            ApiError::BadRequest => 400,
            ApiError::Unauthorized => 401,
            ApiError::NotFound => 404,
            ApiError::Conflict => 409,
            ApiError::Internal => 500,
            ApiError::Unavailable => 503,
        }
    }
}

} // verus!
