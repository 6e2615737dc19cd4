//! The errors that request handlers report to callers.
use vstd::prelude::*;
use vstd::string::*;

verus! {

/// A failed request: unauthorized (401), bad request with a reason (400),
/// or an internal failure whose cause is not disclosed (500).
pub enum ApiError {
    Unauthorized,
    BadRequest(String),
    Internal,
}

impl ApiError {
    /// The HTTP status of the error.
    pub fn status_code(&self) -> (r: u16)
        ensures
            r == (match self {
                ApiError::Unauthorized => 401u16,
                ApiError::BadRequest(_) => 400u16,
                ApiError::Internal => 500u16,
            }),
    {
        match self {
            ApiError::Unauthorized => 401,
            ApiError::BadRequest(_) => 400,
            ApiError::Internal => 500,
        }
    }

    /// The text of the `error` field of the response body.
    pub fn message(&self) -> (r: String)
        ensures
            r@ == (match self {
                ApiError::Unauthorized => "unauthorized"@,
                ApiError::BadRequest(m) => "bad request: "@ + m@,
                ApiError::Internal => "internal error"@,
            }),
    {
        match self {
            ApiError::Unauthorized => String::from_str("unauthorized"),
            ApiError::BadRequest(m) => String::from_str("bad request: ").concat(m.as_str()),
            ApiError::Internal => String::from_str("internal error"),
        }
    }
}

} // verus!
