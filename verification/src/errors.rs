use vstd::prelude::*;

verus! {

/// Classification of every failure a handler can report, one variant per
/// HTTP status code the API distinguishes.
#[derive(Clone, Copy, Debug, PartialEq, Eq, Structural)]
pub enum AppError {
    /// Malformed or out-of-range input (400).
    Validation,
    /// Bad credentials (401).
    Auth,
    /// No matching row (404).
    NotFound,
    /// A unique field already holds the given value (409).
    Conflict,
    /// A store or hashing failure that is not otherwise classified (500).
    Internal,
}

impl AppError {
    /// The HTTP status code under which this error is reported.
    pub fn status_code(&self) -> (code: u16)
        ensures
            code == match *self {
                AppError::Validation => 400u16,
                AppError::Auth => 401u16,
                AppError::NotFound => 404u16,
                AppError::Conflict => 409u16,
                AppError::Internal => 500u16,
            },
    {
        match self {
            AppError::Validation => 400,
            AppError::Auth => 401,
            AppError::NotFound => 404,
            AppError::Conflict => 409,
            AppError::Internal => 500,
        }
    }
}

} // verus!
