//! The library's error taxonomy.
//!
//! Per-request failures of the load generator are data, never errors; what
//! surfaces here are the application-level failures of the shared service
//! logic: rejected credentials, missing records, and failures reported by
//! the cryptographic helpers.

use vstd::prelude::*;

verus! {

#[verifier::external_type_specification]
#[verifier::external_body]
pub struct ExJwtError(jsonwebtoken::errors::Error);

#[verifier::external_type_specification]
#[verifier::external_body]
pub struct ExBcryptError(bcrypt::BcryptError);

/// One application-level failure.  The token and password-hashing variants
/// carry the error of the underlying crate through unchanged.
#[derive(Debug)]
pub enum AppError {
    Database(String),
    Authentication(String),
    Authorization(String),
    Validation(String),
    NotFound(String),
    Internal(String),
    Jwt(jsonwebtoken::errors::Error),
    Bcrypt(bcrypt::BcryptError),
}

pub type AppResult<T> = Result<T, AppError>;

impl AppError {
    /// The fixed message prefix of each error class.
    pub fn describe(&self) -> (m: &'static str)
        ensures
            self matches AppError::Database(_) ==> m@ == "Database error"@,
            self matches AppError::Authentication(_) ==> m@ == "Authentication error"@,
            self matches AppError::Authorization(_) ==> m@ == "Authorization error"@,
            self matches AppError::Validation(_) ==> m@ == "Validation error"@,
            self matches AppError::NotFound(_) ==> m@ == "Not found"@,
            self matches AppError::Internal(_) ==> m@ == "Internal server error"@,
            self matches AppError::Jwt(_) ==> m@ == "JWT error"@,
            self matches AppError::Bcrypt(_) ==> m@ == "BCrypt error"@,
    {
        match self {
            AppError::Database(_) => "Database error",
            AppError::Authentication(_) => "Authentication error",
            AppError::Authorization(_) => "Authorization error",
            AppError::Validation(_) => "Validation error",
            AppError::NotFound(_) => "Not found",
            AppError::Internal(_) => "Internal server error",
            AppError::Jwt(_) => "JWT error",
            AppError::Bcrypt(_) => "BCrypt error",
        }
    }
}

} // verus!
