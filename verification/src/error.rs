//! Error taxonomy of the authentication core.
//!
//! Client-input failures (`InvalidEmail`, `WeakPassword`, `EmailAlreadyExists`,
//! `InvalidCredentials`, `InvalidTokenType`) are reported with a specific
//! status and message; internal failures (`DatabaseError`, `HashingError`,
//! `TokenCreationError`) are surfaced to the caller as one generic failure so
//! that storage and cryptographic details never leak.

use vstd::prelude::*;

verus! {

#[derive(Debug, PartialEq, Eq)]
pub enum AuthError {
    InvalidEmail,
    WeakPassword(String),
    EmailAlreadyExists,
    DatabaseError(String),
    HashingError(String),
    InvalidCredentials,
    TokenCreationError(String),
    InvalidTokenType,
}

impl AuthError {
    /// Whether the variant is reported to the client as-is; internal errors
    /// are collapsed into one generic failure instead.
    pub open spec fn spec_is_client_error(&self) -> bool {
        match self {
            AuthError::InvalidEmail => true,
            AuthError::WeakPassword(_) => true,
            AuthError::EmailAlreadyExists => true,
            AuthError::InvalidCredentials => true,
            AuthError::InvalidTokenType => true,
            AuthError::DatabaseError(_) => false,
            AuthError::HashingError(_) => false,
            AuthError::TokenCreationError(_) => false,
        }
    }

    /// The HTTP status under which the error is reported.
    pub open spec fn spec_status_code(&self) -> u16 {
        match self {
            AuthError::InvalidEmail => 400,
            AuthError::WeakPassword(_) => 400,
            AuthError::EmailAlreadyExists => 409,
            AuthError::InvalidCredentials => 401,
            AuthError::InvalidTokenType => 401,
            AuthError::DatabaseError(_) => 500,
            AuthError::HashingError(_) => 500,
            AuthError::TokenCreationError(_) => 500,
        }
    }

    pub fn status_code(&self) -> (r: u16)
        ensures
            r == self.spec_status_code(),
    {
        match self {
            AuthError::InvalidEmail => 400,
            AuthError::WeakPassword(_) => 400,
            AuthError::EmailAlreadyExists => 409,
            AuthError::InvalidCredentials => 401,
            AuthError::InvalidTokenType => 401,
            AuthError::DatabaseError(_) => 500,
            AuthError::HashingError(_) => 500,
            AuthError::TokenCreationError(_) => 500,
        }
    }

    pub fn is_client_error(&self) -> (r: bool)
        ensures
            r == self.spec_is_client_error(),
    {
        match self {
            AuthError::InvalidEmail => true,
            AuthError::WeakPassword(_) => true,
            AuthError::EmailAlreadyExists => true,
            AuthError::InvalidCredentials => true,
            AuthError::InvalidTokenType => true,
            AuthError::DatabaseError(_) => false,
            AuthError::HashingError(_) => false,
            AuthError::TokenCreationError(_) => false,
        }
    }

    /// The message sent to the client. Internal errors all map to the same
    /// generic text, never revealing their detail.
    pub open spec fn spec_client_message(&self) -> Seq<char> {
        match self {
            AuthError::InvalidEmail => "Invalid email format"@,
            AuthError::WeakPassword(m) => m@,
            AuthError::EmailAlreadyExists => "Email already exists"@,
            AuthError::InvalidCredentials => "Invalid email or password"@,
            AuthError::InvalidTokenType => "Invalid token type"@,
            AuthError::DatabaseError(_) => "Internal server error"@,
            AuthError::HashingError(_) => "Internal server error"@,
            AuthError::TokenCreationError(_) => "Internal server error"@,
        }
    }

    pub fn client_message(&self) -> (r: String)
        ensures
            r@ == self.spec_client_message(),
    {
        match self {
            AuthError::InvalidEmail => String::from_str("Invalid email format"),
            AuthError::WeakPassword(m) => m.clone(),
            AuthError::EmailAlreadyExists => String::from_str("Email already exists"),
            AuthError::InvalidCredentials => String::from_str("Invalid email or password"),
            AuthError::InvalidTokenType => String::from_str("Invalid token type"),
            AuthError::DatabaseError(_) => String::from_str("Internal server error"),
            AuthError::HashingError(_) => String::from_str("Internal server error"),
            AuthError::TokenCreationError(_) => String::from_str("Internal server error"),
        }
    }
}

/// Errors of the request-handling edges that are not authentication failures.
#[derive(Debug, PartialEq, Eq)]
pub enum AppError {
    BadRequest(String),
    Unauthorized(String),
    InternalError(String),
}

impl AppError {
    pub open spec fn spec_status_code(&self) -> u16 {
        match self {
            AppError::BadRequest(_) => 400,
            AppError::Unauthorized(_) => 401,
            AppError::InternalError(_) => 500,
        }
    }

    pub fn status_code(&self) -> (r: u16)
        ensures
            r == self.spec_status_code(),
    {
        match self {
            AppError::BadRequest(_) => 400,
            AppError::Unauthorized(_) => 401,
            AppError::InternalError(_) => 500,
        }
    }
}

} // verus!
