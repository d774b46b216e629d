//! The errors the routes answer with.

use vstd::prelude::*;

verus! {

/// Why a request was refused.
#[derive(Debug, Clone, Copy, PartialEq, Eq, Structural)]
pub enum AuthAPIError {
    InvalidCredentials,
    WrongEmailOrPassword,
    UserAlreadyExists,
    UserNotFound,
    InternalServerError,
    MissingToken,
    InvalidToken,
}

/// The HTTP status a refusal is answered with.
pub open spec fn error_status(e: AuthAPIError) -> u16 {
    match e {
        AuthAPIError::InvalidCredentials => 400,
        AuthAPIError::WrongEmailOrPassword => 401,
        AuthAPIError::UserAlreadyExists => 409,
        AuthAPIError::UserNotFound => 404,
        AuthAPIError::InternalServerError => 500,
        AuthAPIError::MissingToken => 400,
        AuthAPIError::InvalidToken => 401,
    }
}

/// The message a refusal is answered with.
pub open spec fn error_text(e: AuthAPIError) -> Seq<char> {
    match e {
        AuthAPIError::InvalidCredentials => "Invalid credentials"@,
        AuthAPIError::WrongEmailOrPassword => "Wrong email or password"@,
        AuthAPIError::UserAlreadyExists => "User already exists"@,
        AuthAPIError::UserNotFound => "User not found"@,
        AuthAPIError::InternalServerError => "Unexpected error"@,
        AuthAPIError::MissingToken => "Missing token"@,
        AuthAPIError::InvalidToken => "Invalid token"@,
    }
}

impl AuthAPIError {
    /// The HTTP status of this refusal.
    pub fn status_code(&self) -> (r: u16)
        ensures
            r == error_status(*self),
    {
        match self {
            AuthAPIError::InvalidCredentials => 400,
            AuthAPIError::WrongEmailOrPassword => 401,
            AuthAPIError::UserAlreadyExists => 409,
            AuthAPIError::UserNotFound => 404,
            AuthAPIError::InternalServerError => 500,
            AuthAPIError::MissingToken => 400,
            AuthAPIError::InvalidToken => 401,
        }
    }

    /// The message of this refusal.
    pub fn message(&self) -> (r: String)
        ensures
            r@ == error_text(*self),
    {
        match self {
            AuthAPIError::InvalidCredentials => String::from_str("Invalid credentials"),
            AuthAPIError::WrongEmailOrPassword => String::from_str("Wrong email or password"),
            AuthAPIError::UserAlreadyExists => String::from_str("User already exists"),
            AuthAPIError::UserNotFound => String::from_str("User not found"),
            AuthAPIError::InternalServerError => String::from_str("Unexpected error"),
            AuthAPIError::MissingToken => String::from_str("Missing token"),
            AuthAPIError::InvalidToken => String::from_str("Invalid token"),
        }
    }
}

} // verus!
