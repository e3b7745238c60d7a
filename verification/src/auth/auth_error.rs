//! Why an authentication request was refused.

use vstd::prelude::*;

use crate::model::error::ErrorResponse;

verus! {

/// The errors of the authentication service.
#[derive(Clone, Copy, Debug, PartialEq, Eq, Structural)]
pub enum AuthError {
    WrongCredentials,
    MissingCredentials,
    TokenCreation,
    InvalidToken,
    MissingStorage,
    InvalidCredentials,
    EmailAlreadyTaken,
    UserNotFound,
    /// A stored hash that is no hash, or a password beyond the hasher's
    /// limits.
    HashFormat,
    /// The repository refused a write.
    Storage,
}

pub type AuthResult<T = ()> = Result<T, AuthError>;

impl AuthError {
    /// The HTTP status that reports this error.
    pub open spec fn status(self) -> u16 {
        match self {
            AuthError::WrongCredentials => 401,
            AuthError::TokenCreation => 500,
            AuthError::HashFormat => 500,
            AuthError::Storage => 500,
            _ => 400,
        }
    }

    /// The HTTP status that reports this error.
    pub fn status_code(&self) -> (r: u16)
        ensures
            r == self.status(),
    {
        match self {
            AuthError::WrongCredentials => 401,
            AuthError::TokenCreation => 500,
            AuthError::HashFormat => 500,
            AuthError::Storage => 500,
            _ => 400,
        }
    }

    /// The sentence that reports this error.
    pub open spec fn text(self) -> Seq<char> {
        match self {
            AuthError::WrongCredentials => "Wrong credentials"@,
            AuthError::MissingCredentials => "Missing credentials"@,
            AuthError::TokenCreation => "Token creation error"@,
            AuthError::InvalidToken => "Invalid token"@,
            AuthError::MissingStorage => "Missing storage configuration"@,
            AuthError::InvalidCredentials => "Email or password is incorrect"@,
            AuthError::EmailAlreadyTaken => "Email already in use"@,
            AuthError::UserNotFound => "User not Found"@,
            AuthError::HashFormat => "Password hash error"@,
            AuthError::Storage => "Storage error"@,
        }
    }

    /// The sentence that reports this error.
    pub fn message(&self) -> (r: String)
        ensures
            r@ == self.text(),
    {
        match self {
            AuthError::WrongCredentials => String::from_str("Wrong credentials"),
            AuthError::MissingCredentials => String::from_str("Missing credentials"),
            AuthError::TokenCreation => String::from_str("Token creation error"),
            AuthError::InvalidToken => String::from_str("Invalid token"),
            AuthError::MissingStorage => String::from_str("Missing storage configuration"),
            AuthError::InvalidCredentials => String::from_str("Email or password is incorrect"),
            AuthError::EmailAlreadyTaken => String::from_str("Email already in use"),
            AuthError::UserNotFound => String::from_str("User not Found"),
            AuthError::HashFormat => String::from_str("Password hash error"),
            AuthError::Storage => String::from_str("Storage error"),
        }
    }

    /// The status and body of the response that reports this error.
    pub fn into_response(self) -> (r: (u16, ErrorResponse<String>))
        ensures
            r.0 == self.status(),
            r.1.error@.len() == 1,
            r.1.error@[0].0@ == "message"@,
            r.1.error@[0].1@ == self.text(),
    {
        (self.status_code(), ErrorResponse::message(self.message()))
    }
}

} // verus!
