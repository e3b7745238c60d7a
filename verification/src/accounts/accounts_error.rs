//! Why an account request was refused.

use vstd::prelude::*;

use crate::cryptography::CipherError;
use crate::model::error::ErrorResponse;

verus! {

/// The errors of the account service.
#[derive(Clone, Copy, Debug, PartialEq, Eq, Structural)]
pub enum AccountError {
    /// The group named is none of the caller's.
    InvalidAccountGroup,
    /// The account named is none of the caller's.
    NotFound,
    /// The caller has no row, or no key material in it.
    MissingMasterKey,
    /// The cipher refused: a key of the wrong length, a text too long, or a
    /// stored payload that is corrupt or was tampered with.
    Cipher(CipherError),
    /// The repository refused a write.
    Storage,
}

pub type AccountResult<T = ()> = Result<T, AccountError>;

impl AccountError {
    /// The HTTP status that reports this error.
    pub open spec fn status(self) -> u16 {
        match self {
            AccountError::InvalidAccountGroup => 400,
            AccountError::NotFound => 404,
            _ => 500,
        }
    }

    /// The HTTP status that reports this error.
    pub fn status_code(&self) -> (r: u16)
        ensures
            r == self.status(),
    {
        match self {
            AccountError::InvalidAccountGroup => 400,
            AccountError::NotFound => 404,
            _ => 500,
        }
    }

    /// The sentence that reports this error.
    pub open spec fn text(self) -> Seq<char> {
        match self {
            AccountError::InvalidAccountGroup => "Invalid Account Group"@,
            AccountError::NotFound => "Account not found"@,
            AccountError::MissingMasterKey => "Missing key"@,
            AccountError::Cipher(_) => "Cipher error"@,
            AccountError::Storage => "Storage error"@,
        }
    }

    /// The sentence that reports this error.
    pub fn message(&self) -> (r: String)
        ensures
            r@ == self.text(),
    {
        match self {
            AccountError::InvalidAccountGroup => String::from_str("Invalid Account Group"),
            AccountError::NotFound => String::from_str("Account not found"),
            AccountError::MissingMasterKey => String::from_str("Missing key"),
            AccountError::Cipher(_) => String::from_str("Cipher error"),
            AccountError::Storage => String::from_str("Storage error"),
        }
    }

    /// The status and body of the response that reports this error.
    pub fn into_response(self) -> (r: (u16, ErrorResponse<String>))
        ensures
            r.0 == self.status(),
            r.1.error@.len() == 1,
            r.1.error@[0].0@ == "message"@,
            r.1.error@[0].1@ == self.text(),
    {
        (self.status_code(), ErrorResponse::message(self.message()))
    }
}

} // verus!
