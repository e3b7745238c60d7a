//! Requests and views of the authentication endpoints.

use vstd::prelude::*;

verus! {

/// The channel through which a refresh token travels.
#[derive(Clone, Copy, Debug, PartialEq, Eq, Structural)]
pub enum RefreshTokenType {
    Cookie,
    Token,
}

/// A login attempt.
#[derive(Debug)]
pub struct LoginRequest {
    pub email: String,
    pub password: String,
    pub device_name: Option<String>,
    pub refresh_token: Option<RefreshTokenType>,
}

/// A request to create a user.
#[derive(Debug)]
pub struct UserRegister {
    pub name: String,
    pub email: String,
    pub password: String,
}

/// What a successful login or refresh hands out.
#[derive(Debug)]
pub struct AccessToken {
    pub access_token: String,
    pub token_type: String,
    pub refresh_token: Option<String>,
}

/// A user as shown to themself.
#[derive(Debug)]
pub struct UserView {
    pub name: String,
    pub email: String,
    pub last_login: Option<String>,
}

/// The first step of a password recovery.
#[derive(Debug)]
pub struct PasswordRecoveryStart {
    pub email: String,
}

/// The second step of a password recovery: the secret that was mailed and
/// the password to set.
#[derive(Debug)]
pub struct PasswordRecoveryFinish {
    pub token: String,
    pub password: String,
}

/// A refresh token presented in a request body.
#[derive(Debug)]
pub struct RefreshToken {
    pub refresh_token: String,
}

} // verus!
