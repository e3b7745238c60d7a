//! Authentication: errors, token claims, the token signer and the service.

pub mod auth_error;
pub mod claims;
pub mod laws;
pub mod outcome;
pub mod refresh_token;
pub mod service;
pub mod token;
