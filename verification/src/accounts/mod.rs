//! Stored credentials: their errors and the service that files and reveals
//! them.

pub mod accounts_error;
pub mod service;
