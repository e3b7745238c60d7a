//! The rows of each table.

pub mod account;
pub mod device;
pub mod user;
pub mod user_password_recovery;
