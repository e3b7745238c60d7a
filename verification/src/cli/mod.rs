//! The command-line client: what it remembers, what it asks for and where.

pub mod accounts;
pub mod api;
pub mod generator;
pub mod groups;
pub mod login;
pub mod profile;
