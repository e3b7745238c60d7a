//! The core of a password manager's server and client: password hashing,
//! signed access and refresh tokens with a revocation store behind them,
//! per-user encryption of stored credentials, and the services that put
//! these together over a repository.
//!
//! The services are generic over their repository and their revocation
//! store. `repository::memory` and `cache::MemoryCache` are the
//! implementations that this crate verifies.

pub mod accounts;
pub mod auth;
pub mod cache;
pub mod cli;
pub mod clock;
pub mod cryptography;
pub mod decimal;
pub mod digest;
pub mod hasher;
pub mod hex;
pub mod http;
pub mod mail_service;
pub mod model;
pub mod random;
pub mod repository;
pub mod settings;
pub mod text;
pub mod validation;
