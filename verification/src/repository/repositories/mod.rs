//! The interfaces through which the services reach their rows.

pub mod accounts_repository;
pub mod devices_repository;
pub mod users_repository;
