//! What the services keep: rows, the repositories that hold them, and a
//! repository in memory.

pub mod memory;
pub mod models;
pub mod repositories;
