//! What the program is configured with, read from the values that its
//! environment gives.

use vstd::prelude::*;
use vstd::string::*;

use crate::decimal::{parse_u32, unsigned_decimal};

verus! {

/// The number of pooled connections unless another is configured.
pub const DEFAULT_POOL_SIZE: u32 = 10;

/// The natural number below `limit` that an optional text spells.
pub open spec fn configured_number(value: Option<Seq<char>>, limit: int) -> Option<int> {
    match value {
        Some(text) => match unsigned_decimal(text) {
            Some(n) => if n <= limit {
                Some(n)
            } else {
                None
            },
            None => None,
        },
        None => None,
    }
}

/// The characters of an optional string slice.
pub open spec fn opt_str_view(value: Option<&str>) -> Option<Seq<char>> {
    match value {
        Some(text) => Some(text@),
        None => None,
    }
}

/// The size of the connection pool: the number configured, or the default
/// where none is configured or what is configured is no `u32`.
pub fn pool_size(value: Option<&str>) -> (r: u32)
    ensures
        r == match configured_number(opt_str_view(value), u32::MAX as int) {
            Some(n) => n as u32,
            None => DEFAULT_POOL_SIZE,
        },
{
    match value {
        Some(text) => match parse_u32(text) {
            Some(n) => n,
            None => DEFAULT_POOL_SIZE,
        },
        None => DEFAULT_POOL_SIZE,
    }
}

} // verus!
