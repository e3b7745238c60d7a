//! The values that cross the service boundary: requests and views.

use vstd::prelude::*;

pub mod accounts;
pub mod auth;
pub mod error;

verus! {

/// A page of results together with the number of items found.
#[derive(Debug)]
pub struct List<T> {
    pub items: Vec<T>,
    pub total: u32,
}

/// The count that a list of `len` items reports: `len` itself while it
/// fits, and its low 32 bits beyond that.
pub open spec fn list_total(len: usize) -> u32 {
    len as u32
}

/// The count reported for `len` items.
pub fn total_of(len: usize) -> (r: u32)
    ensures
        r == list_total(len),
        len <= u32::MAX ==> r == len,
{
    #[verifier::truncate]
    (len as u32)
}

} // verus!
