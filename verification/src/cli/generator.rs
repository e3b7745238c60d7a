//! The password generator command.

use vstd::prelude::*;

use crate::random::generate_string;

verus! {

/// The length of a generated password unless another is asked for.
pub const DEFAULT_SIZE: usize = 16;

/// A request for a random password: how long, and whether to show it.
#[derive(Debug)]
pub struct Generator {
    pub size: usize,
    pub print: bool,
}

impl Generator {
    /// A request for a password of the default length that is not shown.
    pub fn new() -> (r: Generator)
        ensures
            r.size == DEFAULT_SIZE,
            !r.print,
    {
        Generator { size: DEFAULT_SIZE, print: false }
    }

    /// A random password of the length asked for, made of ASCII letters and
    /// digits.
    pub fn password(&self) -> (r: String)
        ensures
            r@.len() == self.size,
            forall|i: int|
                0 <= i < r@.len() ==> ('0' <= #[trigger] r@[i] <= '9' || 'A' <= r@[i] <= 'Z' || 'a'
                    <= r@[i] <= 'z'),
    {
        generate_string(self.size)
    }
}

} // verus!
