//! The body of an error response.

use vstd::prelude::*;

verus! {

/// Named error entries, in the order in which they were recorded.
#[derive(Debug)]
pub struct ErrorResponse<T> {
    pub error: Vec<(String, T)>,
}

impl ErrorResponse<String> {
    /// A response with the single entry `message`.
    pub fn message(text: String) -> (r: Self)
        ensures
            r.error@.len() == 1,
            r.error@[0].0@ == "message"@,
            r.error@[0].1 == text,
    {
        let mut error = Vec::new();
        error.push((String::from_str("message"), text));
        ErrorResponse { error }
    }
}

} // verus!
