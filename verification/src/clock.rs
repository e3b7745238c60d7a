//! Time as the services see it: seconds since the Unix epoch.

use vstd::prelude::*;

use crate::text::opt_view;

verus! {

/// `Utc::now` of chrono as seconds since the Unix epoch. Nothing is known
/// of the value: it is the machine's clock.
#[verifier::external_body]
pub(crate) fn unix_now() -> i64 {
    chrono::Utc::now().timestamp()
}

/// The RFC 3339 text of an instant, where the calendar can express it.
pub uninterp spec fn rfc3339_text(seconds: i64) -> Option<Seq<char>>;

/// `DateTime::from_timestamp` of chrono, then `DateTime::to_rfc3339`: the
/// instant in UTC as RFC 3339 text, or nothing where chrono has no date for
/// it.
#[verifier::external_body]
pub(crate) fn rfc3339(seconds: i64) -> (r: Option<String>)
    ensures
        opt_view(r) == rfc3339_text(seconds),
{
    Some(chrono::DateTime::from_timestamp(seconds, 0)?.to_rfc3339())
}

} // verus!
