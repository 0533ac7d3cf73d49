//! Timestamps are held as integer counts since the Unix epoch; chrono decides
//! which millisecond counts name a representable instant.
use vstd::prelude::*;

verus! {

/// Whether `ms` milliseconds after the Unix epoch lies within the range of
/// instants that a `chrono::DateTime<Utc>` can hold.
pub uninterp spec fn millis_representable(ms: i64) -> bool;

/// Relies on chrono::DateTime::from_timestamp_millis, which returns `None`
/// exactly when the millisecond count is out of the representable range.
#[verifier::external_body]
pub(crate) fn millis_in_range(ms: i64) -> (r: bool)
    ensures
        r == millis_representable(ms),
{
    chrono::DateTime::from_timestamp_millis(ms).is_some()
}

} // verus!
