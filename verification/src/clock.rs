//! The wall clock, as the stores use it to stamp their records.

use vstd::prelude::*;

verus! {

/// Reads the clock with `chrono::Utc::now` and gives the moment as
/// milliseconds since the Unix epoch (`DateTime::timestamp_millis`). Nothing
/// is claimed of the value: two readings may differ in either direction.
#[verifier::external_body]
pub(crate) fn clock_millis() -> (now: i64) {
    chrono::Utc::now().timestamp_millis()
}

} // verus!
