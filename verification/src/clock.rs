//! The wall clock, in whole seconds.

use vstd::prelude::*;

verus! {

/// `chrono::Utc::now`, read with `timestamp`. Trusted: the seconds are never
/// negative. Nothing else is claimed, and two calls may differ. chrono itself
/// panics where the system clock stands before 1970.
#[verifier::external_body]
pub(crate) fn unix_seconds() -> (seconds: i64)
    ensures
        seconds >= 0,
{
    chrono::Utc::now().timestamp()
}

} // verus!
