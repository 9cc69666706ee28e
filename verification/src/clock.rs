//! The simulation's only clock: box areas stamp their last content change
//! with the current Unix timestamp and decay by comparing against it.

use vstd::prelude::*;

verus! {

/// Relies on chrono's `Utc::now().timestamp()`: the current time as whole
/// seconds since the Unix epoch. `Utc::now()` builds its value from the
/// system clock's offset since the epoch, so the result is never negative.
#[verifier::external_body]
pub(crate) fn now_timestamp() -> (r: i64)
    ensures
        0 <= r,
{
    chrono::Utc::now().timestamp()
}

} // verus!
