//! Verified core of a scale-and-dispenser diagnostics library: time-series
//! records, trial sampling schedules, and the decision logic of the
//! closed-loop dispenser.
pub mod data;
pub mod dispenser;
pub mod error;
pub mod trial;

use vstd::prelude::*;

verus! {

/// Sum of two counters.
pub fn add(left: u64, right: u64) -> (sum: u64)
    requires
        left + right <= u64::MAX,
    ensures
        sum == left + right,
{
    left + right
}

} // verus!
