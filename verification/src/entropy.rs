//! The boundary to the process-wide random number generator. Nothing here
//! claims anything about the distribution of what comes back; callers state
//! only what holds of every outcome.

use vstd::prelude::*;

verus! {

/// Relies on rand::random_range: a value drawn uniformly from the given
/// half-open range, which panics only when the range is empty.
#[verifier::external_body]
pub(crate) fn random_below(bound: u32) -> (r: u32)
    requires
        1 <= bound,
    ensures
        r < bound,
{
    rand::random_range(0..bound)
}

} // verus!
