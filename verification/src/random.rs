//! The one source of chance: a uniform draw from a range of whole numbers.

use vstd::prelude::*;

verus! {

/// Draws a whole number from `min..=max` with the thread's generator of
/// the `rand` crate: a call of `rand::thread_rng` and, on what it returns,
/// of `rand::Rng::gen_range` with the inclusive range.
///
/// Not proved, but read off that crate: `gen_range` refuses an empty range
/// by a panic, which the precondition keeps away, and what it returns for
/// a range of integers lies in the range, both ends included. Which number
/// comes is left open: two calls on one range may differ. The generator
/// is seeded by the system when a thread first asks for it, and panics
/// there if the system hands out no seed; nothing said here covers that.
#[verifier::external_body]
pub(crate) fn random_in_range(min: u64, max: u64) -> (r: u64)
    requires
        min <= max,
    ensures
        min <= r <= max,
{
    let mut rng = rand::thread_rng();
    rand::Rng::gen_range(&mut rng, min..=max)
}

} // verus!
