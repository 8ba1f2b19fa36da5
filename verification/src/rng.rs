//! Trusted boundary to the outside random-number crate. The bulk-array
//! workload draws unseeded random values on purpose: reproducibility
//! across runs is not wanted, so nothing is promised of a drawn value
//! beyond its range.

use vstd::prelude::*;
use rand::rngs::StdRng;
use rand::{Rng, SeedableRng};

verus! {

/// Declares rand's `StdRng` so that a generator can stand in signatures;
/// its state is opaque here.
#[verifier::external_type_specification]
#[verifier::external_body]
pub struct ExStdRng(StdRng);

/// Relies on rand's `StdRng::from_entropy`: a generator seeded from the
/// operating system. Nothing can be promised of what it will yield.
#[verifier::external_body]
pub(crate) fn rng_from_entropy() -> StdRng {
    StdRng::from_entropy()
}

/// Relies on rand's `Rng::gen_range` on the range `0..bound`: a value in
/// that range. `gen_range` panics only on an empty range, which the
/// precondition rules out.
#[verifier::external_body]
pub(crate) fn gen_below(rng: &mut StdRng, bound: i64) -> (r: i64)
    requires
        bound > 0,
    ensures
        0 <= r < bound,
{
    rng.gen_range(0..bound)
}

} // verus!
