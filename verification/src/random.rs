//! The game's source of bounded random integers.
//!
//! Obstacle gaps, powerup positions and powerup kinds are drawn from small
//! half-open ranges. Nothing can be promised of which value comes back, so
//! every caller's contract holds for each value in the range.
use vstd::prelude::*;

verus! {

/// Relies on bracket_lib's `RandomNumberGenerator::range` (on a freshly
/// seeded generator, as a generator is constructed per draw): returns a
/// value at least `min` and strictly below `max`. The underlying sampler
/// panics on an empty range, so that case is excluded here.
#[verifier::external_body]
pub(crate) fn random_range(min: i32, max: i32) -> (r: i32)
    requires
        min < max,
    ensures
        min <= r < max,
{
    let mut rng = bracket_lib::prelude::RandomNumberGenerator::new();
    rng.range(min, max)
}

} // verus!
