//! The library's window onto the outside random generator.
//!
//! All procedural generation draws its randomness from a `SmallRng`
//! handle that the caller seeds and passes in explicitly, so a fixed
//! seed replays a fixed piece.  The generator is opaque here: nothing
//! is assumed about the numbers it yields beyond their range, so every
//! consumer is verified for every possible draw.

use vstd::prelude::*;

verus! {

/// The small, fast random generator of the `rand` crate, held as an
/// opaque value.
#[verifier::external_type_specification]
#[verifier::external_body]
pub struct ExSmallRng(rand::rngs::SmallRng);

/// Relies on rand's `Rng::gen_range` over `0..n`: the sample lies in
/// that half-open range, which the precondition keeps non-empty.
/// Nothing else is assumed of the draw.
#[verifier::external_body]
pub fn rand_below(rng: &mut rand::rngs::SmallRng, n: usize) -> (r: usize)
    requires
        n >= 1,
    ensures
        r < n,
{
    rand::Rng::gen_range(rng, 0..n)
}

} // verus!
