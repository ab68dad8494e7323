//! The randomness source behind the optional decision cap.
//!
//! The cap may be drawn at random from a caller-given range so that the
//! executed amount is less predictable; the environment supplies one seed
//! per attempt. The drawn value is a function of the seed and the range
//! alone, named here, with its range bound the only other fact relied on.
use vstd::prelude::*;

verus! {

/// What the seeded generator draws from the half-open range `min..max`.
pub uninterp spec fn seeded_draw(seed: Seq<u8>, min: u64, max: u64) -> u64;

/// Relies on rand's `StdRng::from_seed` and `Rng::gen_range` over
/// `min..max`: the generator is a deterministic, platform-independent
/// function of the 32-byte seed, so the sample depends on the seed and the
/// range alone, and lies in the half-open range. The call panics on an
/// empty range, which the precondition rules out.
#[verifier::external_body]
pub(crate) fn rng_draw(seed: [u8; 32], min: u64, max: u64) -> (r: u64)
    requires
        min < max,
    ensures
        r == seeded_draw(seed@, min, max),
        min <= r < max,
{
    let mut rng = <rand::rngs::StdRng as rand::SeedableRng>::from_seed(seed);
    rand::Rng::gen_range(&mut rng, min..max)
}

} // verus!
