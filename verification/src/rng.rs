//! The pseudo-random number source behind the `Cxkk` operation: rand's
//! small deterministic generator, seeded once at machine construction so
//! that runs are reproducible.

use vstd::prelude::*;
use rand::rngs::SmallRng;
use rand::RngCore;
use rand::SeedableRng;

verus! {

/// Declares rand's `SmallRng` so that the machine can hold the generator
/// as a field; the type is opaque to the verifier.
#[verifier::external_type_specification]
#[verifier::external_body]
pub struct ExSmallRng(SmallRng);

/// Relies on rand::SeedableRng::seed_from_u64 to build the deterministic,
/// seedable generator.
#[verifier::external_body]
pub(crate) fn rng_from_seed(seed: u64) -> SmallRng {
    SmallRng::seed_from_u64(seed)
}

/// Relies on rand::RngCore::next_u32 for one pseudo-random draw; nothing
/// is promised of the value, so callers must hold for every outcome.
#[verifier::external_body]
pub(crate) fn rng_next_u32(rng: &mut SmallRng) -> u32 {
    rng.next_u32()
}

} // verus!
