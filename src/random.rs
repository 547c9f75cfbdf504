//! The random source of the engine, from the `rand` crate.
use vstd::prelude::*;
use rand::rngs::SmallRng;
use rand::{Rng, SeedableRng};

verus! {

#[verifier::external_type_specification]
#[verifier::external_body]
pub struct ExSmallRng(SmallRng);

/// Relies on rand's `SeedableRng::seed_from_u64`: a generator whose sequence
/// is fixed by the seed.
#[verifier::external_body]
pub(crate) fn seeded_rng(seed: u64) -> SmallRng {
    SmallRng::seed_from_u64(seed)
}

/// Relies on rand's `SeedableRng::from_entropy`: a generator seeded by the
/// operating system (it panics only where the system has no entropy to give).
#[verifier::external_body]
pub(crate) fn entropy_rng() -> SmallRng {
    SmallRng::from_entropy()
}

/// Relies on rand's `Rng::gen_range` over a half-open range of `i64`: it
/// returns a value of the range, and panics only on an empty one.
#[verifier::external_body]
pub(crate) fn draw_range(rng: &mut SmallRng, low: i64, high: i64) -> (r: i64)
    requires
        low < high,
    ensures
        low <= r < high,
{
    rng.gen_range(low..high)
}

} // verus!
