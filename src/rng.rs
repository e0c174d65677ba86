//! The random source of a trial engine, taken from `rand`.
use vstd::prelude::*;
use rand::rngs::SmallRng;
use rand::{Rng, SeedableRng};

verus! {

#[verifier::external_type_specification]
#[verifier::external_body]
pub struct ExSmallRng(SmallRng);

/// Relies on `SeedableRng::from_entropy` for `SmallRng`: a generator seeded
/// from the operating system (the call panics only if the system has no
/// entropy to give).
#[verifier::external_body]
pub(crate) fn rng_from_entropy() -> SmallRng {
    SmallRng::from_entropy()
}

/// Relies on `SeedableRng::seed_from_u64` for `SmallRng`: a generator whose
/// stream is fixed by `seed`.
#[verifier::external_body]
pub(crate) fn rng_from_seed(seed: u64) -> SmallRng {
    SmallRng::seed_from_u64(seed)
}

/// Relies on `Rng::gen_range` over `0..bound`: a value below `bound`
/// (the call panics on an empty range, which `requires` leaves out).
#[verifier::external_body]
pub(crate) fn below(rng: &mut SmallRng, bound: u32) -> (r: u32)
    requires
        bound > 0,
    ensures
        r < bound,
{
    rng.gen_range(0..bound)
}

/// Relies on `Rng::gen_ratio`: true with chance `numerator` in `denominator`.
/// It samples `Bernoulli::from_ratio(numerator, denominator)`, which always
/// gives true when the two are equal and always false when `numerator` is 0
/// (the call panics when `denominator` is 0 or below `numerator`, which
/// `requires` leaves out).
#[verifier::external_body]
pub(crate) fn ratio_flip(rng: &mut SmallRng, numerator: u32, denominator: u32) -> (r: bool)
    requires
        0 < denominator,
        numerator <= denominator,
    ensures
        numerator == denominator ==> r,
        numerator == 0 ==> !r,
{
    rng.gen_ratio(numerator, denominator)
}

} // verus!
