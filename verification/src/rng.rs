//! Randomness for the stochastic driver and the test problems: the
//! generator type and the few draws the library makes, each behind a small
//! trusted wrapper.

use vstd::prelude::*;
use rand::seq::SliceRandom;
use rand::SeedableRng;

verus! {

/// The seedable random number generator that stochastic descent owns:
/// rand_pcg's PCG generator with 128-bit state (`rand_pcg::Pcg64`).
#[verifier::external_type_specification]
#[verifier::external_body]
pub struct ExLcg128Xsl64(rand_pcg::Lcg128Xsl64);

/// Relies on rand::random: draws a value from the thread-local generator.
/// Nothing is promised of the result.
#[verifier::external_body]
pub(crate) fn random_u64() -> u64 {
    rand::random::<u64>()
}

/// Relies on rand_core::SeedableRng::seed_from_u64: derives the generator's
/// 256-bit seed from `seed` with a fixed expansion, so equal seeds give
/// equal generators. Nothing about the state can be stated here.
#[verifier::external_body]
pub(crate) fn seed_rng(seed: u64) -> rand_pcg::Pcg64 {
    rand_pcg::Pcg64::seed_from_u64(seed)
}

/// Relies on the derived Clone for rand_pcg::Lcg128Xsl64, a field-for-field
/// copy: the clone is the same generator value, so each minimization run
/// can own its generator state without disturbing the driver's.
#[verifier::external_body]
pub(crate) fn clone_rng(rng: &rand_pcg::Pcg64) -> (r: rand_pcg::Pcg64)
    ensures
        r == *rng,
{
    rng.clone()
}

/// Relies on rand::seq::SliceRandom::shuffle, a Fisher–Yates shuffle that
/// permutes the slice in place: afterwards the vector holds the same
/// elements, in some order that depends on the generator.
#[verifier::external_body]
pub(crate) fn shuffle_indices(rng: &mut rand_pcg::Pcg64, v: &mut Vec<usize>)
    ensures
        final(v)@.to_multiset() == old(v)@.to_multiset(),
        final(v)@.len() == old(v)@.len(),
{
    v.shuffle(rng)
}

} // verus!
