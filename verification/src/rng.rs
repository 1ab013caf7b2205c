//! Trusted boundary around the pseudo-random generator.
//!
//! The rain pattern reseeds its columns from rand's `SmallRng`.  The
//! generator's state is opaque here, so nothing is promised about the
//! values drawn: every caller states what holds of its own result whatever
//! comes back.

use vstd::prelude::*;

use rand::rngs::SmallRng;

verus! {

#[verifier::external_type_specification]
#[verifier::external_body]
pub struct ExSmallRng(SmallRng);

/// Relies on rand's `SeedableRng::seed_from_u64` for `SmallRng`: builds a
/// generator whose stream is reproducible from the seed.
#[verifier::external_body]
pub(crate) fn rng_from_seed(seed: u64) -> SmallRng {
    <SmallRng as rand::SeedableRng>::seed_from_u64(seed)
}

/// Relies on rand's `RngCore::next_u32` for `SmallRng`: draws the next
/// pseudo-random word, advancing the generator.
#[verifier::external_body]
pub(crate) fn rng_next_u32(rng: &mut SmallRng) -> u32
    no_unwind
{
    rand::RngCore::next_u32(rng)
}

/// Relies on rand's `RngCore::fill_bytes` for `SmallRng`: fills a buffer
/// with pseudo-random bytes, advancing the generator.
#[verifier::external_body]
pub(crate) fn rng_fill_16(rng: &mut SmallRng) -> [u8; 16] {
    let mut buf = [0u8; 16];
    rand::RngCore::fill_bytes(rng, &mut buf);
    buf
}

} // verus!
