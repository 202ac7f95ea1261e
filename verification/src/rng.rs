//! The caller-supplied randomness source.
//!
//! Note construction and signing draw from a concrete random number
//! generator owned by the caller. Nothing is ever promised about a drawn
//! value beyond canonicity: to the verifier two draws are unrelated, which
//! is exactly the guarantee randomness gives.

use vstd::prelude::*;
use rand::rngs::StdRng;
use rand::RngCore;
use rand::SeedableRng;
use crate::word::Word;

verus! {

/// The standard random number generator of the `rand` crate, used as this
/// library's randomness source. It is opaque to the verifier.
#[verifier::external_type_specification]
#[verifier::external_body]
pub struct ExStdRng(StdRng);

/// Relies on `rand::RngCore::next_u64` for `StdRng`: draws the next value
/// of the generator's stream. Nothing is known of the result.
#[verifier::external_body]
pub(crate) fn rng_next_u64(rng: &mut StdRng) -> u64 {
    rng.next_u64()
}

/// Relies on `rand::SeedableRng::from_entropy` for `StdRng`: a generator
/// seeded from operating-system entropy. Nothing is known of the result.
#[verifier::external_body]
pub fn rng_from_entropy() -> StdRng {
    StdRng::from_entropy()
}

/// Draws a fresh word from the randomness source: four draws, each reduced
/// to a canonical field element.
pub fn draw_word(rng: &mut StdRng) -> (r: Word)
    ensures
        r.wf(),
{
    let a = rng_next_u64(rng) % crate::FIELD_MODULUS;
    let b = rng_next_u64(rng) % crate::FIELD_MODULUS;
    let c = rng_next_u64(rng) % crate::FIELD_MODULUS;
    let d = rng_next_u64(rng) % crate::FIELD_MODULUS;
    Word(a, b, c, d)
}

} // verus!
