//! Access to the injected random-number source.
//!
//! Construction of permutation tables and gradient tables is the only place
//! the library consumes randomness; every construction function takes the
//! random source as an explicit parameter. The source is `rand`'s standard
//! generator, reached through the two trusted items below; everything built
//! from the numbers it hands back is verified for every possible outcome.

use vstd::prelude::*;

verus! {

/// `rand`'s standard generator, declared so library functions can hold and
/// pass values of it.
#[verifier::external_type_specification]
#[verifier::external_body]
pub struct ExStdRng(rand::rngs::StdRng);

/// Relies on `rand::SeedableRng::seed_from_u64`: builds the standard
/// generator from a 64-bit seed.
#[verifier::external_body]
pub fn rng_from_seed(seed: u64) -> rand::rngs::StdRng {
    <rand::rngs::StdRng as rand::SeedableRng>::seed_from_u64(seed)
}

/// Relies on `rand::Rng::gen_range`: a sample from the half-open range
/// `0..bound` lies below `bound`. Nothing else is assumed of the sample.
#[verifier::external_body]
pub fn rand_below(rng: &mut rand::rngs::StdRng, bound: u32) -> (r: u32)
    requires
        bound > 0,
    ensures
        r < bound,
{
    rand::Rng::gen_range(rng, 0..bound)
}

} // verus!
