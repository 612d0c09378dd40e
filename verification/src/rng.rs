//! The random source behind the obstacle spawner, isolated so that the
//! spawning logic itself is deterministic in the drawn values.

use vstd::prelude::*;

verus! {

#[verifier::external_type_specification]
#[verifier::external_body]
pub struct ExThreadRng(rand::rngs::ThreadRng);

/// Relies on rand::thread_rng: hands out a handle to the thread-local
/// generator. Nothing is promised of it; every draw made through it is
/// described only by the bounds of its range.
#[verifier::external_body]
pub(crate) fn fresh_rng() -> rand::rngs::ThreadRng {
    rand::thread_rng()
}

/// Relies on rand::Rng::gen_range on a half-open u64 range: the sample lies
/// in `[lo, hi)`, and the call panics only on an empty range, which the
/// precondition rules out. Which value comes back is deliberately left open.
#[verifier::external_body]
pub(crate) fn rng_range(rng: &mut rand::rngs::ThreadRng, lo: u64, hi: u64) -> (r: u64)
    requires
        lo < hi,
    ensures
        lo <= r < hi,
{
    rand::Rng::gen_range(rng, lo..hi)
}

} // verus!
