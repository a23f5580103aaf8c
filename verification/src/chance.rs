//! Chance: the random values the game draws.

use vstd::prelude::*;

verus! {

/// `rand::random::<u64>()`: a value drawn from the thread-local generator.
/// Nothing is claimed of the value: any `u64` can come.
#[verifier::external_body]
pub(crate) fn random_u64() -> (r: u64) {
    rand::random::<u64>()
}

/// `rand::Rng::gen_range` on the thread-local generator, over the inclusive
/// range `low..=high`: the value lies in the range; which one is chance.
/// (An empty range makes `gen_range` panic; `requires` excludes it.)
#[verifier::external_body]
pub(crate) fn gen_range_u8(low: u8, high: u8) -> (r: u8)
    requires
        low <= high,
    ensures
        low <= r <= high,
{
    rand::Rng::gen_range(&mut rand::thread_rng(), low..=high)
}

} // verus!
