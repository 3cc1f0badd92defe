//! The library's only sources of randomness.  A random value depends on the
//! generator's state, so the contracts state only the bounds that rand's
//! documentation promises; all logic over the drawn values is verified for
//! every outcome.

use vstd::prelude::*;

verus! {

/// Relies on rand's `Rng::gen_range` over an inclusive range: the drawn
/// value lies within the bounds.  An empty range would panic, so it is ruled
/// out here.
#[verifier::external_body]
pub fn random_in_range(min: u64, max: u64) -> (r: u64)
    requires
        min <= max,
    ensures
        min <= r <= max,
{
    rand::Rng::gen_range(&mut rand::thread_rng(), min..=max)
}

/// Relies on rand's `random::<bool>`: a coin flip; nothing is promised of
/// the outcome.
#[verifier::external_body]
pub fn random_bool() -> bool {
    rand::random::<bool>()
}

} // verus!
