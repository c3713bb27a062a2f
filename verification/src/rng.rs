//! The one randomness source of the engine, behind a trusted boundary.

use rand::Rng;
use vstd::prelude::*;

verus! {

/// Relies on `rand::thread_rng` and `rand::Rng::gen_range`: a draw over the
/// non-empty range `0..bound` on the thread-local generator yields a value in
/// that range. Nothing is assumed about which value comes back.
#[verifier::external_body]
pub(crate) fn random_below(bound: usize) -> (r: usize)
    requires
        bound >= 1,
    ensures
        r < bound,
{
    rand::thread_rng().gen_range(0..bound)
}

} // verus!
