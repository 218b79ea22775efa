//! The one source of randomness: a bounded draw from the thread-local
//! generator. Every random quantity of the animation (heading drift, color
//! targets) is derived in verified code from samples taken here.

use vstd::prelude::*;

verus! {

/// Relies on rand's `Rng::gen_range` over the half-open `i64` range
/// `lo..hi`: it returns a uniformly distributed value in `[lo, hi)` and
/// panics only when the range is empty, which the precondition rules out.
#[verifier::external_body]
pub(crate) fn random_in_range(lo: i64, hi: i64) -> (r: i64)
    requires
        lo < hi,
    ensures
        lo <= r < hi,
{
    rand::Rng::gen_range(&mut rand::thread_rng(), lo..hi)
}

} // verus!
