//! The core's only source of randomness: the serve direction drawn at ball
//! reset. Each draw comes from the thread's own freshly seeded generator, so
//! nothing more than a range can be promised of an outcome.

use vstd::prelude::*;

use rand::Rng;

verus! {

/// Relies on `rand::random::<bool>`: a draw from the `Standard` distribution,
/// which rand documents as a fair coin flip. Nothing is promised of which
/// side comes out.
#[verifier::external_body]
pub(crate) fn coin_flip() -> (r: bool) {
    rand::random::<bool>()
}

/// Relies on `rand::Rng::gen_range` on `rand::thread_rng`: the draw lies in
/// the half-open range `lo..hi`. `gen_range` panics on an empty range, so one
/// is required to be non-empty here.
#[verifier::external_body]
pub(crate) fn random_in_range(lo: i64, hi: i64) -> (r: i64)
    requires
        lo < hi,
    ensures
        lo <= r < hi,
{
    rand::thread_rng().gen_range(lo..hi)
}

} // verus!
