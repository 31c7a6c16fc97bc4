//! The simulation's only source of randomness.

use vstd::prelude::*;
use rand::Rng;

verus! {

/// Draws an integer uniformly from the half-open range `[lo, hi)`.
///
/// Relies on `rand::Rng::gen_range` over an `i64` range: for a non-empty
/// range it returns a value of that range and does not panic. Nothing is
/// assumed about which value comes back.
#[verifier::external_body]
pub(crate) fn draw_range(lo: i64, hi: i64) -> (r: i64)
    requires
        lo < hi,
    ensures
        lo <= r < hi,
{
    rand::thread_rng().gen_range(lo..hi)
}

} // verus!
