//! The one crossing into the random number generator.

use vstd::prelude::*;
use rand::Rng;

verus! {

/// Relies on rand's `thread_rng` and `Rng::gen_range`: `gen_range(lo..=hi)`
/// returns a value drawn from the inclusive range and panics only when the
/// range is empty, which `lo <= hi` rules out. Nothing more is promised of
/// a random draw than its range.
#[verifier::external_body]
pub(crate) fn random_in_range(lo: i64, hi: i64) -> (r: i64)
    requires
        lo <= hi,
    ensures
        lo <= r <= hi,
{
    rand::thread_rng().gen_range(lo..=hi)
}

} // verus!
