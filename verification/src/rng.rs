//! The one source of chance: uniform integer draws.

use rand::Rng;
use vstd::prelude::*;

verus! {

/// Draws an integer from the half-open range `low..high`.
///
/// Trusted: the body calls `rand::Rng::gen_range` on `rand::thread_rng()`.
/// For integers `gen_range` panics on an empty range, which `requires` rules
/// out, and otherwise returns `low` plus an offset below `high - low`; the
/// contract claims just that the draw lies in the range. Which value comes
/// back is chance, so two calls on the same range are unrelated. The
/// generator seeds itself from the operating system on first use and cannot
/// work where that source is missing.
#[verifier::external_body]
pub(crate) fn random_range(low: i64, high: i64) -> (r: i64)
    requires
        low < high,
    ensures
        low <= r < high,
{
    rand::thread_rng().gen_range(low..high)
}

} // verus!
