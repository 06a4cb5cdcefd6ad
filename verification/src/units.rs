//! Fixed-point units: positions and speeds finer than a pixel.

use vstd::prelude::*;

verus! {

/// Thousandths of a pixel in a pixel.
pub const SUBPIXELS: i32 = 1000;

/// The whole pixels in `v` thousandths, rounded towards zero.
pub open spec fn whole_pixels(v: int) -> int {
    if v >= 0 {
        v / (SUBPIXELS as int)
    } else {
        -((-v) / (SUBPIXELS as int))
    }
}

/// The whole pixels in `v` thousandths, rounded towards zero.
pub fn to_pixels(v: i64) -> (px: i64)
    ensures
        px == whole_pixels(v as int),
{
    v / (SUBPIXELS as i64)
}

} // verus!
