//! Axis-aligned rectangles on the pixel grid.

use vstd::prelude::*;

verus! {

/// A rectangle: its top-left pixel and its extent. It covers the pixels
/// `(px, py)` with `x <= px < x + w` and `y <= py < y + h`.
#[derive(Clone, Copy, Debug, PartialEq, Eq)]
pub struct Rect {
    pub x: i32,
    pub y: i32,
    pub w: u32,
    pub h: u32,
}

impl Rect {
    /// Whether the rectangle covers the pixel `(px, py)`.
    pub open spec fn covers(self, px: int, py: int) -> bool {
        self.x <= px < self.x + self.w && self.y <= py < self.y + self.h
    }

    /// Whether two rectangles share a pixel.
    pub open spec fn intersects(self, other: Rect) -> bool {
        exists|px: int, py: int| #[trigger] self.covers(px, py) && other.covers(px, py)
    }

    pub fn new(x: i32, y: i32, w: u32, h: u32) -> (r: Rect)
        ensures
            r == (Rect { x, y, w, h }),
    {
        Rect { x, y, w, h }
    }

    /// Whether `self` and `other` share a pixel. Rectangles that only touch
    /// along an edge do not, and an empty rectangle shares nothing.
    pub fn has_intersection(&self, other: &Rect) -> (hit: bool)
        ensures
            hit == self.intersects(*other),
    {
        let ax0 = self.x as i64;
        let ax1 = self.x as i64 + self.w as i64;
        let ay0 = self.y as i64;
        let ay1 = self.y as i64 + self.h as i64;
        let bx0 = other.x as i64;
        let bx1 = other.x as i64 + other.w as i64;
        let by0 = other.y as i64;
        let by1 = other.y as i64 + other.h as i64;
        let hit = ax0 < ax1 && ay0 < ay1 && bx0 < bx1 && by0 < by1 && ax0 < bx1 && bx0 < ax1 && ay0
            < by1 && by0 < ay1;
        proof {
            if hit {
                let px = if ax0 >= bx0 { ax0 as int } else { bx0 as int };
                let py = if ay0 >= by0 { ay0 as int } else { by0 as int };
                assert(self.covers(px, py) && other.covers(px, py));
            }
        }
        hit
    }
}

} // verus!
