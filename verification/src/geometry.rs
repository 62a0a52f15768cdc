//! Rectangles on the integer character grid, and point containment.

use vstd::prelude::*;

verus! {

/// An axis-aligned rectangle on the terminal's character grid.
///
/// A control occupies the half-open area `[x, x + width) x [y, y + height)`:
/// the near edges belong to the rectangle, the far edges do not, matching
/// how layout produces adjacent, non-overlapping regions.
#[derive(Debug, Clone, Copy, PartialEq, Eq, Structural)]
pub struct Rect {
    pub x: u16,
    pub y: u16,
    pub width: u16,
    pub height: u16,
}

/// Whether the point `(px, py)` lies inside `r`, near edges inclusive,
/// far edges exclusive.
pub open spec fn rect_contains(r: Rect, px: u16, py: u16) -> bool {
    &&& r.x <= px < r.x + r.width
    &&& r.y <= py < r.y + r.height
}

impl Rect {
    /// The empty rectangle at the origin; contains no point.
    pub fn new_empty() -> (r: Rect)
        ensures
            r == (Rect { x: 0, y: 0, width: 0, height: 0 }),
            forall|px: u16, py: u16| !rect_contains(r, px, py),
    {
        Rect { x: 0, y: 0, width: 0, height: 0 }
    }

    /// Does this rectangle contain the point `(px, py)`?
    pub fn contains(&self, px: u16, py: u16) -> (b: bool)
        ensures
            b == rect_contains(*self, px, py),
    {
        px >= self.x && px - self.x < self.width && py >= self.y && py - self.y < self.height
    }
}

/// Two rectangles are disjoint when no point lies in both.
pub open spec fn rects_disjoint(a: Rect, b: Rect) -> bool {
    forall|px: u16, py: u16| !(rect_contains(a, px, py) && rect_contains(b, px, py))
}

} // verus!
