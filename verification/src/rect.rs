//! Rectangles in virtual-desktop coordinates.

use vstd::prelude::*;

verus! {

/// An axis-aligned rectangle in desktop coordinates.  The virtual desktop
/// itself (the area spanned by all active displays) is one of these, and so is
/// every capture source region.
#[derive(Clone, Copy, Debug, PartialEq, Eq, Structural)]
pub struct ScreenRect {
    pub origin_x: i32,
    pub origin_y: i32,
    pub width: i32,
    pub height: i32,
}

impl ScreenRect {
    /// Well-formed: non-negative extent, and far edges that stay
    /// representable in desktop coordinates.
    pub open spec fn wf(self) -> bool {
        &&& self.width >= 0
        &&& self.height >= 0
        &&& self.origin_x + self.width <= i32::MAX
        &&& self.origin_y + self.height <= i32::MAX
    }

    /// The x coordinate one past the rightmost column.
    pub open spec fn right(self) -> int {
        self.origin_x + self.width
    }

    /// The y coordinate one past the bottom row.
    pub open spec fn bottom(self) -> int {
        self.origin_y + self.height
    }

    /// The point lies strictly inside the rectangle: away from all four edges.
    pub open spec fn interior_contains(self, x: int, y: int) -> bool {
        &&& self.origin_x < x < self.right()
        &&& self.origin_y < y < self.bottom()
    }

    pub fn new(origin_x: i32, origin_y: i32, width: i32, height: i32) -> (r: Self)
        requires
            width >= 0,
            height >= 0,
            origin_x + width <= i32::MAX,
            origin_y + height <= i32::MAX,
        ensures
            r.wf(),
            r == (ScreenRect { origin_x, origin_y, width, height }),
    {
        ScreenRect { origin_x, origin_y, width, height }
    }
}

} // verus!
