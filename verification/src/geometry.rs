//! Rectangular regions of the character grid.

use vstd::prelude::*;

verus! {

/// A rectangle on the character grid: origin and size, in cells.
///
/// The viewport handed to a render call, and every sub-region carved out of
/// it, is a `Region`.
#[derive(Clone, Copy, Debug, PartialEq, Eq, Structural)]
pub struct Region {
    pub x: u16,
    pub y: u16,
    pub width: u16,
    pub height: u16,
}

impl Region {
    /// True when `self` lies entirely inside `outer`.
    pub open spec fn inside(self, outer: Region) -> bool {
        &&& outer.x <= self.x
        &&& outer.y <= self.y
        &&& self.x + self.width <= outer.x + outer.width
        &&& self.y + self.height <= outer.y + outer.height
    }

    /// True when the region's far edges stay on the grid, so no coordinate
    /// arithmetic on it wraps past the largest cell coordinate.
    pub open spec fn is_valid(self) -> bool {
        &&& self.x + self.width <= u16::MAX
        &&& self.y + self.height <= u16::MAX
    }

    /// True when the region covers no cell at all.
    pub open spec fn is_zero_size(self) -> bool {
        self.width == 0 && self.height == 0
    }

    /// True when the cell at column `x`, row `y` lies inside the region.
    pub open spec fn contains_cell(self, x: u16, y: u16) -> bool {
        &&& self.x <= x < self.x + self.width
        &&& self.y <= y < self.y + self.height
    }

    pub fn new(x: u16, y: u16, width: u16, height: u16) -> (r: Region)
        ensures
            r == (Region { x, y, width, height }),
    {
        Region { x, y, width, height }
    }
}

} // verus!
