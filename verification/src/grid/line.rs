//! Grid lines: the unit edges between adjacent grid cells.
//!
//! A line is identified by an endpoint position and an axis.  The
//! horizontal line at (x, y) connects (x, y) to (x + 1, y); the vertical
//! line at (x, y) connects (x, y) to (x, y + 1).  Two adjacent cells share
//! exactly one line.

use vstd::prelude::*;

use crate::direction::Axis;
use crate::grid::pos::GridPos;

verus! {

#[derive(Clone, Copy, PartialEq, Eq, Debug, Hash, Structural)]
pub struct GridLine {
    pub index: GridPos,
    pub axis: Axis,
}

impl GridLine {
    /// The position one step along the line's axis from its index.
    pub open spec fn spec_second_point(self) -> GridPos {
        match self.axis {
            Axis::Horizontal => GridPos { x: (self.index.x + 1) as i16, y: self.index.y },
            Axis::Vertical => GridPos { x: self.index.x, y: (self.index.y + 1) as i16 },
        }
    }

    /// Whether the second endpoint stays within the signed 16-bit grid.
    pub open spec fn spec_in_numeric_range(self) -> bool {
        match self.axis {
            Axis::Horizontal => self.index.x < i16::MAX,
            Axis::Vertical => self.index.y < i16::MAX,
        }
    }

    /// The two endpoints of the line, index first.
    pub fn points(&self) -> (r: (GridPos, GridPos))
        requires
            self.spec_in_numeric_range(),
        ensures
            r.0 == self.index,
            r.1 == self.spec_second_point(),
    {
        let first = self.index;
        let second = match self.axis {
            Axis::Horizontal => GridPos { x: self.index.x + 1, y: self.index.y },
            Axis::Vertical => GridPos { x: self.index.x, y: self.index.y + 1 },
        };
        (first, second)
    }
}

} // verus!
