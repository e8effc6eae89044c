//! The bounds of the routing grid.

use vstd::prelude::*;

use crate::grid::line::GridLine;
use crate::grid::pos::{GridPos, GridUnit};

verus! {

/// The routing grid spans positions (x, y) with 0 <= x < width and
/// 0 <= y < height.
#[derive(Clone, Copy, PartialEq, Eq, Debug, Structural)]
pub struct GridLimits {
    pub width: GridUnit,
    pub height: GridUnit,
}

impl GridLimits {
    pub fn new(width: GridUnit, height: GridUnit) -> (r: GridLimits)
        ensures
            r == (GridLimits { width, height }),
    {
        GridLimits { width, height }
    }

    /// Whether a position lies within the grid.
    pub open spec fn spec_contains_pos(self, p: GridPos) -> bool {
        &&& 0 <= p.x < self.width
        &&& 0 <= p.y < self.height
    }

    /// Whether both endpoints of a line lie within the grid.
    pub open spec fn spec_contains_line(self, line: GridLine) -> bool {
        &&& self.spec_contains_pos(line.index)
        &&& line.spec_in_numeric_range()
        &&& self.spec_contains_pos(line.spec_second_point())
    }

    pub fn contains_pos(&self, p: &GridPos) -> (r: bool)
        ensures
            r == self.spec_contains_pos(*p),
    {
        0 <= p.x && p.x < self.width && 0 <= p.y && p.y < self.height
    }

    pub fn contains_line(&self, line: &GridLine) -> (r: bool)
        ensures
            r == self.spec_contains_line(*line),
    {
        if !self.contains_pos(&line.index) {
            return false;
        }
        let second = match line.axis {
            crate::direction::Axis::Horizontal => {
                if line.index.x == i16::MAX {
                    return false;
                }
                GridPos { x: line.index.x + 1, y: line.index.y }
            },
            crate::direction::Axis::Vertical => {
                if line.index.y == i16::MAX {
                    return false;
                }
                GridPos { x: line.index.x, y: line.index.y + 1 }
            },
        };
        self.contains_pos(&second)
    }
}

} // verus!
