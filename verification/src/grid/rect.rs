//! Axis-aligned rectangles of grid cells, used for component footprints.

use vstd::prelude::*;

use crate::direction::Direction;
use crate::grid::pos::{GridPos, GridSize, GridUnit};

verus! {

#[derive(Clone, Copy, PartialEq, Eq, Debug, Structural)]
pub struct GridRect {
    pub top_left: GridPos,
    pub size: GridSize,
}

pub fn grid_rect(top_left: GridPos, size: GridSize) -> (r: GridRect)
    ensures
        r == (GridRect { top_left, size }),
{
    GridRect::new(top_left, size)
}

impl GridRect {
    pub fn new(top_left: GridPos, size: GridSize) -> (r: GridRect)
        ensures
            r == (GridRect { top_left, size }),
    {
        GridRect { top_left, size }
    }

    /// The rectangle spanned by two corner points, in any corner order.
    pub fn new_from_points(p0: GridPos, p1: GridPos) -> (r: GridRect)
        requires
            -i16::MAX <= p0.x - p1.x <= i16::MAX,
            -i16::MAX <= p0.y - p1.y <= i16::MAX,
        ensures
            r.top_left.x == if p0.x <= p1.x { p0.x } else { p1.x },
            r.top_left.y == if p0.y <= p1.y { p0.y } else { p1.y },
            r.size.x == if p0.x <= p1.x { p1.x - p0.x } else { p0.x - p1.x },
            r.size.y == if p0.y <= p1.y { p1.y - p0.y } else { p0.y - p1.y },
    {
        let (left, right) = if p0.x <= p1.x { (p0.x, p1.x) } else { (p1.x, p0.x) };
        let (top, bottom) = if p0.y <= p1.y { (p0.y, p1.y) } else { (p1.y, p0.y) };
        GridRect {
            top_left: GridPos { x: left, y: top },
            size: GridSize { x: right - left, y: bottom - top },
        }
    }

    /// The coordinate of the rectangle's edge facing the given direction.
    pub fn pos(&self, dir: Direction) -> (u: GridUnit)
        requires
            0 <= self.size.x,
            0 <= self.size.y,
            self.top_left.x + self.size.x <= i16::MAX,
            self.top_left.y + self.size.y <= i16::MAX,
        ensures
            u == match dir {
                Direction::Up => self.top_left.y as int,
                Direction::Left => self.top_left.x as int,
                Direction::Down => self.top_left.y + self.size.y,
                Direction::Right => self.top_left.x + self.size.x,
            },
    {
        match dir {
            Direction::Up => self.top_left.y,
            Direction::Left => self.top_left.x,
            Direction::Down => self.top_left.y + self.size.y,
            Direction::Right => self.top_left.x + self.size.x,
        }
    }
}

} // verus!
