//! Axis-aligned directions of movement on the grid, and the two axes that
//! tag grid lines.

use vstd::prelude::*;

verus! {

#[derive(Clone, Copy, PartialEq, Eq, Debug, Hash, Structural)]
pub enum Direction {
    Up,
    Right,
    Down,
    Left,
}

#[derive(Clone, Copy, PartialEq, Eq, Debug, Hash, Structural)]
pub enum Axis {
    Horizontal,
    Vertical,
}

impl Direction {
    /// The next direction a quarter turn clockwise.
    pub open spec fn spec_rotate_cw(self) -> Direction {
        match self {
            Direction::Up => Direction::Right,
            Direction::Right => Direction::Down,
            Direction::Down => Direction::Left,
            Direction::Left => Direction::Up,
        }
    }

    /// The next direction a quarter turn counterclockwise.
    pub open spec fn spec_rotate_ccw(self) -> Direction {
        match self {
            Direction::Up => Direction::Left,
            Direction::Left => Direction::Down,
            Direction::Down => Direction::Right,
            Direction::Right => Direction::Up,
        }
    }

    pub fn rotate_cw(&self) -> (d: Direction)
        ensures
            d == self.spec_rotate_cw(),
    {
        match self {
            Direction::Up => Direction::Right,
            Direction::Right => Direction::Down,
            Direction::Down => Direction::Left,
            Direction::Left => Direction::Up,
        }
    }

    pub fn rotate_ccw(&self) -> (d: Direction)
        ensures
            d == self.spec_rotate_ccw(),
    {
        match self {
            Direction::Up => Direction::Left,
            Direction::Left => Direction::Down,
            Direction::Down => Direction::Right,
            Direction::Right => Direction::Up,
        }
    }

    /// Every direction, in the fixed order Up, Right, Down, Left.
    pub fn all_directions() -> (v: Vec<Direction>)
        ensures
            v@ == seq![Direction::Up, Direction::Right, Direction::Down, Direction::Left],
    {
        let v = vec![Direction::Up, Direction::Right, Direction::Down, Direction::Left];
        proof {
            assert(v@ =~= seq![Direction::Up, Direction::Right, Direction::Down, Direction::Left]);
        }
        v
    }
}

} // verus!
