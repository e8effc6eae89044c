//! Discrete grid coordinates.  Positions are signed 16-bit pairs with the
//! origin at the top left: x grows to the right, y grows downward.

use vstd::prelude::*;

verus! {

pub type GridUnit = i16;

#[derive(Clone, Copy, PartialEq, Eq, Debug, Hash, Structural)]
pub struct GridPos {
    pub x: GridUnit,
    pub y: GridUnit,
}

#[derive(Clone, Copy, PartialEq, Eq, Debug, Hash, Structural)]
pub struct GridSize {
    pub x: GridUnit,
    pub y: GridUnit,
}

pub fn grid_pos(x: GridUnit, y: GridUnit) -> (p: GridPos)
    ensures
        p == (GridPos { x, y }),
{
    GridPos { x, y }
}

pub fn grid_size(x: GridUnit, y: GridUnit) -> (s: GridSize)
    ensures
        s == (GridSize { x, y }),
{
    GridSize { x, y }
}

} // verus!
