//! Unit movements between adjacent grid positions.
//!
//! A movement records its starting point, its direction, the grid line it
//! crosses, and its destination; the destination is always the starting
//! point advanced one step in the direction, and the line is the unique
//! edge between the two.

use vstd::prelude::*;

use crate::direction::{Axis, Direction};
use crate::grid::line::GridLine;
use crate::grid::pos::GridPos;

verus! {

#[derive(Clone, Copy, PartialEq, Eq, Debug, Hash, Structural)]
pub struct GridMovement {
    pub starting_point: GridPos,
    pub move_dir: Direction,
    pub line: GridLine,
    pub destination_point: GridPos,
}

/// Whether one step from `p` in direction `dir` stays within the signed
/// 16-bit coordinate range.
pub open spec fn spec_step_allowed(p: GridPos, dir: Direction) -> bool {
    match dir {
        Direction::Up => p.y > i16::MIN,
        Direction::Right => p.x < i16::MAX,
        Direction::Down => p.y < i16::MAX,
        Direction::Left => p.x > i16::MIN,
    }
}

/// The position one step from `p` in direction `dir`.
pub open spec fn spec_step(p: GridPos, dir: Direction) -> GridPos {
    match dir {
        Direction::Up => GridPos { x: p.x, y: (p.y - 1) as i16 },
        Direction::Right => GridPos { x: (p.x + 1) as i16, y: p.y },
        Direction::Down => GridPos { x: p.x, y: (p.y + 1) as i16 },
        Direction::Left => GridPos { x: (p.x - 1) as i16, y: p.y },
    }
}

/// The unique grid line between `p` and its neighbour in direction `dir`:
/// a line is indexed by its leftmost (horizontal) or topmost (vertical)
/// endpoint.
pub open spec fn spec_step_line(p: GridPos, dir: Direction) -> GridLine {
    match dir {
        Direction::Up => GridLine { index: spec_step(p, dir), axis: Axis::Vertical },
        Direction::Right => GridLine { index: p, axis: Axis::Horizontal },
        Direction::Down => GridLine { index: p, axis: Axis::Vertical },
        Direction::Left => GridLine { index: spec_step(p, dir), axis: Axis::Horizontal },
    }
}

/// The full movement record for one step from `p` in direction `dir`.
pub open spec fn spec_movement(p: GridPos, dir: Direction) -> GridMovement {
    GridMovement {
        starting_point: p,
        move_dir: dir,
        line: spec_step_line(p, dir),
        destination_point: spec_step(p, dir),
    }
}

impl GridMovement {
    /// A movement is well formed when its line and destination are the
    /// ones determined by its starting point and direction.
    pub open spec fn wf(self) -> bool {
        self == spec_movement(self.starting_point, self.move_dir)
    }
}

/// The movements from `p` that the search may open when `p` has no parent
/// direction: every direction, except Up on the top edge and Left on the
/// left edge.
pub open spec fn spec_all_moves(p: GridPos) -> Seq<GridMovement> {
    let all = seq![
        Direction::Up,
        Direction::Right,
        Direction::Down,
        Direction::Left,
    ];
    all.filter(|d: Direction| !(p.y == 0 && d == Direction::Up) && !(p.x == 0 && d == Direction::Left))
        .map_values(|d: Direction| spec_movement(p, d))
}

pub trait GridPosMovementExt: Sized {
    spec fn spec_go_allowed(self, dir: Direction) -> bool;

    spec fn spec_go(self, dir: Direction) -> GridMovement;

    spec fn spec_moves(&self) -> Seq<GridMovement>;

    spec fn spec_moves_allowed(&self) -> bool;

    fn go(self, dir: Direction) -> (m: GridMovement)
        requires
            self.spec_go_allowed(dir),
        ensures
            m == self.spec_go(dir),
    ;

    fn all_moves(&self) -> (v: Vec<GridMovement>)
        requires
            self.spec_moves_allowed(),
        ensures
            v@ == self.spec_moves(),
    ;
}

impl GridPosMovementExt for GridPos {
    open spec fn spec_go_allowed(self, dir: Direction) -> bool {
        spec_step_allowed(self, dir)
    }

    open spec fn spec_go(self, dir: Direction) -> GridMovement {
        spec_movement(self, dir)
    }

    open spec fn spec_moves(&self) -> Seq<GridMovement> {
        spec_all_moves(*self)
    }

    open spec fn spec_moves_allowed(&self) -> bool {
        &&& self.x < i16::MAX
        &&& self.y < i16::MAX
        &&& (self.x != 0 ==> self.x > i16::MIN)
        &&& (self.y != 0 ==> self.y > i16::MIN)
    }

    fn go(self, dir: Direction) -> (m: GridMovement) {
        let (line, destination) = match dir {
            Direction::Up => {
                let target = GridPos { x: self.x, y: self.y - 1 };
                (GridLine { index: target, axis: Axis::Vertical }, target)
            },
            Direction::Right => {
                let target = GridPos { x: self.x + 1, y: self.y };
                (GridLine { index: self, axis: Axis::Horizontal }, target)
            },
            Direction::Down => {
                let target = GridPos { x: self.x, y: self.y + 1 };
                (GridLine { index: self, axis: Axis::Vertical }, target)
            },
            Direction::Left => {
                let target = GridPos { x: self.x - 1, y: self.y };
                (GridLine { index: target, axis: Axis::Horizontal }, target)
            },
        };
        GridMovement { starting_point: self, move_dir: dir, line, destination_point: destination }
    }

    fn all_moves(&self) -> (v: Vec<GridMovement>) {
        let mut v: Vec<GridMovement> = Vec::new();
        if !(self.y == 0) {
            v.push(self.go(Direction::Up));
        }
        v.push(self.go(Direction::Right));
        v.push(self.go(Direction::Down));
        if !(self.x == 0) {
            v.push(self.go(Direction::Left));
        }
        proof {
            let all = seq![
                Direction::Up,
                Direction::Right,
                Direction::Down,
                Direction::Left,
            ];
            let pred = |d: Direction|
                !(self.y == 0 && d == Direction::Up) && !(self.x == 0 && d == Direction::Left);
            reveal_with_fuel(Seq::filter, 6);
            assert(all =~= seq![Direction::Up] + seq![Direction::Right] + seq![
                Direction::Down,
                Direction::Left,
            ]);
            assert(v@ =~= all.filter(pred).map_values(
                |d: Direction| spec_movement(*self, d),
            ));
        }
        v
    }
}

} // verus!
