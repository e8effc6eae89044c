//! Routed paths: an orthogonal polyline through the grid, stored as a
//! starting point and an ordered list of directions.
//!
//! Walking a path yields its movements in order; the movements chain, each
//! one starting where the previous one ended.

use vstd::prelude::*;

use crate::direction::Direction;
use crate::grid::movement::{
    spec_movement, spec_step, spec_step_allowed, GridMovement, GridPosMovementExt,
};
use crate::grid::pos::GridPos;

verus! {

/// Why a route endpoint is unusable.
#[derive(Clone, Copy, PartialEq, Eq, Debug, Structural)]
pub enum InvalidPointReason {
    OutOfBounds,
    Blocked,
    InAnotherPath,
}

/// Why the router failed to route a connection.
#[derive(Clone, Copy, PartialEq, Eq, Debug, Structural)]
pub enum PathSearchingFailure {
    InvalidStartingPoint(InvalidPointReason),
    InvalidEndingPoint(InvalidPointReason),
    NoPathFound,
}

#[derive(Clone, Debug)]
pub struct Path {
    pub starting_point: GridPos,
    pub movements: Vec<Direction>,
}

/// The position a walk reaches after the first `i` of its directions.
pub open spec fn spec_walk_pos(start: GridPos, dirs: Seq<Direction>, i: int) -> GridPos
    decreases i,
{
    if i <= 0 {
        start
    } else {
        spec_step(spec_walk_pos(start, dirs, i - 1), dirs[i - 1])
    }
}

/// Every step of a walk stays within the coordinate range.
pub open spec fn spec_walk_wf(start: GridPos, dirs: Seq<Direction>) -> bool {
    forall|i: int|
        0 <= i < dirs.len() ==> spec_step_allowed(#[trigger] spec_walk_pos(start, dirs, i), dirs[i])
}

/// A walk's position after `i` steps depends only on the first `i`
/// directions.
pub proof fn lemma_walk_pos_prefix(
    start: GridPos,
    dirs1: Seq<Direction>,
    dirs2: Seq<Direction>,
    i: int,
)
    requires
        0 <= i,
        i <= dirs1.len(),
        i <= dirs2.len(),
        forall|j: int| 0 <= j < i ==> dirs1[j] == dirs2[j],
    ensures
        spec_walk_pos(start, dirs1, i) == spec_walk_pos(start, dirs2, i),
    decreases i,
{
    if i > 0 {
        lemma_walk_pos_prefix(start, dirs1, dirs2, i - 1);
    }
}

impl Path {
    /// The position reached after the first `i` movements.
    pub open spec fn spec_pos_at(self, i: int) -> GridPos {
        spec_walk_pos(self.starting_point, self.movements@, i)
    }

    /// The `i`-th movement of the walk.
    pub open spec fn spec_movement_at(self, i: int) -> GridMovement {
        spec_movement(self.spec_pos_at(i), self.movements@[i])
    }

    /// The position where the walk ends.
    pub open spec fn spec_end(self) -> GridPos {
        self.spec_pos_at(self.movements@.len() as int)
    }

    /// A path is well formed when every step stays within the coordinate
    /// range.
    pub open spec fn wf(self) -> bool {
        spec_walk_wf(self.starting_point, self.movements@)
    }

    pub fn get_starting_point(&self) -> (p: GridPos)
        ensures
            p == self.starting_point,
    {
        self.starting_point
    }

    /// Begin a walk over the path's movements.
    pub fn walk(&self) -> (w: PathWalker<'_>)
        ensures
            w.path == self,
            w.current_movement_ix == 0,
            w.current_pos == self.starting_point,
    {
        PathWalker { path: self, current_movement_ix: 0, current_pos: self.starting_point }
    }

    /// All movements of the walk, in order.
    pub fn walk_movements(&self) -> (v: Vec<GridMovement>)
        requires
            self.wf(),
        ensures
            v@.len() == self.movements@.len(),
            forall|i: int| 0 <= i < v@.len() ==> v@[i] == self.spec_movement_at(i),
    {
        let mut v: Vec<GridMovement> = Vec::new();
        let mut w = self.walk();
        loop
            invariant
                w.path == self,
                self.wf(),
                w.wf(),
                w.current_movement_ix == v@.len(),
                v@.len() <= self.movements@.len(),
                forall|i: int| 0 <= i < v@.len() ==> v@[i] == self.spec_movement_at(i),
            decreases self.movements@.len() - w.current_movement_ix,
        {
            match w.next() {
                Some(m) => {
                    v.push(m);
                },
                None => {
                    return v;
                },
            }
        }
    }
}

/// A cursor over a path's movements.  It is well formed while its position
/// matches the walk prefix it has produced.
#[derive(Clone)]
pub struct PathWalker<'a> {
    pub path: &'a Path,
    pub current_movement_ix: usize,
    pub current_pos: GridPos,
}

impl<'a> PathWalker<'a> {
    pub open spec fn wf(self) -> bool {
        &&& self.path.wf()
        &&& self.current_movement_ix <= self.path.movements@.len()
        &&& self.current_pos == self.path.spec_pos_at(self.current_movement_ix as int)
    }

    /// The next movement of the walk, or None once the path is exhausted.
    pub fn next(&mut self) -> (m: Option<GridMovement>)
        requires
            old(self).wf(),
        ensures
            final(self).wf(),
            final(self).path == old(self).path,
            if old(self).current_movement_ix < old(self).path.movements@.len() {
                &&& m == Some(old(self).path.spec_movement_at(old(self).current_movement_ix as int))
                &&& final(self).current_movement_ix == old(self).current_movement_ix + 1
            } else {
                &&& m is None
                &&& *final(self) == *old(self)
            },
    {
        if self.current_movement_ix < self.path.movements.len() {
            let current_move = self.path.movements[self.current_movement_ix];
            let current_move_result = self.current_pos.go(current_move);
            self.current_pos = current_move_result.destination_point;
            self.current_movement_ix += 1;
            Some(current_move_result)
        } else {
            None
        }
    }
}

/// Walking a well-formed path produces a movement sequence that chains:
/// the first movement starts at the path's starting point, and each
/// movement starts where the previous one ended.
pub proof fn lemma_path_walk_chains(p: Path)
    requires
        p.wf(),
    ensures
        forall|i: int|
            0 <= i < p.movements@.len() ==> (#[trigger] p.spec_movement_at(i)).starting_point
                == p.spec_pos_at(i),
        forall|i: int|
            0 <= i < p.movements@.len() ==> (#[trigger] p.spec_movement_at(i)).destination_point
                == p.spec_pos_at(i + 1),
        p.movements@.len() > 0 ==> p.spec_movement_at(0).starting_point == p.starting_point,
        forall|i: int|
            0 <= i && i + 1 < p.movements@.len() ==> (
            #[trigger] p.spec_movement_at(i)).destination_point == p.spec_movement_at(
                i + 1,
            ).starting_point,
{
    assert forall|i: int| 0 <= i < p.movements@.len() implies (
    #[trigger] p.spec_movement_at(i)).destination_point == p.spec_pos_at(i + 1) by {
        assert(p.spec_pos_at(i + 1) == spec_step(p.spec_pos_at(i), p.movements@[i]));
    }
}

} // verus!
