//! The set of grid positions that routed paths may not cross, derived
//! from component footprints.

use vstd::prelude::*;

use crate::grid::pos::GridPos;
use crate::grid::rect::GridRect;

verus! {

/// A finite set of blocked grid positions.  The backing vector may hold
/// duplicates; only membership matters.
#[derive(Clone, Debug)]
pub struct BlockedPoints {
    pub points: Vec<GridPos>,
}

impl BlockedPoints {
    /// Whether a position is blocked.
    pub open spec fn spec_contains(self, p: GridPos) -> bool {
        self.points@.contains(p)
    }

    pub fn new() -> (r: BlockedPoints)
        ensures
            forall|p: GridPos| !r.spec_contains(p),
    {
        BlockedPoints { points: Vec::new() }
    }

    pub fn add(&mut self, p: GridPos)
        ensures
            forall|q: GridPos|
                final(self).spec_contains(q) <==> (old(self).spec_contains(q) || q == p),
    {
        proof {
            broadcast use vstd::seq_lib::lemma_seq_contains_after_push;

        }
        self.points.push(p);
    }

    /// Whether a point is free for routing, that is, not blocked.
    pub fn point_is_available(&self, p: &GridPos) -> (r: bool)
        ensures
            r == !self.spec_contains(*p),
    {
        let mut i: usize = 0;
        while i < self.points.len()
            invariant
                0 <= i <= self.points.len(),
                forall|j: int| 0 <= j < i ==> self.points@[j] != *p,
            decreases self.points.len() - i,
        {
            if self.points[i].x == p.x && self.points[i].y == p.y {
                proof {
                    assert(self.points@[i as int] == *p);
                }
                return false;
            }
            i += 1;
        }
        proof {
            assert(!self.points@.contains(*p));
        }
        true
    }

    /// Add every point of another blocked set to this one.
    pub fn add_from(&mut self, other: &BlockedPoints)
        ensures
            forall|q: GridPos|
                final(self).spec_contains(q) <==> (old(self).spec_contains(q)
                    || other.spec_contains(q)),
    {
        proof {
            broadcast use vstd::seq_lib::lemma_seq_contains_after_push;

        }
        let mut i: usize = 0;
        while i < other.points.len()
            invariant
                0 <= i <= other.points.len(),
                forall|q: GridPos|
                    self.points@.contains(q) <==> (old(self).points@.contains(q)
                        || other.points@.take(i as int).contains(q)),
            decreases other.points.len() - i,
        {
            proof {
                broadcast use vstd::seq_lib::lemma_seq_contains_after_push;

                assert(other.points@.take(i + 1).drop_last() =~= other.points@.take(i as int));
                assert(other.points@.take(i + 1).last() == other.points@[i as int]);
                assert forall|q: GridPos| #[trigger]
                    other.points@.take(i + 1).contains(q) implies (other.points@.take(
                    i as int,
                ).contains(q) || q == other.points@[i as int]) by {
                    let j = choose|j: int|
                        0 <= j < i + 1 && #[trigger] other.points@.take(i + 1)[j] == q;
                    if j < i {
                        assert(other.points@.take(i as int)[j] == q);
                    }
                }
                assert forall|q: GridPos|
                    other.points@.take(i as int).contains(q) implies #[trigger] other.points@.take(
                    i + 1,
                ).contains(q) by {
                    let j = choose|j: int| 0 <= j < i && other.points@.take(i as int)[j] == q;
                    assert(other.points@.take(i + 1)[j] == q);
                }
                assert(other.points@.take(i + 1)[i as int] == other.points@[i as int]);
                assert(other.points@.take(i + 1).contains(other.points@[i as int]));
            }
            self.points.push(other.points[i]);
            i += 1;
        }
        proof {
            assert(other.points@.take(other.points@.len() as int) =~= other.points@);
        }
    }

    /// The positions strictly inside a rectangle, which form the blocked
    /// footprint of a component occupying it.
    pub open spec fn spec_inner_blocked(rect: GridRect, p: GridPos) -> bool {
        &&& rect.top_left.x < p.x < rect.top_left.x + rect.size.x
        &&& rect.top_left.y < p.y < rect.top_left.y + rect.size.y
    }

    /// The blocked set of a component footprint: every position strictly
    /// inside the rectangle, leaving its boundary free for ports.
    pub fn new_from_blocked_inner_rect(rect: GridRect) -> (r: BlockedPoints)
        requires
            0 <= rect.size.x,
            0 <= rect.size.y,
            rect.top_left.x + rect.size.x <= i16::MAX,
            rect.top_left.y + rect.size.y <= i16::MAX,
        ensures
            forall|p: GridPos| r.spec_contains(p) <==> Self::spec_inner_blocked(rect, p),
    {
        let mut r = BlockedPoints::new();
        if rect.size.x <= 1 || rect.size.y <= 1 {
            return r;
        }
        let x_end: i16 = rect.top_left.x + rect.size.x;
        let y_end: i16 = rect.top_left.y + rect.size.y;
        let mut x: i16 = rect.top_left.x + 1;
        while x < x_end
            invariant
                rect.top_left.x < x <= x_end,
                x_end == rect.top_left.x + rect.size.x,
                y_end == rect.top_left.y + rect.size.y,
                rect.size.x > 1,
                rect.size.y > 1,
                forall|p: GridPos|
                    r.spec_contains(p) <==> (Self::spec_inner_blocked(rect, p) && p.x < x),
            decreases x_end - x,
        {
            let mut y: i16 = rect.top_left.y + 1;
            while y < y_end
                invariant
                    rect.top_left.x < x < x_end,
                    rect.top_left.y < y <= y_end,
                    x_end == rect.top_left.x + rect.size.x,
                    y_end == rect.top_left.y + rect.size.y,
                    rect.size.x > 1,
                    rect.size.y > 1,
                    forall|p: GridPos|
                        r.spec_contains(p) <==> (Self::spec_inner_blocked(rect, p) && (p.x < x || (
                        p.x == x && p.y < y))),
                decreases y_end - y,
            {
                r.add(GridPos { x, y });
                y += 1;
            }
            x += 1;
        }
        r
    }
}

} // verus!
