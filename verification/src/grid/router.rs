//! The orthogonal grid router: a best-first search that routes each
//! connection as a grid path, sharing lines with paths of its own
//! netlist and paying steep penalties for touching any other netlist's
//! lines or points, blocked cells, or places already visited.
//!
//! The search is deterministic: its result is a function of its inputs,
//! pinned by a specification-level mirror of every step.

use vstd::prelude::*;

use crate::connection::{CpuConnection, CpuConnectionEndpoint};
use crate::direction::Direction;
use crate::grid::blocked_point::BlockedPoints;
use crate::grid::grid_limits::GridLimits;
use crate::grid::line::GridLine;
use crate::grid::movement::{
    spec_all_moves, spec_movement, spec_step, spec_step_allowed, GridMovement, GridPosMovementExt,
};
use crate::grid::path::{
    lemma_walk_pos_prefix, spec_walk_pos, spec_walk_wf, Path, PathSearchingFailure,
};
use crate::grid::pos::GridPos;
use crate::simulation::cpu::{spec_assoc_lookup, Netlists};

verus! {

/// The search gives up after this many expansions.
pub const ROUTER_SEARCH_LIMIT: usize = 100000;

/// The largest cost one movement can incur.
pub const MAX_MOVE_COST: u64 = 12111;

/// The arena can grow by at most four nodes per expansion.
pub const ROUTER_ARENA_LIMIT: usize = 4 * ROUTER_SEARCH_LIMIT + 1;

/// The routed paths of one tick, keyed by connection in insertion
/// order.
pub struct Paths {
    pub entries: Vec<(CpuConnection, Path)>,
}

impl Paths {
    /// Every stored path is well formed.
    pub open spec fn wf(self) -> bool {
        forall|i: int| 0 <= i < self.entries@.len() ==> (#[trigger] self.entries@[i]).1.wf()
    }

    pub fn new() -> (r: Paths)
        ensures
            r.entries@ == Seq::<(CpuConnection, Path)>::empty(),
            r.wf(),
    {
        Paths { entries: Vec::new() }
    }

    pub fn clear(&mut self)
        ensures
            final(self).entries@ == Seq::<(CpuConnection, Path)>::empty(),
            final(self).wf(),
    {
        self.entries.clear();
    }

    /// Whether a connection already has a path.
    pub fn contains_key(&self, conn: &CpuConnection) -> (r: bool)
        ensures
            r == exists|i: int|
                0 <= i < self.entries@.len() && (#[trigger] self.entries@[i]).0 == *conn,
    {
        let mut i: usize = 0;
        while i < self.entries.len()
            invariant
                i <= self.entries@.len(),
                forall|j: int| 0 <= j < i ==> (#[trigger] self.entries@[j]).0 != *conn,
            decreases self.entries@.len() - i,
        {
            if connection_key_matches(&self.entries[i], conn) {
                return true;
            }
            i += 1;
        }
        false
    }

    /// Store a path for a connection.
    pub fn insert(&mut self, conn: CpuConnection, path: Path)
        requires
            path.wf(),
            old(self).wf(),
        ensures
            final(self).entries@ == old(self).entries@.push((conn, path)),
            final(self).wf(),
    {
        self.entries.push((conn, path));
    }
}

/// Whether a stored entry is keyed by the given connection.
fn connection_key_matches(entry: &(CpuConnection, Path), conn: &CpuConnection) -> (r: bool)
    ensures
        r == (entry.0 == *conn),
{
    entry.0 == *conn
}

/// Whether a vector of lines holds the given line.
fn lines_contain(lines: &Vec<GridLine>, line: &GridLine) -> (r: bool)
    ensures
        r == lines@.contains(*line),
{
    let mut i: usize = 0;
    while i < lines.len()
        invariant
            i <= lines@.len(),
            forall|j: int| 0 <= j < i ==> lines@[j] != *line,
        decreases lines@.len() - i,
    {
        if line_eq(&lines[i], line) {
            proof {
                assert(lines@[i as int] == *line);
            }
            return true;
        }
        i += 1;
    }
    proof {
        assert(!lines@.contains(*line));
    }
    false
}

fn line_eq(a: &GridLine, b: &GridLine) -> (r: bool)
    ensures
        r == (a == b),
{
    a == b
}

/// Whether a vector of positions holds the given position.
fn points_contain(points: &Vec<GridPos>, p: &GridPos) -> (r: bool)
    ensures
        r == points@.contains(*p),
{
    let mut i: usize = 0;
    while i < points.len()
        invariant
            i <= points@.len(),
            forall|j: int| 0 <= j < i ==> points@[j] != *p,
        decreases points@.len() - i,
    {
        if points[i].x == p.x && points[i].y == p.y {
            proof {
                assert(points@[i as int] == *p);
            }
            return true;
        }
        i += 1;
    }
    proof {
        assert(!points@.contains(*p));
    }
    false
}

/// The Manhattan distance between two grid positions.
pub open spec fn spec_manhattan(a: GridPos, b: GridPos) -> int {
    (if a.x >= b.x {
        a.x - b.x
    } else {
        b.x - a.x
    }) + (if a.y >= b.y {
        a.y - b.y
    } else {
        b.y - a.y
    })
}

/// The least Manhattan distance from `p` to one of the first `i`
/// destination points.
pub open spec fn spec_min_manhattan(dests: Seq<GridPos>, p: GridPos, i: int) -> int
    decreases i,
{
    if i <= 1 {
        spec_manhattan(dests[0], p)
    } else {
        let rest = spec_min_manhattan(dests, p, i - 1);
        let here = spec_manhattan(dests[i - 1], p);
        if here < rest {
            here
        } else {
            rest
        }
    }
}

/// The search heuristic: the least Manhattan distance from `p` to any
/// destination point.
pub open spec fn spec_estimate(dests: Seq<GridPos>, p: GridPos) -> int {
    spec_min_manhattan(dests, p, dests.len() as int)
}

/// Compute the heuristic.
fn estimate_cost(dests: &Vec<GridPos>, p: &GridPos) -> (r: u64)
    requires
        dests@.len() > 0,
    ensures
        r == spec_estimate(dests@, *p),
        r <= 131070,
{
    let first = manhattan(&dests[0], p);
    let mut min_cost: u64 = first;
    let mut i: usize = 1;
    while i < dests.len()
        invariant
            1 <= i <= dests@.len(),
            min_cost == spec_min_manhattan(dests@, *p, i as int),
            min_cost <= 131070,
        decreases dests@.len() - i,
    {
        let here = manhattan(&dests[i], p);
        if here < min_cost {
            min_cost = here;
        }
        i += 1;
    }
    min_cost
}

/// Compute the Manhattan distance.
fn manhattan(a: &GridPos, b: &GridPos) -> (r: u64)
    ensures
        r == spec_manhattan(*a, *b),
        r <= 131070,
{
    let dx: u64 = if a.x >= b.x {
        (a.x as i32 - b.x as i32) as u64
    } else {
        (b.x as i32 - a.x as i32) as u64
    };
    let dy: u64 = if a.y >= b.y {
        (a.y as i32 - b.y as i32) as u64
    } else {
        (b.y as i32 - a.y as i32) as u64
    };
    dx + dy
}

/// One node of the search arena.  Nodes refer to their parents by arena
/// index; a parent always precedes its children.
#[derive(Clone, Copy, PartialEq, Eq, Debug)]
pub struct SearchNode {
    pub parent_conn: Option<(usize, Direction)>,
    pub position: GridPos,
    pub estimated_remaining_cost: u64,
    pub accumulated_cost: u64,
}

/// The constant inputs of one search.
pub struct RouteInputs {
    pub grid_bounds: GridLimits,
    pub blocked: Seq<GridPos>,
    pub forbidden_lines: Seq<GridLine>,
    pub forbidden_points: Seq<GridPos>,
    pub dests: Seq<GridPos>,
}

/// The mutable state of one search.
pub struct SearchState {
    pub arena: Seq<SearchNode>,
    pub frontier: Seq<usize>,
    pub visited: Seq<GridPos>,
}

/// The routed result, as plain mathematics: where the path starts and
/// the directions it takes.
pub struct RouteModel {
    pub start: GridPos,
    pub dirs: Seq<Direction>,
}

/// A well-formed arena rooted at `start`: every parentless node sits at
/// the start, every child one allowed step from its earlier parent, and
/// every accumulated cost is bounded by the moves that produced it.
#[verifier::opaque]
pub open spec fn spec_arena_wf(arena: Seq<SearchNode>, start: GridPos) -> bool {
    forall|k: int|
        0 <= k < arena.len() ==> {
            &&& (match (#[trigger] arena[k]).parent_conn {
                Some(pc) => {
                    &&& 0 <= pc.0 < k
                    &&& spec_step_allowed(arena[pc.0 as int].position, pc.1)
                    &&& arena[k].position == spec_movement(
                        arena[pc.0 as int].position,
                        pc.1,
                    ).destination_point
                },
                None => arena[k].position == start,
            })
            &&& arena[k].accumulated_cost <= MAX_MOVE_COST * (k + 1)
            &&& arena[k].estimated_remaining_cost <= 131070
        }
}

/// The cost of one movement: a base of one, plus penalties for leaving
/// the grid, touching a blocked cell, using another netlist's line,
/// landing on another netlist's point, and revisiting a point.
#[verifier::opaque]
pub open spec fn spec_move_cost(m: GridMovement, inputs: RouteInputs, visited: Seq<GridPos>) -> int {
    1 + (if !inputs.grid_bounds.spec_contains_line(m.line) {
        1000int
    } else {
        0int
    }) + (if inputs.blocked.contains(m.line.index) || inputs.blocked.contains(
        m.line.spec_second_point(),
    ) {
        100int
    } else {
        0int
    }) + (if inputs.forbidden_lines.contains(m.line) {
        1000int
    } else {
        0int
    }) + (if inputs.forbidden_points.contains(m.destination_point) {
        10int
    } else {
        0int
    }) + (if visited.contains(m.destination_point) {
        10000int
    } else {
        0int
    })
}

/// Compute the cost of one movement.
fn get_move_cost(
    m: &GridMovement,
    grid_bounds: &GridLimits,
    blocked_points: &BlockedPoints,
    forbidden_lines: &Vec<GridLine>,
    forbidden_points: &Vec<GridPos>,
    visited: &Vec<GridPos>,
    Ghost(inputs): Ghost<RouteInputs>,
) -> (r: u64)
    requires
        m.line.spec_in_numeric_range(),
        inputs.grid_bounds == *grid_bounds,
        inputs.blocked == blocked_points.points@,
        inputs.forbidden_lines == forbidden_lines@,
        inputs.forbidden_points == forbidden_points@,
    ensures
        r == spec_move_cost(*m, inputs, visited@),
        1 <= r <= MAX_MOVE_COST,
{
    proof {
        reveal(spec_move_cost);
    }
    let mut cost: u64 = 1;
    if !grid_bounds.contains_line(&m.line) {
        cost += 1000;
    }
    let (first, second) = m.line.points();
    if !blocked_points.point_is_available(&first) || !blocked_points.point_is_available(&second) {
        cost += 100;
    }
    if lines_contain(forbidden_lines, &m.line) {
        cost += 1000;
    }
    if points_contain(forbidden_points, &m.destination_point) {
        cost += 10;
    }
    if points_contain(visited, &m.destination_point) {
        cost += 10000;
    }
    cost
}

/// The candidate movements from a node: with a parent direction, the
/// same direction and its two quarter turns, each when it stays in the
/// coordinate range; without one, every direction away from the top and
/// left edges.
pub open spec fn spec_next_moves(node: SearchNode) -> Seq<GridMovement> {
    match node.parent_conn {
        Some(pc) => {
            let dir = pc.1;
            let s0: Seq<GridMovement> = if spec_step_allowed(node.position, dir) {
                seq![spec_movement(node.position, dir)]
            } else {
                seq![]
            };
            let s1: Seq<GridMovement> = if spec_step_allowed(node.position, dir.spec_rotate_cw()) {
                seq![spec_movement(node.position, dir.spec_rotate_cw())]
            } else {
                seq![]
            };
            let s2: Seq<GridMovement> = if spec_step_allowed(node.position, dir.spec_rotate_ccw()) {
                seq![spec_movement(node.position, dir.spec_rotate_ccw())]
            } else {
                seq![]
            };
            s0 + s1 + s2
        },
        None => spec_all_moves(node.position),
    }
}

/// Decide whether one step stays within the coordinate range.
fn step_allowed(p: &GridPos, dir: Direction) -> (r: bool)
    ensures
        r == spec_step_allowed(*p, dir),
{
    match dir {
        Direction::Up => p.y > i16::MIN,
        Direction::Right => p.x < i16::MAX,
        Direction::Down => p.y < i16::MAX,
        Direction::Left => p.x > i16::MIN,
    }
}

/// Compute the candidate movements from a node.
fn get_next_moves(node: &SearchNode) -> (v: Vec<GridMovement>)
    requires
        node.parent_conn is None ==> {
            &&& node.position.x < i16::MAX
            &&& node.position.y < i16::MAX
            &&& (node.position.x != 0 ==> node.position.x > i16::MIN)
            &&& (node.position.y != 0 ==> node.position.y > i16::MIN)
        },
    ensures
        v@ == spec_next_moves(*node),
        forall|i: int|
            0 <= i < v@.len() ==> {
                &&& (#[trigger] v@[i]) == spec_movement(node.position, v@[i].move_dir)
                &&& spec_step_allowed(node.position, v@[i].move_dir)
            },
{
    let v = match node.parent_conn {
        Some((_, dir)) => {
            let mut v: Vec<GridMovement> = Vec::new();
            if step_allowed(&node.position, dir) {
                v.push(node.position.go(dir));
            }
            let cw = dir.rotate_cw();
            if step_allowed(&node.position, cw) {
                v.push(node.position.go(cw));
            }
            let ccw = dir.rotate_ccw();
            if step_allowed(&node.position, ccw) {
                v.push(node.position.go(ccw));
            }
            proof {
                assert(v@ =~= spec_next_moves(*node));
            }
            v
        },
        None => node.position.all_moves(),
    };
    proof {
        if node.parent_conn is None {
            let all = seq![
                Direction::Up,
                Direction::Right,
                Direction::Down,
                Direction::Left,
            ];
            let pred = |d: Direction|
                !(node.position.y == 0 && d == Direction::Up) && !(node.position.x == 0
                    && d == Direction::Left);
            let filtered = all.filter(pred);
            assert forall|i: int| 0 <= i < v@.len() implies {
                &&& (#[trigger] v@[i]) == spec_movement(node.position, v@[i].move_dir)
                &&& spec_step_allowed(node.position, v@[i].move_dir)
            } by {
                assert(v@[i] == filtered.map_values(
                    |d: Direction| spec_movement(node.position, d),
                )[i]);
                assert(v@[i] == spec_movement(node.position, filtered[i]));
                all.lemma_filter_pred(pred, i);
                assert(pred(filtered[i]));
            }
        }
    }
    v
}

/// The position each frontier node sits at plus its heuristic: the key
/// the frontier is ordered by.
pub open spec fn spec_full_cost(arena: Seq<SearchNode>, nix: int) -> int {
    arena[nix].accumulated_cost + arena[nix].estimated_remaining_cost
}

/// The frontier slot the search opens next, among the first `i` slots:
/// the lowest full cost, ties going to the latest-added slot.
pub open spec fn spec_best_in_prefix(arena: Seq<SearchNode>, frontier: Seq<usize>, i: int) -> int
    decreases i,
{
    if i <= 1 {
        0
    } else {
        let b = spec_best_in_prefix(arena, frontier, i - 1);
        if spec_full_cost(arena, frontier[i - 1] as int) <= spec_full_cost(
            arena,
            frontier[b] as int,
        ) {
            i - 1
        } else {
            b
        }
    }
}

/// Pick the frontier slot to open next.
#[verifier::rlimit(100)]
fn take_best(arena: &Vec<SearchNode>, frontier: &Vec<usize>, Ghost(start): Ghost<GridPos>) -> (b:
    usize)
    requires
        frontier@.len() > 0,
        arena@.len() <= ROUTER_ARENA_LIMIT,
        spec_arena_wf(arena@, start),
        forall|i: int| 0 <= i < frontier@.len() ==> (#[trigger] frontier@[i]) < arena@.len(),
    ensures
        b as int == spec_best_in_prefix(arena@, frontier@, frontier@.len() as int),
        b < frontier@.len(),
{
    proof {
        assert forall|k: int|
            0 <= k < arena@.len() implies (#[trigger] arena@[k]).accumulated_cost <= MAX_MOVE_COST
            * (k + 1) && arena@[k].estimated_remaining_cost <= 131070 by {
            reveal(spec_arena_wf);
        }
    }
    let mut best: usize = 0;
    let ghost fr = frontier@;
    let mut best_cost: u64 = {
        let n = &arena[frontier[0]];
        n.accumulated_cost + n.estimated_remaining_cost
    };
    let mut i: usize = 1;
    while i < frontier.len()
        invariant
            1 <= i <= frontier@.len(),
            frontier@.len() > 0,
            arena@.len() <= ROUTER_ARENA_LIMIT,
            forall|j: int| 0 <= j < frontier@.len() ==> (#[trigger] frontier@[j]) < arena@.len(),
            forall|k: int|
                0 <= k < arena@.len() ==> (#[trigger] arena@[k]).accumulated_cost <= MAX_MOVE_COST
                    * (k + 1) && arena@[k].estimated_remaining_cost <= 131070,
            best < i,
            best as int == spec_best_in_prefix(arena@, frontier@, i as int),
            best_cost == spec_full_cost(arena@, frontier@[best as int] as int),
        decreases frontier@.len() - i,
    {
        let n = &arena[frontier[i]];
        let cost = n.accumulated_cost + n.estimated_remaining_cost;
        if cost <= best_cost {
            best = i;
            best_cost = cost;
        }
        i += 1;
    }
    best
}

/// The direction sequence of the parent chain ending at a node.
pub open spec fn spec_chain_dirs(arena: Seq<SearchNode>, ix: int) -> Seq<Direction>
    decreases ix,
{
    match arena[ix].parent_conn {
        Some(pc) => if 0 <= pc.0 < ix {
            spec_chain_dirs(arena, pc.0 as int).push(pc.1)
        } else {
            Seq::empty()
        },
        None => Seq::empty(),
    }
}

/// The position of the parentless ancestor of a node.
pub open spec fn spec_chain_start(arena: Seq<SearchNode>, ix: int) -> GridPos
    decreases ix,
{
    match arena[ix].parent_conn {
        Some(pc) => if 0 <= pc.0 < ix {
            spec_chain_start(arena, pc.0 as int)
        } else {
            arena[ix].position
        },
        None => arena[ix].position,
    }
}

/// In a well-formed arena, every parent chain starts at the search's
/// start, walks within the coordinate range, and ends at its node.
#[verifier::rlimit(50)]
pub proof fn lemma_chain_props(arena: Seq<SearchNode>, start: GridPos, ix: int)
    requires
        spec_arena_wf(arena, start),
        0 <= ix < arena.len(),
    ensures
        spec_chain_start(arena, ix) == start,
        spec_walk_wf(start, spec_chain_dirs(arena, ix)),
        spec_walk_pos(start, spec_chain_dirs(arena, ix), spec_chain_dirs(arena, ix).len() as int)
            == arena[ix].position,
    decreases ix,
{
    reveal(spec_arena_wf);
    match arena[ix].parent_conn {
        Some(pc) => {
            lemma_chain_props(arena, start, pc.0 as int);
            let pd = spec_chain_dirs(arena, pc.0 as int);
            let d = spec_chain_dirs(arena, ix);
            assert(d == pd.push(pc.1));
            assert forall|i: int| 0 <= i < d.len() implies spec_step_allowed(
                #[trigger] spec_walk_pos(start, d, i),
                d[i],
            ) by {
                lemma_walk_pos_prefix(start, pd, d, i);
                if i < pd.len() {
                    assert(spec_walk_pos(start, pd, i) == spec_walk_pos(start, d, i));
                } else {
                    assert(spec_walk_pos(start, d, i) == arena[pc.0 as int].position);
                }
            }
            lemma_walk_pos_prefix(start, pd, d, pd.len() as int);
            assert(spec_walk_pos(start, d, d.len() as int) == spec_step(
                spec_walk_pos(start, d, pd.len() as int),
                pc.1,
            ));
        },
        None => {},
    }
}

/// One step of path reconstruction: prepending the arrival direction
/// keeps the collected suffix in step with the remaining chain.
proof fn lemma_reconstruct_step(
    arena: Seq<SearchNode>,
    ix: int,
    cur: int,
    par: usize,
    d: Direction,
    old_dirs: Seq<Direction>,
)
    requires
        0 <= cur < arena.len(),
        0 <= ix < arena.len(),
        arena[cur].parent_conn == Some((par, d)),
        par < cur,
        spec_chain_dirs(arena, ix) == spec_chain_dirs(arena, cur) + old_dirs,
    ensures
        spec_chain_dirs(arena, ix) == spec_chain_dirs(arena, par as int) + old_dirs.insert(0, d),
{
    assert(spec_chain_dirs(arena, cur) == spec_chain_dirs(arena, par as int).push(d));
    assert(spec_chain_dirs(arena, par as int).push(d) + old_dirs =~= spec_chain_dirs(
        arena,
        par as int,
    ) + old_dirs.insert(0, d));
    assert(spec_chain_dirs(arena, ix) == spec_chain_dirs(arena, par as int).push(d) + old_dirs);
}

/// Rebuild the path a search node encodes by walking its parent chain.
#[verifier::rlimit(100)]
fn reconstruct(arena: &Vec<SearchNode>, ix: usize, Ghost(start): Ghost<GridPos>) -> (p: Path)
    requires
        spec_arena_wf(arena@, start),
        ix < arena@.len(),
    ensures
        p.starting_point == start,
        p.movements@ == spec_chain_dirs(arena@, ix as int),
        p.wf(),
        p.spec_end() == arena@[ix as int].position,
{
    proof {
        reveal(spec_arena_wf);
    }
    let mut dirs: Vec<Direction> = Vec::new();
    let mut cur: usize = ix;
    loop
        invariant
            cur < arena@.len(),
            ix < arena@.len(),
            spec_arena_wf(arena@, start),
            spec_chain_dirs(arena@, ix as int) == spec_chain_dirs(arena@, cur as int) + dirs@,
        ensures
            cur < arena@.len(),
            arena@[cur as int].parent_conn is None,
            spec_chain_dirs(arena@, ix as int) == spec_chain_dirs(arena@, cur as int) + dirs@,
        decreases cur,
    {
        proof {
            assert(match arena@[cur as int].parent_conn {
                Some(pc) => 0 <= pc.0 < cur,
                None => true,
            }) by {
                reveal(spec_arena_wf);
            }
        }
        match arena[cur].parent_conn {
            Some((par, d)) => {
                let ghost old_dirs = dirs@;
                proof {
                    lemma_reconstruct_step(
                        arena@,
                        ix as int,
                        cur as int,
                        par,
                        d,
                        old_dirs,
                    );
                }
                dirs.insert(0, d);
                cur = par;
            },
            None => {
                break ;
            },
        }
    }
    proof {
        assert(spec_chain_dirs(arena@, cur as int) =~= Seq::<Direction>::empty());
        assert(Seq::<Direction>::empty() + dirs@ =~= dirs@);
        lemma_chain_props(arena@, start, ix as int);
        assert(arena@[cur as int].position == start);
    }
    let starting_point = arena[cur].position;
    let p = Path { starting_point, movements: dirs };
    p
}

/// One expansion: append a node, a frontier slot, and a visited mark for
/// each candidate movement from the `i`-th on, in order.
pub open spec fn spec_expand(
    state: SearchState,
    inputs: RouteInputs,
    parent_ix: int,
    moves: Seq<GridMovement>,
    i: int,
) -> SearchState
    decreases moves.len() - i,
{
    if i < 0 || i >= moves.len() {
        state
    } else {
        let m = moves[i];
        let cost = spec_move_cost(m, inputs, state.visited);
        let node = SearchNode {
            parent_conn: Some((parent_ix as usize, m.move_dir)),
            position: m.destination_point,
            estimated_remaining_cost: spec_estimate(inputs.dests, m.destination_point) as u64,
            accumulated_cost: (state.arena[parent_ix].accumulated_cost + cost) as u64,
        };
        let state2 = SearchState {
            arena: state.arena.push(node),
            frontier: state.frontier.push(state.arena.len() as usize),
            visited: state.visited.push(m.destination_point),
        };
        spec_expand(state2, inputs, parent_ix, moves, i + 1)
    }
}

/// The search: open the cheapest frontier node (ties to the newest),
/// stop at any destination point, otherwise expand its candidate moves,
/// until the frontier or the step budget runs out.
pub open spec fn spec_search(state: SearchState, inputs: RouteInputs, fuel: nat) -> Result<
    RouteModel,
    PathSearchingFailure,
>
    decreases fuel,
{
    if state.frontier.len() == 0 {
        Err(PathSearchingFailure::NoPathFound)
    } else if fuel == 0 {
        Err(PathSearchingFailure::NoPathFound)
    } else {
        let b = spec_best_in_prefix(state.arena, state.frontier, state.frontier.len() as int);
        let nix = state.frontier[b] as int;
        let frontier1 = state.frontier.remove(b);
        if inputs.dests.contains(state.arena[nix].position) {
            Ok(
                RouteModel {
                    start: spec_chain_start(state.arena, nix),
                    dirs: spec_chain_dirs(state.arena, nix),
                },
            )
        } else {
            let state1 = SearchState {
                frontier: frontier1,
                visited: state.visited.push(state.arena[nix].position),
                ..state
            };
            let state2 = spec_expand(
                state1,
                inputs,
                nix,
                spec_next_moves(state.arena[nix]),
                0,
            );
            spec_search(state2, inputs, (fuel - 1) as nat)
        }
    }
}

/// The candidate set never exceeds four movements.
proof fn lemma_next_moves_len(node: SearchNode)
    ensures
        spec_next_moves(node).len() <= 4,
{
    match node.parent_conn {
        Some(_) => {},
        None => {
            let all = seq![
                Direction::Up,
                Direction::Right,
                Direction::Down,
                Direction::Left,
            ];
            let pred = |d: Direction|
                !(node.position.y == 0 && d == Direction::Up) && !(node.position.x == 0
                    && d == Direction::Left);
            all.lemma_filter_len(pred);
        },
    }
}

/// Appending a child of an existing node keeps the arena well formed.
#[verifier::rlimit(100)]
proof fn lemma_arena_push_wf(
    pre: Seq<SearchNode>,
    new_node: SearchNode,
    start: GridPos,
    nix: usize,
    d: Direction,
)
    requires
        spec_arena_wf(pre, start),
        nix < pre.len(),
        new_node.parent_conn == Some((nix, d)),
        spec_step_allowed(pre[nix as int].position, d),
        new_node.position == spec_movement(pre[nix as int].position, d).destination_point,
        new_node.accumulated_cost <= MAX_MOVE_COST * (pre.len() + 1),
        new_node.estimated_remaining_cost <= 131070,
    ensures
        spec_arena_wf(pre.push(new_node), start),
{
    reveal(spec_arena_wf);
    let arena = pre.push(new_node);
    assert forall|k: int| 0 <= k < arena.len() implies {
        &&& (match (#[trigger] arena[k]).parent_conn {
            Some(pc) => {
                &&& 0 <= pc.0 < k
                &&& spec_step_allowed(arena[pc.0 as int].position, pc.1)
                &&& arena[k].position == spec_movement(
                    arena[pc.0 as int].position,
                    pc.1,
                ).destination_point
            },
            None => arena[k].position == start,
        })
        &&& arena[k].accumulated_cost <= MAX_MOVE_COST * (k + 1)
        &&& arena[k].estimated_remaining_cost <= 131070
    } by {
        if k < pre.len() {
            assert(arena[k] == pre[k]);
        } else {
            assert(arena[k] == new_node);
            assert(arena[nix as int] == pre[nix as int]);
        }
    }
}

/// Append one candidate movement's node, frontier slot and visited mark.
#[verifier::rlimit(100)]
fn expand_one(
    arena: &mut Vec<SearchNode>,
    frontier: &mut Vec<usize>,
    visited: &mut Vec<GridPos>,
    nix: usize,
    m: GridMovement,
    dests: &Vec<GridPos>,
    forbidden_lines: &Vec<GridLine>,
    forbidden_points: &Vec<GridPos>,
    blocked_points: &BlockedPoints,
    grid_bounds: &GridLimits,
    Ghost(inputs): Ghost<RouteInputs>,
    Ghost(start): Ghost<GridPos>,
)
    requires
        inputs.grid_bounds == *grid_bounds,
        inputs.blocked == blocked_points.points@,
        inputs.forbidden_lines == forbidden_lines@,
        inputs.forbidden_points == forbidden_points@,
        inputs.dests == dests@,
        dests@.len() > 0,
        spec_arena_wf(old(arena)@, start),
        old(arena)@.len() <= ROUTER_ARENA_LIMIT,
        nix < old(arena)@.len(),
        m == spec_movement(old(arena)@[nix as int].position, m.move_dir),
        spec_step_allowed(old(arena)@[nix as int].position, m.move_dir),
        forall|i: int|
            0 <= i < old(frontier)@.len() ==> (#[trigger] old(frontier)@[i]) < old(arena)@.len(),
    ensures
        final(arena)@ == old(arena)@.push(
            SearchNode {
                parent_conn: Some((nix, m.move_dir)),
                position: m.destination_point,
                estimated_remaining_cost: spec_estimate(inputs.dests, m.destination_point) as u64,
                accumulated_cost: (old(arena)@[nix as int].accumulated_cost + spec_move_cost(
                    m,
                    inputs,
                    old(visited)@,
                )) as u64,
            },
        ),
        final(frontier)@ == old(frontier)@.push(old(arena)@.len() as usize),
        final(visited)@ == old(visited)@.push(m.destination_point),
        spec_arena_wf(final(arena)@, start),
        forall|i: int|
            0 <= i < final(frontier)@.len() ==> (#[trigger] final(frontier)@[i])
                < final(arena)@.len(),
{
    proof {
        assert(m.line.spec_in_numeric_range());
    }
    let est = estimate_cost(dests, &m.destination_point);
    let cost = get_move_cost(
        &m,
        grid_bounds,
        blocked_points,
        forbidden_lines,
        forbidden_points,
        visited,
        Ghost(inputs),
    );
    let parent_acc = arena[nix].accumulated_cost;
    proof {
        assert(parent_acc <= MAX_MOVE_COST * (nix + 1)) by {
            reveal(spec_arena_wf);
        }
        assert(MAX_MOVE_COST * (nix + 1) <= MAX_MOVE_COST * (arena@.len() as int)) by (
        nonlinear_arith)
            requires
                nix + 1 <= arena@.len(),
                MAX_MOVE_COST > 0,
        ;
    }
    let acc = parent_acc + cost;
    let new_ix = arena.len();
    let ghost pre_arena = arena@;
    let new_node = SearchNode {
        parent_conn: Some((nix, m.move_dir)),
        position: m.destination_point,
        estimated_remaining_cost: est,
        accumulated_cost: acc,
    };
    arena.push(new_node);
    frontier.push(new_ix);
    visited.push(m.destination_point);
    proof {
        assert(acc <= MAX_MOVE_COST * (pre_arena.len() + 1)) by {
            assert(acc <= MAX_MOVE_COST * (nix + 2));
            assert(MAX_MOVE_COST * (nix + 2) <= MAX_MOVE_COST * (pre_arena.len() + 1)) by (
            nonlinear_arith)
                requires
                    nix + 2 <= pre_arena.len() + 1,
                    MAX_MOVE_COST > 0,
            ;
        }
        lemma_arena_push_wf(pre_arena, new_node, start, nix, m.move_dir);
    }
}


/// Open the best frontier node: either finish at a destination point or
/// expand its candidate movements.
#[verifier::rlimit(100)]
fn search_step(
    arena: &mut Vec<SearchNode>,
    frontier: &mut Vec<usize>,
    visited: &mut Vec<GridPos>,
    dests: &Vec<GridPos>,
    forbidden_lines: &Vec<GridLine>,
    forbidden_points: &Vec<GridPos>,
    blocked_points: &BlockedPoints,
    grid_bounds: &GridLimits,
    Ghost(inputs): Ghost<RouteInputs>,
    Ghost(start): Ghost<GridPos>,
) -> (step: Option<Path>)
    requires
        inputs.grid_bounds == *grid_bounds,
        inputs.blocked == blocked_points.points@,
        inputs.forbidden_lines == forbidden_lines@,
        inputs.forbidden_points == forbidden_points@,
        inputs.dests == dests@,
        dests@.len() > 0,
        0 <= start.x < i16::MAX,
        0 <= start.y < i16::MAX,
        old(frontier)@.len() > 0,
        old(arena)@.len() >= 1,
        old(arena)@.len() + 4 <= ROUTER_ARENA_LIMIT,
        spec_arena_wf(old(arena)@, start),
        forall|i: int|
            0 <= i < old(frontier)@.len() ==> (#[trigger] old(frontier)@[i]) < old(arena)@.len(),
    ensures
        ({
            let st = SearchState {
                arena: old(arena)@,
                frontier: old(frontier)@,
                visited: old(visited)@,
            };
            let b = spec_best_in_prefix(st.arena, st.frontier, st.frontier.len() as int);
            let nix = st.frontier[b] as int;
            let frontier1 = st.frontier.remove(b);
            if inputs.dests.contains(st.arena[nix].position) {
                &&& step matches Some(p)
                &&& p.starting_point == spec_chain_start(st.arena, nix)
                &&& p.movements@ == spec_chain_dirs(st.arena, nix)
                &&& p.wf()
                &&& p.starting_point == start
                &&& inputs.dests.contains(p.spec_end())
            } else {
                &&& step is None
                &&& SearchState {
                    arena: final(arena)@,
                    frontier: final(frontier)@,
                    visited: final(visited)@,
                } == spec_expand(
                    SearchState {
                        arena: st.arena,
                        frontier: frontier1,
                        visited: st.visited.push(st.arena[nix].position),
                    },
                    inputs,
                    nix,
                    spec_next_moves(st.arena[nix]),
                    0,
                )
            }
        }),
        spec_arena_wf(final(arena)@, start),
        old(arena)@.len() <= final(arena)@.len() <= old(arena)@.len() + 4,
        forall|i: int|
            0 <= i < final(frontier)@.len() ==> (#[trigger] final(frontier)@[i])
                < final(arena)@.len(),
{
    let b = take_best(arena, frontier, Ghost(start));
    let nix = frontier[b];
    frontier.remove(b);
    let ghost node = arena@[nix as int];
    if points_contain(dests, &arena[nix].position) {
        let p = reconstruct(arena, nix, Ghost(start));
        proof {
            lemma_chain_props(arena@, start, nix as int);
        }
        return Some(p);
    }
    visited.push(arena[nix].position);
    let ghost st1 = SearchState { arena: arena@, frontier: frontier@, visited: visited@ };
    proof {
        reveal(spec_arena_wf);
    }
    let moves = get_next_moves(&arena[nix]);
    proof {
        lemma_next_moves_len(node);
    }
    let mut mi: usize = 0;
    while mi < moves.len()
        invariant
            mi <= moves@.len(),
            moves@.len() <= 4,
            nix < st1.arena.len(),
            arena@.len() == st1.arena.len() + mi,
            st1.arena.len() + 4 <= ROUTER_ARENA_LIMIT,
            spec_arena_wf(arena@, start),
            forall|i: int| 0 <= i < frontier@.len() ==> (#[trigger] frontier@[i]) < arena@.len(),
            spec_expand(
                SearchState { arena: arena@, frontier: frontier@, visited: visited@ },
                inputs,
                nix as int,
                moves@,
                mi as int,
            ) == spec_expand(st1, inputs, nix as int, moves@, 0),
            arena@[nix as int] == node,
            forall|i: int|
                0 <= i < moves@.len() ==> {
                    &&& (#[trigger] moves@[i]) == spec_movement(node.position, moves@[i].move_dir)
                    &&& spec_step_allowed(node.position, moves@[i].move_dir)
                },
            inputs.grid_bounds == *grid_bounds,
            inputs.blocked == blocked_points.points@,
            inputs.forbidden_lines == forbidden_lines@,
            inputs.forbidden_points == forbidden_points@,
            inputs.dests == dests@,
            dests@.len() > 0,
        decreases moves@.len() - mi,
    {
        let m = moves[mi];
        let ghost pre_arena = arena@;
        let ghost pre_frontier = frontier@;
        let ghost pre_visited = visited@;
        expand_one(
            arena,
            frontier,
            visited,
            nix,
            m,
            dests,
            forbidden_lines,
            forbidden_points,
            blocked_points,
            grid_bounds,
            Ghost(inputs),
            Ghost(start),
        );
        proof {
            assert(spec_expand(
                SearchState { arena: pre_arena, frontier: pre_frontier, visited: pre_visited },
                inputs,
                nix as int,
                moves@,
                mi as int,
            ) == spec_expand(
                SearchState { arena: arena@, frontier: frontier@, visited: visited@ },
                inputs,
                nix as int,
                moves@,
                mi + 1,
            ));
        }
        mi += 1;
    }
    None
}

/// Run the search from `start` toward the destination set.
#[verifier::rlimit(100)]
fn search(
    start: GridPos,
    dests: &Vec<GridPos>,
    forbidden_lines: &Vec<GridLine>,
    forbidden_points: &Vec<GridPos>,
    blocked_points: &BlockedPoints,
    grid_bounds: &GridLimits,
) -> (r: Result<Path, PathSearchingFailure>)
    requires
        dests@.len() > 0,
        0 <= start.x < i16::MAX,
        0 <= start.y < i16::MAX,
    ensures
        ({
            let inputs = RouteInputs {
                grid_bounds: *grid_bounds,
                blocked: blocked_points.points@,
                forbidden_lines: forbidden_lines@,
                forbidden_points: forbidden_points@,
                dests: dests@,
            };
            let root = SearchNode {
                parent_conn: None,
                position: start,
                estimated_remaining_cost: spec_estimate(dests@, start) as u64,
                accumulated_cost: 0,
            };
            let st0 = SearchState {
                arena: seq![root],
                frontier: seq![0usize],
                visited: Seq::empty(),
            };
            let sr = spec_search(st0, inputs, ROUTER_SEARCH_LIMIT as nat);
            match r {
                Ok(p) => {
                    &&& sr matches Ok(m) && p.starting_point == m.start && p.movements@ == m.dirs
                    &&& p.wf()
                    &&& p.starting_point == start
                    &&& dests@.contains(p.spec_end())
                },
                Err(e) => sr == Err::<RouteModel, PathSearchingFailure>(e),
            }
        }),
{
    let ghost inputs = RouteInputs {
        grid_bounds: *grid_bounds,
        blocked: blocked_points.points@,
        forbidden_lines: forbidden_lines@,
        forbidden_points: forbidden_points@,
        dests: dests@,
    };
    let est0 = estimate_cost(dests, &start);
    let mut arena: Vec<SearchNode> = Vec::new();
    arena.push(
        SearchNode {
            parent_conn: None,
            position: start,
            estimated_remaining_cost: est0,
            accumulated_cost: 0,
        },
    );
    let mut frontier: Vec<usize> = Vec::new();
    frontier.push(0);
    let mut visited: Vec<GridPos> = Vec::new();
    let mut fuel: usize = ROUTER_SEARCH_LIMIT;
    let ghost st0 = SearchState {
        arena: seq![
            SearchNode {
                parent_conn: None,
                position: start,
                estimated_remaining_cost: spec_estimate(dests@, start) as u64,
                accumulated_cost: 0,
            },
        ],
        frontier: seq![0usize],
        visited: Seq::empty(),
    };
    let ghost target = spec_search(st0, inputs, ROUTER_SEARCH_LIMIT as nat);
    proof {
        assert(arena@ =~= st0.arena);
        assert(frontier@ =~= st0.frontier);
        assert(visited@ =~= st0.visited);
        assert(SearchState { arena: arena@, frontier: frontier@, visited: visited@ } == st0);
        reveal(spec_arena_wf);
    }
    loop
        invariant
            target == spec_search(st0, inputs, ROUTER_SEARCH_LIMIT as nat),
            st0 == (SearchState {
                arena: seq![
                    SearchNode {
                        parent_conn: None,
                        position: start,
                        estimated_remaining_cost: spec_estimate(dests@, start) as u64,
                        accumulated_cost: 0,
                    },
                ],
                frontier: seq![0usize],
                visited: Seq::<GridPos>::empty(),
            }),
            fuel <= ROUTER_SEARCH_LIMIT,
            arena@.len() <= 1 + 4 * (ROUTER_SEARCH_LIMIT - fuel),
            arena@.len() >= 1,
            spec_arena_wf(arena@, start),
            forall|i: int| 0 <= i < frontier@.len() ==> (#[trigger] frontier@[i]) < arena@.len(),
            spec_search(
                SearchState { arena: arena@, frontier: frontier@, visited: visited@ },
                inputs,
                fuel as nat,
            ) == target,
            inputs.grid_bounds == *grid_bounds,
            inputs.blocked == blocked_points.points@,
            inputs.forbidden_lines == forbidden_lines@,
            inputs.forbidden_points == forbidden_points@,
            inputs.dests == dests@,
            dests@.len() > 0,
            0 <= start.x < i16::MAX,
            0 <= start.y < i16::MAX,
        decreases fuel,
    {
        let ghost st = SearchState { arena: arena@, frontier: frontier@, visited: visited@ };
        if frontier.len() == 0 {
            return Err(PathSearchingFailure::NoPathFound);
        }
        if fuel == 0 {
            return Err(PathSearchingFailure::NoPathFound);
        }
        let step = search_step(
            &mut arena,
            &mut frontier,
            &mut visited,
            dests,
            forbidden_lines,
            forbidden_points,
            blocked_points,
            grid_bounds,
            Ghost(inputs),
            Ghost(start),
        );
        if let Some(p) = step {
            proof {
                let b = spec_best_in_prefix(st.arena, st.frontier, st.frontier.len() as int);
                let nix = st.frontier[b] as int;
                assert(spec_search(st, inputs, fuel as nat) == Ok::<
                    RouteModel,
                    PathSearchingFailure,
                >(
                    RouteModel {
                        start: spec_chain_start(st.arena, nix),
                        dirs: spec_chain_dirs(st.arena, nix),
                    },
                ));
            }
            return Ok(p);
        }
        fuel = fuel - 1;
    }
}

/// The lines a routed path occupies, in walk order.
pub open spec fn spec_path_lines(start: GridPos, dirs: Seq<Direction>) -> Seq<GridLine> {
    Seq::new(dirs.len(), |i: int| spec_movement(spec_walk_pos(start, dirs, i), dirs[i]).line)
}

/// The points a routed path occupies: each movement's starting and
/// destination point, in walk order.
pub open spec fn spec_path_points(start: GridPos, dirs: Seq<Direction>) -> Seq<GridPos> {
    Seq::new(
        2 * dirs.len(),
        |i: int|
            if i % 2 == 0 {
                spec_walk_pos(start, dirs, i / 2)
            } else {
                spec_walk_pos(start, dirs, i / 2 + 1)
            },
    )
}

/// Append a path's lines.
fn append_path_lines(out: &mut Vec<GridLine>, path: &Path)
    requires
        path.wf(),
    ensures
        final(out)@ == old(out)@ + spec_path_lines(path.starting_point, path.movements@),
{
    let ghost base = out@;
    let movements = path.walk_movements();
    let mut i: usize = 0;
    while i < movements.len()
        invariant
            i <= movements@.len(),
            path.wf(),
            movements@.len() == path.movements@.len(),
            forall|j: int| 0 <= j < movements@.len() ==> movements@[j] == path.spec_movement_at(j),
            out@ == base + spec_path_lines(path.starting_point, path.movements@).take(i as int),
        decreases movements@.len() - i,
    {
        proof {
            assert(spec_path_lines(path.starting_point, path.movements@)[i as int]
                == path.spec_movement_at(i as int).line);
        }
        out.push(movements[i].line);
        proof {
            assert(out@ =~= base + spec_path_lines(path.starting_point, path.movements@).take(
                i + 1,
            ));
        }
        i += 1;
    }
    proof {
        assert(spec_path_lines(path.starting_point, path.movements@).take(
            path.movements@.len() as int,
        ) =~= spec_path_lines(path.starting_point, path.movements@));
    }
}

/// Append a path's points.
fn append_path_points(out: &mut Vec<GridPos>, path: &Path)
    requires
        path.wf(),
    ensures
        final(out)@ == old(out)@ + spec_path_points(path.starting_point, path.movements@),
{
    let ghost base = out@;
    let movements = path.walk_movements();
    let mut i: usize = 0;
    while i < movements.len()
        invariant
            i <= movements@.len(),
            path.wf(),
            movements@.len() == path.movements@.len(),
            forall|j: int| 0 <= j < movements@.len() ==> movements@[j] == path.spec_movement_at(j),
            out@ == base + spec_path_points(path.starting_point, path.movements@).take(
                2 * i as int,
            ),
        decreases movements@.len() - i,
    {
        proof {
            let dirs = path.movements@;
            let start0 = path.starting_point;
            assert(spec_walk_pos(start0, dirs, i + 1) == spec_step(
                spec_walk_pos(start0, dirs, i as int),
                dirs[i as int],
            ));
            assert(spec_path_points(start0, dirs)[2 * i as int] == path.spec_movement_at(
                i as int,
            ).starting_point);
            assert(spec_path_points(start0, dirs)[2 * i as int + 1] == path.spec_movement_at(
                i as int,
            ).destination_point);
        }
        out.push(movements[i].starting_point);
        out.push(movements[i].destination_point);
        proof {
            let pts = spec_path_points(path.starting_point, path.movements@);
            assert(out@ =~= base + pts.take(2 * (i + 1)));
        }
        i += 1;
    }
    proof {
        assert(spec_path_points(path.starting_point, path.movements@).take(
            2 * path.movements@.len() as int,
        ) =~= spec_path_points(path.starting_point, path.movements@));
    }
}

/// The stored paths as mathematics: each connection with where its path
/// starts and the directions it takes.
pub open spec fn spec_paths_view(paths: Paths) -> Seq<(CpuConnection, RouteModel)> {
    paths.entries@.map_values(
        |e: (CpuConnection, Path)|
            (e.0, RouteModel { start: e.1.starting_point, dirs: e.1.movements@ }),
    )
}

/// Classify the first `i` stored paths against the connection's
/// netlist: the lines and points of other netlists' paths become
/// forbidden; same-netlist paths contribute destination points and the
/// endpoints that decide the search's orientation.
pub open spec fn spec_gather(
    entries: Seq<(CpuConnection, RouteModel)>,
    nl: Seq<(CpuConnectionEndpoint, crate::simulation::cpu::NetlistId)>,
    this_netlist: Option<crate::simulation::cpu::NetlistId>,
    i: int,
) -> (Seq<GridLine>, Seq<GridPos>, Seq<GridPos>, Seq<CpuConnectionEndpoint>)
    decreases i,
{
    if i <= 0 {
        (
            Seq::<GridLine>::empty(),
            Seq::<GridPos>::empty(),
            Seq::<GridPos>::empty(),
            Seq::<CpuConnectionEndpoint>::empty(),
        )
    } else {
        let (fl, fp, cd, ce) = spec_gather(entries, nl, this_netlist, i - 1);
        let e = entries[i - 1];
        if spec_assoc_lookup(nl, e.0.first) == this_netlist {
            (
                fl,
                fp,
                cd + spec_path_points(e.1.start, e.1.dirs),
                ce.push(e.0.first).push(e.0.second),
            )
        } else {
            (
                fl + spec_path_lines(e.1.start, e.1.dirs),
                fp + spec_path_points(e.1.start, e.1.dirs),
                cd,
                ce,
            )
        }
    }
}

/// The routed result for one connection, as a function of the tick's
/// routing state.
pub open spec fn spec_find_path_a_star(
    from: GridPos,
    to: GridPos,
    connection: CpuConnection,
    entries: Seq<(CpuConnection, RouteModel)>,
    nl: Seq<(CpuConnectionEndpoint, crate::simulation::cpu::NetlistId)>,
    blocked: Seq<GridPos>,
    bounds: GridLimits,
) -> Result<RouteModel, PathSearchingFailure> {
    let this_netlist = spec_assoc_lookup(nl, connection.first);
    let g = spec_gather(entries, nl, this_netlist, entries.len() as int);
    let dests = g.2.push(to);
    let start = if g.3.contains(connection.first) {
        to
    } else {
        from
    };
    let inputs = RouteInputs {
        grid_bounds: bounds,
        blocked,
        forbidden_lines: g.0,
        forbidden_points: g.1,
        dests,
    };
    let root = SearchNode {
        parent_conn: None,
        position: start,
        estimated_remaining_cost: spec_estimate(dests, start) as u64,
        accumulated_cost: 0,
    };
    spec_search(
        SearchState { arena: seq![root], frontier: seq![0usize], visited: Seq::empty() },
        inputs,
        ROUTER_SEARCH_LIMIT as nat,
    )
}

/// Decide equality of two optional netlist ids.
fn option_id_eq(
    a: Option<crate::simulation::cpu::NetlistId>,
    b: Option<crate::simulation::cpu::NetlistId>,
) -> (r: bool)
    ensures
        r == (a == b),
{
    match (a, b) {
        (Some(x), Some(y)) => x == y,
        (None, None) => true,
        _ => false,
    }
}

/// Whether a vector of endpoints holds the given endpoint.
fn endpoints_contain(
    endpoints: &Vec<CpuConnectionEndpoint>,
    e: &CpuConnectionEndpoint,
) -> (r: bool)
    ensures
        r == endpoints@.contains(*e),
{
    let mut i: usize = 0;
    while i < endpoints.len()
        invariant
            i <= endpoints@.len(),
            forall|j: int| 0 <= j < i ==> endpoints@[j] != *e,
        decreases endpoints@.len() - i,
    {
        if crate::connection::endpoint_eq(&endpoints[i], e) {
            proof {
                assert(endpoints@[i as int] == *e);
            }
            return true;
        }
        i += 1;
    }
    proof {
        assert(!endpoints@.contains(*e));
    }
    false
}

/// Route one connection: classify the prior paths by netlist, orient
/// the search away from any already-reached side, and search toward the
/// target together with every same-netlist point.
pub fn find_path_a_star(
    from: &GridPos,
    to: &GridPos,
    connection: &CpuConnection,
    existing_paths: &Paths,
    netlists: &Netlists,
    blocked_points: &BlockedPoints,
    grid_bounds: &GridLimits,
) -> (r: Result<Path, PathSearchingFailure>)
    requires
        existing_paths.wf(),
        0 <= from.x < i16::MAX,
        0 <= from.y < i16::MAX,
        0 <= to.x < i16::MAX,
        0 <= to.y < i16::MAX,
    ensures
        ({
            let sr = spec_find_path_a_star(
                *from,
                *to,
                *connection,
                spec_paths_view(*existing_paths),
                netlists.netlists@,
                blocked_points.points@,
                *grid_bounds,
            );
            match r {
                Ok(p) => {
                    &&& sr matches Ok(m) && p.starting_point == m.start && p.movements@ == m.dirs
                    &&& p.wf()
                },
                Err(e) => sr == Err::<RouteModel, PathSearchingFailure>(e),
            }
        }),
{
    let ghost entries = spec_paths_view(*existing_paths);
    let ghost nl = netlists.netlists@;
    let this_netlist = netlists.get_for_connection(connection);
    let ghost this_spec = spec_assoc_lookup(nl, connection.first);
    let mut forbidden_lines: Vec<GridLine> = Vec::new();
    let mut forbidden_points: Vec<GridPos> = Vec::new();
    let mut connected_dests: Vec<GridPos> = Vec::new();
    let mut connected_endpoints: Vec<CpuConnectionEndpoint> = Vec::new();
    let mut i: usize = 0;
    proof {
        assert(forbidden_lines@ =~= spec_gather(entries, nl, this_spec, 0).0);
        assert(forbidden_points@ =~= spec_gather(entries, nl, this_spec, 0).1);
        assert(connected_dests@ =~= spec_gather(entries, nl, this_spec, 0).2);
        assert(connected_endpoints@ =~= spec_gather(entries, nl, this_spec, 0).3);
    }
    while i < existing_paths.entries.len()
        invariant
            i <= existing_paths.entries@.len(),
            existing_paths.wf(),
            entries == spec_paths_view(*existing_paths),
            nl == netlists.netlists@,
            this_netlist == spec_assoc_lookup(nl, connection.first),
            this_spec == this_netlist,
            forbidden_lines@ == spec_gather(entries, nl, this_spec, i as int).0,
            forbidden_points@ == spec_gather(entries, nl, this_spec, i as int).1,
            connected_dests@ == spec_gather(entries, nl, this_spec, i as int).2,
            connected_endpoints@ == spec_gather(entries, nl, this_spec, i as int).3,
        decreases existing_paths.entries@.len() - i,
    {
        proof {
            assert(entries[i as int] == (
                existing_paths.entries@[i as int].0,
                RouteModel {
                    start: existing_paths.entries@[i as int].1.starting_point,
                    dirs: existing_paths.entries@[i as int].1.movements@,
                },
            ));
        }
        let entry_netlist = netlists.get_for_connection(&existing_paths.entries[i].0);
        if option_id_eq(entry_netlist, this_netlist) {
            append_path_points(&mut connected_dests, &existing_paths.entries[i].1);
            connected_endpoints.push(existing_paths.entries[i].0.first);
            connected_endpoints.push(existing_paths.entries[i].0.second);
        } else {
            append_path_lines(&mut forbidden_lines, &existing_paths.entries[i].1);
            append_path_points(&mut forbidden_points, &existing_paths.entries[i].1);
        }
        i += 1;
    }
    let mut dests = connected_dests;
    dests.push(*to);
    let swapped = endpoints_contain(&connected_endpoints, &connection.first);
    let start = if swapped {
        *to
    } else {
        *from
    };
    search(start, &dests, &forbidden_lines, &forbidden_points, blocked_points, grid_bounds)
}

/// The routed maps of one tick, as a function of the tick's inputs: the
/// successfully routed prefix, and the first failure if one arises.
pub open spec fn spec_calculate_paths(
    conns: Seq<(CpuConnection, GridPos, GridPos)>,
    nl: Seq<(CpuConnectionEndpoint, crate::simulation::cpu::NetlistId)>,
    blocked: Seq<GridPos>,
    bounds: GridLimits,
    i: int,
) -> (Seq<(CpuConnection, RouteModel)>, Option<(CpuConnection, PathSearchingFailure)>)
    decreases i,
{
    if i <= 0 {
        (Seq::empty(), None)
    } else {
        let (done, err) = spec_calculate_paths(conns, nl, blocked, bounds, i - 1);
        if err is Some {
            (done, err)
        } else {
            let c = conns[i - 1];
            match spec_find_path_a_star(c.1, c.2, c.0, done, nl, blocked, bounds) {
                Ok(m) => (done.push((c.0, m)), None),
                Err(e) => (done, Some((c.0, e))),
            }
        }
    }
}

/// Once a routing pass fails, the remaining connections leave the
/// result unchanged.
proof fn lemma_calculate_paths_stable(
    conns: Seq<(CpuConnection, GridPos, GridPos)>,
    nl: Seq<(CpuConnectionEndpoint, crate::simulation::cpu::NetlistId)>,
    blocked: Seq<GridPos>,
    bounds: GridLimits,
    i: int,
    j: int,
)
    requires
        0 <= i <= j <= conns.len(),
        spec_calculate_paths(conns, nl, blocked, bounds, i).1 is Some,
    ensures
        spec_calculate_paths(conns, nl, blocked, bounds, j) == spec_calculate_paths(
            conns,
            nl,
            blocked,
            bounds,
            i,
        ),
    decreases j - i,
{
    if j > i {
        lemma_calculate_paths_stable(conns, nl, blocked, bounds, i, j - 1);
    }
}

/// Route every connection of a tick, in order, against the paths routed
/// so far.  On the first failure the remaining connections stay
/// unrouted and the failing connection is surfaced.
pub fn calculate_paths(
    paths: &mut Paths,
    connections: &Vec<(CpuConnection, GridPos, GridPos)>,
    netlists: &Netlists,
    blocked_points: &BlockedPoints,
    grid_limits: &GridLimits,
) -> (r: Result<(), (CpuConnection, PathSearchingFailure)>)
    requires
        forall|i: int|
            0 <= i < connections@.len() ==> {
                &&& 0 <= (#[trigger] connections@[i]).1.x < i16::MAX
                &&& 0 <= connections@[i].1.y < i16::MAX
                &&& 0 <= connections@[i].2.x < i16::MAX
                &&& 0 <= connections@[i].2.y < i16::MAX
            },
    ensures
        ({
            let (done, err) = spec_calculate_paths(
                connections@,
                netlists.netlists@,
                blocked_points.points@,
                *grid_limits,
                connections@.len() as int,
            );
            &&& spec_paths_view(*final(paths)) == done
            &&& r matches Ok(_) ==> err is None
            &&& r matches Err(e) ==> err == Some(e)
        }),
        final(paths).wf(),
{
    let ghost nl = netlists.netlists@;
    let ghost blocked = blocked_points.points@;
    paths.clear();
    let mut i: usize = 0;
    proof {
        assert(spec_paths_view(*paths) =~= spec_calculate_paths(
            connections@,
            nl,
            blocked,
            *grid_limits,
            0,
        ).0);
    }
    while i < connections.len()
        invariant
            i <= connections@.len(),
            paths.wf(),
            nl == netlists.netlists@,
            blocked == blocked_points.points@,
            spec_paths_view(*paths) == spec_calculate_paths(
                connections@,
                nl,
                blocked,
                *grid_limits,
                i as int,
            ).0,
            spec_calculate_paths(connections@, nl, blocked, *grid_limits, i as int).1 is None,
            forall|j: int|
                0 <= j < connections@.len() ==> {
                    &&& 0 <= (#[trigger] connections@[j]).1.x < i16::MAX
                    &&& 0 <= connections@[j].1.y < i16::MAX
                    &&& 0 <= connections@[j].2.x < i16::MAX
                    &&& 0 <= connections@[j].2.y < i16::MAX
                },
        decreases connections@.len() - i,
    {
        let (conn, from, to) = connections[i];
        let res = find_path_a_star(
            &from,
            &to,
            &conn,
            paths,
            netlists,
            blocked_points,
            grid_limits,
        );
        match res {
            Ok(path) => {
                paths.insert(conn, path);
                proof {
                    assert(spec_paths_view(*paths) =~= spec_calculate_paths(
                        connections@,
                        nl,
                        blocked,
                        *grid_limits,
                        i + 1,
                    ).0);
                }
            },
            Err(failure) => {
                proof {
                    assert(spec_calculate_paths(
                        connections@,
                        nl,
                        blocked,
                        *grid_limits,
                        i + 1,
                    ).1 == Some((conn, failure)));
                    lemma_calculate_paths_stable(
                        connections@,
                        nl,
                        blocked,
                        *grid_limits,
                        i + 1,
                        connections@.len() as int,
                    );
                }
                return Err((conn, failure));
            },
        }
        i += 1;
    }
    Ok(())
}

/// The router is deterministic: two routing passes over identical
/// connections, prior netlists, blocked points and grid limits denote
/// the same mathematical result, so two invocations of
/// `calculate_paths` on identical inputs produce pointwise identical
/// paths maps.
pub proof fn lemma_router_determinism(
    conns: Seq<(CpuConnection, GridPos, GridPos)>,
    nl: Seq<(CpuConnectionEndpoint, crate::simulation::cpu::NetlistId)>,
    blocked: Seq<GridPos>,
    bounds: GridLimits,
    first_run: (Seq<(CpuConnection, RouteModel)>, Option<(CpuConnection, PathSearchingFailure)>),
    second_run: (Seq<(CpuConnection, RouteModel)>, Option<(CpuConnection, PathSearchingFailure)>),
)
    requires
        first_run == spec_calculate_paths(conns, nl, blocked, bounds, conns.len() as int),
        second_run == spec_calculate_paths(conns, nl, blocked, bounds, conns.len() as int),
    ensures
        first_run == second_run,
{
}

} // verus!
