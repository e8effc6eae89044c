use fam::connection::{CpuConnection, CpuConnectionEndpoint};
use fam::direction::{Axis, Direction};
use fam::grid::blocked_point::BlockedPoints;
use fam::grid::grid_limits::GridLimits;
use fam::grid::line::GridLine;
use fam::grid::movement::GridPosMovementExt;
use fam::grid::pos::{grid_pos, grid_size, GridPos};
use fam::grid::rect::GridRect;
use fam::grid::router::{calculate_paths, find_path_a_star, Paths};
use fam::simulation::cpu::Netlists;
use fam::simulation::cpu_registers::CpuRegisterPortName;
use fam::simulation::talu::TaluPortName;

fn reg_endpoint(addr: usize) -> CpuConnectionEndpoint {
    CpuConnectionEndpoint::Register(addr, CpuRegisterPortName::Output)
}

#[test]
fn go_builds_chained_movements() {
    let p = grid_pos(2, 3);
    let m = p.go(Direction::Right);
    assert_eq!(m.starting_point, grid_pos(2, 3));
    assert_eq!(m.destination_point, grid_pos(3, 3));
    assert_eq!(m.line, GridLine { index: grid_pos(2, 3), axis: Axis::Horizontal });
    let m = p.go(Direction::Up);
    assert_eq!(m.destination_point, grid_pos(2, 2));
    assert_eq!(m.line, GridLine { index: grid_pos(2, 2), axis: Axis::Vertical });
}

#[test]
fn all_moves_skips_grid_edges() {
    let corner = grid_pos(0, 0);
    let moves = corner.all_moves();
    assert_eq!(moves.len(), 2);
    assert_eq!(moves[0].move_dir, Direction::Right);
    assert_eq!(moves[1].move_dir, Direction::Down);
    let inner = grid_pos(4, 4);
    assert_eq!(inner.all_moves().len(), 4);
}

#[test]
fn rect_from_points_normalizes_corners() {
    let r = GridRect::new_from_points(grid_pos(5, 1), grid_pos(2, 6));
    assert_eq!(r.top_left, grid_pos(2, 1));
    assert_eq!(r.size, grid_size(3, 5));
    assert_eq!(r.pos(Direction::Left), 2);
    assert_eq!(r.pos(Direction::Right), 5);
    assert_eq!(r.pos(Direction::Up), 1);
    assert_eq!(r.pos(Direction::Down), 6);
}

#[test]
fn blocked_points_cover_rect_interior() {
    let r = GridRect::new(grid_pos(0, 0), grid_size(4, 4));
    let blocked = BlockedPoints::new_from_blocked_inner_rect(r);
    assert!(!blocked.point_is_available(&grid_pos(1, 1)));
    assert!(!blocked.point_is_available(&grid_pos(3, 3)));
    assert!(blocked.point_is_available(&grid_pos(0, 0)));
    assert!(blocked.point_is_available(&grid_pos(4, 2)));
}

#[test]
fn router_routes_straight_line() {
    let paths = Paths::new();
    let netlists = Netlists::new();
    let blocked = BlockedPoints::new();
    let limits = GridLimits::new(100, 100);
    let conn = CpuConnection::new(reg_endpoint(0), reg_endpoint(1));
    let from = grid_pos(0, 0);
    let to = grid_pos(5, 0);
    let path = find_path_a_star(&from, &to, &conn, &paths, &netlists, &blocked, &limits)
        .expect("straight route");
    assert_eq!(path.get_starting_point(), grid_pos(0, 0));
    let movements = path.walk_movements();
    assert_eq!(movements.len(), 5);
    for m in movements.iter() {
        assert_eq!(m.move_dir, Direction::Right);
    }
    // the walk chains: each movement starts where the last one ended
    let mut walker = path.walk();
    let mut prev_end = path.get_starting_point();
    while let Some(m) = walker.next() {
        assert_eq!(m.starting_point, prev_end);
        prev_end = m.destination_point;
    }
    assert_eq!(prev_end, grid_pos(5, 0));
}

#[test]
fn router_avoids_other_netlists_lines() {
    // two disjoint netlists whose straight routes would overlap
    let e0 = reg_endpoint(0);
    let e1 = reg_endpoint(1);
    let e2 = reg_endpoint(2);
    let e3 = reg_endpoint(3);
    let conn_a = CpuConnection::new(e0, e1);
    let conn_b = CpuConnection::new(e2, e3);
    let mut netlists = Netlists::new();
    netlists.add(&conn_a);
    netlists.add(&conn_b);
    let blocked = BlockedPoints::new();
    let limits = GridLimits::new(50, 50);
    let mut paths = Paths::new();
    let connections = vec![
        (conn_a, grid_pos(0, 1), grid_pos(6, 1)),
        (conn_b, grid_pos(0, 1), grid_pos(6, 1)),
    ];
    calculate_paths(&mut paths, &connections, &netlists, &blocked, &limits)
        .expect("both routed");
    assert_eq!(paths.entries.len(), 2);
    let lines_a: Vec<GridLine> = paths.entries[0]
        .1
        .walk_movements()
        .iter()
        .map(|m| m.line)
        .collect();
    let lines_b: Vec<GridLine> = paths.entries[1]
        .1
        .walk_movements()
        .iter()
        .map(|m| m.line)
        .collect();
    for line in lines_b.iter() {
        assert!(!lines_a.contains(line), "paths of disjoint netlists share a line");
    }
}

#[test]
fn router_reuses_netlist_orientation() {
    // once (A,B) is routed, routing (A,C) starts from C's side because
    // A is already reached by a same-netlist path
    let a = reg_endpoint(0);
    let b = reg_endpoint(1);
    let c = reg_endpoint(2);
    let conn_ab = CpuConnection::new(a, b);
    let conn_ac = CpuConnection::new(a, c);
    let mut netlists = Netlists::new();
    netlists.add(&conn_ab);
    netlists.add(&conn_ac);
    let blocked = BlockedPoints::new();
    let limits = GridLimits::new(50, 50);
    let mut paths = Paths::new();
    let connections = vec![
        (conn_ab, grid_pos(0, 0), grid_pos(4, 0)),
        (conn_ac, grid_pos(0, 0), grid_pos(2, 3)),
    ];
    calculate_paths(&mut paths, &connections, &netlists, &blocked, &limits)
        .expect("both routed");
    // the second path starts at its own endpoint, not at A
    assert_eq!(paths.entries[1].1.get_starting_point(), grid_pos(2, 3));
}

#[test]
fn router_is_deterministic() {
    let conn = CpuConnection::new(reg_endpoint(0), reg_endpoint(1));
    let netlists = Netlists::new();
    let blocked = BlockedPoints::new();
    let limits = GridLimits::new(30, 30);
    let connections = vec![(conn, grid_pos(1, 1), grid_pos(7, 5))];
    let mut first = Paths::new();
    let mut second = Paths::new();
    calculate_paths(&mut first, &connections, &netlists, &blocked, &limits).unwrap();
    calculate_paths(&mut second, &connections, &netlists, &blocked, &limits).unwrap();
    assert_eq!(first.entries.len(), second.entries.len());
    for (x, y) in first.entries.iter().zip(second.entries.iter()) {
        assert_eq!(x.0, y.0);
        assert_eq!(x.1.get_starting_point(), y.1.get_starting_point());
        assert_eq!(x.1.movements, y.1.movements);
    }
}

#[test]
fn grid_limits_contain_lines() {
    let limits = GridLimits::new(4, 4);
    assert!(limits.contains_line(&GridLine { index: grid_pos(0, 0), axis: Axis::Horizontal }));
    assert!(limits.contains_line(&GridLine { index: grid_pos(2, 3), axis: Axis::Horizontal }));
    assert!(!limits.contains_line(&GridLine { index: grid_pos(3, 3), axis: Axis::Horizontal }));
    assert!(!limits.contains_line(&GridLine { index: grid_pos(-1, 0), axis: Axis::Vertical }));
}

#[test]
fn rotations_cycle() {
    assert_eq!(Direction::Up.rotate_cw(), Direction::Right);
    assert_eq!(Direction::Right.rotate_cw(), Direction::Down);
    assert_eq!(Direction::Left.rotate_ccw(), Direction::Down);
    let mut d = Direction::Up;
    for _ in 0..4 {
        d = d.rotate_cw();
    }
    assert_eq!(d, Direction::Up);
}

#[test]
fn talu_endpoint_ordering_is_total() {
    let pairs = [
        reg_endpoint(0),
        CpuConnectionEndpoint::Talu(0, TaluPortName::SetupIn),
        CpuConnectionEndpoint::MainMemory,
    ];
    for x in pairs.iter() {
        for y in pairs.iter() {
            let c1 = CpuConnection::new(*x, *y);
            let c2 = CpuConnection::new(*y, *x);
            assert_eq!(c1, c2);
        }
    }
}
