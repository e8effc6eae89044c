//! Discrete 2D grid layer: positions, lines, movements, rectangles,
//! blocked-point sets, grid limits, routed paths and the router.

pub mod blocked_point;
pub mod grid_limits;
pub mod line;
pub mod movement;
pub mod path;
pub mod pos;
pub mod rect;
pub mod router;
