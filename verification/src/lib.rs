//! A discrete-tick simulator for a spatially distributed CPU architecture:
//! a controller sequences instructions that configure a bank of
//! reconfigurable arithmetic units (TALUs) wired to a register bank, each
//! tick materializes the set of active wires between component ports,
//! groups them into netlists, and routes each wire as an orthogonal grid
//! path that avoids component footprints.

use vstd::prelude::*;

pub mod connection;
pub mod direction;
pub mod grid;
pub mod ports;
pub mod simulation;
pub mod word;

verus! {

/// Address of the register reserved for the controller's program counter.
pub const PROGRAM_COUNTER_REGISTER_ADDR: usize = 63;

} // verus!
