//! Port metadata shared by every component: the direction a port's signal
//! flows, the kind of signal it carries, and where the port sits on the
//! grid.  This is what the rendering collaborator consumes.

use vstd::prelude::*;

use crate::direction::Direction;
use crate::grid::pos::GridPos;

verus! {

#[derive(Clone, Copy, PartialEq, Eq, Debug, Hash, Structural)]
pub enum PortSignalDirection {
    Input,
    Output,
}

#[derive(Clone, Copy, PartialEq, Eq, Debug, Hash, Structural)]
pub enum SignalType {
    Data,
    Activation,
    TaluSetup,
}

/// Static description of one port.
#[derive(Clone, Copy, PartialEq, Eq, Debug, Structural)]
pub struct PortDefns {
    pub active: bool,
    pub signal_dir: PortSignalDirection,
    pub signal_type: SignalType,
}

/// Where a port sits on the grid and which way it faces.
#[derive(Clone, Copy, PartialEq, Eq, Debug, Structural)]
pub struct PortGridDefns {
    pub position: GridPos,
    pub direction: Direction,
}

} // verus!
