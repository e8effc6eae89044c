//! Connections: the logical wires active in one tick.
//!
//! A connection is an unordered pair of endpoints, canonicalized by a
//! total order on endpoints so that the pair can serve as a set key:
//! building a connection from (a, b) and from (b, a) yields the same
//! value.

use vstd::prelude::*;

use crate::simulation::controller::ControllerPortName;
use crate::simulation::cpu_registers::{CpuRegisterAddress, CpuRegisterPortName};
use crate::simulation::talu::{TaluAddress, TaluPortName};

verus! {

#[derive(Clone, Copy, PartialEq, Eq, Debug, Hash, Structural)]
pub enum CpuConnectionEndpoint {
    Register(CpuRegisterAddress, CpuRegisterPortName),
    Talu(TaluAddress, TaluPortName),
    Controller(ControllerPortName),
    MainMemory,
}

/// The rank of an endpoint's variant in the total order.
pub open spec fn spec_endpoint_tag(e: CpuConnectionEndpoint) -> int {
    match e {
        CpuConnectionEndpoint::Register(..) => 0,
        CpuConnectionEndpoint::Talu(..) => 1,
        CpuConnectionEndpoint::Controller(..) => 2,
        CpuConnectionEndpoint::MainMemory => 3,
    }
}

/// The component address within an endpoint's variant.
pub open spec fn spec_endpoint_addr(e: CpuConnectionEndpoint) -> int {
    match e {
        CpuConnectionEndpoint::Register(a, _) => a as int,
        CpuConnectionEndpoint::Talu(a, _) => a as int,
        _ => 0,
    }
}

/// The rank of an endpoint's port in the total order.
pub open spec fn spec_endpoint_port(e: CpuConnectionEndpoint) -> int {
    match e {
        CpuConnectionEndpoint::Register(_, p) => match p {
            CpuRegisterPortName::Input => 0,
            CpuRegisterPortName::Output => 1,
        },
        CpuConnectionEndpoint::Talu(_, p) => match p {
            TaluPortName::DataIn0 => 0,
            TaluPortName::DataIn1 => 1,
            TaluPortName::ActivationIn => 2,
            TaluPortName::DataOut0 => 3,
            TaluPortName::DataOut1 => 4,
            TaluPortName::ActivationOut => 5,
            TaluPortName::SetupIn => 6,
        },
        CpuConnectionEndpoint::Controller(p) => match p {
            ControllerPortName::RegisterReader => 0,
            ControllerPortName::RegisterWriter => 1,
            ControllerPortName::ProgramCounterReader => 2,
            ControllerPortName::ProgramCounterWriter => 3,
            ControllerPortName::TaluConfigWriter => 4,
            ControllerPortName::MainMemoryReader => 5,
        },
        CpuConnectionEndpoint::MainMemory => 0,
    }
}

/// The total order on endpoints: by variant, then component address,
/// then port.
pub open spec fn spec_endpoint_le(a: CpuConnectionEndpoint, b: CpuConnectionEndpoint) -> bool {
    if spec_endpoint_tag(a) != spec_endpoint_tag(b) {
        spec_endpoint_tag(a) < spec_endpoint_tag(b)
    } else if spec_endpoint_addr(a) != spec_endpoint_addr(b) {
        spec_endpoint_addr(a) < spec_endpoint_addr(b)
    } else {
        spec_endpoint_port(a) <= spec_endpoint_port(b)
    }
}

/// Two endpoints that agree on variant rank, address and port rank are
/// the same endpoint: the order is antisymmetric.
pub proof fn lemma_endpoint_le_antisymmetric(a: CpuConnectionEndpoint, b: CpuConnectionEndpoint)
    ensures
        spec_endpoint_le(a, b) && spec_endpoint_le(b, a) ==> a == b,
        spec_endpoint_le(a, b) || spec_endpoint_le(b, a),
{
}

fn endpoint_port_rank(e: &CpuConnectionEndpoint) -> (r: u8)
    ensures
        r as int == spec_endpoint_port(*e),
{
    match e {
        CpuConnectionEndpoint::Register(_, p) => match p {
            CpuRegisterPortName::Input => 0,
            CpuRegisterPortName::Output => 1,
        },
        CpuConnectionEndpoint::Talu(_, p) => match p {
            TaluPortName::DataIn0 => 0,
            TaluPortName::DataIn1 => 1,
            TaluPortName::ActivationIn => 2,
            TaluPortName::DataOut0 => 3,
            TaluPortName::DataOut1 => 4,
            TaluPortName::ActivationOut => 5,
            TaluPortName::SetupIn => 6,
        },
        CpuConnectionEndpoint::Controller(p) => match p {
            ControllerPortName::RegisterReader => 0,
            ControllerPortName::RegisterWriter => 1,
            ControllerPortName::ProgramCounterReader => 2,
            ControllerPortName::ProgramCounterWriter => 3,
            ControllerPortName::TaluConfigWriter => 4,
            ControllerPortName::MainMemoryReader => 5,
        },
        CpuConnectionEndpoint::MainMemory => 0,
    }
}

/// Decide the total order on endpoints.
pub fn endpoint_le(a: &CpuConnectionEndpoint, b: &CpuConnectionEndpoint) -> (r: bool)
    ensures
        r == spec_endpoint_le(*a, *b),
{
    let tag_a: u8 = match a {
        CpuConnectionEndpoint::Register(..) => 0,
        CpuConnectionEndpoint::Talu(..) => 1,
        CpuConnectionEndpoint::Controller(..) => 2,
        CpuConnectionEndpoint::MainMemory => 3,
    };
    let tag_b: u8 = match b {
        CpuConnectionEndpoint::Register(..) => 0,
        CpuConnectionEndpoint::Talu(..) => 1,
        CpuConnectionEndpoint::Controller(..) => 2,
        CpuConnectionEndpoint::MainMemory => 3,
    };
    if tag_a != tag_b {
        return tag_a < tag_b;
    }
    let addr_a: usize = match a {
        CpuConnectionEndpoint::Register(addr, _) => *addr,
        CpuConnectionEndpoint::Talu(addr, _) => *addr,
        _ => 0,
    };
    let addr_b: usize = match b {
        CpuConnectionEndpoint::Register(addr, _) => *addr,
        CpuConnectionEndpoint::Talu(addr, _) => *addr,
        _ => 0,
    };
    if addr_a != addr_b {
        return addr_a < addr_b;
    }
    endpoint_port_rank(a) <= endpoint_port_rank(b)
}

/// An unordered pair of endpoints, stored sorted.
#[derive(Clone, Copy, PartialEq, Eq, Debug, Hash, Structural)]
pub struct CpuConnection {
    pub first: CpuConnectionEndpoint,
    pub second: CpuConnectionEndpoint,
}

impl CpuConnection {
    /// The canonical pair: the smaller endpoint first.
    pub open spec fn spec_new(
        first_endpoint: CpuConnectionEndpoint,
        second_endpoint: CpuConnectionEndpoint,
    ) -> CpuConnection {
        if spec_endpoint_le(first_endpoint, second_endpoint) {
            CpuConnection { first: first_endpoint, second: second_endpoint }
        } else {
            CpuConnection { first: second_endpoint, second: first_endpoint }
        }
    }

    /// The pair is sorted.
    pub open spec fn wf(self) -> bool {
        spec_endpoint_le(self.first, self.second)
    }

    pub fn new(
        first_endpoint: CpuConnectionEndpoint,
        second_endpoint: CpuConnectionEndpoint,
    ) -> (r: CpuConnection)
        ensures
            r == Self::spec_new(first_endpoint, second_endpoint),
            r.wf(),
    {
        proof {
            lemma_endpoint_le_antisymmetric(first_endpoint, second_endpoint);
        }
        if endpoint_le(&first_endpoint, &second_endpoint) {
            CpuConnection { first: first_endpoint, second: second_endpoint }
        } else {
            CpuConnection { first: second_endpoint, second: first_endpoint }
        }
    }

    pub fn first(&self) -> (r: &CpuConnectionEndpoint)
        ensures
            r == &self.first,
    {
        &self.first
    }

    pub fn second(&self) -> (r: &CpuConnectionEndpoint)
        ensures
            r == &self.second,
    {
        &self.second
    }
}

/// Building a connection from endpoints in either order yields the same
/// canonical value.
pub proof fn lemma_connection_canonical_form(
    a: CpuConnectionEndpoint,
    b: CpuConnectionEndpoint,
)
    ensures
        CpuConnection::spec_new(a, b) == CpuConnection::spec_new(b, a),
{
    lemma_endpoint_le_antisymmetric(a, b);
}

/// The total order on canonical connections: by first endpoint, then
/// second.
pub open spec fn spec_connection_le(a: CpuConnection, b: CpuConnection) -> bool {
    if a.first != b.first {
        spec_endpoint_le(a.first, b.first) && !spec_endpoint_le(b.first, a.first)
    } else {
        spec_endpoint_le(a.second, b.second)
    }
}

/// Decide the total order on connections.
pub fn connection_le(a: &CpuConnection, b: &CpuConnection) -> (r: bool)
    ensures
        r == spec_connection_le(*a, *b),
{
    proof {
        lemma_endpoint_le_antisymmetric(a.first, b.first);
    }
    let first_eq = {
        let fa = &a.first;
        let fb = &b.first;
        endpoint_eq(fa, fb)
    };
    if !first_eq {
        endpoint_le(&a.first, &b.first) && !endpoint_le(&b.first, &a.first)
    } else {
        endpoint_le(&a.second, &b.second)
    }
}

/// Decide endpoint equality.
pub fn endpoint_eq(a: &CpuConnectionEndpoint, b: &CpuConnectionEndpoint) -> (r: bool)
    ensures
        r == (a == b),
{
    a == b
}

/// A connection list ordered by the total order, one entry per pair,
/// after inserting one more connection.
pub open spec fn spec_sorted_insert(s: Seq<CpuConnection>, c: CpuConnection) -> Seq<CpuConnection>
    decreases s.len(),
{
    if s.len() == 0 {
        seq![c]
    } else if s[0] == c {
        s
    } else if spec_connection_le(c, s[0]) {
        seq![c] + s
    } else {
        seq![s[0]] + spec_sorted_insert(s.drop_first(), c)
    }
}

} // verus!
