//! The CPU: the components of the machine, the per-tick connection set,
//! and the netlist equivalence classes over its endpoints.
//!
//! One tick observes every active wire (recording its connection), then
//! satisfies all reads, executes the controller and every TALU, satisfies
//! all writes, and finally rebuilds the netlists.  All reads of a tick
//! see the registers as they stood when the tick began.

use vstd::prelude::*;

use crate::connection::{spec_sorted_insert, CpuConnection, CpuConnectionEndpoint};
use crate::simulation::controller::{Controller, ControllerPortName, TaluConfigWriter};
use crate::simulation::cpu_registers::{
    CpuRegister, CpuRegisterAddress, CpuRegisterBank, CpuRegisterDataReader,
    CpuRegisterDataWriter, CpuRegisterPortName, REGISTER_COUNT,
};
use crate::simulation::instruction::Instruction;
use crate::simulation::instruction_reader::{InstructionMemory, InstructionReader};
use crate::simulation::main_memory::MainMemory;
use crate::simulation::talu::{
    spec_fill_reader, spec_talu_after_reads, spec_talu_wf, TaluBank, TaluCore, TaluPortName,
    TALU_COUNT,
};
use crate::word::Word;
use crate::PROGRAM_COUNTER_REGISTER_ADDR;

verus! {

pub type NetlistId = u16;

/// The netlist id of every endpoint seen this tick.  The backing vector
/// is an association list; a later entry for a key overrides an earlier
/// one.
pub struct Netlists {
    pub next_netlist_id: NetlistId,
    pub netlists: Vec<(CpuConnectionEndpoint, NetlistId)>,
}

/// The id an association list gives a key: its latest entry.
pub open spec fn spec_assoc_lookup(
    s: Seq<(CpuConnectionEndpoint, NetlistId)>,
    e: CpuConnectionEndpoint,
) -> Option<NetlistId>
    decreases s.len(),
{
    if s.len() == 0 {
        None
    } else if s.last().0 == e {
        Some(s.last().1)
    } else {
        spec_assoc_lookup(s.drop_last(), e)
    }
}

/// Union by insertion over one connection: if either endpoint already has
/// an id the other endpoint joins it; otherwise both endpoints get the
/// next fresh id.
pub open spec fn spec_netlists_add(
    m: Map<CpuConnectionEndpoint, NetlistId>,
    next: NetlistId,
    conn: CpuConnection,
) -> (Map<CpuConnectionEndpoint, NetlistId>, NetlistId) {
    if m.dom().contains(conn.first) {
        (m.insert(conn.second, m[conn.first]), next)
    } else if m.dom().contains(conn.second) {
        (m.insert(conn.first, m[conn.second]), next)
    } else {
        (m.insert(conn.first, next).insert(conn.second, next), (next + 1) as NetlistId)
    }
}

impl Netlists {
    /// The finite map the association list denotes.
    pub open spec fn view(self) -> Map<CpuConnectionEndpoint, NetlistId> {
        Map::new(
            |e: CpuConnectionEndpoint| spec_assoc_lookup(self.netlists@, e) is Some,
            |e: CpuConnectionEndpoint| spec_assoc_lookup(self.netlists@, e)->0,
        )
    }

    pub fn new() -> (r: Netlists)
        ensures
            r@ =~= Map::<CpuConnectionEndpoint, NetlistId>::empty(),
            r.next_netlist_id == 0,
    {
        Netlists { next_netlist_id: 0, netlists: Vec::new() }
    }

    /// The netlist id assigned to an endpoint this tick, if any.
    pub fn get_for_endpoint(&self, endpoint: &CpuConnectionEndpoint) -> (r: Option<NetlistId>)
        ensures
            r == spec_assoc_lookup(self.netlists@, *endpoint),
            r matches Some(id) ==> self@.dom().contains(*endpoint) && self@[*endpoint] == id,
            r is None ==> !self@.dom().contains(*endpoint),
    {
        let s = &self.netlists;
        let ghost full = s@;
        let mut i: usize = s.len();
        proof {
            assert(s@.take(s@.len() as int) =~= s@);
        }
        while i > 0
            invariant
                i <= s@.len(),
                s == &self.netlists,
                full == self.netlists@,
                spec_assoc_lookup(full, *endpoint) == spec_assoc_lookup(
                    s@.take(i as int),
                    *endpoint,
                ),
            decreases i,
        {
            i -= 1;
            proof {
                assert(s@.take(i + 1).drop_last() =~= s@.take(i as int));
                assert(s@.take(i + 1).last() == s@[i as int]);
            }
            if endpoint_pair_matches(&s[i], endpoint) {
                return Some(s[i].1);
            }
        }
        proof {
            assert(s@.take(0) =~= Seq::<(CpuConnectionEndpoint, NetlistId)>::empty());
        }
        None
    }

    /// The netlist id of a connection: the id of its first endpoint.
    pub fn get_for_connection(&self, conn: &CpuConnection) -> (r: Option<NetlistId>)
        ensures
            r == spec_assoc_lookup(self.netlists@, conn.first),
    {
        self.get_for_endpoint(&conn.first)
    }

    pub fn clear(&mut self)
        ensures
            final(self)@ =~= Map::<CpuConnectionEndpoint, NetlistId>::empty(),
            final(self).next_netlist_id == 0,
    {
        self.netlists.clear();
        self.next_netlist_id = 0;
    }

    /// Record one entry, overriding any earlier id of the same endpoint.
    fn insert(&mut self, endpoint: CpuConnectionEndpoint, id: NetlistId)
        ensures
            final(self)@ =~= old(self)@.insert(endpoint, id),
            final(self).next_netlist_id == old(self).next_netlist_id,
    {
        self.netlists.push((endpoint, id));
        proof {
            assert(self.netlists@.drop_last() =~= old(self).netlists@);
            assert forall|e: CpuConnectionEndpoint| #[trigger]
                spec_assoc_lookup(self.netlists@, e) == if e == endpoint {
                    Some(id)
                } else {
                    spec_assoc_lookup(old(self).netlists@, e)
                } by {}
            assert(self@ =~= old(self)@.insert(endpoint, id));
        }
    }

    /// Fold one connection into the classes.
    pub fn add(&mut self, conn: &CpuConnection)
        requires
            old(self).next_netlist_id < NetlistId::MAX,
        ensures
            ({
                let (m, next) = spec_netlists_add(old(self)@, old(self).next_netlist_id, *conn);
                final(self)@ =~= m && final(self).next_netlist_id == next
            }),
    {
        let first_id = self.get_for_endpoint(&conn.first);
        if let Some(netlist) = first_id {
            self.insert(conn.second, netlist);
        } else {
            let second_id = self.get_for_endpoint(&conn.second);
            if let Some(netlist) = second_id {
                self.insert(conn.first, netlist);
            } else {
                let fresh = self.next_netlist_id;
                self.insert(conn.first, fresh);
                self.insert(conn.second, fresh);
                self.next_netlist_id = fresh + 1;
            }
        }
    }
}

/// Whether an association entry is for the given endpoint.
fn endpoint_pair_matches(
    pair: &(CpuConnectionEndpoint, NetlistId),
    endpoint: &CpuConnectionEndpoint,
) -> (r: bool)
    ensures
        r == (pair.0 == *endpoint),
{
    pair.0 == *endpoint
}

/// Insert a connection into the tick's sorted, duplicate-free connection
/// list.
pub fn insert_connection(conns: &mut Vec<CpuConnection>, c: CpuConnection)
    ensures
        final(conns)@ == spec_sorted_insert(old(conns)@, c),
        final(conns)@.len() <= old(conns)@.len() + 1,
{
    let ghost full = conns@;
    let mut i: usize = 0;
    proof {
        assert(full.skip(0) =~= full);
        assert(full.take(0) + spec_sorted_insert(full.skip(0), c) =~= spec_sorted_insert(full, c));
    }
    while i < conns.len()
        invariant
            i <= conns@.len(),
            conns@ == full,
            old(conns)@ == full,
            spec_sorted_insert(full, c) == full.take(i as int) + spec_sorted_insert(
                full.skip(i as int),
                c,
            ),
        decreases conns@.len() - i,
    {
        let ghost rest = full.skip(i as int);
        proof {
            assert(rest[0] == full[i as int]);
        }
        if connection_eq(&conns[i], &c) {
            proof {
                assert(spec_sorted_insert(rest, c) =~= rest);
                assert(full.take(i as int) + rest =~= full);
            }
            return ;
        }
        if crate::connection::connection_le(&c, &conns[i]) {
            proof {
                assert(spec_sorted_insert(rest, c) =~= seq![c] + rest);
                assert(full.take(i as int) + (seq![c] + rest) =~= full.take(i as int).push(c)
                    + rest);
            }
            conns.insert(i, c);
            proof {
                assert(conns@ =~= full.take(i as int).push(c) + full.skip(i as int));
                assert(conns@ =~= spec_sorted_insert(full, c));
            }
            return ;
        }
        proof {
            assert(spec_sorted_insert(rest, c) =~= seq![rest[0]] + spec_sorted_insert(
                rest.drop_first(),
                c,
            ));
            assert(rest.drop_first() =~= full.skip(i + 1));
            assert(full.take(i as int) + (seq![rest[0]] + spec_sorted_insert(
                full.skip(i + 1),
                c,
            )) =~= full.take(i + 1) + spec_sorted_insert(full.skip(i + 1), c));
        }
        i += 1;
    }
    proof {
        assert(full.skip(full.len() as int) =~= Seq::<CpuConnection>::empty());
        assert(spec_sorted_insert(full.skip(full.len() as int), c) =~= seq![c]);
    }
    conns.push(c);
    proof {
        assert(conns@ =~= full.take(full.len() as int) + seq![c]);
        assert(conns@ =~= spec_sorted_insert(full, c));
    }
}

/// Whether two connections are the same pair.
fn connection_eq(a: &CpuConnection, b: &CpuConnection) -> (r: bool)
    ensures
        r == (a == b),
{
    a == b
}

/// The mathematical state of the machine: every component as a plain
/// value, with the banks as sequences.
#[verifier::ext_equal]
pub struct CpuTickModel {
    pub regs: Seq<CpuRegister>,
    pub mem: Seq<Word>,
    pub talus: Seq<TaluCore>,
    pub controller: Controller,
    pub program: Seq<Instruction>,
    pub is_done: bool,
    pub connections: Seq<CpuConnection>,
    pub netlists_map: Map<CpuConnectionEndpoint, NetlistId>,
    pub netlists_next: NetlistId,
}

/// Record a connection between two endpoints in the tick's sorted set.
pub open spec fn spec_add_conn(
    conns: Seq<CpuConnection>,
    a: CpuConnectionEndpoint,
    b: CpuConnectionEndpoint,
) -> Seq<CpuConnection> {
    spec_sorted_insert(conns, CpuConnection::spec_new(a, b))
}

/// The read phase of the controller: its register reader (when active)
/// and its always-active program-counter reader cache their registers'
/// values, each contributing a connection.
pub open spec fn spec_phase_controller_reads(
    c: Controller,
    regs: Seq<CpuRegister>,
    conns: Seq<CpuConnection>,
) -> (Controller, Seq<CpuConnection>) {
    let (c1, conns1) = match c.cpu_registers_reader {
        CpuRegisterDataReader::Active { source, value: _ } => (
            Controller { cpu_registers_reader: spec_fill_reader(c.cpu_registers_reader, regs), ..c },
            spec_add_conn(
                conns,
                CpuConnectionEndpoint::Controller(ControllerPortName::RegisterReader),
                CpuConnectionEndpoint::Register(source, CpuRegisterPortName::Output),
            ),
        ),
        CpuRegisterDataReader::Deactivated => (c, conns),
    };
    let c2 = Controller {
        instruction_reader: InstructionReader {
            program_counter_reader: spec_fill_reader(
                c1.instruction_reader.program_counter_reader,
                regs,
            ),
            ..c1.instruction_reader
        },
        ..c1
    };
    let conns2 = spec_add_conn(
        conns1,
        CpuConnectionEndpoint::Controller(ControllerPortName::ProgramCounterReader),
        CpuConnectionEndpoint::Register(PROGRAM_COUNTER_REGISTER_ADDR, CpuRegisterPortName::Output),
    );
    (c2, conns2)
}

/// The configuration connections of a whole-bank write, for TALUs
/// 0 up to i.
pub open spec fn spec_config_conns_all(conns: Seq<CpuConnection>, i: int) -> Seq<CpuConnection>
    decreases i,
{
    if i <= 0 {
        conns
    } else {
        spec_add_conn(
            spec_config_conns_all(conns, i - 1),
            CpuConnectionEndpoint::Controller(ControllerPortName::TaluConfigWriter),
            CpuConnectionEndpoint::Talu((i - 1) as usize, TaluPortName::SetupIn),
        )
    }
}

/// The configuration phase: a pending configuration write reconfigures
/// one TALU or the whole bank, contributing one connection per
/// configured unit.
pub open spec fn spec_phase_config(
    c: Controller,
    talus: Seq<TaluCore>,
    conns: Seq<CpuConnection>,
) -> (Seq<TaluCore>, Seq<CpuConnection>) {
    match c.talu_config_writer {
        TaluConfigWriter::Deactivated => (talus, conns),
        TaluConfigWriter::WritingToSingle { target, op } => (
            talus.update(target as int, talus[target as int].spec_after_set_operation(op)),
            spec_add_conn(
                conns,
                CpuConnectionEndpoint::Controller(ControllerPortName::TaluConfigWriter),
                CpuConnectionEndpoint::Talu(target, TaluPortName::SetupIn),
            ),
        ),
        TaluConfigWriter::WritingToAll { op } => (
            Seq::new(talus.len(), |i: int| talus[i].spec_after_set_operation(op)),
            spec_config_conns_all(conns, TALU_COUNT as int),
        ),
    }
}

/// The connections of one TALU's active input wires, in port order.
pub open spec fn spec_talu_read_conns(
    t: TaluCore,
    addr: int,
    conns: Seq<CpuConnection>,
) -> Seq<CpuConnection> {
    let c0 = match t.data_input_0 {
        CpuRegisterDataReader::Active { source, value: _ } => spec_add_conn(
            conns,
            CpuConnectionEndpoint::Talu(addr as usize, TaluPortName::DataIn0),
            CpuConnectionEndpoint::Register(source, CpuRegisterPortName::Output),
        ),
        CpuRegisterDataReader::Deactivated => conns,
    };
    let c1 = match t.data_input_1 {
        CpuRegisterDataReader::Active { source, value: _ } => spec_add_conn(
            c0,
            CpuConnectionEndpoint::Talu(addr as usize, TaluPortName::DataIn1),
            CpuConnectionEndpoint::Register(source, CpuRegisterPortName::Output),
        ),
        CpuRegisterDataReader::Deactivated => c0,
    };
    match t.activation_input.inner {
        CpuRegisterDataReader::Active { source, value: _ } => spec_add_conn(
            c1,
            CpuConnectionEndpoint::Talu(addr as usize, TaluPortName::ActivationIn),
            CpuConnectionEndpoint::Register(source, CpuRegisterPortName::Output),
        ),
        CpuRegisterDataReader::Deactivated => c1,
    }
}

/// The TALU read phase for units 0 up to i: each unit's active inputs
/// contribute their connections and cache their registers' values.
pub open spec fn spec_phase_talu_reads(
    talus: Seq<TaluCore>,
    regs: Seq<CpuRegister>,
    conns: Seq<CpuConnection>,
    i: int,
) -> (Seq<TaluCore>, Seq<CpuConnection>)
    decreases i,
{
    if i <= 0 {
        (talus, conns)
    } else {
        let (ts, cs) = spec_phase_talu_reads(talus, regs, conns, i - 1);
        (
            ts.update(i - 1, spec_talu_after_reads(ts[i - 1], regs)),
            spec_talu_read_conns(ts[i - 1], i - 1, cs),
        )
    }
}

/// The TALU execution phase for units 0 up to i, threading main memory
/// through in address order.
pub open spec fn spec_phase_talu_execute(talus: Seq<TaluCore>, mem: Seq<Word>, i: int) -> (
    Seq<TaluCore>,
    Seq<Word>,
)
    decreases i,
{
    if i <= 0 {
        (talus, mem)
    } else {
        let (ts, m) = spec_phase_talu_execute(talus, mem, i - 1);
        (ts.update(i - 1, ts[i - 1].spec_execute_post(m)), ts[i - 1].spec_execute_mem_post(m))
    }
}

/// One pending register write applied to the bank.
pub open spec fn spec_apply_write(
    regs: Seq<CpuRegister>,
    target: CpuRegisterAddress,
    value: Word,
) -> Seq<CpuRegister> {
    regs.update(target as int, CpuRegister { address: target, value })
}

/// The write-back of one TALU's pending outputs, in port order: each
/// contributes a connection and its register write.
pub open spec fn spec_talu_write_effect(
    t: TaluCore,
    addr: int,
    regs: Seq<CpuRegister>,
    conns: Seq<CpuConnection>,
) -> (Seq<CpuRegister>, Seq<CpuConnection>) {
    let (r0, c0) = match t.data_output_0 {
        CpuRegisterDataWriter::Connected { target, value: Some(v) } => (
            spec_apply_write(regs, target, v),
            spec_add_conn(
                conns,
                CpuConnectionEndpoint::Talu(addr as usize, TaluPortName::DataOut0),
                CpuConnectionEndpoint::Register(target, CpuRegisterPortName::Input),
            ),
        ),
        _ => (regs, conns),
    };
    let (r1, c1) = match t.data_output_1 {
        CpuRegisterDataWriter::Connected { target, value: Some(v) } => (
            spec_apply_write(r0, target, v),
            spec_add_conn(
                c0,
                CpuConnectionEndpoint::Talu(addr as usize, TaluPortName::DataOut1),
                CpuConnectionEndpoint::Register(target, CpuRegisterPortName::Input),
            ),
        ),
        _ => (r0, c0),
    };
    match t.activation_output.inner {
        CpuRegisterDataWriter::Connected { target, value: Some(v) } => (
            spec_apply_write(r1, target, v),
            spec_add_conn(
                c1,
                CpuConnectionEndpoint::Talu(addr as usize, TaluPortName::ActivationOut),
                CpuConnectionEndpoint::Register(target, CpuRegisterPortName::Input),
            ),
        ),
        _ => (r1, c1),
    }
}

/// The TALU write-back phase for units 0 up to i.
pub open spec fn spec_phase_talu_writes(
    talus: Seq<TaluCore>,
    regs: Seq<CpuRegister>,
    conns: Seq<CpuConnection>,
    i: int,
) -> (Seq<CpuRegister>, Seq<CpuConnection>)
    decreases i,
{
    if i <= 0 {
        (regs, conns)
    } else {
        let (rs, cs) = spec_phase_talu_writes(talus, regs, conns, i - 1);
        spec_talu_write_effect(talus[i - 1], i - 1, rs, cs)
    }
}

/// The controller's pending register write, applied after every TALU's.
pub open spec fn spec_phase_controller_write(
    c: Controller,
    regs: Seq<CpuRegister>,
    conns: Seq<CpuConnection>,
) -> (Seq<CpuRegister>, Seq<CpuConnection>) {
    match c.cpu_registers_writer {
        CpuRegisterDataWriter::Connected { target, value: Some(v) } => (
            spec_apply_write(regs, target, v),
            spec_add_conn(
                conns,
                CpuConnectionEndpoint::Controller(ControllerPortName::RegisterWriter),
                CpuConnectionEndpoint::Register(target, CpuRegisterPortName::Input),
            ),
        ),
        _ => (regs, conns),
    }
}

/// The program-counter write, applied last.
pub open spec fn spec_phase_pc_write(
    c: Controller,
    regs: Seq<CpuRegister>,
    conns: Seq<CpuConnection>,
) -> (Seq<CpuRegister>, Seq<CpuConnection>) {
    match c.instruction_reader.program_counter_writer {
        CpuRegisterDataWriter::Connected { target, value: Some(v) } => (
            spec_apply_write(regs, target, v),
            spec_add_conn(
                conns,
                CpuConnectionEndpoint::Controller(ControllerPortName::ProgramCounterWriter),
                CpuConnectionEndpoint::Register(
                    PROGRAM_COUNTER_REGISTER_ADDR,
                    CpuRegisterPortName::Input,
                ),
            ),
        ),
        _ => (regs, conns),
    }
}

/// The netlists built from the first i connections, in order.
pub open spec fn spec_netlists_of(conns: Seq<CpuConnection>, i: int) -> (
    Map<CpuConnectionEndpoint, NetlistId>,
    NetlistId,
)
    decreases i,
{
    if i <= 0 {
        (Map::empty(), 0)
    } else {
        let (m, n) = spec_netlists_of(conns, i - 1);
        spec_netlists_add(m, n, conns[i - 1])
    }
}

/// One full tick of the machine.  A finished machine does nothing; an
/// active one records and satisfies all reads, applies any pending
/// configuration, executes the controller and every TALU, records and
/// applies all writes, and rebuilds the netlists from the connection
/// set.
pub open spec fn spec_cpu_tick(pre: CpuTickModel) -> CpuTickModel {
    if pre.is_done {
        pre
    } else {
        let conns0 = Seq::<CpuConnection>::empty();
        let (c1, conns1) = spec_phase_controller_reads(pre.controller, pre.regs, conns0);
        let (talus1, conns2) = spec_phase_config(c1, pre.talus, conns1);
        let (talus2, conns3) = spec_phase_talu_reads(talus1, pre.regs, conns2, TALU_COUNT as int);
        let c2 = c1.spec_execute_post(pre.program);
        let done = !c1.spec_execute_returns(pre.program);
        let (talus3, mem1) = spec_phase_talu_execute(talus2, pre.mem, TALU_COUNT as int);
        let (regs1, conns4) = spec_phase_talu_writes(talus3, pre.regs, conns3, TALU_COUNT as int);
        let (regs2, conns5) = spec_phase_controller_write(c2, regs1, conns4);
        let (regs3, conns6) = spec_phase_pc_write(c2, regs2, conns5);
        let (nl_map, nl_next) = spec_netlists_of(conns6, conns6.len() as int);
        CpuTickModel {
            regs: regs3,
            mem: mem1,
            talus: talus3,
            controller: c2,
            program: pre.program,
            is_done: done,
            connections: conns6,
            netlists_map: nl_map,
            netlists_next: nl_next,
        }
    }
}

/// The machine: its components, the tick's connection set, and the
/// netlists over it.
pub struct Cpu {
    pub talu_bank: TaluBank,
    pub register_bank: CpuRegisterBank,
    pub controller: Controller,
    pub instruction_memory: InstructionMemory,
    pub main_memory: MainMemory,
    pub is_done: bool,
    pub connections: Vec<CpuConnection>,
    pub netlists: Netlists,
}

impl Cpu {
    /// The machine's mathematical state.
    pub open spec fn model(self) -> CpuTickModel {
        CpuTickModel {
            regs: self.register_bank.components@,
            mem: self.main_memory.words@,
            talus: self.talu_bank.components@,
            controller: self.controller,
            program: self.instruction_memory.instructions@,
            is_done: self.is_done,
            connections: self.connections@,
            netlists_map: self.netlists@,
            netlists_next: self.netlists.next_netlist_id,
        }
    }

    /// The machine invariant: well-formed banks, a well-formed
    /// controller, and a program of well-formed instructions.
    pub open spec fn wf(self) -> bool {
        &&& self.register_bank.wf()
        &&& self.talu_bank.wf()
        &&& forall|i: int|
            0 <= i < TALU_COUNT ==> spec_talu_wf(#[trigger] self.talu_bank.components@[i])
        &&& self.controller.wf()
        &&& self.instruction_memory.wf()
        &&& forall|i: int|
            0 <= i < self.instruction_memory.instructions@.len()
                ==> crate::simulation::instruction::spec_instruction_ok(
                #[trigger] self.instruction_memory.instructions@[i],
            )
    }

    /// What one tick may assume beyond the invariant: an activated
    /// memory operation addresses memory in bounds, and a waiting
    /// controller that resumes finds a program counter it can advance.
    pub open spec fn spec_tick_req(self) -> bool {
        let pre = self.model();
        let (c1, conns1) = spec_phase_controller_reads(pre.controller, pre.regs, Seq::empty());
        let (talus1, conns2) = spec_phase_config(c1, pre.talus, conns1);
        &&& forall|i: int|
            0 <= i < TALU_COUNT ==> (#[trigger] spec_talu_after_reads(
                talus1[i],
                pre.regs,
            )).spec_mem_access_ok(pre.mem)
        &&& (pre.controller.state is WaitingForActivation ==> match pre
            .controller
            .cpu_registers_reader {
            CpuRegisterDataReader::Active { source, value: _ } => pre.regs[source as int].value
                != 0 ==> pre.regs[PROGRAM_COUNTER_REGISTER_ADDR as int].value < i32::MAX,
            _ => true,
        })
    }

    /// Build a machine from a program and a data image, all registers
    /// zeroed and every TALU idle.
    pub fn new(program: Vec<Instruction>, data: Vec<Word>) -> (r: Cpu)
        requires
            program@.len() <= i32::MAX,
            forall|i: int|
                0 <= i < program@.len() ==> crate::simulation::instruction::spec_instruction_ok(
                    #[trigger] program@[i],
                ),
        ensures
            r.wf(),
            r.register_bank.wf(),
            forall|i: int| 0 <= i < REGISTER_COUNT ==> r.register_bank.spec_values()[i] == 0,
            forall|i: int|
                0 <= i < TALU_COUNT ==> #[trigger] r.talu_bank.components@[i]
                    == TaluCore::spec_initial(i as usize),
            r.controller == Controller::spec_initial(),
            r.instruction_memory.instructions == program,
            r.main_memory.words == data,
            r.is_done == false,
            r.connections@ == Seq::<CpuConnection>::empty(),
            r.netlists@ =~= Map::<CpuConnectionEndpoint, NetlistId>::empty(),
            r.netlists.next_netlist_id == 0,
    {
        let cpu = Cpu {
            talu_bank: TaluBank::new(),
            register_bank: CpuRegisterBank::new(),
            controller: Controller::new(),
            instruction_memory: InstructionMemory::new(program),
            main_memory: MainMemory::new(data),
            is_done: false,
            connections: Vec::new(),
            netlists: Netlists::new(),
        };
        cpu
    }

    /// The read phase of the controller: record and satisfy its register
    /// read and its program-counter read.
    fn tick_controller_reads(&mut self)
        requires
            old(self).register_bank.wf(),
            old(self).controller.wf(),
        ensures
            ({
                let (c, conns) = spec_phase_controller_reads(
                    old(self).controller,
                    old(self).register_bank.components@,
                    old(self).connections@,
                );
                final(self).controller == c && final(self).connections@ == conns
            }),
            final(self).connections@.len() <= old(self).connections@.len() + 2,
            final(self).register_bank == old(self).register_bank,
            final(self).talu_bank == old(self).talu_bank,
            final(self).main_memory == old(self).main_memory,
            final(self).instruction_memory == old(self).instruction_memory,
            final(self).is_done == old(self).is_done,
            final(self).netlists == old(self).netlists,
    {
        if let Some(req) = self.controller.cpu_registers_reader.get_read_request() {
            insert_connection(
                &mut self.connections,
                CpuConnection::new(
                    CpuConnectionEndpoint::Controller(ControllerPortName::RegisterReader),
                    CpuConnectionEndpoint::Register(req.addr(), CpuRegisterPortName::Output),
                ),
            );
            let v = req.satisfy(&self.register_bank);
            self.controller.cpu_registers_reader.store_read_result(v);
        }
        if let Some(req) =
            self.controller.instruction_reader.program_counter_reader.get_read_request() {
            insert_connection(
                &mut self.connections,
                CpuConnection::new(
                    CpuConnectionEndpoint::Controller(ControllerPortName::ProgramCounterReader),
                    CpuConnectionEndpoint::Register(
                        PROGRAM_COUNTER_REGISTER_ADDR,
                        CpuRegisterPortName::Output,
                    ),
                ),
            );
            let v = req.satisfy(&self.register_bank);
            self.controller.instruction_reader.program_counter_reader.store_read_result(v);
        }
    }

    /// The configuration phase: apply any pending TALU configuration,
    /// recording one connection per configured unit.
    fn tick_config(&mut self)
        requires
            old(self).talu_bank.wf(),
            old(self).controller.wf(),
            forall|j: int|
                0 <= j < TALU_COUNT ==> spec_talu_wf(#[trigger] old(self).talu_bank.components@[j]),
        ensures
            ({
                let (talus, conns) = spec_phase_config(
                    old(self).controller,
                    old(self).talu_bank.components@,
                    old(self).connections@,
                );
                final(self).talu_bank.components@ == talus && final(self).connections@ == conns
            }),
            final(self).connections@.len() <= old(self).connections@.len() + TALU_COUNT,
            final(self).talu_bank.wf(),
            forall|j: int|
                0 <= j < TALU_COUNT ==> spec_talu_wf(#[trigger] final(self).talu_bank.components@[j]),
            final(self).register_bank == old(self).register_bank,
            final(self).controller == old(self).controller,
            final(self).main_memory == old(self).main_memory,
            final(self).instruction_memory == old(self).instruction_memory,
            final(self).is_done == old(self).is_done,
            final(self).netlists == old(self).netlists,
    {
        let ghost conns_in = self.connections@;
        let ghost snap = *self;
        if let Some(config_request) = self.controller.talu_config_writer.get_config_write_request()
        {
            match config_request.address {
                Some(addr) => {
                    insert_connection(
                        &mut self.connections,
                        CpuConnection::new(
                            CpuConnectionEndpoint::Controller(ControllerPortName::TaluConfigWriter),
                            CpuConnectionEndpoint::Talu(addr, TaluPortName::SetupIn),
                        ),
                    );
                },
                None => {
                    let mut talu_addr: usize = 0;
                    while talu_addr < TALU_COUNT
                        invariant
                            talu_addr <= TALU_COUNT,
                            self.connections@ == spec_config_conns_all(conns_in, talu_addr as int),
                            self.connections@.len() <= conns_in.len() + talu_addr,
                            self.talu_bank == snap.talu_bank,
                            self.register_bank == snap.register_bank,
                            self.controller == snap.controller,
                            self.main_memory == snap.main_memory,
                            self.instruction_memory == snap.instruction_memory,
                            self.is_done == snap.is_done,
                            self.netlists == snap.netlists,
                        decreases TALU_COUNT - talu_addr,
                    {
                        insert_connection(
                            &mut self.connections,
                            CpuConnection::new(
                                CpuConnectionEndpoint::Controller(
                                    ControllerPortName::TaluConfigWriter,
                                ),
                                CpuConnectionEndpoint::Talu(talu_addr, TaluPortName::SetupIn),
                            ),
                        );
                        talu_addr += 1;
                    }
                },
            }
            config_request.satisfy(&mut self.talu_bank);
        }
        proof {
            let (talus, conns) = spec_phase_config(
                old(self).controller,
                old(self).talu_bank.components@,
                old(self).connections@,
            );
            assert(self.talu_bank.components@ =~= talus);
            assert forall|j: int| 0 <= j < TALU_COUNT implies spec_talu_wf(
                #[trigger] self.talu_bank.components@[j],
            ) by {
                assert(spec_talu_wf(old(self).talu_bank.components@[j]));
            }
            assert forall|j: int| 0 <= j < TALU_COUNT implies (
            #[trigger] self.talu_bank.components@[j]).addr == j by {
                assert(old(self).talu_bank.components@[j].addr == j);
            }
        }
    }

    /// The TALU read phase: record and satisfy every active input wire
    /// of every unit, in address and port order.
    fn tick_talu_reads(&mut self)
        requires
            old(self).register_bank.wf(),
            old(self).talu_bank.wf(),
            forall|j: int|
                0 <= j < TALU_COUNT ==> spec_talu_wf(#[trigger] old(self).talu_bank.components@[j]),
        ensures
            ({
                let (talus, conns) = spec_phase_talu_reads(
                    old(self).talu_bank.components@,
                    old(self).register_bank.components@,
                    old(self).connections@,
                    TALU_COUNT as int,
                );
                final(self).talu_bank.components@ == talus && final(self).connections@ == conns
            }),
            forall|j: int|
                0 <= j < TALU_COUNT ==> #[trigger] final(self).talu_bank.components@[j]
                    == spec_talu_after_reads(
                    old(self).talu_bank.components@[j],
                    old(self).register_bank.components@,
                ),
            forall|j: int|
                0 <= j < TALU_COUNT ==> spec_talu_wf(#[trigger] final(self).talu_bank.components@[j]),
            forall|j: int|
                0 <= j < TALU_COUNT ==> (#[trigger] final(self).talu_bank.components@[j]).inputs_satisfied(),
            final(self).connections@.len() <= old(self).connections@.len() + 3 * TALU_COUNT,
            final(self).talu_bank.wf(),
            final(self).register_bank == old(self).register_bank,
            final(self).controller == old(self).controller,
            final(self).main_memory == old(self).main_memory,
            final(self).instruction_memory == old(self).instruction_memory,
            final(self).is_done == old(self).is_done,
            final(self).netlists == old(self).netlists,
    {
        let ghost talus_in = self.talu_bank.components@;
        let ghost regs = self.register_bank.components@;
        let ghost conns_in = self.connections@;
        let ghost snap = *self;
        let mut ti: usize = 0;
        while ti < TALU_COUNT
            invariant
                ti <= TALU_COUNT,
                self.talu_bank.components@ == spec_phase_talu_reads(
                    talus_in,
                    regs,
                    conns_in,
                    ti as int,
                ).0,
                self.connections@ == spec_phase_talu_reads(talus_in, regs, conns_in, ti as int).1,
                self.connections@.len() <= conns_in.len() + 3 * ti,
                self.talu_bank.components@.len() == TALU_COUNT,
                forall|j: int|
                    ti <= j < TALU_COUNT ==> #[trigger] self.talu_bank.components@[j]
                        == talus_in[j],
                forall|j: int|
                    0 <= j < ti ==> #[trigger] self.talu_bank.components@[j]
                        == spec_talu_after_reads(talus_in[j], regs),
                forall|j: int|
                    0 <= j < TALU_COUNT ==> spec_talu_wf(#[trigger] self.talu_bank.components@[j]),
                forall|j: int|
                    0 <= j < TALU_COUNT ==> (#[trigger] self.talu_bank.components@[j]).addr == j,
                self.register_bank == snap.register_bank,
                self.register_bank.wf(),
                self.register_bank.components@ == regs,
                self.controller == snap.controller,
                self.main_memory == snap.main_memory,
                self.instruction_memory == snap.instruction_memory,
                self.is_done == snap.is_done,
                self.netlists == snap.netlists,
            decreases TALU_COUNT - ti,
        {
            let ghost step_talus = self.talu_bank.components@;
            let ghost step_conns = self.connections@;
            let ghost t = self.talu_bank.components@[ti as int];
            if let Some(req) = self.talu_bank.components[ti].data_input_0.get_read_request() {
                insert_connection(
                    &mut self.connections,
                    CpuConnection::new(
                        CpuConnectionEndpoint::Talu(ti, TaluPortName::DataIn0),
                        CpuConnectionEndpoint::Register(req.addr(), CpuRegisterPortName::Output),
                    ),
                );
                let v = req.satisfy(&self.register_bank);
                let talu = &mut self.talu_bank.components[ti];
                talu.data_input_0.store_read_result(v);
            }
            if let Some(req) = self.talu_bank.components[ti].data_input_1.get_read_request() {
                insert_connection(
                    &mut self.connections,
                    CpuConnection::new(
                        CpuConnectionEndpoint::Talu(ti, TaluPortName::DataIn1),
                        CpuConnectionEndpoint::Register(req.addr(), CpuRegisterPortName::Output),
                    ),
                );
                let v = req.satisfy(&self.register_bank);
                let talu = &mut self.talu_bank.components[ti];
                talu.data_input_1.store_read_result(v);
            }
            if let Some(req) = self.talu_bank.components[ti].activation_input.get_read_request() {
                insert_connection(
                    &mut self.connections,
                    CpuConnection::new(
                        CpuConnectionEndpoint::Talu(ti, TaluPortName::ActivationIn),
                        CpuConnectionEndpoint::Register(req.addr(), CpuRegisterPortName::Output),
                    ),
                );
                let v = req.satisfy(&self.register_bank);
                let talu = &mut self.talu_bank.components[ti];
                talu.activation_input.store_read_result(v);
            }
            proof {
                assert(self.talu_bank.components@[ti as int] == spec_talu_after_reads(t, regs));
                assert(self.talu_bank.components@ =~= step_talus.update(
                    ti as int,
                    spec_talu_after_reads(t, regs),
                ));
                assert(self.connections@ == spec_talu_read_conns(t, ti as int, step_conns));
            }
            ti += 1;
        }
    }

    /// The TALU execution phase: every unit runs its activation cycle,
    /// in address order, threading main memory through.
    fn tick_talu_execute(&mut self)
        requires
            old(self).talu_bank.wf(),
            forall|j: int|
                0 <= j < TALU_COUNT ==> spec_talu_wf(#[trigger] old(self).talu_bank.components@[j]),
            forall|j: int|
                0 <= j < TALU_COUNT ==> (#[trigger] old(self).talu_bank.components@[j]).inputs_satisfied(),
            forall|j: int|
                0 <= j < TALU_COUNT ==> (#[trigger] old(self).talu_bank.components@[j]).spec_mem_access_ok(
                    old(self).main_memory.words@,
                ),
        ensures
            ({
                let (talus, mem) = spec_phase_talu_execute(
                    old(self).talu_bank.components@,
                    old(self).main_memory.words@,
                    TALU_COUNT as int,
                );
                final(self).talu_bank.components@ == talus && final(self).main_memory.words@ == mem
            }),
            final(self).talu_bank.wf(),
            forall|j: int|
                0 <= j < TALU_COUNT ==> spec_talu_wf(#[trigger] final(self).talu_bank.components@[j]),
            final(self).main_memory.words@.len() == old(self).main_memory.words@.len(),
            final(self).register_bank == old(self).register_bank,
            final(self).controller == old(self).controller,
            final(self).instruction_memory == old(self).instruction_memory,
            final(self).is_done == old(self).is_done,
            final(self).netlists == old(self).netlists,
            final(self).connections == old(self).connections,
    {
        let ghost talus_in = self.talu_bank.components@;
        let ghost mem_in = self.main_memory.words@;
        let ghost snap = *self;
        let mut ti: usize = 0;
        while ti < TALU_COUNT
            invariant
                ti <= TALU_COUNT,
                self.talu_bank.components@ == spec_phase_talu_execute(
                    talus_in,
                    mem_in,
                    ti as int,
                ).0,
                self.main_memory.words@ == spec_phase_talu_execute(talus_in, mem_in, ti as int).1,
                self.main_memory.words@.len() == mem_in.len(),
                self.talu_bank.components@.len() == TALU_COUNT,
                forall|j: int|
                    ti <= j < TALU_COUNT ==> #[trigger] self.talu_bank.components@[j]
                        == talus_in[j],
                forall|j: int|
                    0 <= j < TALU_COUNT ==> spec_talu_wf(#[trigger] talus_in[j]),
                forall|j: int| 0 <= j < TALU_COUNT ==> (#[trigger] talus_in[j]).inputs_satisfied(),
                forall|j: int|
                    0 <= j < TALU_COUNT ==> (#[trigger] talus_in[j]).spec_mem_access_ok(mem_in),
                forall|j: int|
                    0 <= j < TALU_COUNT ==> spec_talu_wf(#[trigger] self.talu_bank.components@[j]),
                forall|j: int|
                    0 <= j < TALU_COUNT ==> (#[trigger] self.talu_bank.components@[j]).addr == j,
                self.register_bank == snap.register_bank,
                self.controller == snap.controller,
                self.instruction_memory == snap.instruction_memory,
                self.is_done == snap.is_done,
                self.netlists == snap.netlists,
                self.connections == snap.connections,
            decreases TALU_COUNT - ti,
        {
            proof {
                assert(self.talu_bank.components@[ti as int] == talus_in[ti as int]);
                assert(talus_in[ti as int].spec_mem_access_ok(mem_in));
            }
            let talu = &mut self.talu_bank.components[ti];
            talu.execute(&mut self.main_memory);
            ti += 1;
        }
    }

    /// The TALU write-back phase: record and apply every pending output
    /// of every unit, in address and port order.
    fn tick_talu_writes(&mut self)
        requires
            old(self).register_bank.wf(),
            old(self).talu_bank.wf(),
            forall|j: int|
                0 <= j < TALU_COUNT ==> spec_talu_wf(#[trigger] old(self).talu_bank.components@[j]),
        ensures
            ({
                let (regs, conns) = spec_phase_talu_writes(
                    old(self).talu_bank.components@,
                    old(self).register_bank.components@,
                    old(self).connections@,
                    TALU_COUNT as int,
                );
                final(self).register_bank.components@ == regs && final(self).connections@ == conns
            }),
            final(self).register_bank.wf(),
            final(self).connections@.len() <= old(self).connections@.len() + 3 * TALU_COUNT,
            final(self).talu_bank == old(self).talu_bank,
            final(self).controller == old(self).controller,
            final(self).main_memory == old(self).main_memory,
            final(self).instruction_memory == old(self).instruction_memory,
            final(self).is_done == old(self).is_done,
            final(self).netlists == old(self).netlists,
    {
        let ghost talus = self.talu_bank.components@;
        let ghost regs_in = self.register_bank.components@;
        let ghost conns_in = self.connections@;
        let ghost snap = *self;
        let mut ti: usize = 0;
        while ti < TALU_COUNT
            invariant
                ti <= TALU_COUNT,
                self.register_bank.components@ == spec_phase_talu_writes(
                    talus,
                    regs_in,
                    conns_in,
                    ti as int,
                ).0,
                self.connections@ == spec_phase_talu_writes(talus, regs_in, conns_in, ti as int).1,
                self.connections@.len() <= conns_in.len() + 3 * ti,
                self.register_bank.wf(),
                self.talu_bank.components@ == talus,
                self.talu_bank.components@.len() == TALU_COUNT,
                forall|j: int| 0 <= j < TALU_COUNT ==> spec_talu_wf(#[trigger] talus[j]),
                self.talu_bank == snap.talu_bank,
                self.controller == snap.controller,
                self.main_memory == snap.main_memory,
                self.instruction_memory == snap.instruction_memory,
                self.is_done == snap.is_done,
                self.netlists == snap.netlists,
            decreases TALU_COUNT - ti,
        {
            let ghost step_regs = self.register_bank.components@;
            let ghost step_conns = self.connections@;
            let ghost t = self.talu_bank.components@[ti as int];
            if let Some(req) = self.talu_bank.components[ti].data_output_0.get_write_request() {
                insert_connection(
                    &mut self.connections,
                    CpuConnection::new(
                        CpuConnectionEndpoint::Talu(ti, TaluPortName::DataOut0),
                        CpuConnectionEndpoint::Register(req.addr(), CpuRegisterPortName::Input),
                    ),
                );
                req.satisfy(&mut self.register_bank);
            }
            if let Some(req) = self.talu_bank.components[ti].data_output_1.get_write_request() {
                insert_connection(
                    &mut self.connections,
                    CpuConnection::new(
                        CpuConnectionEndpoint::Talu(ti, TaluPortName::DataOut1),
                        CpuConnectionEndpoint::Register(req.addr(), CpuRegisterPortName::Input),
                    ),
                );
                req.satisfy(&mut self.register_bank);
            }
            if let Some(req) = self.talu_bank.components[ti].activation_output.get_write_request() {
                insert_connection(
                    &mut self.connections,
                    CpuConnection::new(
                        CpuConnectionEndpoint::Talu(ti, TaluPortName::ActivationOut),
                        CpuConnectionEndpoint::Register(req.addr(), CpuRegisterPortName::Input),
                    ),
                );
                req.satisfy(&mut self.register_bank);
            }
            proof {
                let (er, ec) = spec_talu_write_effect(t, ti as int, step_regs, step_conns);
                assert(self.register_bank.components@ =~= er);
                assert(self.connections@ == ec);
            }
            ti += 1;
        }
    }

    /// The controller write-back: its pending register write, then the
    /// program-counter write.
    fn tick_controller_writes(&mut self)
        requires
            old(self).register_bank.wf(),
            old(self).controller.wf(),
        ensures
            ({
                let (regs1, conns1) = spec_phase_controller_write(
                    old(self).controller,
                    old(self).register_bank.components@,
                    old(self).connections@,
                );
                let (regs2, conns2) = spec_phase_pc_write(old(self).controller, regs1, conns1);
                final(self).register_bank.components@ == regs2 && final(self).connections@
                    == conns2
            }),
            final(self).register_bank.wf(),
            final(self).connections@.len() <= old(self).connections@.len() + 2,
            final(self).talu_bank == old(self).talu_bank,
            final(self).controller == old(self).controller,
            final(self).main_memory == old(self).main_memory,
            final(self).instruction_memory == old(self).instruction_memory,
            final(self).is_done == old(self).is_done,
            final(self).netlists == old(self).netlists,
    {
        if let Some(req) = self.controller.cpu_registers_writer.get_write_request() {
            insert_connection(
                &mut self.connections,
                CpuConnection::new(
                    CpuConnectionEndpoint::Controller(ControllerPortName::RegisterWriter),
                    CpuConnectionEndpoint::Register(req.addr(), CpuRegisterPortName::Input),
                ),
            );
            req.satisfy(&mut self.register_bank);
        }
        if let Some(req) =
            self.controller.instruction_reader.program_counter_writer.get_write_request() {
            insert_connection(
                &mut self.connections,
                CpuConnection::new(
                    CpuConnectionEndpoint::Controller(ControllerPortName::ProgramCounterWriter),
                    CpuConnectionEndpoint::Register(
                        PROGRAM_COUNTER_REGISTER_ADDR,
                        CpuRegisterPortName::Input,
                    ),
                ),
            );
            req.satisfy(&mut self.register_bank);
        }
    }

    /// Rebuild the netlists from the tick's connection set, in its
    /// sorted order.
    fn tick_netlists(&mut self)
        requires
            old(self).connections@.len() < NetlistId::MAX,
        ensures
            ({
                let (m, next) = spec_netlists_of(
                    old(self).connections@,
                    old(self).connections@.len() as int,
                );
                final(self).netlists@ =~= m && final(self).netlists.next_netlist_id == next
            }),
            final(self).register_bank == old(self).register_bank,
            final(self).talu_bank == old(self).talu_bank,
            final(self).controller == old(self).controller,
            final(self).main_memory == old(self).main_memory,
            final(self).instruction_memory == old(self).instruction_memory,
            final(self).is_done == old(self).is_done,
            final(self).connections == old(self).connections,
    {
        let ghost conns = self.connections@;
        let ghost snap = *self;
        self.netlists.clear();
        let mut k: usize = 0;
        while k < self.connections.len()
            invariant
                k <= conns.len(),
                self.connections == snap.connections,
                self.connections@ == conns,
                conns.len() < NetlistId::MAX,
                self.netlists@ =~= spec_netlists_of(conns, k as int).0,
                self.netlists.next_netlist_id == spec_netlists_of(conns, k as int).1,
                self.netlists.next_netlist_id <= k,
                self.register_bank == snap.register_bank,
                self.talu_bank == snap.talu_bank,
                self.controller == snap.controller,
                self.main_memory == snap.main_memory,
                self.instruction_memory == snap.instruction_memory,
                self.is_done == snap.is_done,
            decreases conns.len() - k,
        {
            let conn = self.connections[k];
            self.netlists.add(&conn);
            k += 1;
        }
    }

    /// One tick of the machine.  Returns whether the simulation should
    /// continue; once the program has completed every further tick does
    /// nothing and returns false.
    ///
    /// All reads are recorded and satisfied before the controller and
    /// the TALUs execute, and all writes are recorded and applied after;
    /// the netlists are rebuilt last, from the tick's connection set in
    /// its sorted order.
    #[verifier::rlimit(60)]
    #[must_use]
    pub fn execute(&mut self) -> (continuing: bool)
        requires
            old(self).wf(),
            old(self).spec_tick_req(),
        ensures
            final(self).model() == spec_cpu_tick(old(self).model()),
            final(self).wf(),
            final(self).instruction_memory == old(self).instruction_memory,
            continuing == !final(self).is_done,
    {
        let ghost pre = old(self).model();
        if self.is_done {
            return false;
        }
        self.connections.clear();
        let ghost c1_pair = spec_phase_controller_reads(
            pre.controller,
            pre.regs,
            Seq::<CpuConnection>::empty(),
        );
        let ghost c1 = c1_pair.0;
        let ghost conns1 = c1_pair.1;
        self.tick_controller_reads();
        proof {
            assert(self.controller == c1);
            assert(self.connections@ == conns1);
        }
        let ghost talus_pair = spec_phase_config(c1, pre.talus, conns1);
        let ghost talus1 = talus_pair.0;
        let ghost conns2 = talus_pair.1;
        self.tick_config();
        let ghost reads_pair = spec_phase_talu_reads(talus1, pre.regs, conns2, TALU_COUNT as int);
        let ghost talus2 = reads_pair.0;
        let ghost conns3 = reads_pair.1;
        self.tick_talu_reads();
        let ghost c2 = c1.spec_execute_post(pre.program);
        let ghost done = !c1.spec_execute_returns(pre.program);
        proof {
            assert(c1.wf());
            assert(c1.spec_execute_req(pre.program));
            c1.lemma_execute_preserves_wf(pre.program);
        }
        let still_running = self.controller.execute(&self.instruction_memory);
        if !still_running {
            self.is_done = true;
        }
        proof {
            assert(self.controller == c2);
            assert(self.is_done == done);
            assert forall|j: int| 0 <= j < TALU_COUNT implies (
            #[trigger] self.talu_bank.components@[j]).spec_mem_access_ok(
                self.main_memory.words@,
            ) by {
                assert(self.talu_bank.components@[j] == spec_talu_after_reads(
                    talus1[j],
                    pre.regs,
                ));
                assert(spec_talu_after_reads(talus1[j], pre.regs).spec_mem_access_ok(pre.mem));
            }
        }
        let ghost exec_pair = spec_phase_talu_execute(talus2, pre.mem, TALU_COUNT as int);
        let ghost talus3 = exec_pair.0;
        let ghost mem1 = exec_pair.1;
        self.tick_talu_execute();
        let ghost writes_pair = spec_phase_talu_writes(talus3, pre.regs, conns3, TALU_COUNT as int);
        let ghost regs1 = writes_pair.0;
        let ghost conns4 = writes_pair.1;
        self.tick_talu_writes();
        let ghost cw_pair = spec_phase_controller_write(c2, regs1, conns4);
        let ghost pcw_pair = spec_phase_pc_write(c2, cw_pair.0, cw_pair.1);
        let ghost regs3 = pcw_pair.0;
        let ghost conns6 = pcw_pair.1;
        self.tick_controller_writes();
        proof {
            assert(self.register_bank.components@ == regs3);
            assert(self.connections@ == conns6);
            assert(self.connections@.len() < NetlistId::MAX);
        }
        let ghost nl = spec_netlists_of(conns6, conns6.len() as int);
        self.tick_netlists();
        proof {
            assert(self.model() =~~= spec_cpu_tick(pre));
        }
        !self.is_done
    }
}


/// Netlist closure: two connections of one tick that share an endpoint
/// put all three endpoints in one class, in either insertion order.
pub proof fn lemma_netlist_closure(
    a: CpuConnectionEndpoint,
    b: CpuConnectionEndpoint,
    c: CpuConnectionEndpoint,
    conn_ab: CpuConnection,
    conn_bc: CpuConnection,
)
    requires
        a != b,
        b != c,
        a != c,
        conn_ab == CpuConnection::spec_new(a, b),
        conn_bc == CpuConnection::spec_new(b, c),
    ensures
        ({
            let (m1, n1) = spec_netlists_add(Map::empty(), 0, conn_ab);
            let (m2, _) = spec_netlists_add(m1, n1, conn_bc);
            &&& m2.dom().contains(a)
            &&& m2.dom().contains(b)
            &&& m2.dom().contains(c)
            &&& m2[a] == m2[b]
            &&& m2[b] == m2[c]
        }),
        ({
            let (m1, n1) = spec_netlists_add(Map::empty(), 0, conn_bc);
            let (m2, _) = spec_netlists_add(m1, n1, conn_ab);
            &&& m2.dom().contains(a)
            &&& m2.dom().contains(b)
            &&& m2.dom().contains(c)
            &&& m2[a] == m2[b]
            &&& m2[b] == m2[c]
        }),
{
    crate::connection::lemma_endpoint_le_antisymmetric(a, b);
    crate::connection::lemma_endpoint_le_antisymmetric(b, c);
}

/// The input caches of the TALUs survive the execution phase untouched.
proof fn lemma_talu_execute_preserves_inputs(talus: Seq<TaluCore>, mem: Seq<Word>, i: int)
    requires
        i <= talus.len(),
    ensures
        spec_phase_talu_execute(talus, mem, i).0.len() == talus.len(),
        forall|j: int|
            0 <= j < talus.len() ==> {
                let t = #[trigger] spec_phase_talu_execute(talus, mem, i).0[j];
                &&& t.data_input_0 == talus[j].data_input_0
                &&& t.data_input_1 == talus[j].data_input_1
                &&& t.activation_input == talus[j].activation_input
            },
    decreases i,
{
    if i > 0 {
        lemma_talu_execute_preserves_inputs(talus, mem, i - 1);
    }
}

/// The read phase fills exactly the first `i` TALUs from the given
/// registers and leaves the rest untouched.
proof fn lemma_talu_reads_fill(
    talus: Seq<TaluCore>,
    regs: Seq<CpuRegister>,
    conns: Seq<CpuConnection>,
    i: int,
)
    requires
        i <= talus.len(),
    ensures
        spec_phase_talu_reads(talus, regs, conns, i).0.len() == talus.len(),
        forall|j: int|
            0 <= j < i && j < talus.len() ==> #[trigger] spec_phase_talu_reads(
                talus,
                regs,
                conns,
                i,
            ).0[j] == spec_talu_after_reads(talus[j], regs),
        forall|j: int|
            i <= j < talus.len() ==> #[trigger] spec_phase_talu_reads(talus, regs, conns, i).0[j]
                == talus[j],
    decreases i,
{
    if i > 0 {
        lemma_talu_reads_fill(talus, regs, conns, i - 1);
    }
}

/// Per-tick reads precede writes: every read a tick satisfies observes
/// the register bank as it stood when the tick began, even when the
/// same tick later writes the same register; the writes only show in
/// the bank the tick leaves behind.
pub proof fn lemma_reads_precede_writes(pre: CpuTickModel)
    requires
        !pre.is_done,
        pre.talus.len() == TALU_COUNT,
        (pre.controller.talu_config_writer matches TaluConfigWriter::WritingToSingle {
            target,
            op: _,
        } ==> target < TALU_COUNT),
    ensures
        ({
            let (c1, _) = spec_phase_controller_reads(pre.controller, pre.regs, Seq::empty());
            // the controller's register read, when active, caches the
            // pre-tick value of its source register
            match pre.controller.cpu_registers_reader {
                CpuRegisterDataReader::Active { source, value: _ } => c1
                    .cpu_registers_reader
                    .spec_read() == Some(pre.regs[source as int].value),
                CpuRegisterDataReader::Deactivated => true,
            }
        }),
        // every TALU input cache the tick leaves behind was filled from
        // the pre-tick register bank, not from any value written later
        forall|i: int|
            0 <= i < TALU_COUNT ==> {
                let (c1, conns1) = spec_phase_controller_reads(
                    pre.controller,
                    pre.regs,
                    Seq::empty(),
                );
                let (talus1, conns2) = spec_phase_config(c1, pre.talus, conns1);
                let t = #[trigger] spec_cpu_tick(pre).talus[i];
                &&& t.data_input_0 == spec_fill_reader(talus1[i].data_input_0, pre.regs)
                &&& t.data_input_1 == spec_fill_reader(talus1[i].data_input_1, pre.regs)
                &&& t.activation_input.inner == spec_fill_reader(
                    talus1[i].activation_input.inner,
                    pre.regs,
                )
            },
{
    let (c1, conns1) = spec_phase_controller_reads(pre.controller, pre.regs, Seq::empty());
    let (talus1, conns2) = spec_phase_config(c1, pre.talus, conns1);
    assert(talus1.len() == TALU_COUNT) by {
        match c1.talu_config_writer {
            TaluConfigWriter::Deactivated => {},
            TaluConfigWriter::WritingToSingle { target, op } => {
                assert(talus1 == pre.talus.update(
                    target as int,
                    pre.talus[target as int].spec_after_set_operation(op),
                ));
            },
            TaluConfigWriter::WritingToAll { op } => {
                assert(talus1 == Seq::new(
                    pre.talus.len(),
                    |i: int| pre.talus[i].spec_after_set_operation(op),
                ));
            },
        }
    }
    lemma_talu_reads_fill(talus1, pre.regs, conns2, TALU_COUNT as int);
    let talus2 = spec_phase_talu_reads(talus1, pre.regs, conns2, TALU_COUNT as int).0;
    lemma_talu_execute_preserves_inputs(talus2, pre.mem, TALU_COUNT as int);
}

} // verus!
