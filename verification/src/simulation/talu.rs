//! The TALU: a reconfigurable arithmetic unit with up to seven ports,
//! wired to the register bank and driven by a three-state activation
//! cycle.
//!
//! Every supported operation follows the same pulse pattern at execute:
//! while the activation input reads Active the unit computes and raises
//! its activation output; on the first inactive tick after processing it
//! lowers the output; afterwards it leaves the output without a pending
//! value.  The activation output therefore pulses for exactly one tick.

use vstd::prelude::*;

use crate::ports::{PortDefns, PortSignalDirection, SignalType};
use crate::simulation::component_bank::ComponentBank;
use crate::simulation::cpu_registers::{
    CpuRegister, CpuRegisterActReader, CpuRegisterActWriter, CpuRegisterDataReader,
    CpuRegisterDataWriter, CpuRegisterReadRequest, CpuRegisterWriteRequest, REGISTER_COUNT,
};
use crate::simulation::main_memory::MainMemory;
use crate::simulation::talu_op::{
    cmp_eval, spec_cmp_eval, spec_word_add, spec_word_div, spec_word_mul, spec_word_mul_high,
    spec_word_neg, spec_word_rem, spec_word_shl, spec_word_shr, spec_word_sub,
    spec_add_overflows, spec_sub_overflows, word_add, word_div, word_mul, word_mul_wide, word_neg,
    word_rem, word_shl, word_shr, word_sub, TaluOperation,
};
use crate::word::{spec_bool_to_word, Activation, Word};

verus! {

pub type TaluAddress = usize;

pub const TALU_COUNT: usize = 32;

pub type TaluBank = ComponentBank<TaluCore, TALU_COUNT>;

#[derive(Clone, Copy, PartialEq, Eq, Debug, Hash, Structural)]
pub enum TaluPortName {
    DataIn0,
    DataIn1,
    ActivationIn,
    DataOut0,
    DataOut1,
    ActivationOut,
    SetupIn,
}

/// Port metadata for all seven TALU ports.
#[derive(Clone, Copy, PartialEq, Eq, Debug, Structural)]
pub struct TaluPortsDefns {
    pub data_input_0: PortDefns,
    pub data_input_1: PortDefns,
    pub activation_input: PortDefns,
    pub data_output_0: PortDefns,
    pub data_output_1: PortDefns,
    pub activation_output: PortDefns,
    pub setup_in: PortDefns,
}

impl TaluPortsDefns {
    pub fn get_for_port(&self, port_name: &TaluPortName) -> (r: &PortDefns)
        ensures
            r == match port_name {
                TaluPortName::DataIn0 => &self.data_input_0,
                TaluPortName::DataIn1 => &self.data_input_1,
                TaluPortName::ActivationIn => &self.activation_input,
                TaluPortName::DataOut0 => &self.data_output_0,
                TaluPortName::DataOut1 => &self.data_output_1,
                TaluPortName::ActivationOut => &self.activation_output,
                TaluPortName::SetupIn => &self.setup_in,
            },
    {
        match port_name {
            TaluPortName::DataIn0 => &self.data_input_0,
            TaluPortName::DataIn1 => &self.data_input_1,
            TaluPortName::ActivationIn => &self.activation_input,
            TaluPortName::DataOut0 => &self.data_output_0,
            TaluPortName::DataOut1 => &self.data_output_1,
            TaluPortName::ActivationOut => &self.activation_output,
            TaluPortName::SetupIn => &self.setup_in,
        }
    }
}

/// The lifecycle tag of the activation pulse.
#[derive(Clone, Copy, PartialEq, Eq, Debug, Structural)]
pub enum TaluState {
    Closing,
    JustProcessed,
    Done,
}

#[derive(Clone, Copy, PartialEq, Eq, Debug, Structural)]
pub struct TaluCore {
    pub addr: TaluAddress,
    pub state: TaluState,
    pub operation: TaluOperation,
    pub old_operation: TaluOperation,
    pub inner_memory_0: Word,
    pub inner_memory_1: Word,
    pub data_input_0: CpuRegisterDataReader,
    pub data_input_1: CpuRegisterDataReader,
    pub activation_input: CpuRegisterActReader,
    pub data_output_0: CpuRegisterDataWriter,
    pub data_output_1: CpuRegisterDataWriter,
    pub activation_output: CpuRegisterActWriter,
}

/// A reader is wired exactly as a port configuration asks: active at the
/// configured source, or deactivated.
pub open spec fn spec_reader_matches(
    r: CpuRegisterDataReader,
    cfg: Option<crate::simulation::cpu_registers::CpuRegisterAddress>,
) -> bool {
    match cfg {
        Some(a) => r matches CpuRegisterDataReader::Active { source, value: _ } && source == a,
        None => r is Deactivated,
    }
}

/// A writer is wired exactly as a port configuration asks.
pub open spec fn spec_writer_matches(
    w: CpuRegisterDataWriter,
    cfg: Option<crate::simulation::cpu_registers::CpuRegisterAddress>,
) -> bool {
    match cfg {
        Some(a) => w matches CpuRegisterDataWriter::Connected { target, value: _ } && target == a,
        None => w is Deactivated,
    }
}

/// What one activated computation does: the value each data output
/// receives (None leaves the writer untouched) and the memory afterwards.
pub struct TaluComputeEffect {
    pub out0: Option<Word>,
    pub out1: Option<Word>,
    pub mem: Seq<Word>,
}

/// The computation of one activated tick, per operation.
pub open spec fn spec_compute(
    op: TaluOperation,
    in0: Word,
    in1: Word,
    mem: Seq<Word>,
) -> TaluComputeEffect {
    match op {
        TaluOperation::Mov { .. } => TaluComputeEffect { out0: Some(in0), out1: None, mem },
        TaluOperation::Cmp { op: cmp, .. } => TaluComputeEffect {
            out0: Some(spec_bool_to_word(spec_cmp_eval(cmp, in0, in1))),
            out1: None,
            mem,
        },
        TaluOperation::Not { .. } => TaluComputeEffect { out0: Some(!in0), out1: None, mem },
        TaluOperation::And { .. } => TaluComputeEffect { out0: Some(in0 & in1), out1: None, mem },
        TaluOperation::Or { .. } => TaluComputeEffect { out0: Some(in0 | in1), out1: None, mem },
        TaluOperation::Xor { .. } => TaluComputeEffect { out0: Some(in0 ^ in1), out1: None, mem },
        TaluOperation::ShiftLeft { .. } => TaluComputeEffect {
            out0: Some(spec_word_shl(in0, in1)),
            out1: None,
            mem,
        },
        TaluOperation::ShiftRight { .. } => TaluComputeEffect {
            out0: Some(spec_word_shr(in0, in1)),
            out1: None,
            mem,
        },
        TaluOperation::Add { .. } => TaluComputeEffect {
            out0: Some(spec_word_add(in0, in1)),
            out1: Some(
                if spec_add_overflows(in0, in1) {
                    1
                } else {
                    0
                },
            ),
            mem,
        },
        TaluOperation::Sub { .. } => TaluComputeEffect {
            out0: Some(spec_word_sub(in0, in1)),
            out1: Some(
                if spec_sub_overflows(in0, in1) {
                    1
                } else {
                    0
                },
            ),
            mem,
        },
        TaluOperation::Mul { second_word_output, .. } => {
            if second_word_output is Some {
                TaluComputeEffect {
                    out0: Some(spec_word_mul(in0, in1)),
                    out1: Some(spec_word_mul_high(in0, in1)),
                    mem,
                }
            } else {
                TaluComputeEffect { out0: Some(spec_word_mul(in0, in1)), out1: None, mem }
            }
        },
        TaluOperation::Div { div_by_zero_flag_output, .. } => {
            if in1 == 0 {
                TaluComputeEffect {
                    out0: Some(0),
                    out1: if div_by_zero_flag_output is Some {
                        Some(1)
                    } else {
                        None
                    },
                    mem,
                }
            } else {
                TaluComputeEffect {
                    out0: None,
                    out1: Some(
                        if div_by_zero_flag_output is Some {
                            0
                        } else {
                            spec_word_div(in0, in1)
                        },
                    ),
                    mem,
                }
            }
        },
        TaluOperation::Rem { div_by_zero_flag_output, .. } => {
            if in1 == 0 {
                TaluComputeEffect {
                    out0: Some(0),
                    out1: if div_by_zero_flag_output is Some {
                        Some(1)
                    } else {
                        None
                    },
                    mem,
                }
            } else {
                TaluComputeEffect {
                    out0: None,
                    out1: Some(
                        if div_by_zero_flag_output is Some {
                            0
                        } else {
                            spec_word_rem(in0, in1)
                        },
                    ),
                    mem,
                }
            }
        },
        TaluOperation::Neg { .. } => TaluComputeEffect {
            out0: Some(spec_word_neg(in0)),
            out1: None,
            mem,
        },
        TaluOperation::ReadFromMem { .. } => TaluComputeEffect {
            out0: Some(mem[in0 as int]),
            out1: None,
            mem,
        },
        TaluOperation::WriteToMem { .. } => TaluComputeEffect {
            out0: None,
            out1: None,
            mem: mem.update(in1 as int, in0),
        },
        _ => TaluComputeEffect { out0: None, out1: None, mem },
    }
}

impl CpuRegisterDataWriter {
    /// The writer after a `write` of the given value.
    pub open spec fn spec_after_write(self, v: Word) -> CpuRegisterDataWriter {
        match self {
            CpuRegisterDataWriter::Connected { target, value: _ } => CpuRegisterDataWriter::Connected {
                target,
                value: Some(v),
            },
            CpuRegisterDataWriter::Deactivated => self,
        }
    }

    /// The writer after a `clear`.
    pub open spec fn spec_after_clear(self) -> CpuRegisterDataWriter {
        match self {
            CpuRegisterDataWriter::Connected { target, value: _ } => CpuRegisterDataWriter::Connected {
                target,
                value: None,
            },
            CpuRegisterDataWriter::Deactivated => self,
        }
    }
}

impl CpuRegisterActWriter {
    /// The activation writer after a `write` of the given boolean.
    pub open spec fn spec_after_write(self, b: bool) -> CpuRegisterActWriter {
        CpuRegisterActWriter { inner: self.inner.spec_after_write(spec_bool_to_word(b)) }
    }

    /// The activation writer after a `clear`.
    pub open spec fn spec_after_clear(self) -> CpuRegisterActWriter {
        CpuRegisterActWriter { inner: self.inner.spec_after_clear() }
    }
}

impl TaluCore {
    /// The cached word of a data input, zero while unfilled.
    pub open spec fn spec_in0(self) -> Word {
        match self.data_input_0.spec_read() {
            Some(v) => v,
            None => 0,
        }
    }

    pub open spec fn spec_in1(self) -> Word {
        match self.data_input_1.spec_read() {
            Some(v) => v,
            None => 0,
        }
    }

    /// Whether the cached activation input reads Active.
    pub open spec fn spec_act_active(self) -> bool {
        self.activation_input.spec_read() == Some(Activation::Active)
    }

    /// Every wire is wired exactly as the current operation's port
    /// configuration asks.
    pub open spec fn wires_configured(self) -> bool {
        let cfg = self.operation.spec_ports_config();
        &&& spec_reader_matches(self.data_input_0, cfg.data_input_0)
        &&& spec_reader_matches(self.data_input_1, cfg.data_input_1)
        &&& spec_reader_matches(self.activation_input.inner, cfg.activation_input)
        &&& spec_writer_matches(self.data_output_0, cfg.data_output_0)
        &&& spec_writer_matches(self.data_output_1, cfg.data_output_1)
        &&& spec_writer_matches(self.activation_output.inner, cfg.activation_output)
    }

    /// Every active reader holds a cached value, as it does after the
    /// tick engine has satisfied the read requests.
    pub open spec fn inputs_satisfied(self) -> bool {
        &&& (self.data_input_0 is Active ==> self.data_input_0.spec_read() is Some)
        &&& (self.data_input_1 is Active ==> self.data_input_1.spec_read() is Some)
        &&& (self.activation_input.inner is Active ==> self.activation_input.inner.spec_read()
            is Some)
    }

    /// The memory accesses an activated memory operation would make stay
    /// in bounds.
    pub open spec fn spec_mem_access_ok(self, mem: Seq<Word>) -> bool {
        &&& (self.operation is ReadFromMem && self.spec_act_active() ==> 0 <= self.spec_in0()
            < mem.len())
        &&& (self.operation is WriteToMem && self.spec_act_active() ==> 0 <= self.spec_in1()
            < mem.len())
    }

    /// What `execute` may assume of the unit and the memory.
    pub open spec fn spec_execute_req(self, mem: Seq<Word>) -> bool {
        &&& self.operation.spec_is_supported()
        &&& self.wires_configured()
        &&& self.inputs_satisfied()
        &&& self.spec_mem_access_ok(mem)
    }

    /// The unit after one `execute`: the activation pulse state machine
    /// around the operation's computation.
    pub open spec fn spec_execute_post(self, mem: Seq<Word>) -> TaluCore {
        if self.operation is NoOp {
            self
        } else if self.spec_act_active() {
            let eff = spec_compute(self.operation, self.spec_in0(), self.spec_in1(), mem);
            TaluCore {
                state: TaluState::JustProcessed,
                data_output_0: match eff.out0 {
                    Some(v) => self.data_output_0.spec_after_write(v),
                    None => self.data_output_0,
                },
                data_output_1: match eff.out1 {
                    Some(v) => self.data_output_1.spec_after_write(v),
                    None => self.data_output_1,
                },
                activation_output: self.activation_output.spec_after_write(true),
                ..self
            }
        } else if self.state is JustProcessed {
            TaluCore {
                state: TaluState::Closing,
                activation_output: self.activation_output.spec_after_write(false),
                ..self
            }
        } else {
            TaluCore {
                state: TaluState::Done,
                activation_output: self.activation_output.spec_after_clear(),
                ..self
            }
        }
    }

    /// The memory after one `execute`: only an activated WriteToMem
    /// changes it.
    pub open spec fn spec_execute_mem_post(self, mem: Seq<Word>) -> Seq<Word> {
        if !(self.operation is NoOp) && self.spec_act_active() {
            spec_compute(self.operation, self.spec_in0(), self.spec_in1(), mem).mem
        } else {
            mem
        }
    }

    pub fn new(talu_addr: TaluAddress) -> (r: TaluCore)
        ensures
            r == (TaluCore {
                addr: talu_addr,
                state: TaluState::Closing,
                operation: TaluOperation::NoOp,
                old_operation: TaluOperation::NoOp,
                inner_memory_0: 0,
                inner_memory_1: 0,
                data_input_0: CpuRegisterDataReader::Deactivated,
                data_input_1: CpuRegisterDataReader::Deactivated,
                activation_input: CpuRegisterActReader {
                    inner: CpuRegisterDataReader::Deactivated,
                },
                data_output_0: CpuRegisterDataWriter::Deactivated,
                data_output_1: CpuRegisterDataWriter::Deactivated,
                activation_output: CpuRegisterActWriter {
                    inner: CpuRegisterDataWriter::Deactivated,
                },
            }),
            r.wires_configured(),
    {
        TaluCore {
            addr: talu_addr,
            state: TaluState::Closing,
            operation: TaluOperation::NoOp,
            old_operation: TaluOperation::NoOp,
            inner_memory_0: 0,
            inner_memory_1: 0,
            data_input_0: CpuRegisterDataReader::new(),
            data_input_1: CpuRegisterDataReader::new(),
            activation_input: CpuRegisterActReader::new(),
            data_output_0: CpuRegisterDataWriter::new(),
            data_output_1: CpuRegisterDataWriter::new(),
            activation_output: CpuRegisterActWriter::new(),
        }
    }

    /// Port metadata for drawing: all seven ports are live; data and
    /// activation ports keep their kind, the setup port takes TALU
    /// configurations.
    pub fn get_ports_info(&self) -> (r: TaluPortsDefns)
        ensures
            r == (TaluPortsDefns {
                data_input_0: PortDefns {
                    active: true,
                    signal_dir: PortSignalDirection::Input,
                    signal_type: SignalType::Data,
                },
                data_input_1: PortDefns {
                    active: true,
                    signal_dir: PortSignalDirection::Input,
                    signal_type: SignalType::Data,
                },
                activation_input: PortDefns {
                    active: true,
                    signal_dir: PortSignalDirection::Input,
                    signal_type: SignalType::Activation,
                },
                data_output_0: PortDefns {
                    active: true,
                    signal_dir: PortSignalDirection::Output,
                    signal_type: SignalType::Data,
                },
                data_output_1: PortDefns {
                    active: true,
                    signal_dir: PortSignalDirection::Output,
                    signal_type: SignalType::Data,
                },
                activation_output: PortDefns {
                    active: true,
                    signal_dir: PortSignalDirection::Output,
                    signal_type: SignalType::Activation,
                },
                setup_in: PortDefns {
                    active: true,
                    signal_dir: PortSignalDirection::Input,
                    signal_type: SignalType::TaluSetup,
                },
            }),
    {
        TaluPortsDefns {
            data_input_0: PortDefns {
                active: true,
                signal_dir: PortSignalDirection::Input,
                signal_type: SignalType::Data,
            },
            data_input_1: PortDefns {
                active: true,
                signal_dir: PortSignalDirection::Input,
                signal_type: SignalType::Data,
            },
            activation_input: PortDefns {
                active: true,
                signal_dir: PortSignalDirection::Input,
                signal_type: SignalType::Activation,
            },
            data_output_0: PortDefns {
                active: true,
                signal_dir: PortSignalDirection::Output,
                signal_type: SignalType::Data,
            },
            data_output_1: PortDefns {
                active: true,
                signal_dir: PortSignalDirection::Output,
                signal_type: SignalType::Data,
            },
            activation_output: PortDefns {
                active: true,
                signal_dir: PortSignalDirection::Output,
                signal_type: SignalType::Activation,
            },
            setup_in: PortDefns {
                active: true,
                signal_dir: PortSignalDirection::Input,
                signal_type: SignalType::TaluSetup,
            },
        }
    }

    /// The unit after `set_new_operation`: the old operation remembered,
    /// the pulse state reset, every port rewired to the new
    /// configuration, and the inner memory slots zeroed.
    pub open spec fn spec_after_set_operation(self, new_operation: TaluOperation) -> TaluCore {
        TaluCore {
            addr: self.addr,
            state: TaluState::Done,
            operation: new_operation,
            old_operation: self.operation,
            inner_memory_0: 0,
            inner_memory_1: 0,
            data_input_0: match new_operation.spec_ports_config().data_input_0 {
                Some(a) => CpuRegisterDataReader::Active { source: a, value: None },
                None => CpuRegisterDataReader::Deactivated,
            },
            data_input_1: match new_operation.spec_ports_config().data_input_1 {
                Some(a) => CpuRegisterDataReader::Active { source: a, value: None },
                None => CpuRegisterDataReader::Deactivated,
            },
            activation_input: CpuRegisterActReader {
                inner: match new_operation.spec_ports_config().activation_input {
                    Some(a) => CpuRegisterDataReader::Active { source: a, value: None },
                    None => CpuRegisterDataReader::Deactivated,
                },
            },
            data_output_0: match new_operation.spec_ports_config().data_output_0 {
                Some(a) => CpuRegisterDataWriter::Connected { target: a, value: None },
                None => CpuRegisterDataWriter::Deactivated,
            },
            data_output_1: match new_operation.spec_ports_config().data_output_1 {
                Some(a) => CpuRegisterDataWriter::Connected { target: a, value: None },
                None => CpuRegisterDataWriter::Deactivated,
            },
            activation_output: CpuRegisterActWriter {
                inner: match new_operation.spec_ports_config().activation_output {
                    Some(a) => CpuRegisterDataWriter::Connected { target: a, value: None },
                    None => CpuRegisterDataWriter::Deactivated,
                },
            },
        }
    }

    /// Install a new operation: remember the old one, reset the pulse
    /// state, rewire every port to the new configuration, and zero the
    /// inner memory slots.
    pub fn set_new_operation(&mut self, new_operation: TaluOperation)
        ensures
            *final(self) == old(self).spec_after_set_operation(new_operation),
            final(self).wires_configured(),
    {
        self.old_operation = self.operation;
        self.operation = new_operation;
        self.state = TaluState::Done;
        let ports_config = new_operation.get_ports_config();
        self.data_input_0.set_connection(ports_config.data_input_0);
        self.data_input_1.set_connection(ports_config.data_input_1);
        self.activation_input.set_connection(ports_config.activation_input);
        self.data_output_0.set_connection(ports_config.data_output_0);
        self.data_output_1.set_connection(ports_config.data_output_1);
        self.activation_output.set_connection(ports_config.activation_output);
        self.inner_memory_0 = 0;
        self.inner_memory_1 = 0;
    }

    /// The read requests of the active input wires, in port order.
    pub open spec fn spec_read_requests(self) -> Seq<(TaluPortName, CpuRegisterReadRequest)> {
        let s0: Seq<(TaluPortName, CpuRegisterReadRequest)> = match self.data_input_0 {
            CpuRegisterDataReader::Active { source, value: _ } => seq![
                (TaluPortName::DataIn0, CpuRegisterReadRequest { register_addr: source }),
            ],
            CpuRegisterDataReader::Deactivated => seq![],
        };
        let s1: Seq<(TaluPortName, CpuRegisterReadRequest)> = match self.data_input_1 {
            CpuRegisterDataReader::Active { source, value: _ } => seq![
                (TaluPortName::DataIn1, CpuRegisterReadRequest { register_addr: source }),
            ],
            CpuRegisterDataReader::Deactivated => seq![],
        };
        let s2: Seq<(TaluPortName, CpuRegisterReadRequest)> = match self.activation_input.inner {
            CpuRegisterDataReader::Active { source, value: _ } => seq![
                (TaluPortName::ActivationIn, CpuRegisterReadRequest { register_addr: source }),
            ],
            CpuRegisterDataReader::Deactivated => seq![],
        };
        s0 + s1 + s2
    }

    pub fn collect_read_requests(&self) -> (v: Vec<(TaluPortName, CpuRegisterReadRequest)>)
        ensures
            v@ == self.spec_read_requests(),
    {
        let mut v: Vec<(TaluPortName, CpuRegisterReadRequest)> = Vec::new();
        if let Some(req) = self.data_input_0.get_read_request() {
            v.push((TaluPortName::DataIn0, req));
        }
        if let Some(req) = self.data_input_1.get_read_request() {
            v.push((TaluPortName::DataIn1, req));
        }
        if let Some(req) = self.activation_input.get_read_request() {
            v.push((TaluPortName::ActivationIn, req));
        }
        proof {
            assert(v@ =~= self.spec_read_requests());
        }
        v
    }

    /// The write requests of the output wires holding a pending value, in
    /// port order.
    pub open spec fn spec_write_requests(self) -> Seq<(TaluPortName, CpuRegisterWriteRequest)> {
        let s0: Seq<(TaluPortName, CpuRegisterWriteRequest)> = match self.data_output_0 {
            CpuRegisterDataWriter::Connected { target, value: Some(v) } => seq![
                (TaluPortName::DataOut0, CpuRegisterWriteRequest { register_addr: target, value: v }),
            ],
            _ => seq![],
        };
        let s1: Seq<(TaluPortName, CpuRegisterWriteRequest)> = match self.data_output_1 {
            CpuRegisterDataWriter::Connected { target, value: Some(v) } => seq![
                (TaluPortName::DataOut1, CpuRegisterWriteRequest { register_addr: target, value: v }),
            ],
            _ => seq![],
        };
        let s2: Seq<(TaluPortName, CpuRegisterWriteRequest)> = match self.activation_output.inner {
            CpuRegisterDataWriter::Connected { target, value: Some(v) } => seq![
                (
                    TaluPortName::ActivationOut,
                    CpuRegisterWriteRequest { register_addr: target, value: v },
                ),
            ],
            _ => seq![],
        };
        s0 + s1 + s2
    }

    pub fn collect_write_requests(&self) -> (v: Vec<(TaluPortName, CpuRegisterWriteRequest)>)
        ensures
            v@ == self.spec_write_requests(),
    {
        let mut v: Vec<(TaluPortName, CpuRegisterWriteRequest)> = Vec::new();
        if let Some(req) = self.data_output_0.get_write_request() {
            v.push((TaluPortName::DataOut0, req));
        }
        if let Some(req) = self.data_output_1.get_write_request() {
            v.push((TaluPortName::DataOut1, req));
        }
        if let Some(req) = self.activation_output.get_write_request() {
            v.push((TaluPortName::ActivationOut, req));
        }
        proof {
            assert(v@ =~= self.spec_write_requests());
        }
        v
    }

    /// One tick of the unit: the activation pulse cycle around the
    /// configured computation.
    pub fn execute(&mut self, main_memory: &mut MainMemory)
        requires
            old(self).spec_execute_req(old(main_memory).words@),
        ensures
            *final(self) == old(self).spec_execute_post(old(main_memory).words@),
            final(main_memory).words@ == old(self).spec_execute_mem_post(old(main_memory).words@),
    {
        let op = self.operation;
        if matches!(op, TaluOperation::NoOp) {
            return ;
        }
        let act_active = match self.activation_input.read() {
            Some(Activation::Active) => true,
            _ => false,
        };
        if act_active {
            let in0 = match self.data_input_0.read() {
                Some(v) => v,
                None => 0,
            };
            let in1 = match self.data_input_1.read() {
                Some(v) => v,
                None => 0,
            };
            match op {
                TaluOperation::Mov { .. } => {
                    self.data_output_0.write(in0);
                },
                TaluOperation::Cmp { op: cmp, .. } => {
                    self.data_output_0.write(cmp_eval(cmp, in0, in1));
                },
                TaluOperation::Not { .. } => {
                    self.data_output_0.write(!in0);
                },
                TaluOperation::And { .. } => {
                    self.data_output_0.write(in0 & in1);
                },
                TaluOperation::Or { .. } => {
                    self.data_output_0.write(in0 | in1);
                },
                TaluOperation::Xor { .. } => {
                    self.data_output_0.write(in0 ^ in1);
                },
                TaluOperation::ShiftLeft { .. } => {
                    self.data_output_0.write(word_shl(in0, in1));
                },
                TaluOperation::ShiftRight { .. } => {
                    self.data_output_0.write(word_shr(in0, in1));
                },
                TaluOperation::Add { .. } => {
                    let (low, overflow) = word_add(in0, in1);
                    self.data_output_0.write(low);
                    self.data_output_1.write(
                        if overflow {
                            1
                        } else {
                            0
                        },
                    );
                },
                TaluOperation::Sub { .. } => {
                    let (low, overflow) = word_sub(in0, in1);
                    self.data_output_0.write(low);
                    self.data_output_1.write(
                        if overflow {
                            1
                        } else {
                            0
                        },
                    );
                },
                TaluOperation::Mul { second_word_output, .. } => {
                    if second_word_output.is_some() {
                        let (low, high) = word_mul_wide(in0, in1);
                        self.data_output_0.write(low);
                        self.data_output_1.write(high);
                    } else {
                        self.data_output_0.write(word_mul(in0, in1));
                    }
                },
                TaluOperation::Div { div_by_zero_flag_output, .. } => {
                    if in1 == 0 {
                        if div_by_zero_flag_output.is_some() {
                            self.data_output_1.write(1);
                        }
                        self.data_output_0.write(0);
                    } else {
                        let res = word_div(in0, in1);
                        self.data_output_1.write(res);
                        if div_by_zero_flag_output.is_some() {
                            self.data_output_1.write(0);
                        }
                    }
                },
                TaluOperation::Rem { div_by_zero_flag_output, .. } => {
                    if in1 == 0 {
                        if div_by_zero_flag_output.is_some() {
                            self.data_output_1.write(1);
                        }
                        self.data_output_0.write(0);
                    } else {
                        let res = word_rem(in0, in1);
                        self.data_output_1.write(res);
                        if div_by_zero_flag_output.is_some() {
                            self.data_output_1.write(0);
                        }
                    }
                },
                TaluOperation::Neg { .. } => {
                    self.data_output_0.write(word_neg(in0));
                },
                TaluOperation::ReadFromMem { .. } => {
                    let res = main_memory.read(in0 as usize);
                    self.data_output_0.write(res);
                },
                TaluOperation::WriteToMem { .. } => {
                    main_memory.write(in1 as usize, in0);
                },
                _ => {},
            }
            self.activation_output.write(true);
            self.state = TaluState::JustProcessed;
        } else {
            if matches!(self.state, TaluState::JustProcessed) {
                self.activation_output.write(false);
                self.state = TaluState::Closing;
            } else {
                self.state = TaluState::Done;
                self.activation_output.clear();
            }
        }
    }
}

impl TaluBank {
    /// One TALU per address, each initially idle.
    pub open spec fn wf(self) -> bool {
        &&& self.components@.len() == TALU_COUNT
        &&& forall|i: int| 0 <= i < TALU_COUNT ==> (#[trigger] self.components@[i]).addr == i
    }

    pub fn new() -> (r: TaluBank)
        ensures
            r.wf(),
            forall|i: int|
                0 <= i < TALU_COUNT ==> #[trigger] r.components@[i] == TaluCore::spec_initial(
                    i as usize,
                ),
    {
        let mut components: Vec<TaluCore> = Vec::new();
        let mut address: usize = 0;
        while address < TALU_COUNT
            invariant
                address <= TALU_COUNT,
                components@.len() == address,
                forall|i: int|
                    0 <= i < address ==> #[trigger] components@[i] == TaluCore::spec_initial(
                        i as usize,
                    ),
            decreases TALU_COUNT - address,
        {
            components.push(TaluCore::new(address));
            address += 1;
        }
        ComponentBank { components }
    }
}

/// All register addresses an operation wires stay within the register
/// bank.
pub open spec fn spec_op_addrs_ok(op: TaluOperation) -> bool {
    let cfg = op.spec_ports_config();
    &&& (cfg.data_input_0 matches Some(a) ==> a < REGISTER_COUNT)
    &&& (cfg.data_input_1 matches Some(a) ==> a < REGISTER_COUNT)
    &&& (cfg.activation_input matches Some(a) ==> a < REGISTER_COUNT)
    &&& (cfg.data_output_0 matches Some(a) ==> a < REGISTER_COUNT)
    &&& (cfg.data_output_1 matches Some(a) ==> a < REGISTER_COUNT)
    &&& (cfg.activation_output matches Some(a) ==> a < REGISTER_COUNT)
}

/// What the tick engine maintains of every TALU: its wires follow its
/// operation, the operation is supported, and its addresses stay within
/// the register bank.
pub open spec fn spec_talu_wf(t: TaluCore) -> bool {
    &&& t.wires_configured()
    &&& t.operation.spec_is_supported()
    &&& spec_op_addrs_ok(t.operation)
}

/// A reader with its cache filled from the registers it points at.
pub open spec fn spec_fill_reader(
    r: CpuRegisterDataReader,
    regs: Seq<CpuRegister>,
) -> CpuRegisterDataReader {
    match r {
        CpuRegisterDataReader::Active { source, value: _ } => CpuRegisterDataReader::Active {
            source,
            value: Some(regs[source as int].value),
        },
        CpuRegisterDataReader::Deactivated => r,
    }
}

/// A TALU after the tick engine satisfies its read requests: every
/// active input wire caches its source register's value.
pub open spec fn spec_talu_after_reads(t: TaluCore, regs: Seq<CpuRegister>) -> TaluCore {
    TaluCore {
        data_input_0: spec_fill_reader(t.data_input_0, regs),
        data_input_1: spec_fill_reader(t.data_input_1, regs),
        activation_input: CpuRegisterActReader {
            inner: spec_fill_reader(t.activation_input.inner, regs),
        },
        ..t
    }
}

impl TaluCore {
    /// A freshly constructed, idle unit.
    pub open spec fn spec_initial(talu_addr: TaluAddress) -> TaluCore {
        TaluCore {
            addr: talu_addr,
            state: TaluState::Closing,
            operation: TaluOperation::NoOp,
            old_operation: TaluOperation::NoOp,
            inner_memory_0: 0,
            inner_memory_1: 0,
            data_input_0: CpuRegisterDataReader::Deactivated,
            data_input_1: CpuRegisterDataReader::Deactivated,
            activation_input: CpuRegisterActReader { inner: CpuRegisterDataReader::Deactivated },
            data_output_0: CpuRegisterDataWriter::Deactivated,
            data_output_1: CpuRegisterDataWriter::Deactivated,
            activation_output: CpuRegisterActWriter { inner: CpuRegisterDataWriter::Deactivated },
        }
    }
}


/// The activation pulse law: whatever supported operation a unit is
/// configured with, an Active tick followed by two inactive ticks makes
/// the activation output pend exactly true, then false, then nothing.
pub proof fn lemma_activation_pulse(
    t0: TaluCore,
    mem0: Seq<Word>,
    t1_refreshed: TaluCore,
    mem1: Seq<Word>,
    t2_refreshed: TaluCore,
    mem2: Seq<Word>,
    addr: crate::simulation::cpu_registers::CpuRegisterAddress,
)
    requires
        t0.spec_execute_req(mem0),
        !(t0.operation is NoOp),
        t0.operation.spec_ports_config().activation_output == Some(addr),
        t0.spec_act_active(),
        t1_refreshed.operation == t0.operation,
        t1_refreshed.state == t0.spec_execute_post(mem0).state,
        t1_refreshed.activation_output == t0.spec_execute_post(mem0).activation_output,
        !t1_refreshed.spec_act_active(),
        t2_refreshed.operation == t0.operation,
        t2_refreshed.state == t1_refreshed.spec_execute_post(mem1).state,
        t2_refreshed.activation_output == t1_refreshed.spec_execute_post(mem1).activation_output,
        !t2_refreshed.spec_act_active(),
    ensures
        t0.spec_execute_post(mem0).activation_output.inner == (CpuRegisterDataWriter::Connected {
            target: addr,
            value: Some(-1i32),
        }),
        t0.spec_execute_post(mem0).state is JustProcessed,
        t1_refreshed.spec_execute_post(mem1).activation_output.inner == (
        CpuRegisterDataWriter::Connected { target: addr, value: Some(0i32) }),
        t1_refreshed.spec_execute_post(mem1).state is Closing,
        t2_refreshed.spec_execute_post(mem2).activation_output.inner == (
        CpuRegisterDataWriter::Connected { target: addr, value: None }),
        t2_refreshed.spec_execute_post(mem2).state is Done,
{
}

} // verus!
