//! The controller: the instruction decoder and sequencer.
//!
//! While Running it fetches the current instruction through the
//! program-counter wires and dispatches it into TALU-configuration
//! writes, register writes, a wait state, or a jump.  While waiting it
//! watches one register and resumes once its activation bit reads
//! Active.  A missing instruction (program counter past the program's
//! end) signals termination.

use vstd::prelude::*;

use crate::simulation::cpu_registers::{
    CpuRegisterDataReader, CpuRegisterDataWriter, REGISTER_COUNT,
};
use crate::simulation::instruction::Instruction;
use crate::simulation::instruction_reader::{IncrementCmd, InstructionMemory, InstructionReader};
use crate::simulation::talu::{spec_op_addrs_ok, TaluAddress, TaluBank, TaluCore, TALU_COUNT};
use crate::simulation::talu_op::TaluOperation;

verus! {

#[derive(Clone, Copy, PartialEq, Eq, Debug, Structural)]
pub enum ControllerExecutionState {
    Running,
    WaitingForActivation,
}

#[derive(Clone, Copy, PartialEq, Eq, Debug, Structural)]
pub struct Controller {
    pub cpu_registers_reader: CpuRegisterDataReader,
    pub cpu_registers_writer: CpuRegisterDataWriter,
    pub talu_config_writer: TaluConfigWriter,
    pub state: ControllerExecutionState,
    pub instruction_reader: InstructionReader,
}

/// The controller's TALU-configuration port: idle, configuring one unit,
/// or configuring the whole bank.
#[derive(Clone, Copy, PartialEq, Eq, Debug, Structural)]
pub enum TaluConfigWriter {
    Deactivated,
    WritingToSingle { target: TaluAddress, op: TaluOperation },
    WritingToAll { op: TaluOperation },
}

impl TaluConfigWriter {
    pub fn get_config_write_request(&self) -> (r: Option<TaluConfigWriteRequest>)
        ensures
            r == match *self {
                TaluConfigWriter::Deactivated => None::<TaluConfigWriteRequest>,
                TaluConfigWriter::WritingToSingle { target, op } => Some(
                    TaluConfigWriteRequest { address: Some(target), operation: op },
                ),
                TaluConfigWriter::WritingToAll { op } => Some(
                    TaluConfigWriteRequest { address: None, operation: op },
                ),
            },
    {
        match self {
            TaluConfigWriter::Deactivated => None,
            TaluConfigWriter::WritingToSingle { target, op } => Some(
                TaluConfigWriteRequest { address: Some(*target), operation: *op },
            ),
            TaluConfigWriter::WritingToAll { op } => Some(
                TaluConfigWriteRequest { address: None, operation: *op },
            ),
        }
    }
}

/// A pending configuration write: one operation for one TALU, or for the
/// whole bank when no address is named.
#[derive(Clone, Copy, PartialEq, Eq, Debug, Structural)]
pub struct TaluConfigWriteRequest {
    pub address: Option<TaluAddress>,
    pub operation: TaluOperation,
}

impl TaluConfigWriteRequest {
    /// Apply the configuration to the TALU bank.
    pub fn satisfy(self, talu_bank: &mut TaluBank)
        requires
            old(talu_bank).wf(),
            self.address matches Some(a) ==> a < TALU_COUNT,
        ensures
            final(talu_bank).wf(),
            match self.address {
                Some(a) => final(talu_bank).components@ == old(talu_bank).components@.update(
                    a as int,
                    old(talu_bank).components@[a as int].spec_after_set_operation(self.operation),
                ),
                None => {
                    &&& final(talu_bank).components@.len() == old(talu_bank).components@.len()
                    &&& forall|i: int|
                        0 <= i < TALU_COUNT ==> final(talu_bank).components@[i] == (
                        #[trigger] old(talu_bank).components@[i]).spec_after_set_operation(
                            self.operation,
                        )
                },
            },
    {
        if let Some(addr) = self.address {
            let talu = &mut talu_bank.components[addr];
            talu.set_new_operation(self.operation);
            proof {
                assert(talu_bank.components@ =~= old(talu_bank).components@.update(
                    addr as int,
                    old(talu_bank).components@[addr as int].spec_after_set_operation(
                        self.operation,
                    ),
                ));
            }
        } else {
            let mut i: usize = 0;
            while i < talu_bank.components.len()
                invariant
                    talu_bank.components@.len() == old(talu_bank).components@.len(),
                    old(talu_bank).wf(),
                    i <= talu_bank.components@.len(),
                    forall|j: int|
                        0 <= j < i ==> talu_bank.components@[j] == (#[trigger] old(
                            talu_bank,
                        ).components@[j]).spec_after_set_operation(self.operation),
                    forall|j: int|
                        i <= j < talu_bank.components@.len() ==> talu_bank.components@[j] == old(
                            talu_bank,
                        ).components@[j],
                decreases talu_bank.components@.len() - i,
            {
                let talu = &mut talu_bank.components[i];
                talu.set_new_operation(self.operation);
                i += 1;
            }
        }
        proof {
            assert forall|i: int| 0 <= i < TALU_COUNT implies (
            #[trigger] talu_bank.components@[i]).addr == i by {
                assert(old(talu_bank).components@[i].addr == i);
            }
        }
    }

    pub fn address(&self) -> (a: &Option<TaluAddress>)
        ensures
            a == &self.address,
    {
        &self.address
    }
}

#[derive(Clone, Copy, PartialEq, Eq, Debug, Hash, Structural)]
pub enum ControllerPortName {
    RegisterReader,
    RegisterWriter,
    ProgramCounterReader,
    ProgramCounterWriter,
    TaluConfigWriter,
    MainMemoryReader,
}

impl Controller {
    /// What the tick engine maintains of the controller: the
    /// program-counter wires are in place, every address its wires name
    /// stays within its bank, any pending configuration is sound, and
    /// while waiting it watches some register.
    pub open spec fn wf(self) -> bool {
        &&& self.instruction_reader.wf()
        &&& (self.cpu_registers_reader matches CpuRegisterDataReader::Active {
            source,
            value: _,
        } ==> source < REGISTER_COUNT)
        &&& (self.cpu_registers_writer matches CpuRegisterDataWriter::Connected {
            target,
            value: _,
        } ==> target < REGISTER_COUNT)
        &&& (match self.talu_config_writer {
            TaluConfigWriter::Deactivated => true,
            TaluConfigWriter::WritingToSingle { target, op } => {
                &&& target < TALU_COUNT
                &&& op.spec_is_supported()
                &&& spec_op_addrs_ok(op)
            },
            TaluConfigWriter::WritingToAll { op } => {
                &&& op.spec_is_supported()
                &&& spec_op_addrs_ok(op)
            },
        })
        &&& (self.state is WaitingForActivation ==> self.cpu_registers_reader is Active)
    }

    /// What `execute` may assume: the program-counter wires are in
    /// place, this tick's program-counter read has been satisfied, and
    /// while waiting the watched register's read has been satisfied and
    /// cannot ask the counter to leave the word range.
    pub open spec fn spec_execute_req(self, program: Seq<Instruction>) -> bool {
        &&& self.instruction_reader.wf()
        &&& self.instruction_reader.spec_pc() is Some
        &&& program.len() <= i32::MAX
        &&& (self.state is WaitingForActivation ==> (self.cpu_registers_reader.spec_read()
            matches Some(v) && (v != 0 ==> self.instruction_reader.spec_pc()->0 < i32::MAX)))
    }

    /// Whether `execute` keeps the simulation going: only a missing
    /// instruction while Running stops it.
    pub open spec fn spec_execute_returns(self, program: Seq<Instruction>) -> bool {
        !(self.state is Running && InstructionReader::spec_instruction_at(
            self.instruction_reader.spec_pc()->0,
            program,
        ) is None)
    }

    /// The controller after one `execute`: the dispatch table of §the
    /// instruction set, followed by the program-counter step.
    pub open spec fn spec_execute_post(self, program: Seq<Instruction>) -> Controller {
        match self.state {
            ControllerExecutionState::Running => {
                match InstructionReader::spec_instruction_at(
                    self.instruction_reader.spec_pc()->0,
                    program,
                ) {
                    None => self,
                    Some(instruction) => {
                        let dispatched = match instruction {
                            Instruction::SetTaluConfig { talu_addr, talu_config } => Controller {
                                talu_config_writer: TaluConfigWriter::WritingToSingle {
                                    target: talu_addr,
                                    op: talu_config,
                                },
                                instruction_reader: InstructionReader {
                                    increment_cmd: IncrementCmd::Increment,
                                    ..self.instruction_reader
                                },
                                ..self
                            },
                            Instruction::ResetAllTalus => Controller {
                                talu_config_writer: TaluConfigWriter::WritingToAll {
                                    op: TaluOperation::NoOp,
                                },
                                instruction_reader: InstructionReader {
                                    increment_cmd: IncrementCmd::Increment,
                                    ..self.instruction_reader
                                },
                                ..self
                            },
                            Instruction::SetLiteral { literal, reg_addr } => Controller {
                                cpu_registers_writer: CpuRegisterDataWriter::Connected {
                                    target: reg_addr,
                                    value: Some(literal),
                                },
                                instruction_reader: InstructionReader {
                                    increment_cmd: IncrementCmd::Increment,
                                    ..self.instruction_reader
                                },
                                ..self
                            },
                            Instruction::WaitForActivationSignal { register_index } => Controller {
                                cpu_registers_reader: CpuRegisterDataReader::Active {
                                    source: register_index,
                                    value: None,
                                },
                                state: ControllerExecutionState::WaitingForActivation,
                                instruction_reader: InstructionReader {
                                    increment_cmd: IncrementCmd::NoIncrement,
                                    ..self.instruction_reader
                                },
                                ..self
                            },
                            Instruction::Jump { addr } => Controller {
                                instruction_reader: InstructionReader {
                                    increment_cmd: IncrementCmd::GoTo(addr),
                                    ..self.instruction_reader
                                },
                                ..self
                            },
                            Instruction::NoOp => Controller {
                                instruction_reader: InstructionReader {
                                    increment_cmd: IncrementCmd::Increment,
                                    ..self.instruction_reader
                                },
                                ..self
                            },
                        };
                        Controller {
                            instruction_reader: InstructionReader {
                                program_counter_writer: dispatched
                                    .instruction_reader
                                    .spec_writer_after_step(),
                                ..dispatched.instruction_reader
                            },
                            ..dispatched
                        }
                    },
                }
            },
            ControllerExecutionState::WaitingForActivation => {
                let activated = self.cpu_registers_reader.spec_read()->0 != 0;
                let dispatched = if activated {
                    Controller {
                        state: ControllerExecutionState::Running,
                        instruction_reader: InstructionReader {
                            increment_cmd: IncrementCmd::Increment,
                            ..self.instruction_reader
                        },
                        ..self
                    }
                } else {
                    Controller {
                        instruction_reader: InstructionReader {
                            increment_cmd: IncrementCmd::NoIncrement,
                            ..self.instruction_reader
                        },
                        ..self
                    }
                };
                Controller {
                    instruction_reader: InstructionReader {
                        program_counter_writer: dispatched
                            .instruction_reader
                            .spec_writer_after_step(),
                        ..dispatched.instruction_reader
                    },
                    ..dispatched
                }
            },
        }
    }

    /// A step through a program of well-formed instructions keeps the
    /// controller well formed.
    pub proof fn lemma_execute_preserves_wf(self, program: Seq<Instruction>)
        requires
            self.wf(),
            self.spec_execute_req(program),
            forall|i: int|
                0 <= i < program.len()
                    ==> crate::simulation::instruction::spec_instruction_ok(#[trigger] program[i]),
        ensures
            self.spec_execute_post(program).wf(),
    {
        if self.state is Running {
            let pc = self.instruction_reader.spec_pc()->0;
            if 0 <= pc < program.len() {
                assert(crate::simulation::instruction::spec_instruction_ok(program[pc as int]));
            }
        }
    }

    /// A freshly constructed controller: idle outputs, Running, the
    /// program-counter wires in place.
    pub open spec fn spec_initial() -> Controller {
        Controller {
            cpu_registers_reader: CpuRegisterDataReader::Deactivated,
            cpu_registers_writer: CpuRegisterDataWriter::Deactivated,
            talu_config_writer: TaluConfigWriter::Deactivated,
            state: ControllerExecutionState::Running,
            instruction_reader: InstructionReader {
                program_counter_reader: CpuRegisterDataReader::Active {
                    source: crate::PROGRAM_COUNTER_REGISTER_ADDR,
                    value: None,
                },
                program_counter_writer: CpuRegisterDataWriter::Connected {
                    target: crate::PROGRAM_COUNTER_REGISTER_ADDR,
                    value: None,
                },
                increment_cmd: IncrementCmd::NoIncrement,
            },
        }
    }

    pub fn new() -> (r: Controller)
        ensures
            r == Controller::spec_initial(),
            r == (Controller {
                cpu_registers_reader: CpuRegisterDataReader::Deactivated,
                cpu_registers_writer: CpuRegisterDataWriter::Deactivated,
                talu_config_writer: TaluConfigWriter::Deactivated,
                state: ControllerExecutionState::Running,
                instruction_reader: InstructionReader {
                    program_counter_reader: CpuRegisterDataReader::Active {
                        source: crate::PROGRAM_COUNTER_REGISTER_ADDR,
                        value: None,
                    },
                    program_counter_writer: CpuRegisterDataWriter::Connected {
                        target: crate::PROGRAM_COUNTER_REGISTER_ADDR,
                        value: None,
                    },
                    increment_cmd: IncrementCmd::NoIncrement,
                },
            }),
    {
        Controller {
            cpu_registers_reader: CpuRegisterDataReader::new(),
            cpu_registers_writer: CpuRegisterDataWriter::new(),
            talu_config_writer: TaluConfigWriter::Deactivated,
            state: ControllerExecutionState::Running,
            instruction_reader: InstructionReader::new(),
        }
    }

    /// Disconnect the configuration and register-write outputs.
    pub fn reset_outputs(&mut self)
        ensures
            *final(self) == (Controller {
                talu_config_writer: TaluConfigWriter::Deactivated,
                cpu_registers_writer: CpuRegisterDataWriter::Deactivated,
                ..*old(self)
            }),
    {
        self.talu_config_writer = TaluConfigWriter::Deactivated;
        self.cpu_registers_writer = CpuRegisterDataWriter::Deactivated;
    }

    /// One controller step.  Returns false exactly when the program
    /// counter reads past the program's end while Running: the program
    /// has completed.
    #[must_use]
    pub fn execute(&mut self, instruction_memory: &InstructionMemory) -> (continuing: bool)
        requires
            old(self).spec_execute_req(instruction_memory.instructions@),
        ensures
            *final(self) == old(self).spec_execute_post(instruction_memory.instructions@),
            continuing == old(self).spec_execute_returns(instruction_memory.instructions@),
    {
        match self.state {
            ControllerExecutionState::Running => {
                let current_instruction = match self.instruction_reader.read(instruction_memory) {
                    Some(i) => i,
                    None => {
                        return false;
                    },
                };
                match current_instruction {
                    Instruction::SetTaluConfig { talu_config, talu_addr } => {
                        self.talu_config_writer = TaluConfigWriter::WritingToSingle {
                            target: talu_addr,
                            op: talu_config,
                        };
                        self.instruction_reader.set_increment_cmd(IncrementCmd::Increment);
                    },
                    Instruction::SetLiteral { literal, reg_addr } => {
                        self.cpu_registers_writer.set_connection(Some(reg_addr));
                        self.cpu_registers_writer.write(literal);
                        self.instruction_reader.set_increment_cmd(IncrementCmd::Increment);
                    },
                    Instruction::WaitForActivationSignal { register_index } => {
                        self.cpu_registers_reader.set_connection(Some(register_index));
                        self.state = ControllerExecutionState::WaitingForActivation;
                        self.instruction_reader.set_increment_cmd(IncrementCmd::NoIncrement);
                    },
                    Instruction::Jump { addr } => {
                        self.instruction_reader.set_increment_cmd(IncrementCmd::GoTo(addr));
                    },
                    Instruction::ResetAllTalus => {
                        self.talu_config_writer = TaluConfigWriter::WritingToAll {
                            op: TaluOperation::NoOp,
                        };
                        self.instruction_reader.set_increment_cmd(IncrementCmd::Increment);
                    },
                    Instruction::NoOp => {
                        self.instruction_reader.set_increment_cmd(IncrementCmd::Increment);
                    },
                }
            },
            ControllerExecutionState::WaitingForActivation => {
                let is_activated = match self.cpu_registers_reader.read() {
                    Some(v) => v != 0,
                    None => false,
                };
                if is_activated {
                    self.instruction_reader.set_increment_cmd(IncrementCmd::Increment);
                    self.state = ControllerExecutionState::Running;
                } else {
                    self.instruction_reader.set_increment_cmd(IncrementCmd::NoIncrement);
                }
            },
        }
        self.instruction_reader.step();
        true
    }
}

} // verus!
