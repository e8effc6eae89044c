//! Instruction memory and the program-counter stream that feeds the
//! controller.
//!
//! The reader owns the controller's program-counter wires: a reader that
//! is always pointed at the PC register, and a writer through which each
//! tick's increment command is applied.  Both wires contribute endpoints
//! to the tick's connection set.

use vstd::prelude::*;

use crate::simulation::cpu_registers::{CpuRegisterDataReader, CpuRegisterDataWriter};
use crate::simulation::instruction::Instruction;
use crate::word::Word;
use crate::PROGRAM_COUNTER_REGISTER_ADDR;

verus! {

/// What the controller asks of the program counter this tick.
#[derive(Clone, Copy, PartialEq, Eq, Debug, Structural)]
pub enum IncrementCmd {
    Increment,
    NoIncrement,
    GoTo(Word),
}

/// The program: a vector of instructions indexed by the program counter.
pub struct InstructionMemory {
    pub instructions: Vec<Instruction>,
}

impl InstructionMemory {
    /// A program fits the word-sized program counter.
    pub open spec fn wf(self) -> bool {
        self.instructions@.len() <= i32::MAX
    }

    pub fn new(program: Vec<Instruction>) -> (r: InstructionMemory)
        requires
            program@.len() <= i32::MAX,
        ensures
            r.instructions == program,
            r.wf(),
    {
        InstructionMemory { instructions: program }
    }

    /// The instruction at an index, or None past the program's end.
    pub fn get(&self, index: usize) -> (r: Option<Instruction>)
        ensures
            r == if index < self.instructions@.len() {
                Some(self.instructions@[index as int])
            } else {
                None::<Instruction>
            },
    {
        if index < self.instructions.len() {
            Some(self.instructions[index])
        } else {
            None
        }
    }
}

/// The controller's window onto the program: the program-counter wires
/// and the increment command chosen by the current instruction.
#[derive(Clone, Copy, PartialEq, Eq, Debug, Structural)]
pub struct InstructionReader {
    pub program_counter_reader: CpuRegisterDataReader,
    pub program_counter_writer: CpuRegisterDataWriter,
    pub increment_cmd: IncrementCmd,
}

impl InstructionReader {
    /// Both wires stay pointed at the program-counter register.
    pub open spec fn wf(self) -> bool {
        &&& self.program_counter_reader matches CpuRegisterDataReader::Active {
            source,
            value: _,
        } && source == PROGRAM_COUNTER_REGISTER_ADDR
        &&& self.program_counter_writer matches CpuRegisterDataWriter::Connected {
            target,
            value: _,
        } && target == PROGRAM_COUNTER_REGISTER_ADDR
    }

    /// The cached program-counter word, if this tick's read has been
    /// satisfied.
    pub open spec fn spec_pc(self) -> Option<Word> {
        self.program_counter_reader.spec_read()
    }

    pub fn new() -> (r: InstructionReader)
        ensures
            r == (InstructionReader {
                program_counter_reader: CpuRegisterDataReader::Active {
                    source: PROGRAM_COUNTER_REGISTER_ADDR,
                    value: None,
                },
                program_counter_writer: CpuRegisterDataWriter::Connected {
                    target: PROGRAM_COUNTER_REGISTER_ADDR,
                    value: None,
                },
                increment_cmd: IncrementCmd::NoIncrement,
            }),
            r.wf(),
    {
        let mut program_counter_reader = CpuRegisterDataReader::new();
        program_counter_reader.set_connection(Some(PROGRAM_COUNTER_REGISTER_ADDR));
        let mut program_counter_writer = CpuRegisterDataWriter::new();
        program_counter_writer.set_connection(Some(PROGRAM_COUNTER_REGISTER_ADDR));
        InstructionReader {
            program_counter_reader,
            program_counter_writer,
            increment_cmd: IncrementCmd::NoIncrement,
        }
    }

    /// The instruction the cached program counter points at, or None when
    /// the counter is negative or past the program's end.
    pub fn read(&self, memory: &InstructionMemory) -> (r: Option<Instruction>)
        requires
            self.spec_pc() is Some,
        ensures
            r == Self::spec_instruction_at(self.spec_pc()->0, memory.instructions@),
    {
        let pc = match self.program_counter_reader.read() {
            Some(pc) => pc,
            None => {
                return None;
            },
        };
        if pc < 0 {
            return None;
        }
        memory.get(pc as usize)
    }

    /// The instruction a program-counter value selects.
    pub open spec fn spec_instruction_at(pc: Word, program: Seq<Instruction>) -> Option<
        Instruction,
    > {
        if 0 <= pc < program.len() {
            Some(program[pc as int])
        } else {
            None
        }
    }

    /// The index of the current instruction, when the cached counter
    /// names one.
    pub fn get_instruction_pos(&self) -> (r: Option<usize>)
        ensures
            r == match self.spec_pc() {
                Some(pc) => if pc >= 0 {
                    Some(pc as usize)
                } else {
                    None::<usize>
                },
                None => None::<usize>,
            },
    {
        match self.program_counter_reader.read() {
            Some(pc) => if pc >= 0 {
                Some(pc as usize)
            } else {
                None
            },
            None => None,
        }
    }

    pub fn set_increment_cmd(&mut self, cmd: IncrementCmd)
        ensures
            *final(self) == (InstructionReader { increment_cmd: cmd, ..*old(self) }),
    {
        self.increment_cmd = cmd;
    }

    /// The program-counter writer after the increment command is applied:
    /// Increment stores the successor of the cached counter, GoTo stores
    /// its target, NoIncrement clears any pending write.
    pub open spec fn spec_writer_after_step(self) -> CpuRegisterDataWriter {
        match self.increment_cmd {
            IncrementCmd::Increment => self.program_counter_writer.spec_after_write(
                (self.spec_pc()->0 + 1) as Word,
            ),
            IncrementCmd::NoIncrement => self.program_counter_writer.spec_after_clear(),
            IncrementCmd::GoTo(addr) => self.program_counter_writer.spec_after_write(addr),
        }
    }

    /// Apply the increment command to the program-counter writer.
    pub fn step(&mut self)
        requires
            old(self).increment_cmd is Increment ==> (old(self).spec_pc() matches Some(pc)
                && pc < i32::MAX),
        ensures
            *final(self) == (InstructionReader {
                program_counter_writer: old(self).spec_writer_after_step(),
                ..*old(self)
            }),
    {
        match self.increment_cmd {
            IncrementCmd::Increment => {
                let pc = match self.program_counter_reader.read() {
                    Some(pc) => pc,
                    None => 0,
                };
                self.program_counter_writer.write(pc + 1);
            },
            IncrementCmd::NoIncrement => {
                self.program_counter_writer.clear();
            },
            IncrementCmd::GoTo(addr) => {
                self.program_counter_writer.write(addr);
            },
        }
    }
}

} // verus!
