//! The instruction set the controller sequences.

use vstd::prelude::*;

use crate::simulation::cpu_registers::{CpuRegisterAddress, REGISTER_COUNT};
use crate::simulation::talu::{spec_op_addrs_ok, TaluAddress, TALU_COUNT};
use crate::simulation::talu_op::TaluOperation;
use crate::word::Word;

verus! {

pub const CONTROLLER_INSTRUCTION_SIZE: usize = 64;

#[derive(Clone, Copy, PartialEq, Eq, Debug, Structural)]
pub enum Instruction {
    SetTaluConfig { talu_addr: TaluAddress, talu_config: TaluOperation },
    ResetAllTalus,
    SetLiteral { literal: Word, reg_addr: CpuRegisterAddress },
    WaitForActivationSignal { register_index: CpuRegisterAddress },
    Jump { addr: Word },
    NoOp,
}

#[derive(Clone, Copy, PartialEq, Eq, Debug, Hash, Structural)]
pub enum HorizontalDir {
    Left,
    Right,
}

/// A well-formed instruction: every address it names stays within its
/// bank, and any operation it installs is supported.
pub open spec fn spec_instruction_ok(i: Instruction) -> bool {
    match i {
        Instruction::SetTaluConfig { talu_addr, talu_config } => {
            &&& talu_addr < TALU_COUNT
            &&& talu_config.spec_is_supported()
            &&& spec_op_addrs_ok(talu_config)
        },
        Instruction::SetLiteral { literal: _, reg_addr } => reg_addr < REGISTER_COUNT,
        Instruction::WaitForActivationSignal { register_index } => register_index < REGISTER_COUNT,
        _ => true,
    }
}

} // verus!
