//! TALU operations: the tagged union of everything a TALU can be
//! configured to compute, the port wiring each variant implies, and the
//! word-level semantics of each computation.

use vstd::prelude::*;

use crate::simulation::cpu_registers::CpuRegisterAddress;
use crate::word::{spec_bool_to_word, Word};

verus! {

#[derive(Clone, Copy, PartialEq, Eq, Debug, Structural)]
pub enum CmpOp {
    LessThan,
    LessThanOrEq,
    GreaterThan,
    GreaterThanOrEq,
    Equal,
    NotEqual,
}

/// A TALU operation.  Each variant names the register addresses that feed
/// its ports; `None` leaves the port disabled.
#[derive(Clone, Copy, PartialEq, Eq, Debug, Structural)]
pub enum TaluOperation {
    NoOp,
    Mov {
        activation_input: CpuRegisterAddress,
        value_input: CpuRegisterAddress,
        data_output: CpuRegisterAddress,
        activation_output: Option<CpuRegisterAddress>,
    },
    Cmp {
        op: CmpOp,
        activation_input: CpuRegisterAddress,
        data_input_0: CpuRegisterAddress,
        data_input_1: CpuRegisterAddress,
        data_output: CpuRegisterAddress,
        activation_output: Option<CpuRegisterAddress>,
    },
    Latch {
        activation_input: CpuRegisterAddress,
        data_input_0: CpuRegisterAddress,
        data_input_1: CpuRegisterAddress,
        data_output_0: CpuRegisterAddress,
        activation_output: Option<CpuRegisterAddress>,
    },
    Not {
        activation_input: CpuRegisterAddress,
        data_input_0: CpuRegisterAddress,
        data_output_0: CpuRegisterAddress,
        activation_output: Option<CpuRegisterAddress>,
    },
    And {
        activation_input: CpuRegisterAddress,
        data_input_0: CpuRegisterAddress,
        data_input_1: CpuRegisterAddress,
        data_output_0: CpuRegisterAddress,
        activation_output: Option<CpuRegisterAddress>,
    },
    Or {
        activation_input: CpuRegisterAddress,
        data_input_0: CpuRegisterAddress,
        data_input_1: CpuRegisterAddress,
        data_output_0: CpuRegisterAddress,
        activation_output: Option<CpuRegisterAddress>,
    },
    Xor {
        activation_input: CpuRegisterAddress,
        data_input_0: CpuRegisterAddress,
        data_input_1: CpuRegisterAddress,
        data_output_0: CpuRegisterAddress,
        activation_output: Option<CpuRegisterAddress>,
    },
    ShiftLeft {
        activation_input: CpuRegisterAddress,
        data_input_0: CpuRegisterAddress,
        data_input_1: CpuRegisterAddress,
        data_output_0: CpuRegisterAddress,
        activation_output: Option<CpuRegisterAddress>,
    },
    ShiftRight {
        activation_input: CpuRegisterAddress,
        data_input_0: CpuRegisterAddress,
        data_input_1: CpuRegisterAddress,
        data_output_0: CpuRegisterAddress,
        activation_output: Option<CpuRegisterAddress>,
    },
    SelectPart {
        activation_input: CpuRegisterAddress,
        data_input_0: CpuRegisterAddress,
        data_input_1: CpuRegisterAddress,
        data_output_0: CpuRegisterAddress,
        activation_output: Option<CpuRegisterAddress>,
    },
    Add {
        activation_input: CpuRegisterAddress,
        data_input_0: CpuRegisterAddress,
        data_input_1: CpuRegisterAddress,
        result_output: CpuRegisterAddress,
        flags_output: Option<CpuRegisterAddress>,
        activation_output: Option<CpuRegisterAddress>,
    },
    Sub {
        activation_input: CpuRegisterAddress,
        data_input_0: CpuRegisterAddress,
        data_input_1: CpuRegisterAddress,
        result_output: CpuRegisterAddress,
        flags_output: Option<CpuRegisterAddress>,
        activation_output: Option<CpuRegisterAddress>,
    },
    Mul {
        activation_input: CpuRegisterAddress,
        data_input_0: CpuRegisterAddress,
        data_input_1: CpuRegisterAddress,
        result_output: CpuRegisterAddress,
        second_word_output: Option<CpuRegisterAddress>,
        activation_output: Option<CpuRegisterAddress>,
    },
    Div {
        activation_input: CpuRegisterAddress,
        data_input_0: CpuRegisterAddress,
        data_input_1: CpuRegisterAddress,
        data_output_0: Option<CpuRegisterAddress>,
        data_output_1: Option<CpuRegisterAddress>,
        div_by_zero_flag_output: Option<CpuRegisterAddress>,
        activation_output: Option<CpuRegisterAddress>,
    },
    Rem {
        activation_input: CpuRegisterAddress,
        data_input_0: CpuRegisterAddress,
        data_input_1: CpuRegisterAddress,
        data_output_0: Option<CpuRegisterAddress>,
        data_output_1: Option<CpuRegisterAddress>,
        div_by_zero_flag_output: Option<CpuRegisterAddress>,
        activation_output: Option<CpuRegisterAddress>,
    },
    Neg {
        activation_input: CpuRegisterAddress,
        data_input_0: CpuRegisterAddress,
        data_output_0: CpuRegisterAddress,
        activation_output: Option<CpuRegisterAddress>,
    },
    ReadFromMem {
        activation_input: CpuRegisterAddress,
        data_input_0: CpuRegisterAddress,
        data_output_0: CpuRegisterAddress,
        activation_output: Option<CpuRegisterAddress>,
    },
    WriteToMem {
        activation_input: CpuRegisterAddress,
        data_input: CpuRegisterAddress,
        address_input: CpuRegisterAddress,
        activation_output: Option<CpuRegisterAddress>,
    },
}

/// The register address feeding each of a TALU's six data and activation
/// ports, as an operation configures them.
#[derive(Clone, Copy, PartialEq, Eq, Debug, Structural)]
pub struct TaluPortsConfig {
    pub data_input_0: Option<CpuRegisterAddress>,
    pub data_input_1: Option<CpuRegisterAddress>,
    pub activation_input: Option<CpuRegisterAddress>,
    pub data_output_0: Option<CpuRegisterAddress>,
    pub data_output_1: Option<CpuRegisterAddress>,
    pub activation_output: Option<CpuRegisterAddress>,
}

impl TaluOperation {
    /// The port wiring the operation implies: which register feeds each
    /// port, with disabled ports left unwired.
    pub open spec fn spec_ports_config(self) -> TaluPortsConfig {
        match self {
            TaluOperation::NoOp => TaluPortsConfig {
                data_input_0: None,
                data_input_1: None,
                activation_input: None,
                data_output_0: None,
                data_output_1: None,
                activation_output: None,
            },
            TaluOperation::Mov { activation_input, value_input, data_output, activation_output } => TaluPortsConfig {
                data_input_0: Some(value_input),
                data_input_1: None,
                activation_input: Some(activation_input),
                data_output_0: Some(data_output),
                data_output_1: None,
                activation_output,
            },
            TaluOperation::Cmp {
                op: _,
                activation_input,
                data_input_0,
                data_input_1,
                data_output,
                activation_output,
            } => TaluPortsConfig {
                data_input_0: Some(data_input_0),
                data_input_1: Some(data_input_1),
                activation_input: Some(activation_input),
                data_output_0: Some(data_output),
                data_output_1: None,
                activation_output,
            },
            TaluOperation::Latch {
                activation_input,
                data_input_0,
                data_input_1,
                data_output_0,
                activation_output,
            } => TaluPortsConfig {
                data_input_0: Some(data_input_0),
                data_input_1: Some(data_input_1),
                activation_input: Some(activation_input),
                data_output_0: Some(data_output_0),
                data_output_1: None,
                activation_output,
            },
            TaluOperation::Not { activation_input, data_input_0, data_output_0, activation_output } => TaluPortsConfig {
                data_input_0: Some(data_input_0),
                data_input_1: None,
                activation_input: Some(activation_input),
                data_output_0: Some(data_output_0),
                data_output_1: None,
                activation_output,
            },
            TaluOperation::And {
                activation_input,
                data_input_0,
                data_input_1,
                data_output_0,
                activation_output,
            } => TaluPortsConfig {
                data_input_0: Some(data_input_0),
                data_input_1: Some(data_input_1),
                activation_input: Some(activation_input),
                data_output_0: Some(data_output_0),
                data_output_1: None,
                activation_output,
            },
            TaluOperation::Or {
                activation_input,
                data_input_0,
                data_input_1,
                data_output_0,
                activation_output,
            } => TaluPortsConfig {
                data_input_0: Some(data_input_0),
                data_input_1: Some(data_input_1),
                activation_input: Some(activation_input),
                data_output_0: Some(data_output_0),
                data_output_1: None,
                activation_output,
            },
            TaluOperation::Xor {
                activation_input,
                data_input_0,
                data_input_1,
                data_output_0,
                activation_output,
            } => TaluPortsConfig {
                data_input_0: Some(data_input_0),
                data_input_1: Some(data_input_1),
                activation_input: Some(activation_input),
                data_output_0: Some(data_output_0),
                data_output_1: None,
                activation_output,
            },
            TaluOperation::ShiftLeft {
                activation_input,
                data_input_0,
                data_input_1,
                data_output_0,
                activation_output,
            } => TaluPortsConfig {
                data_input_0: Some(data_input_0),
                data_input_1: Some(data_input_1),
                activation_input: Some(activation_input),
                data_output_0: Some(data_output_0),
                data_output_1: None,
                activation_output,
            },
            TaluOperation::ShiftRight {
                activation_input,
                data_input_0,
                data_input_1,
                data_output_0,
                activation_output,
            } => TaluPortsConfig {
                data_input_0: Some(data_input_0),
                data_input_1: Some(data_input_1),
                activation_input: Some(activation_input),
                data_output_0: Some(data_output_0),
                data_output_1: None,
                activation_output,
            },
            TaluOperation::SelectPart {
                activation_input,
                data_input_0,
                data_input_1,
                data_output_0,
                activation_output,
            } => TaluPortsConfig {
                data_input_0: Some(data_input_0),
                data_input_1: Some(data_input_1),
                activation_input: Some(activation_input),
                data_output_0: Some(data_output_0),
                data_output_1: None,
                activation_output,
            },
            TaluOperation::Add {
                activation_input,
                data_input_0,
                data_input_1,
                result_output,
                flags_output,
                activation_output,
            } => TaluPortsConfig {
                data_input_0: Some(data_input_0),
                data_input_1: Some(data_input_1),
                activation_input: Some(activation_input),
                data_output_0: Some(result_output),
                data_output_1: flags_output,
                activation_output,
            },
            TaluOperation::Sub {
                activation_input,
                data_input_0,
                data_input_1,
                result_output,
                flags_output,
                activation_output,
            } => TaluPortsConfig {
                data_input_0: Some(data_input_0),
                data_input_1: Some(data_input_1),
                activation_input: Some(activation_input),
                data_output_0: Some(result_output),
                data_output_1: flags_output,
                activation_output,
            },
            TaluOperation::Mul {
                activation_input,
                data_input_0,
                data_input_1,
                result_output,
                second_word_output,
                activation_output,
            } => TaluPortsConfig {
                data_input_0: Some(data_input_0),
                data_input_1: Some(data_input_1),
                activation_input: Some(activation_input),
                data_output_0: Some(result_output),
                data_output_1: second_word_output,
                activation_output,
            },
            TaluOperation::Div {
                activation_input,
                data_input_0,
                data_input_1,
                data_output_0,
                data_output_1,
                div_by_zero_flag_output: _,
                activation_output,
            } => TaluPortsConfig {
                data_input_0: Some(data_input_0),
                data_input_1: Some(data_input_1),
                activation_input: Some(activation_input),
                data_output_0,
                data_output_1,
                activation_output,
            },
            TaluOperation::Rem {
                activation_input,
                data_input_0,
                data_input_1,
                data_output_0,
                data_output_1,
                div_by_zero_flag_output: _,
                activation_output,
            } => TaluPortsConfig {
                data_input_0: Some(data_input_0),
                data_input_1: Some(data_input_1),
                activation_input: Some(activation_input),
                data_output_0,
                data_output_1,
                activation_output,
            },
            TaluOperation::Neg { activation_input, data_input_0, data_output_0, activation_output } => TaluPortsConfig {
                data_input_0: Some(data_input_0),
                data_input_1: None,
                activation_input: Some(activation_input),
                data_output_0: Some(data_output_0),
                data_output_1: None,
                activation_output,
            },
            TaluOperation::ReadFromMem {
                activation_input,
                data_input_0,
                data_output_0,
                activation_output,
            } => TaluPortsConfig {
                data_input_0: Some(data_input_0),
                data_input_1: None,
                activation_input: Some(activation_input),
                data_output_0: Some(data_output_0),
                data_output_1: None,
                activation_output,
            },
            TaluOperation::WriteToMem {
                activation_input,
                data_input,
                address_input,
                activation_output,
            } => TaluPortsConfig {
                data_input_0: Some(data_input),
                data_input_1: Some(address_input),
                activation_input: Some(activation_input),
                data_output_0: None,
                data_output_1: None,
                activation_output,
            },
        }
    }

    pub fn get_ports_config(&self) -> (r: TaluPortsConfig)
        ensures
            r == self.spec_ports_config(),
    {
        match *self {
            TaluOperation::NoOp => TaluPortsConfig {
                data_input_0: None,
                data_input_1: None,
                activation_input: None,
                data_output_0: None,
                data_output_1: None,
                activation_output: None,
            },
            TaluOperation::Mov { activation_input, value_input, data_output, activation_output } => TaluPortsConfig {
                data_input_0: Some(value_input),
                data_input_1: None,
                activation_input: Some(activation_input),
                data_output_0: Some(data_output),
                data_output_1: None,
                activation_output,
            },
            TaluOperation::Cmp {
                op: _,
                activation_input,
                data_input_0,
                data_input_1,
                data_output,
                activation_output,
            } => TaluPortsConfig {
                data_input_0: Some(data_input_0),
                data_input_1: Some(data_input_1),
                activation_input: Some(activation_input),
                data_output_0: Some(data_output),
                data_output_1: None,
                activation_output,
            },
            TaluOperation::Latch {
                activation_input,
                data_input_0,
                data_input_1,
                data_output_0,
                activation_output,
            }
            | TaluOperation::SelectPart {
                activation_input,
                data_input_0,
                data_input_1,
                data_output_0,
                activation_output,
            }
            | TaluOperation::And {
                activation_input,
                data_input_0,
                data_input_1,
                data_output_0,
                activation_output,
            }
            | TaluOperation::Or {
                activation_input,
                data_input_0,
                data_input_1,
                data_output_0,
                activation_output,
            }
            | TaluOperation::Xor {
                activation_input,
                data_input_0,
                data_input_1,
                data_output_0,
                activation_output,
            }
            | TaluOperation::ShiftLeft {
                activation_input,
                data_input_0,
                data_input_1,
                data_output_0,
                activation_output,
            }
            | TaluOperation::ShiftRight {
                activation_input,
                data_input_0,
                data_input_1,
                data_output_0,
                activation_output,
            } => TaluPortsConfig {
                data_input_0: Some(data_input_0),
                data_input_1: Some(data_input_1),
                activation_input: Some(activation_input),
                data_output_0: Some(data_output_0),
                data_output_1: None,
                activation_output,
            },
            TaluOperation::Not { activation_input, data_input_0, data_output_0, activation_output }
            | TaluOperation::Neg {
                activation_input,
                data_input_0,
                data_output_0,
                activation_output,
            }
            | TaluOperation::ReadFromMem {
                activation_input,
                data_input_0,
                data_output_0,
                activation_output,
            } => TaluPortsConfig {
                data_input_0: Some(data_input_0),
                data_input_1: None,
                activation_input: Some(activation_input),
                data_output_0: Some(data_output_0),
                data_output_1: None,
                activation_output,
            },
            TaluOperation::Add {
                activation_input,
                data_input_0,
                data_input_1,
                result_output,
                flags_output,
                activation_output,
            }
            | TaluOperation::Sub {
                activation_input,
                data_input_0,
                data_input_1,
                result_output,
                flags_output,
                activation_output,
            } => TaluPortsConfig {
                data_input_0: Some(data_input_0),
                data_input_1: Some(data_input_1),
                activation_input: Some(activation_input),
                data_output_0: Some(result_output),
                data_output_1: flags_output,
                activation_output,
            },
            TaluOperation::Mul {
                activation_input,
                data_input_0,
                data_input_1,
                result_output,
                second_word_output,
                activation_output,
            } => TaluPortsConfig {
                data_input_0: Some(data_input_0),
                data_input_1: Some(data_input_1),
                activation_input: Some(activation_input),
                data_output_0: Some(result_output),
                data_output_1: second_word_output,
                activation_output,
            },
            TaluOperation::Div {
                activation_input,
                data_input_0,
                data_input_1,
                data_output_0,
                data_output_1,
                div_by_zero_flag_output: _,
                activation_output,
            }
            | TaluOperation::Rem {
                activation_input,
                data_input_0,
                data_input_1,
                data_output_0,
                data_output_1,
                div_by_zero_flag_output: _,
                activation_output,
            } => TaluPortsConfig {
                data_input_0: Some(data_input_0),
                data_input_1: Some(data_input_1),
                activation_input: Some(activation_input),
                data_output_0,
                data_output_1,
                activation_output,
            },
            TaluOperation::WriteToMem {
                activation_input,
                data_input,
                address_input,
                activation_output,
            } => TaluPortsConfig {
                data_input_0: Some(data_input),
                data_input_1: Some(address_input),
                activation_input: Some(activation_input),
                data_output_0: None,
                data_output_1: None,
                activation_output,
            },
        }
    }

    /// The Latch and SelectPart variants are stubs pending specification;
    /// every other variant is fully defined.
    pub open spec fn spec_is_supported(self) -> bool {
        !(self is Latch || self is SelectPart)
    }

    pub fn is_supported(&self) -> (r: bool)
        ensures
            r == self.spec_is_supported(),
    {
        !matches!(self, TaluOperation::Latch { .. } | TaluOperation::SelectPart { .. })
    }
}

/// The boolean a comparison operation computes.
pub open spec fn spec_cmp_eval(op: CmpOp, a: Word, b: Word) -> bool {
    match op {
        CmpOp::LessThan => a < b,
        CmpOp::LessThanOrEq => a <= b,
        CmpOp::GreaterThan => a > b,
        CmpOp::GreaterThanOrEq => a >= b,
        CmpOp::Equal => a == b,
        CmpOp::NotEqual => a != b,
    }
}

pub fn cmp_eval(op: CmpOp, a: Word, b: Word) -> (r: Word)
    ensures
        r == spec_bool_to_word(spec_cmp_eval(op, a, b)),
{
    let res = match op {
        CmpOp::LessThan => a < b,
        CmpOp::LessThanOrEq => a <= b,
        CmpOp::GreaterThan => a > b,
        CmpOp::GreaterThanOrEq => a >= b,
        CmpOp::Equal => a == b,
        CmpOp::NotEqual => a != b,
    };
    if res {
        -1
    } else {
        0
    }
}

/// A shift counts only the low five bits of its amount, as the machine
/// shift does.
pub open spec fn spec_shift_amount(b: Word) -> u32 {
    (b & 31) as u32
}

/// Left shift of a word by the masked amount.
pub open spec fn spec_word_shl(a: Word, b: Word) -> Word {
    vstd::wrapping::i32_specs::wrapping_shl(a, spec_shift_amount(b))
}

/// Arithmetic right shift of a word by the masked amount.
pub open spec fn spec_word_shr(a: Word, b: Word) -> Word {
    vstd::wrapping::i32_specs::wrapping_shr(a, spec_shift_amount(b))
}

pub fn word_shl(a: Word, b: Word) -> (r: Word)
    ensures
        r == spec_word_shl(a, b),
{
    let masked: i32 = b & 31;
    proof {
        assert(0 <= b & 31i32 < 32) by (bit_vector);
    }
    a.wrapping_shl(masked as u32)
}

pub fn word_shr(a: Word, b: Word) -> (r: Word)
    ensures
        r == spec_word_shr(a, b),
{
    let masked: i32 = b & 31;
    proof {
        assert(0 <= b & 31i32 < 32) by (bit_vector);
    }
    a.wrapping_shr(masked as u32)
}

/// The low word of a signed sum.
pub open spec fn spec_word_add(a: Word, b: Word) -> Word {
    vstd::wrapping::i32_specs::wrapping_add(a, b)
}

/// Whether a signed sum overflows the word.
pub open spec fn spec_add_overflows(a: Word, b: Word) -> bool {
    a + b > i32::MAX || a + b < i32::MIN
}

pub fn word_add(a: Word, b: Word) -> (r: (Word, bool))
    ensures
        r.0 == spec_word_add(a, b),
        r.1 == spec_add_overflows(a, b),
{
    let sum = a.wrapping_add(b);
    let overflow = (a as i64) + (b as i64) != (sum as i64);
    (sum, overflow)
}

/// The low word of a signed difference.
pub open spec fn spec_word_sub(a: Word, b: Word) -> Word {
    vstd::wrapping::i32_specs::wrapping_sub(a, b)
}

/// Whether a signed difference overflows the word.
pub open spec fn spec_sub_overflows(a: Word, b: Word) -> bool {
    a - b > i32::MAX || a - b < i32::MIN
}

pub fn word_sub(a: Word, b: Word) -> (r: (Word, bool))
    ensures
        r.0 == spec_word_sub(a, b),
        r.1 == spec_sub_overflows(a, b),
{
    let diff = a.wrapping_sub(b);
    let overflow = (a as i64) - (b as i64) != (diff as i64);
    (diff, overflow)
}

/// The low word of a signed product.
pub open spec fn spec_word_mul(a: Word, b: Word) -> Word {
    vstd::wrapping::i32_specs::wrapping_mul(a, b)
}

/// The high word of the widening signed product.
pub open spec fn spec_word_mul_high(a: Word, b: Word) -> Word {
    ((a * b) / 0x1_0000_0000) as i32
}

pub fn word_mul(a: Word, b: Word) -> (r: Word)
    ensures
        r == spec_word_mul(a, b),
{
    a.wrapping_mul(b)
}

pub fn word_mul_wide(a: Word, b: Word) -> (r: (Word, Word))
    ensures
        r.0 == spec_word_mul(a, b),
        r.1 == spec_word_mul_high(a, b),
{
    proof {
        assert((a as int) * (b as int) <= 0x4000_0000_0000_0000 && (a as int) * (b as int)
            >= -0x4000_0000_0000_0000) by (nonlinear_arith)
            requires
                -0x8000_0000 <= a <= 0x7FFF_FFFF,
                -0x8000_0000 <= b <= 0x7FFF_FFFF,
        ;
    }
    let prod: i64 = (a as i64) * (b as i64);
    let low = a.wrapping_mul(b);
    let high_wide = match prod.checked_div_euclid(0x1_0000_0000i64) {
        Some(q) => q,
        None => 0,
    };
    proof {
        assert(high_wide == (a * b) / 0x1_0000_0000);
        assert(-0x8000_0000 <= high_wide <= 0x7FFF_FFFF);
    }
    let high = high_wide as i32;
    (low, high)
}

/// Truncating division on mathematical integers, as the machine divide
/// rounds: toward zero.
pub open spec fn spec_trunc_div(x: int, d: int) -> int {
    if x >= 0 && d > 0 {
        x / d
    } else if x <= 0 && d < 0 {
        (x * -1) / (d * -1)
    } else if x <= 0 {
        ((x * -1) / d) * -1
    } else {
        (x / (d * -1)) * -1
    }
}

/// Truncating remainder on mathematical integers: the sign follows the
/// dividend.
pub open spec fn spec_trunc_rem(x: int, d: int) -> int {
    if x >= 0 && d > 0 {
        x % d
    } else if x <= 0 && d < 0 {
        ((x * -1) % (d * -1)) * -1
    } else if x <= 0 {
        ((x * -1) % d) * -1
    } else {
        x % (d * -1)
    }
}

/// The machine quotient: truncating division, wrapping on the one
/// overflowing pair.
pub open spec fn spec_word_div(a: Word, b: Word) -> Word
    recommends
        b != 0,
{
    if a == i32::MIN && b == -1 {
        i32::MIN
    } else {
        spec_trunc_div(a as int, b as int) as i32
    }
}

/// The machine remainder: truncating remainder, zero on the one
/// overflowing pair.
pub open spec fn spec_word_rem(a: Word, b: Word) -> Word
    recommends
        b != 0,
{
    if a == i32::MIN && b == -1 {
        0
    } else {
        spec_trunc_rem(a as int, b as int) as i32
    }
}

/// The truncating quotient of two words stays within the word range, and
/// reaches the out-of-range value only on the minimum word divided by
/// minus one.
proof fn lemma_trunc_div_in_range(x: int, d: int)
    requires
        d != 0,
        -0x8000_0000 <= x <= 0x7FFF_FFFF,
        -0x8000_0000 <= d <= 0x7FFF_FFFF,
    ensures
        -0x8000_0000 <= spec_trunc_div(x, d) <= 0x8000_0000,
        spec_trunc_div(x, d) == 0x8000_0000 ==> (x == -0x8000_0000 && d == -1),
{
    broadcast use vstd::arithmetic::div_mod::lemma_div_pos_is_pos;
    broadcast use vstd::arithmetic::div_mod::lemma_div_nonincreasing;

    if x >= 0 && d > 0 {
    } else if x <= 0 && d < 0 {
        let y = x * -1;
        let m = d * -1;
        assert(0 <= y / m <= y);
        if y / m == 0x8000_0000 {
            assert(y == 0x8000_0000);
            if m >= 2 {
                vstd::arithmetic::div_mod::lemma_div_is_ordered_by_denominator(y, 2, m);
                assert(y / 2 == 0x4000_0000);
                assert(false);
            }
        }
    } else if x <= 0 {
        assert(0 <= (x * -1) / d <= x * -1);
    } else {
        assert(0 <= x / (d * -1) <= x);
    }
}

pub fn word_div(a: Word, b: Word) -> (r: Word)
    requires
        b != 0,
    ensures
        r == spec_word_div(a, b),
{
    let r = match a.checked_div(b) {
        Some(q) => q,
        None => i32::MIN,
    };
    proof {
        lemma_trunc_div_in_range(a as int, b as int);
        if a == i32::MIN && b == -1 {
            vstd::arithmetic::div_mod::lemma_div_basics(0x8000_0000int);
        } else if a == 0 {
            vstd::arithmetic::div_mod::lemma_div_of0(b as int);
            if b < 0 {
                vstd::arithmetic::div_mod::lemma_div_of0((b as int) * -1);
            }
        }
    }
    r
}

/// The truncating remainder of two words always stays within the word
/// range.
proof fn lemma_trunc_rem_in_range(x: int, d: int)
    requires
        d != 0,
        -0x8000_0000 <= x <= 0x7FFF_FFFF,
        -0x8000_0000 <= d <= 0x7FFF_FFFF,
    ensures
        -0x8000_0000 < spec_trunc_rem(x, d) < 0x8000_0000,
{
    broadcast use vstd::arithmetic::div_mod::lemma_mod_bound;

    if x >= 0 && d > 0 {
        assert(0 <= x % d < d);
    } else if x <= 0 && d < 0 {
        assert(0 <= (x * -1) % (d * -1) < d * -1);
    } else if x <= 0 {
        assert(0 <= (x * -1) % d < d);
    } else {
        assert(0 <= x % (d * -1) < d * -1);
    }
}

pub fn word_rem(a: Word, b: Word) -> (r: Word)
    requires
        b != 0,
    ensures
        r == spec_word_rem(a, b),
{
    let r = match a.checked_rem(b) {
        Some(q) => q,
        None => 0,
    };
    proof {
        lemma_trunc_rem_in_range(a as int, b as int);
        if !(a == i32::MIN && b == -1) && a == 0 {
            vstd::arithmetic::div_mod::lemma_small_mod(
                0,
                if b > 0 {
                    b as nat
                } else {
                    ((b as int) * -1) as nat
                },
            );
        }
    }
    r
}

/// Arithmetic negation, wrapping on the minimum word.
pub open spec fn spec_word_neg(a: Word) -> Word {
    if a == i32::MIN {
        i32::MIN
    } else {
        (-a) as i32
    }
}

pub fn word_neg(a: Word) -> (r: Word)
    ensures
        r == spec_word_neg(a),
{
    if a == i32::MIN {
        i32::MIN
    } else {
        -a
    }
}

} // verus!
