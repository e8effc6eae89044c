//! The per-tick execution engine: register bank, main memory, TALU bank,
//! controller, and the CPU tick that wires them together.

pub mod component_bank;
pub mod cpu_registers;
pub mod controller;
pub mod cpu;
pub mod instruction;
pub mod instruction_reader;
pub mod main_memory;
pub mod talu;
pub mod talu_op;
