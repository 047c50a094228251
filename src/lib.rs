//! An interpreter core for the MCS-51 (8051) instruction set: a decoder, an
//! operand resolver over the four 8051 address spaces, and an execute engine,
//! each specified against a mathematical model of the machine.
//!
//! - `types`: addresses, registers, operand forms, instructions and errors.
//! - `memory`: the `Memory` collaborator, modelled by the bytes it holds, and
//!   `FlatMemory`, an array-backed implementation.
//! - `semantics`: the register file and the model of operand loads and stores.
//! - `cpu`: the core and its operand resolver.
//! - `decode`: the opcode map.
//! - `execute`: the model of each instruction and the engine that runs them.
//! - `theorems`: facts about the model that relate several operations.

pub mod cpu;
pub mod decode;
pub mod execute;
pub mod memory;
pub mod semantics;
pub mod theorems;
pub mod types;

pub use cpu::CPU;
pub use decode::{decode, instruction_size};
pub use memory::{FlatMemory, Memory};
pub use semantics::Registers;
pub use types::{Address, AddressingMode, Error, Instruction, Register, register_from_opcode};
