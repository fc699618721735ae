//! An execution-unit emulator for an 8-bit accumulator-based microprocessor
//! of the 6502 family.
//!
//! The crate models the architectural state of the processor — three 8-bit
//! registers, an 8-bit status word, a 16-bit program counter and a flat
//! byte-addressable memory — and runs the fetch-decode-execute cycle over it.
//! Every state transition is specified against a pure model of the machine
//! (see [`machine`]) and verified.

pub mod cpu;
pub mod flags;
pub mod machine;
pub mod opcode;

pub use cpu::CPU;
pub use flags::CpuFlags;
pub use machine::{Machine, ResolvedOperand};
pub use opcode::{AddressingMode, EmmulationHelpers, OpCode, OpCodeCat};
