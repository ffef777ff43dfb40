//! Instruction interpreter for the MOS 6502 variant found in the NES.
//!
//! The crate models the register file, the packed status byte, a flat
//! 64 KiB memory and the fetch-decode-execute step, and proves that the
//! executable interpreter agrees with a mathematical description of the
//! machine.

pub mod cpu;
pub mod error;
pub mod instructions;
pub mod interpreter;
pub mod laws;
pub mod machine;
pub mod nes;
pub mod status;
