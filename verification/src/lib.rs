//! A MOS 6502 processor, as used in the NES, with its instruction set
//! verified against a mathematical model of the machine state.

pub mod cpu;
pub mod opcodes;
