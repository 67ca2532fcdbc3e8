use vstd::prelude::*;

use crate::cpu::model::CpuState;

verus! {

/// Status bit 0: carry.
pub const FLAG_CARRY: u8 = 0b0000_0001;
/// Status bit 1: zero.
pub const FLAG_ZERO: u8 = 0b0000_0010;
/// Status bit 2: interrupt disable.
pub const FLAG_INTERRUPT_DISABLE: u8 = 0b0000_0100;
/// Status bit 3: decimal mode.
pub const FLAG_DECIMAL: u8 = 0b0000_1000;
/// Status bit 4: break.
pub const FLAG_B: u8 = 0b0001_0000;
/// Status bit 6: overflow.
pub const FLAG_OVERFLOW: u8 = 0b0100_0000;
/// Status bit 7: negative.
pub const FLAG_NEGATIVE: u8 = 0b1000_0000;

/// The stack lives in page one: the stack pointer is the low byte of its top.
pub const STACK_BASE: u16 = 0x0100;

/// The processor: registers, status flags and 0xFFFF bytes of memory
/// (addresses 0x0000 through 0xFFFE).
pub struct CPU {
    pub register_a: u8,
    pub register_x: u8,
    pub register_y: u8,
    pub status: u8,
    pub program_counter: u16,
    pub sp: u8,
    pub memory: [u8; 0xFFFF],
    /// Cleared by `new`; no operation of the processor changes it.
    pub halted: bool,
}

/// How an instruction finds its operand.
#[derive(Debug, Clone, Copy, PartialEq, Eq)]
#[allow(non_camel_case_types)]
pub enum AddressingMode {
    Immediate,
    ZeroPage,
    ZeroPage_X,
    ZeroPage_Y,
    Absolute,
    Absolute_X,
    Absolute_Y,
    Indirect,
    Indirect_X,
    Indirect_Y,
    Accumulator,
    Relative,
    NoneAddressing,
}

impl View for CPU {
    type V = CpuState;

    open spec fn view(&self) -> CpuState {
        CpuState {
            a: self.register_a,
            x: self.register_x,
            y: self.register_y,
            status: self.status,
            pc: self.program_counter,
            sp: self.sp,
            mem: self.memory@,
            halted: self.halted,
        }
    }
}

} // verus!
