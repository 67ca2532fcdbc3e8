use vstd::prelude::*;

use crate::cpu::state::AddressingMode;

verus! {

/// A row of the opcode table: the opcode byte, its mnemonic, the length of
/// the instruction in bytes, its base cycle count and its addressing mode.
pub struct OpCode {
    pub code: u8,
    pub mnemonic: &'static str,
    pub len: u8,
    pub cycles: u8,
    pub mode: AddressingMode,
}

impl OpCode {
    pub fn new(code: u8, mnemonic: &'static str, len: u8, cycles: u8, mode: AddressingMode) -> (r:
        Self)
        ensures
            r == (OpCode { code, mnemonic, len, cycles, mode }),
    {
        OpCode { code: code, mnemonic: mnemonic, len: len, cycles: cycles, mode: mode }
    }
}

/// The opcode table: every one of the 256 opcode bytes, the documented
/// instructions and the undocumented ones, has a row.
pub open spec fn opcode_spec(code: u8) -> OpCode {
    match code / 16 {
        0 => opcode_row_0(code),
        1 => opcode_row_1(code),
        2 => opcode_row_2(code),
        3 => opcode_row_3(code),
        4 => opcode_row_4(code),
        5 => opcode_row_5(code),
        6 => opcode_row_6(code),
        7 => opcode_row_7(code),
        8 => opcode_row_8(code),
        9 => opcode_row_9(code),
        10 => opcode_row_a(code),
        11 => opcode_row_b(code),
        12 => opcode_row_c(code),
        13 => opcode_row_d(code),
        14 => opcode_row_e(code),
        _ => opcode_row_f(code),
    }
}

/// The rows of the opcode table for the codes 0x00 through 0x0F.
pub open spec fn opcode_row_0(code: u8) -> OpCode {
    match code {
        0x00 => OpCode { code: 0x00, mnemonic: "BRK", len: 1, cycles: 7, mode: AddressingMode::NoneAddressing },
        0x01 => OpCode { code: 0x01, mnemonic: "ORA", len: 2, cycles: 6, mode: AddressingMode::Indirect_X },
        0x02 => OpCode { code: 0x02, mnemonic: "KIL", len: 1, cycles: 0, mode: AddressingMode::NoneAddressing },
        0x03 => OpCode { code: 0x03, mnemonic: "SLO", len: 2, cycles: 8, mode: AddressingMode::Indirect_X },
        0x04 => OpCode { code: 0x04, mnemonic: "DOP", len: 2, cycles: 3, mode: AddressingMode::ZeroPage },
        0x05 => OpCode { code: 0x05, mnemonic: "ORA", len: 2, cycles: 3, mode: AddressingMode::ZeroPage },
        0x06 => OpCode { code: 0x06, mnemonic: "ASL", len: 2, cycles: 5, mode: AddressingMode::ZeroPage },
        0x07 => OpCode { code: 0x07, mnemonic: "SLO", len: 2, cycles: 5, mode: AddressingMode::ZeroPage },
        0x08 => OpCode { code: 0x08, mnemonic: "PHP", len: 1, cycles: 3, mode: AddressingMode::NoneAddressing },
        0x09 => OpCode { code: 0x09, mnemonic: "ORA", len: 2, cycles: 2, mode: AddressingMode::Immediate },
        0x0A => OpCode { code: 0x0A, mnemonic: "ASL", len: 1, cycles: 2, mode: AddressingMode::Accumulator },
        0x0B => OpCode { code: 0x0B, mnemonic: "AAC", len: 2, cycles: 2, mode: AddressingMode::Immediate },
        0x0C => OpCode { code: 0x0C, mnemonic: "TOP", len: 3, cycles: 4, mode: AddressingMode::Absolute },
        0x0D => OpCode { code: 0x0D, mnemonic: "ORA", len: 3, cycles: 4, mode: AddressingMode::Absolute },
        0x0E => OpCode { code: 0x0E, mnemonic: "ASL", len: 3, cycles: 6, mode: AddressingMode::Absolute },
        _ => OpCode { code: 0x0F, mnemonic: "SLO", len: 3, cycles: 6, mode: AddressingMode::Absolute },
    }
}

/// The rows of the opcode table for the codes 0x10 through 0x1F.
pub open spec fn opcode_row_1(code: u8) -> OpCode {
    match code {
        0x10 => OpCode { code: 0x10, mnemonic: "BPL", len: 2, cycles: 2, mode: AddressingMode::Relative },
        0x11 => OpCode { code: 0x11, mnemonic: "ORA", len: 2, cycles: 5, mode: AddressingMode::Indirect_Y },
        0x12 => OpCode { code: 0x12, mnemonic: "KIL", len: 1, cycles: 0, mode: AddressingMode::NoneAddressing },
        0x13 => OpCode { code: 0x13, mnemonic: "SLO", len: 2, cycles: 8, mode: AddressingMode::Indirect_Y },
        0x14 => OpCode { code: 0x14, mnemonic: "DOP", len: 2, cycles: 4, mode: AddressingMode::ZeroPage_X },
        0x15 => OpCode { code: 0x15, mnemonic: "ORA", len: 2, cycles: 4, mode: AddressingMode::ZeroPage_X },
        0x16 => OpCode { code: 0x16, mnemonic: "ASL", len: 2, cycles: 6, mode: AddressingMode::ZeroPage_X },
        0x17 => OpCode { code: 0x17, mnemonic: "SLO", len: 2, cycles: 6, mode: AddressingMode::ZeroPage_X },
        0x18 => OpCode { code: 0x18, mnemonic: "CLC", len: 1, cycles: 2, mode: AddressingMode::NoneAddressing },
        0x19 => OpCode { code: 0x19, mnemonic: "ORA", len: 3, cycles: 4, mode: AddressingMode::Absolute_Y },
        0x1A => OpCode { code: 0x1A, mnemonic: "NOP", len: 1, cycles: 2, mode: AddressingMode::NoneAddressing },
        0x1B => OpCode { code: 0x1B, mnemonic: "SLO", len: 3, cycles: 7, mode: AddressingMode::Absolute_Y },
        0x1C => OpCode { code: 0x1C, mnemonic: "TOP", len: 3, cycles: 4, mode: AddressingMode::Absolute_X },
        0x1D => OpCode { code: 0x1D, mnemonic: "ORA", len: 3, cycles: 4, mode: AddressingMode::Absolute_X },
        0x1E => OpCode { code: 0x1E, mnemonic: "ASL", len: 3, cycles: 7, mode: AddressingMode::Absolute_X },
        _ => OpCode { code: 0x1F, mnemonic: "SLO", len: 3, cycles: 7, mode: AddressingMode::Absolute_X },
    }
}

/// The rows of the opcode table for the codes 0x20 through 0x2F.
pub open spec fn opcode_row_2(code: u8) -> OpCode {
    match code {
        0x20 => OpCode { code: 0x20, mnemonic: "JSR", len: 3, cycles: 6, mode: AddressingMode::Absolute },
        0x21 => OpCode { code: 0x21, mnemonic: "AND", len: 2, cycles: 6, mode: AddressingMode::Indirect_X },
        0x22 => OpCode { code: 0x22, mnemonic: "KIL", len: 1, cycles: 0, mode: AddressingMode::NoneAddressing },
        0x23 => OpCode { code: 0x23, mnemonic: "RLA", len: 2, cycles: 8, mode: AddressingMode::Indirect_X },
        0x24 => OpCode { code: 0x24, mnemonic: "BIT", len: 2, cycles: 3, mode: AddressingMode::ZeroPage },
        0x25 => OpCode { code: 0x25, mnemonic: "AND", len: 2, cycles: 3, mode: AddressingMode::ZeroPage },
        0x26 => OpCode { code: 0x26, mnemonic: "ROL", len: 2, cycles: 5, mode: AddressingMode::ZeroPage },
        0x27 => OpCode { code: 0x27, mnemonic: "RLA", len: 2, cycles: 5, mode: AddressingMode::ZeroPage },
        0x28 => OpCode { code: 0x28, mnemonic: "PLP", len: 1, cycles: 4, mode: AddressingMode::NoneAddressing },
        0x29 => OpCode { code: 0x29, mnemonic: "AND", len: 2, cycles: 2, mode: AddressingMode::Immediate },
        0x2A => OpCode { code: 0x2A, mnemonic: "ROL", len: 1, cycles: 2, mode: AddressingMode::Accumulator },
        0x2B => OpCode { code: 0x2B, mnemonic: "AAC", len: 2, cycles: 2, mode: AddressingMode::Immediate },
        0x2C => OpCode { code: 0x2C, mnemonic: "BIT", len: 3, cycles: 4, mode: AddressingMode::Absolute },
        0x2D => OpCode { code: 0x2D, mnemonic: "AND", len: 3, cycles: 4, mode: AddressingMode::Absolute },
        0x2E => OpCode { code: 0x2E, mnemonic: "ROL", len: 3, cycles: 6, mode: AddressingMode::Absolute },
        _ => OpCode { code: 0x2F, mnemonic: "RLA", len: 3, cycles: 6, mode: AddressingMode::Absolute },
    }
}

/// The rows of the opcode table for the codes 0x30 through 0x3F.
pub open spec fn opcode_row_3(code: u8) -> OpCode {
    match code {
        0x30 => OpCode { code: 0x30, mnemonic: "BMI", len: 2, cycles: 2, mode: AddressingMode::Relative },
        0x31 => OpCode { code: 0x31, mnemonic: "AND", len: 2, cycles: 5, mode: AddressingMode::Indirect_Y },
        0x32 => OpCode { code: 0x32, mnemonic: "KIL", len: 1, cycles: 0, mode: AddressingMode::NoneAddressing },
        0x33 => OpCode { code: 0x33, mnemonic: "RLA", len: 2, cycles: 8, mode: AddressingMode::Indirect_Y },
        0x34 => OpCode { code: 0x34, mnemonic: "DOP", len: 2, cycles: 4, mode: AddressingMode::ZeroPage_X },
        0x35 => OpCode { code: 0x35, mnemonic: "AND", len: 2, cycles: 4, mode: AddressingMode::ZeroPage_X },
        0x36 => OpCode { code: 0x36, mnemonic: "ROL", len: 2, cycles: 6, mode: AddressingMode::ZeroPage_X },
        0x37 => OpCode { code: 0x37, mnemonic: "RLA", len: 2, cycles: 6, mode: AddressingMode::ZeroPage_X },
        0x38 => OpCode { code: 0x38, mnemonic: "SEC", len: 1, cycles: 2, mode: AddressingMode::NoneAddressing },
        0x39 => OpCode { code: 0x39, mnemonic: "AND", len: 3, cycles: 4, mode: AddressingMode::Absolute_Y },
        0x3A => OpCode { code: 0x3A, mnemonic: "NOP", len: 1, cycles: 2, mode: AddressingMode::NoneAddressing },
        0x3B => OpCode { code: 0x3B, mnemonic: "RLA", len: 3, cycles: 7, mode: AddressingMode::Absolute_Y },
        0x3C => OpCode { code: 0x3C, mnemonic: "TOP", len: 3, cycles: 4, mode: AddressingMode::Absolute_X },
        0x3D => OpCode { code: 0x3D, mnemonic: "AND", len: 3, cycles: 4, mode: AddressingMode::Absolute_X },
        0x3E => OpCode { code: 0x3E, mnemonic: "ROL", len: 3, cycles: 7, mode: AddressingMode::Absolute_X },
        _ => OpCode { code: 0x3F, mnemonic: "RLA", len: 3, cycles: 7, mode: AddressingMode::Absolute_X },
    }
}

/// The rows of the opcode table for the codes 0x40 through 0x4F.
pub open spec fn opcode_row_4(code: u8) -> OpCode {
    match code {
        0x40 => OpCode { code: 0x40, mnemonic: "RTI", len: 1, cycles: 6, mode: AddressingMode::NoneAddressing },
        0x41 => OpCode { code: 0x41, mnemonic: "EOR", len: 2, cycles: 6, mode: AddressingMode::Indirect_X },
        0x42 => OpCode { code: 0x42, mnemonic: "KIL", len: 1, cycles: 0, mode: AddressingMode::NoneAddressing },
        0x43 => OpCode { code: 0x43, mnemonic: "SRE", len: 2, cycles: 8, mode: AddressingMode::Indirect_X },
        0x44 => OpCode { code: 0x44, mnemonic: "DOP", len: 2, cycles: 3, mode: AddressingMode::ZeroPage },
        0x45 => OpCode { code: 0x45, mnemonic: "EOR", len: 2, cycles: 3, mode: AddressingMode::ZeroPage },
        0x46 => OpCode { code: 0x46, mnemonic: "LSR", len: 2, cycles: 5, mode: AddressingMode::ZeroPage },
        0x47 => OpCode { code: 0x47, mnemonic: "SRE", len: 2, cycles: 5, mode: AddressingMode::ZeroPage },
        0x48 => OpCode { code: 0x48, mnemonic: "PHA", len: 1, cycles: 3, mode: AddressingMode::NoneAddressing },
        0x49 => OpCode { code: 0x49, mnemonic: "EOR", len: 2, cycles: 2, mode: AddressingMode::Immediate },
        0x4A => OpCode { code: 0x4A, mnemonic: "LSR", len: 1, cycles: 2, mode: AddressingMode::Accumulator },
        0x4B => OpCode { code: 0x4B, mnemonic: "ASR", len: 2, cycles: 2, mode: AddressingMode::Immediate },
        0x4C => OpCode { code: 0x4C, mnemonic: "JMP", len: 3, cycles: 3, mode: AddressingMode::Absolute },
        0x4D => OpCode { code: 0x4D, mnemonic: "EOR", len: 3, cycles: 4, mode: AddressingMode::Absolute },
        0x4E => OpCode { code: 0x4E, mnemonic: "LSR", len: 3, cycles: 6, mode: AddressingMode::Absolute },
        _ => OpCode { code: 0x4F, mnemonic: "SRE", len: 3, cycles: 6, mode: AddressingMode::Absolute },
    }
}

/// The rows of the opcode table for the codes 0x50 through 0x5F.
pub open spec fn opcode_row_5(code: u8) -> OpCode {
    match code {
        0x50 => OpCode { code: 0x50, mnemonic: "BVC", len: 2, cycles: 2, mode: AddressingMode::Relative },
        0x51 => OpCode { code: 0x51, mnemonic: "EOR", len: 2, cycles: 5, mode: AddressingMode::Indirect_Y },
        0x52 => OpCode { code: 0x52, mnemonic: "KIL", len: 1, cycles: 0, mode: AddressingMode::NoneAddressing },
        0x53 => OpCode { code: 0x53, mnemonic: "SRE", len: 2, cycles: 8, mode: AddressingMode::Indirect_Y },
        0x54 => OpCode { code: 0x54, mnemonic: "DOP", len: 2, cycles: 4, mode: AddressingMode::ZeroPage_X },
        0x55 => OpCode { code: 0x55, mnemonic: "EOR", len: 2, cycles: 4, mode: AddressingMode::ZeroPage_X },
        0x56 => OpCode { code: 0x56, mnemonic: "LSR", len: 2, cycles: 6, mode: AddressingMode::ZeroPage_X },
        0x57 => OpCode { code: 0x57, mnemonic: "SRE", len: 2, cycles: 6, mode: AddressingMode::ZeroPage_X },
        0x58 => OpCode { code: 0x58, mnemonic: "CLI", len: 1, cycles: 2, mode: AddressingMode::NoneAddressing },
        0x59 => OpCode { code: 0x59, mnemonic: "EOR", len: 3, cycles: 4, mode: AddressingMode::Absolute_Y },
        0x5A => OpCode { code: 0x5A, mnemonic: "NOP", len: 1, cycles: 2, mode: AddressingMode::NoneAddressing },
        0x5B => OpCode { code: 0x5B, mnemonic: "SRE", len: 3, cycles: 7, mode: AddressingMode::Absolute_Y },
        0x5C => OpCode { code: 0x5C, mnemonic: "TOP", len: 3, cycles: 4, mode: AddressingMode::Absolute_X },
        0x5D => OpCode { code: 0x5D, mnemonic: "EOR", len: 3, cycles: 4, mode: AddressingMode::Absolute_X },
        0x5E => OpCode { code: 0x5E, mnemonic: "LSR", len: 3, cycles: 7, mode: AddressingMode::Absolute_X },
        _ => OpCode { code: 0x5F, mnemonic: "SRE", len: 3, cycles: 7, mode: AddressingMode::Absolute_X },
    }
}

/// The rows of the opcode table for the codes 0x60 through 0x6F.
pub open spec fn opcode_row_6(code: u8) -> OpCode {
    match code {
        0x60 => OpCode { code: 0x60, mnemonic: "RTS", len: 1, cycles: 6, mode: AddressingMode::NoneAddressing },
        0x61 => OpCode { code: 0x61, mnemonic: "ADC", len: 2, cycles: 6, mode: AddressingMode::Indirect_X },
        0x62 => OpCode { code: 0x62, mnemonic: "KIL", len: 1, cycles: 0, mode: AddressingMode::NoneAddressing },
        0x63 => OpCode { code: 0x63, mnemonic: "RRA", len: 2, cycles: 8, mode: AddressingMode::Indirect_X },
        0x64 => OpCode { code: 0x64, mnemonic: "DOP", len: 2, cycles: 3, mode: AddressingMode::ZeroPage },
        0x65 => OpCode { code: 0x65, mnemonic: "ADC", len: 2, cycles: 3, mode: AddressingMode::ZeroPage },
        0x66 => OpCode { code: 0x66, mnemonic: "ROR", len: 2, cycles: 5, mode: AddressingMode::ZeroPage },
        0x67 => OpCode { code: 0x67, mnemonic: "RRA", len: 2, cycles: 5, mode: AddressingMode::ZeroPage },
        0x68 => OpCode { code: 0x68, mnemonic: "PLA", len: 1, cycles: 4, mode: AddressingMode::NoneAddressing },
        0x69 => OpCode { code: 0x69, mnemonic: "ADC", len: 2, cycles: 2, mode: AddressingMode::Immediate },
        0x6A => OpCode { code: 0x6A, mnemonic: "ROR", len: 1, cycles: 2, mode: AddressingMode::Accumulator },
        0x6B => OpCode { code: 0x6B, mnemonic: "ARR", len: 2, cycles: 2, mode: AddressingMode::Immediate },
        0x6C => OpCode { code: 0x6C, mnemonic: "JMP", len: 3, cycles: 5, mode: AddressingMode::Indirect },
        0x6D => OpCode { code: 0x6D, mnemonic: "ADC", len: 3, cycles: 4, mode: AddressingMode::Absolute },
        0x6E => OpCode { code: 0x6E, mnemonic: "ROR", len: 3, cycles: 6, mode: AddressingMode::Absolute },
        _ => OpCode { code: 0x6F, mnemonic: "RRA", len: 3, cycles: 6, mode: AddressingMode::Absolute },
    }
}

/// The rows of the opcode table for the codes 0x70 through 0x7F.
pub open spec fn opcode_row_7(code: u8) -> OpCode {
    match code {
        0x70 => OpCode { code: 0x70, mnemonic: "BVS", len: 2, cycles: 2, mode: AddressingMode::Relative },
        0x71 => OpCode { code: 0x71, mnemonic: "ADC", len: 2, cycles: 5, mode: AddressingMode::Indirect_Y },
        0x72 => OpCode { code: 0x72, mnemonic: "KIL", len: 1, cycles: 0, mode: AddressingMode::NoneAddressing },
        0x73 => OpCode { code: 0x73, mnemonic: "RRA", len: 2, cycles: 8, mode: AddressingMode::Indirect_Y },
        0x74 => OpCode { code: 0x74, mnemonic: "DOP", len: 2, cycles: 4, mode: AddressingMode::ZeroPage_X },
        0x75 => OpCode { code: 0x75, mnemonic: "ADC", len: 2, cycles: 4, mode: AddressingMode::ZeroPage_X },
        0x76 => OpCode { code: 0x76, mnemonic: "ROR", len: 2, cycles: 6, mode: AddressingMode::ZeroPage_X },
        0x77 => OpCode { code: 0x77, mnemonic: "RRA", len: 2, cycles: 6, mode: AddressingMode::ZeroPage_X },
        0x78 => OpCode { code: 0x78, mnemonic: "SEI", len: 1, cycles: 2, mode: AddressingMode::NoneAddressing },
        0x79 => OpCode { code: 0x79, mnemonic: "ADC", len: 3, cycles: 4, mode: AddressingMode::Absolute_Y },
        0x7A => OpCode { code: 0x7A, mnemonic: "NOP", len: 1, cycles: 2, mode: AddressingMode::NoneAddressing },
        0x7B => OpCode { code: 0x7B, mnemonic: "RRA", len: 3, cycles: 7, mode: AddressingMode::Absolute_Y },
        0x7C => OpCode { code: 0x7C, mnemonic: "TOP", len: 3, cycles: 4, mode: AddressingMode::Absolute_X },
        0x7D => OpCode { code: 0x7D, mnemonic: "ADC", len: 3, cycles: 4, mode: AddressingMode::Absolute_X },
        0x7E => OpCode { code: 0x7E, mnemonic: "ROR", len: 3, cycles: 7, mode: AddressingMode::Absolute_X },
        _ => OpCode { code: 0x7F, mnemonic: "RRA", len: 3, cycles: 7, mode: AddressingMode::Absolute_X },
    }
}

/// The rows of the opcode table for the codes 0x80 through 0x8F.
pub open spec fn opcode_row_8(code: u8) -> OpCode {
    match code {
        0x80 => OpCode { code: 0x80, mnemonic: "DOP", len: 2, cycles: 2, mode: AddressingMode::Immediate },
        0x81 => OpCode { code: 0x81, mnemonic: "STA", len: 2, cycles: 6, mode: AddressingMode::Indirect_X },
        0x82 => OpCode { code: 0x82, mnemonic: "DOP", len: 2, cycles: 2, mode: AddressingMode::Immediate },
        0x83 => OpCode { code: 0x83, mnemonic: "AAX", len: 2, cycles: 6, mode: AddressingMode::Indirect_X },
        0x84 => OpCode { code: 0x84, mnemonic: "STY", len: 2, cycles: 3, mode: AddressingMode::ZeroPage },
        0x85 => OpCode { code: 0x85, mnemonic: "STA", len: 2, cycles: 3, mode: AddressingMode::ZeroPage },
        0x86 => OpCode { code: 0x86, mnemonic: "STX", len: 2, cycles: 3, mode: AddressingMode::ZeroPage },
        0x87 => OpCode { code: 0x87, mnemonic: "AAX", len: 2, cycles: 3, mode: AddressingMode::ZeroPage },
        0x88 => OpCode { code: 0x88, mnemonic: "DEY", len: 1, cycles: 2, mode: AddressingMode::NoneAddressing },
        0x89 => OpCode { code: 0x89, mnemonic: "DOP", len: 2, cycles: 2, mode: AddressingMode::Immediate },
        0x8A => OpCode { code: 0x8A, mnemonic: "TXA", len: 1, cycles: 2, mode: AddressingMode::NoneAddressing },
        0x8B => OpCode { code: 0x8B, mnemonic: "XAA", len: 2, cycles: 2, mode: AddressingMode::Immediate },
        0x8C => OpCode { code: 0x8C, mnemonic: "STY", len: 3, cycles: 4, mode: AddressingMode::Absolute },
        0x8D => OpCode { code: 0x8D, mnemonic: "STA", len: 3, cycles: 4, mode: AddressingMode::Absolute },
        0x8E => OpCode { code: 0x8E, mnemonic: "STX", len: 3, cycles: 4, mode: AddressingMode::Absolute },
        _ => OpCode { code: 0x8F, mnemonic: "AAX", len: 3, cycles: 4, mode: AddressingMode::Absolute },
    }
}

/// The rows of the opcode table for the codes 0x90 through 0x9F.
pub open spec fn opcode_row_9(code: u8) -> OpCode {
    match code {
        0x90 => OpCode { code: 0x90, mnemonic: "BCC", len: 2, cycles: 2, mode: AddressingMode::Relative },
        0x91 => OpCode { code: 0x91, mnemonic: "STA", len: 2, cycles: 6, mode: AddressingMode::Indirect_Y },
        0x92 => OpCode { code: 0x92, mnemonic: "KIL", len: 1, cycles: 0, mode: AddressingMode::NoneAddressing },
        0x93 => OpCode { code: 0x93, mnemonic: "AXA", len: 2, cycles: 6, mode: AddressingMode::Indirect_Y },
        0x94 => OpCode { code: 0x94, mnemonic: "STY", len: 2, cycles: 4, mode: AddressingMode::ZeroPage_X },
        0x95 => OpCode { code: 0x95, mnemonic: "STA", len: 2, cycles: 4, mode: AddressingMode::ZeroPage_X },
        0x96 => OpCode { code: 0x96, mnemonic: "STX", len: 2, cycles: 4, mode: AddressingMode::ZeroPage_Y },
        0x97 => OpCode { code: 0x97, mnemonic: "AAX", len: 2, cycles: 4, mode: AddressingMode::ZeroPage_Y },
        0x98 => OpCode { code: 0x98, mnemonic: "TYA", len: 1, cycles: 2, mode: AddressingMode::NoneAddressing },
        0x99 => OpCode { code: 0x99, mnemonic: "STA", len: 3, cycles: 5, mode: AddressingMode::Absolute_Y },
        0x9A => OpCode { code: 0x9A, mnemonic: "TXS", len: 1, cycles: 2, mode: AddressingMode::NoneAddressing },
        0x9B => OpCode { code: 0x9B, mnemonic: "XAS", len: 3, cycles: 5, mode: AddressingMode::Absolute_Y },
        0x9C => OpCode { code: 0x9C, mnemonic: "SYA", len: 3, cycles: 5, mode: AddressingMode::Absolute_X },
        0x9D => OpCode { code: 0x9D, mnemonic: "STA", len: 3, cycles: 5, mode: AddressingMode::Absolute_X },
        0x9E => OpCode { code: 0x9E, mnemonic: "SXA", len: 3, cycles: 5, mode: AddressingMode::Absolute_Y },
        _ => OpCode { code: 0x9F, mnemonic: "AXA", len: 3, cycles: 5, mode: AddressingMode::Absolute_Y },
    }
}

/// The rows of the opcode table for the codes 0xA0 through 0xAF.
pub open spec fn opcode_row_a(code: u8) -> OpCode {
    match code {
        0xA0 => OpCode { code: 0xA0, mnemonic: "LDY", len: 2, cycles: 2, mode: AddressingMode::Immediate },
        0xA1 => OpCode { code: 0xA1, mnemonic: "LDA", len: 2, cycles: 6, mode: AddressingMode::Indirect_X },
        0xA2 => OpCode { code: 0xA2, mnemonic: "LDX", len: 2, cycles: 2, mode: AddressingMode::Immediate },
        0xA3 => OpCode { code: 0xA3, mnemonic: "LAX", len: 2, cycles: 6, mode: AddressingMode::Indirect_X },
        0xA4 => OpCode { code: 0xA4, mnemonic: "LDY", len: 2, cycles: 3, mode: AddressingMode::ZeroPage },
        0xA5 => OpCode { code: 0xA5, mnemonic: "LDA", len: 2, cycles: 3, mode: AddressingMode::ZeroPage },
        0xA6 => OpCode { code: 0xA6, mnemonic: "LDX", len: 2, cycles: 3, mode: AddressingMode::ZeroPage },
        0xA7 => OpCode { code: 0xA7, mnemonic: "LAX", len: 2, cycles: 3, mode: AddressingMode::ZeroPage },
        0xA8 => OpCode { code: 0xA8, mnemonic: "TAY", len: 1, cycles: 2, mode: AddressingMode::NoneAddressing },
        0xA9 => OpCode { code: 0xA9, mnemonic: "LDA", len: 2, cycles: 2, mode: AddressingMode::Immediate },
        0xAA => OpCode { code: 0xAA, mnemonic: "TAX", len: 1, cycles: 2, mode: AddressingMode::NoneAddressing },
        0xAB => OpCode { code: 0xAB, mnemonic: "ATX", len: 2, cycles: 2, mode: AddressingMode::Immediate },
        0xAC => OpCode { code: 0xAC, mnemonic: "LDY", len: 3, cycles: 4, mode: AddressingMode::Absolute },
        0xAD => OpCode { code: 0xAD, mnemonic: "LDA", len: 3, cycles: 4, mode: AddressingMode::Absolute },
        0xAE => OpCode { code: 0xAE, mnemonic: "LDX", len: 3, cycles: 4, mode: AddressingMode::Absolute },
        _ => OpCode { code: 0xAF, mnemonic: "LAX", len: 3, cycles: 4, mode: AddressingMode::Absolute },
    }
}

/// The rows of the opcode table for the codes 0xB0 through 0xBF.
pub open spec fn opcode_row_b(code: u8) -> OpCode {
    match code {
        0xB0 => OpCode { code: 0xB0, mnemonic: "BCS", len: 2, cycles: 2, mode: AddressingMode::Relative },
        0xB1 => OpCode { code: 0xB1, mnemonic: "LDA", len: 2, cycles: 5, mode: AddressingMode::Indirect_Y },
        0xB2 => OpCode { code: 0xB2, mnemonic: "KIL", len: 1, cycles: 0, mode: AddressingMode::NoneAddressing },
        0xB3 => OpCode { code: 0xB3, mnemonic: "LAX", len: 2, cycles: 5, mode: AddressingMode::Indirect_Y },
        0xB4 => OpCode { code: 0xB4, mnemonic: "LDY", len: 2, cycles: 4, mode: AddressingMode::ZeroPage_X },
        0xB5 => OpCode { code: 0xB5, mnemonic: "LDA", len: 2, cycles: 4, mode: AddressingMode::ZeroPage_X },
        0xB6 => OpCode { code: 0xB6, mnemonic: "LDX", len: 2, cycles: 4, mode: AddressingMode::ZeroPage_Y },
        0xB7 => OpCode { code: 0xB7, mnemonic: "LAX", len: 2, cycles: 4, mode: AddressingMode::ZeroPage_Y },
        0xB8 => OpCode { code: 0xB8, mnemonic: "CLV", len: 1, cycles: 2, mode: AddressingMode::NoneAddressing },
        0xB9 => OpCode { code: 0xB9, mnemonic: "LDA", len: 3, cycles: 4, mode: AddressingMode::Absolute_Y },
        0xBA => OpCode { code: 0xBA, mnemonic: "TSX", len: 1, cycles: 2, mode: AddressingMode::NoneAddressing },
        0xBB => OpCode { code: 0xBB, mnemonic: "LAR", len: 3, cycles: 4, mode: AddressingMode::Absolute_Y },
        0xBC => OpCode { code: 0xBC, mnemonic: "LDY", len: 3, cycles: 4, mode: AddressingMode::Absolute_X },
        0xBD => OpCode { code: 0xBD, mnemonic: "LDA", len: 3, cycles: 4, mode: AddressingMode::Absolute_X },
        0xBE => OpCode { code: 0xBE, mnemonic: "LDX", len: 3, cycles: 4, mode: AddressingMode::Absolute_Y },
        _ => OpCode { code: 0xBF, mnemonic: "LAX", len: 3, cycles: 4, mode: AddressingMode::Absolute_Y },
    }
}

/// The rows of the opcode table for the codes 0xC0 through 0xCF.
pub open spec fn opcode_row_c(code: u8) -> OpCode {
    match code {
        0xC0 => OpCode { code: 0xC0, mnemonic: "CPY", len: 2, cycles: 2, mode: AddressingMode::Immediate },
        0xC1 => OpCode { code: 0xC1, mnemonic: "CMP", len: 2, cycles: 6, mode: AddressingMode::Indirect_X },
        0xC2 => OpCode { code: 0xC2, mnemonic: "DOP", len: 2, cycles: 2, mode: AddressingMode::Immediate },
        0xC3 => OpCode { code: 0xC3, mnemonic: "DCP", len: 2, cycles: 8, mode: AddressingMode::Indirect_X },
        0xC4 => OpCode { code: 0xC4, mnemonic: "CPY", len: 2, cycles: 3, mode: AddressingMode::ZeroPage },
        0xC5 => OpCode { code: 0xC5, mnemonic: "CMP", len: 2, cycles: 3, mode: AddressingMode::ZeroPage },
        0xC6 => OpCode { code: 0xC6, mnemonic: "DEC", len: 2, cycles: 5, mode: AddressingMode::ZeroPage },
        0xC7 => OpCode { code: 0xC7, mnemonic: "DCP", len: 2, cycles: 5, mode: AddressingMode::ZeroPage },
        0xC8 => OpCode { code: 0xC8, mnemonic: "INY", len: 1, cycles: 2, mode: AddressingMode::NoneAddressing },
        0xC9 => OpCode { code: 0xC9, mnemonic: "CMP", len: 2, cycles: 2, mode: AddressingMode::Immediate },
        0xCA => OpCode { code: 0xCA, mnemonic: "DEX", len: 1, cycles: 2, mode: AddressingMode::NoneAddressing },
        0xCB => OpCode { code: 0xCB, mnemonic: "AXS", len: 2, cycles: 2, mode: AddressingMode::Immediate },
        0xCC => OpCode { code: 0xCC, mnemonic: "CPY", len: 3, cycles: 4, mode: AddressingMode::Absolute },
        0xCD => OpCode { code: 0xCD, mnemonic: "CMP", len: 3, cycles: 4, mode: AddressingMode::Absolute },
        0xCE => OpCode { code: 0xCE, mnemonic: "DEC", len: 3, cycles: 6, mode: AddressingMode::Absolute },
        _ => OpCode { code: 0xCF, mnemonic: "DCP", len: 3, cycles: 6, mode: AddressingMode::Absolute },
    }
}

/// The rows of the opcode table for the codes 0xD0 through 0xDF.
pub open spec fn opcode_row_d(code: u8) -> OpCode {
    match code {
        0xD0 => OpCode { code: 0xD0, mnemonic: "BNE", len: 2, cycles: 2, mode: AddressingMode::Relative },
        0xD1 => OpCode { code: 0xD1, mnemonic: "CMP", len: 2, cycles: 5, mode: AddressingMode::Indirect_Y },
        0xD2 => OpCode { code: 0xD2, mnemonic: "KIL", len: 1, cycles: 0, mode: AddressingMode::NoneAddressing },
        0xD3 => OpCode { code: 0xD3, mnemonic: "DCP", len: 2, cycles: 8, mode: AddressingMode::Indirect_Y },
        0xD4 => OpCode { code: 0xD4, mnemonic: "DOP", len: 2, cycles: 4, mode: AddressingMode::ZeroPage_X },
        0xD5 => OpCode { code: 0xD5, mnemonic: "CMP", len: 2, cycles: 4, mode: AddressingMode::ZeroPage_X },
        0xD6 => OpCode { code: 0xD6, mnemonic: "DEC", len: 2, cycles: 6, mode: AddressingMode::ZeroPage_X },
        0xD7 => OpCode { code: 0xD7, mnemonic: "DCP", len: 2, cycles: 6, mode: AddressingMode::ZeroPage_X },
        0xD8 => OpCode { code: 0xD8, mnemonic: "CLD", len: 1, cycles: 2, mode: AddressingMode::NoneAddressing },
        0xD9 => OpCode { code: 0xD9, mnemonic: "CMP", len: 3, cycles: 4, mode: AddressingMode::Absolute_Y },
        0xDA => OpCode { code: 0xDA, mnemonic: "NOP", len: 1, cycles: 2, mode: AddressingMode::NoneAddressing },
        0xDB => OpCode { code: 0xDB, mnemonic: "DCP", len: 3, cycles: 7, mode: AddressingMode::Absolute_Y },
        0xDC => OpCode { code: 0xDC, mnemonic: "TOP", len: 3, cycles: 4, mode: AddressingMode::Absolute_X },
        0xDD => OpCode { code: 0xDD, mnemonic: "CMP", len: 3, cycles: 4, mode: AddressingMode::Absolute_X },
        0xDE => OpCode { code: 0xDE, mnemonic: "DEC", len: 3, cycles: 7, mode: AddressingMode::Absolute_X },
        _ => OpCode { code: 0xDF, mnemonic: "DCP", len: 3, cycles: 7, mode: AddressingMode::Absolute_X },
    }
}

/// The rows of the opcode table for the codes 0xE0 through 0xEF.
pub open spec fn opcode_row_e(code: u8) -> OpCode {
    match code {
        0xE0 => OpCode { code: 0xE0, mnemonic: "CPX", len: 2, cycles: 2, mode: AddressingMode::Immediate },
        0xE1 => OpCode { code: 0xE1, mnemonic: "SBC", len: 2, cycles: 6, mode: AddressingMode::Indirect_X },
        0xE2 => OpCode { code: 0xE2, mnemonic: "DOP", len: 2, cycles: 2, mode: AddressingMode::Immediate },
        0xE3 => OpCode { code: 0xE3, mnemonic: "ISC", len: 2, cycles: 8, mode: AddressingMode::Indirect_X },
        0xE4 => OpCode { code: 0xE4, mnemonic: "CPX", len: 2, cycles: 3, mode: AddressingMode::ZeroPage },
        0xE5 => OpCode { code: 0xE5, mnemonic: "SBC", len: 2, cycles: 3, mode: AddressingMode::ZeroPage },
        0xE6 => OpCode { code: 0xE6, mnemonic: "INC", len: 2, cycles: 5, mode: AddressingMode::ZeroPage },
        0xE7 => OpCode { code: 0xE7, mnemonic: "ISC", len: 2, cycles: 5, mode: AddressingMode::ZeroPage },
        0xE8 => OpCode { code: 0xE8, mnemonic: "INX", len: 1, cycles: 2, mode: AddressingMode::NoneAddressing },
        0xE9 => OpCode { code: 0xE9, mnemonic: "SBC", len: 2, cycles: 2, mode: AddressingMode::Immediate },
        0xEA => OpCode { code: 0xEA, mnemonic: "NOP", len: 1, cycles: 2, mode: AddressingMode::NoneAddressing },
        0xEB => OpCode { code: 0xEB, mnemonic: "SBC", len: 2, cycles: 2, mode: AddressingMode::Immediate },
        0xEC => OpCode { code: 0xEC, mnemonic: "CPX", len: 3, cycles: 4, mode: AddressingMode::Absolute },
        0xED => OpCode { code: 0xED, mnemonic: "SBC", len: 3, cycles: 4, mode: AddressingMode::Absolute },
        0xEE => OpCode { code: 0xEE, mnemonic: "INC", len: 3, cycles: 6, mode: AddressingMode::Absolute },
        _ => OpCode { code: 0xEF, mnemonic: "ISC", len: 3, cycles: 6, mode: AddressingMode::Absolute },
    }
}

/// The rows of the opcode table for the codes 0xF0 through 0xFF.
pub open spec fn opcode_row_f(code: u8) -> OpCode {
    match code {
        0xF0 => OpCode { code: 0xF0, mnemonic: "BEQ", len: 2, cycles: 2, mode: AddressingMode::Relative },
        0xF1 => OpCode { code: 0xF1, mnemonic: "SBC", len: 2, cycles: 5, mode: AddressingMode::Indirect_Y },
        0xF2 => OpCode { code: 0xF2, mnemonic: "KIL", len: 1, cycles: 0, mode: AddressingMode::NoneAddressing },
        0xF3 => OpCode { code: 0xF3, mnemonic: "ISC", len: 2, cycles: 8, mode: AddressingMode::Indirect_Y },
        0xF4 => OpCode { code: 0xF4, mnemonic: "DOP", len: 2, cycles: 4, mode: AddressingMode::ZeroPage_X },
        0xF5 => OpCode { code: 0xF5, mnemonic: "SBC", len: 2, cycles: 4, mode: AddressingMode::ZeroPage_X },
        0xF6 => OpCode { code: 0xF6, mnemonic: "INC", len: 2, cycles: 6, mode: AddressingMode::ZeroPage_X },
        0xF7 => OpCode { code: 0xF7, mnemonic: "ISC", len: 2, cycles: 6, mode: AddressingMode::ZeroPage_X },
        0xF8 => OpCode { code: 0xF8, mnemonic: "SED", len: 1, cycles: 2, mode: AddressingMode::NoneAddressing },
        0xF9 => OpCode { code: 0xF9, mnemonic: "SBC", len: 3, cycles: 4, mode: AddressingMode::Absolute_Y },
        0xFA => OpCode { code: 0xFA, mnemonic: "NOP", len: 1, cycles: 2, mode: AddressingMode::NoneAddressing },
        0xFB => OpCode { code: 0xFB, mnemonic: "ISC", len: 3, cycles: 7, mode: AddressingMode::Absolute_Y },
        0xFC => OpCode { code: 0xFC, mnemonic: "TOP", len: 3, cycles: 4, mode: AddressingMode::Absolute_X },
        0xFD => OpCode { code: 0xFD, mnemonic: "SBC", len: 3, cycles: 4, mode: AddressingMode::Absolute_X },
        0xFE => OpCode { code: 0xFE, mnemonic: "INC", len: 3, cycles: 7, mode: AddressingMode::Absolute_X },
        _ => OpCode { code: 0xFF, mnemonic: "ISC", len: 3, cycles: 7, mode: AddressingMode::Absolute_X },
    }
}

/// The length of an instruction, opcode byte included, that its addressing
/// mode implies.
pub open spec fn mode_length(mode: AddressingMode) -> u8 {
    match mode {
        AddressingMode::Accumulator | AddressingMode::NoneAddressing => 1,
        AddressingMode::Absolute | AddressingMode::Absolute_X | AddressingMode::Absolute_Y
        | AddressingMode::Indirect => 3,
        _ => 2,
    }
}

/// Each row of the opcode table is filed under its own code, and its length
/// is the one its addressing mode implies.
pub proof fn law_opcode_rows_consistent(code: u8)
    ensures
        opcode_spec(code).code == code,
        opcode_spec(code).len == mode_length(opcode_spec(code).mode),
{
}

/// The addressing mode that bits 2..=4 of an opcode select among the
/// opcodes whose two low bits are 01 (ORA, AND, EOR, ADC, STA, LDA, CMP, SBC
/// and their undocumented neighbours).
pub open spec fn group_one_mode(code: u8) -> AddressingMode {
    match (code / 4) % 8 {
        0 => AddressingMode::Indirect_X,
        1 => AddressingMode::ZeroPage,
        2 => AddressingMode::Immediate,
        3 => AddressingMode::Absolute,
        4 => AddressingMode::Indirect_Y,
        5 => AddressingMode::ZeroPage_X,
        6 => AddressingMode::Absolute_Y,
        _ => AddressingMode::Absolute_X,
    }
}

/// The table follows the 6502 encoding. In the group whose two low bits are
/// 01 the mode is selected by bits 2..=4, and so it is in the group 11 but
/// for the four that index with Y in place of X. In the groups 00 and 10,
/// bits 2..=4 select zero page (001), absolute (011), zero page,X (101) and
/// absolute,X (111), but for JMP indirect and the five that index with Y,
/// and immediate (000) from 0x80 on. The opcodes xxx10000 are the relative
/// branches; the opcodes whose low four bits are 1000 are implied.
pub proof fn law_opcode_modes_follow_encoding(code: u8)
    ensures
        code % 4 == 1 ==> opcode_spec(code).mode == group_one_mode(code),
        code % 4 == 3 && code != 0x97 && code != 0xB7 && code != 0x9F && code != 0xBF
            ==> opcode_spec(code).mode == group_one_mode(code),
        code == 0x97 || code == 0xB7 ==> opcode_spec(code).mode == AddressingMode::ZeroPage_Y,
        code == 0x9F || code == 0xBF ==> opcode_spec(code).mode == AddressingMode::Absolute_Y,
        (code % 4 == 0 || code % 4 == 2) && (code / 4) % 8 == 1 ==> opcode_spec(code).mode
            == AddressingMode::ZeroPage,
        (code % 4 == 0 || code % 4 == 2) && (code / 4) % 8 == 3 && code != 0x6C
            ==> opcode_spec(code).mode == AddressingMode::Absolute,
        code == 0x6C ==> opcode_spec(code).mode == AddressingMode::Indirect,
        (code % 4 == 0 || code % 4 == 2) && (code / 4) % 8 == 5 && code != 0x96 && code != 0xB6
            ==> opcode_spec(code).mode == AddressingMode::ZeroPage_X,
        code == 0x96 || code == 0xB6 ==> opcode_spec(code).mode == AddressingMode::ZeroPage_Y,
        (code % 4 == 0 || code % 4 == 2) && (code / 4) % 8 == 7 && code != 0xBE && code != 0x9E
            ==> opcode_spec(code).mode == AddressingMode::Absolute_X,
        code == 0xBE || code == 0x9E ==> opcode_spec(code).mode == AddressingMode::Absolute_Y,
        (code % 4 == 0 || code % 4 == 2) && (code / 4) % 8 == 0 && code >= 0x80
            ==> opcode_spec(code).mode == AddressingMode::Immediate,
        code % 32 == 0x10 ==> opcode_spec(code).mode == AddressingMode::Relative,
        code % 16 == 8 ==> opcode_spec(code).mode == AddressingMode::NoneAddressing,
{
}

/// The row of the opcode table for `code`.
pub fn lookup_opcode(code: u8) -> (r: OpCode)
    ensures
        r == opcode_spec(code),
{
    match code / 16 {
        0 => lookup_row_0(code),
        1 => lookup_row_1(code),
        2 => lookup_row_2(code),
        3 => lookup_row_3(code),
        4 => lookup_row_4(code),
        5 => lookup_row_5(code),
        6 => lookup_row_6(code),
        7 => lookup_row_7(code),
        8 => lookup_row_8(code),
        9 => lookup_row_9(code),
        10 => lookup_row_a(code),
        11 => lookup_row_b(code),
        12 => lookup_row_c(code),
        13 => lookup_row_d(code),
        14 => lookup_row_e(code),
        _ => lookup_row_f(code),
    }
}

/// The row of the opcode table for a `code` in one sixteen-code block.
fn lookup_row_0(code: u8) -> (r: OpCode)
    requires
        code / 16 == 0,
    ensures
        r == opcode_spec(code),
{
    match code {
        0x00 => OpCode::new(0x00, "BRK", 1, 7, AddressingMode::NoneAddressing),
        0x01 => OpCode::new(0x01, "ORA", 2, 6, AddressingMode::Indirect_X),
        0x02 => OpCode::new(0x02, "KIL", 1, 0, AddressingMode::NoneAddressing),
        0x03 => OpCode::new(0x03, "SLO", 2, 8, AddressingMode::Indirect_X),
        0x04 => OpCode::new(0x04, "DOP", 2, 3, AddressingMode::ZeroPage),
        0x05 => OpCode::new(0x05, "ORA", 2, 3, AddressingMode::ZeroPage),
        0x06 => OpCode::new(0x06, "ASL", 2, 5, AddressingMode::ZeroPage),
        0x07 => OpCode::new(0x07, "SLO", 2, 5, AddressingMode::ZeroPage),
        0x08 => OpCode::new(0x08, "PHP", 1, 3, AddressingMode::NoneAddressing),
        0x09 => OpCode::new(0x09, "ORA", 2, 2, AddressingMode::Immediate),
        0x0A => OpCode::new(0x0A, "ASL", 1, 2, AddressingMode::Accumulator),
        0x0B => OpCode::new(0x0B, "AAC", 2, 2, AddressingMode::Immediate),
        0x0C => OpCode::new(0x0C, "TOP", 3, 4, AddressingMode::Absolute),
        0x0D => OpCode::new(0x0D, "ORA", 3, 4, AddressingMode::Absolute),
        0x0E => OpCode::new(0x0E, "ASL", 3, 6, AddressingMode::Absolute),
        _ => OpCode::new(0x0F, "SLO", 3, 6, AddressingMode::Absolute),
    }
}

/// The row of the opcode table for a `code` in one sixteen-code block.
fn lookup_row_1(code: u8) -> (r: OpCode)
    requires
        code / 16 == 1,
    ensures
        r == opcode_spec(code),
{
    match code {
        0x10 => OpCode::new(0x10, "BPL", 2, 2, AddressingMode::Relative),
        0x11 => OpCode::new(0x11, "ORA", 2, 5, AddressingMode::Indirect_Y),
        0x12 => OpCode::new(0x12, "KIL", 1, 0, AddressingMode::NoneAddressing),
        0x13 => OpCode::new(0x13, "SLO", 2, 8, AddressingMode::Indirect_Y),
        0x14 => OpCode::new(0x14, "DOP", 2, 4, AddressingMode::ZeroPage_X),
        0x15 => OpCode::new(0x15, "ORA", 2, 4, AddressingMode::ZeroPage_X),
        0x16 => OpCode::new(0x16, "ASL", 2, 6, AddressingMode::ZeroPage_X),
        0x17 => OpCode::new(0x17, "SLO", 2, 6, AddressingMode::ZeroPage_X),
        0x18 => OpCode::new(0x18, "CLC", 1, 2, AddressingMode::NoneAddressing),
        0x19 => OpCode::new(0x19, "ORA", 3, 4, AddressingMode::Absolute_Y),
        0x1A => OpCode::new(0x1A, "NOP", 1, 2, AddressingMode::NoneAddressing),
        0x1B => OpCode::new(0x1B, "SLO", 3, 7, AddressingMode::Absolute_Y),
        0x1C => OpCode::new(0x1C, "TOP", 3, 4, AddressingMode::Absolute_X),
        0x1D => OpCode::new(0x1D, "ORA", 3, 4, AddressingMode::Absolute_X),
        0x1E => OpCode::new(0x1E, "ASL", 3, 7, AddressingMode::Absolute_X),
        _ => OpCode::new(0x1F, "SLO", 3, 7, AddressingMode::Absolute_X),
    }
}

/// The row of the opcode table for a `code` in one sixteen-code block.
fn lookup_row_2(code: u8) -> (r: OpCode)
    requires
        code / 16 == 2,
    ensures
        r == opcode_spec(code),
{
    match code {
        0x20 => OpCode::new(0x20, "JSR", 3, 6, AddressingMode::Absolute),
        0x21 => OpCode::new(0x21, "AND", 2, 6, AddressingMode::Indirect_X),
        0x22 => OpCode::new(0x22, "KIL", 1, 0, AddressingMode::NoneAddressing),
        0x23 => OpCode::new(0x23, "RLA", 2, 8, AddressingMode::Indirect_X),
        0x24 => OpCode::new(0x24, "BIT", 2, 3, AddressingMode::ZeroPage),
        0x25 => OpCode::new(0x25, "AND", 2, 3, AddressingMode::ZeroPage),
        0x26 => OpCode::new(0x26, "ROL", 2, 5, AddressingMode::ZeroPage),
        0x27 => OpCode::new(0x27, "RLA", 2, 5, AddressingMode::ZeroPage),
        0x28 => OpCode::new(0x28, "PLP", 1, 4, AddressingMode::NoneAddressing),
        0x29 => OpCode::new(0x29, "AND", 2, 2, AddressingMode::Immediate),
        0x2A => OpCode::new(0x2A, "ROL", 1, 2, AddressingMode::Accumulator),
        0x2B => OpCode::new(0x2B, "AAC", 2, 2, AddressingMode::Immediate),
        0x2C => OpCode::new(0x2C, "BIT", 3, 4, AddressingMode::Absolute),
        0x2D => OpCode::new(0x2D, "AND", 3, 4, AddressingMode::Absolute),
        0x2E => OpCode::new(0x2E, "ROL", 3, 6, AddressingMode::Absolute),
        _ => OpCode::new(0x2F, "RLA", 3, 6, AddressingMode::Absolute),
    }
}

/// The row of the opcode table for a `code` in one sixteen-code block.
fn lookup_row_3(code: u8) -> (r: OpCode)
    requires
        code / 16 == 3,
    ensures
        r == opcode_spec(code),
{
    match code {
        0x30 => OpCode::new(0x30, "BMI", 2, 2, AddressingMode::Relative),
        0x31 => OpCode::new(0x31, "AND", 2, 5, AddressingMode::Indirect_Y),
        0x32 => OpCode::new(0x32, "KIL", 1, 0, AddressingMode::NoneAddressing),
        0x33 => OpCode::new(0x33, "RLA", 2, 8, AddressingMode::Indirect_Y),
        0x34 => OpCode::new(0x34, "DOP", 2, 4, AddressingMode::ZeroPage_X),
        0x35 => OpCode::new(0x35, "AND", 2, 4, AddressingMode::ZeroPage_X),
        0x36 => OpCode::new(0x36, "ROL", 2, 6, AddressingMode::ZeroPage_X),
        0x37 => OpCode::new(0x37, "RLA", 2, 6, AddressingMode::ZeroPage_X),
        0x38 => OpCode::new(0x38, "SEC", 1, 2, AddressingMode::NoneAddressing),
        0x39 => OpCode::new(0x39, "AND", 3, 4, AddressingMode::Absolute_Y),
        0x3A => OpCode::new(0x3A, "NOP", 1, 2, AddressingMode::NoneAddressing),
        0x3B => OpCode::new(0x3B, "RLA", 3, 7, AddressingMode::Absolute_Y),
        0x3C => OpCode::new(0x3C, "TOP", 3, 4, AddressingMode::Absolute_X),
        0x3D => OpCode::new(0x3D, "AND", 3, 4, AddressingMode::Absolute_X),
        0x3E => OpCode::new(0x3E, "ROL", 3, 7, AddressingMode::Absolute_X),
        _ => OpCode::new(0x3F, "RLA", 3, 7, AddressingMode::Absolute_X),
    }
}

/// The row of the opcode table for a `code` in one sixteen-code block.
fn lookup_row_4(code: u8) -> (r: OpCode)
    requires
        code / 16 == 4,
    ensures
        r == opcode_spec(code),
{
    match code {
        0x40 => OpCode::new(0x40, "RTI", 1, 6, AddressingMode::NoneAddressing),
        0x41 => OpCode::new(0x41, "EOR", 2, 6, AddressingMode::Indirect_X),
        0x42 => OpCode::new(0x42, "KIL", 1, 0, AddressingMode::NoneAddressing),
        0x43 => OpCode::new(0x43, "SRE", 2, 8, AddressingMode::Indirect_X),
        0x44 => OpCode::new(0x44, "DOP", 2, 3, AddressingMode::ZeroPage),
        0x45 => OpCode::new(0x45, "EOR", 2, 3, AddressingMode::ZeroPage),
        0x46 => OpCode::new(0x46, "LSR", 2, 5, AddressingMode::ZeroPage),
        0x47 => OpCode::new(0x47, "SRE", 2, 5, AddressingMode::ZeroPage),
        0x48 => OpCode::new(0x48, "PHA", 1, 3, AddressingMode::NoneAddressing),
        0x49 => OpCode::new(0x49, "EOR", 2, 2, AddressingMode::Immediate),
        0x4A => OpCode::new(0x4A, "LSR", 1, 2, AddressingMode::Accumulator),
        0x4B => OpCode::new(0x4B, "ASR", 2, 2, AddressingMode::Immediate),
        0x4C => OpCode::new(0x4C, "JMP", 3, 3, AddressingMode::Absolute),
        0x4D => OpCode::new(0x4D, "EOR", 3, 4, AddressingMode::Absolute),
        0x4E => OpCode::new(0x4E, "LSR", 3, 6, AddressingMode::Absolute),
        _ => OpCode::new(0x4F, "SRE", 3, 6, AddressingMode::Absolute),
    }
}

/// The row of the opcode table for a `code` in one sixteen-code block.
fn lookup_row_5(code: u8) -> (r: OpCode)
    requires
        code / 16 == 5,
    ensures
        r == opcode_spec(code),
{
    match code {
        0x50 => OpCode::new(0x50, "BVC", 2, 2, AddressingMode::Relative),
        0x51 => OpCode::new(0x51, "EOR", 2, 5, AddressingMode::Indirect_Y),
        0x52 => OpCode::new(0x52, "KIL", 1, 0, AddressingMode::NoneAddressing),
        0x53 => OpCode::new(0x53, "SRE", 2, 8, AddressingMode::Indirect_Y),
        0x54 => OpCode::new(0x54, "DOP", 2, 4, AddressingMode::ZeroPage_X),
        0x55 => OpCode::new(0x55, "EOR", 2, 4, AddressingMode::ZeroPage_X),
        0x56 => OpCode::new(0x56, "LSR", 2, 6, AddressingMode::ZeroPage_X),
        0x57 => OpCode::new(0x57, "SRE", 2, 6, AddressingMode::ZeroPage_X),
        0x58 => OpCode::new(0x58, "CLI", 1, 2, AddressingMode::NoneAddressing),
        0x59 => OpCode::new(0x59, "EOR", 3, 4, AddressingMode::Absolute_Y),
        0x5A => OpCode::new(0x5A, "NOP", 1, 2, AddressingMode::NoneAddressing),
        0x5B => OpCode::new(0x5B, "SRE", 3, 7, AddressingMode::Absolute_Y),
        0x5C => OpCode::new(0x5C, "TOP", 3, 4, AddressingMode::Absolute_X),
        0x5D => OpCode::new(0x5D, "EOR", 3, 4, AddressingMode::Absolute_X),
        0x5E => OpCode::new(0x5E, "LSR", 3, 7, AddressingMode::Absolute_X),
        _ => OpCode::new(0x5F, "SRE", 3, 7, AddressingMode::Absolute_X),
    }
}

/// The row of the opcode table for a `code` in one sixteen-code block.
fn lookup_row_6(code: u8) -> (r: OpCode)
    requires
        code / 16 == 6,
    ensures
        r == opcode_spec(code),
{
    match code {
        0x60 => OpCode::new(0x60, "RTS", 1, 6, AddressingMode::NoneAddressing),
        0x61 => OpCode::new(0x61, "ADC", 2, 6, AddressingMode::Indirect_X),
        0x62 => OpCode::new(0x62, "KIL", 1, 0, AddressingMode::NoneAddressing),
        0x63 => OpCode::new(0x63, "RRA", 2, 8, AddressingMode::Indirect_X),
        0x64 => OpCode::new(0x64, "DOP", 2, 3, AddressingMode::ZeroPage),
        0x65 => OpCode::new(0x65, "ADC", 2, 3, AddressingMode::ZeroPage),
        0x66 => OpCode::new(0x66, "ROR", 2, 5, AddressingMode::ZeroPage),
        0x67 => OpCode::new(0x67, "RRA", 2, 5, AddressingMode::ZeroPage),
        0x68 => OpCode::new(0x68, "PLA", 1, 4, AddressingMode::NoneAddressing),
        0x69 => OpCode::new(0x69, "ADC", 2, 2, AddressingMode::Immediate),
        0x6A => OpCode::new(0x6A, "ROR", 1, 2, AddressingMode::Accumulator),
        0x6B => OpCode::new(0x6B, "ARR", 2, 2, AddressingMode::Immediate),
        0x6C => OpCode::new(0x6C, "JMP", 3, 5, AddressingMode::Indirect),
        0x6D => OpCode::new(0x6D, "ADC", 3, 4, AddressingMode::Absolute),
        0x6E => OpCode::new(0x6E, "ROR", 3, 6, AddressingMode::Absolute),
        _ => OpCode::new(0x6F, "RRA", 3, 6, AddressingMode::Absolute),
    }
}

/// The row of the opcode table for a `code` in one sixteen-code block.
fn lookup_row_7(code: u8) -> (r: OpCode)
    requires
        code / 16 == 7,
    ensures
        r == opcode_spec(code),
{
    match code {
        0x70 => OpCode::new(0x70, "BVS", 2, 2, AddressingMode::Relative),
        0x71 => OpCode::new(0x71, "ADC", 2, 5, AddressingMode::Indirect_Y),
        0x72 => OpCode::new(0x72, "KIL", 1, 0, AddressingMode::NoneAddressing),
        0x73 => OpCode::new(0x73, "RRA", 2, 8, AddressingMode::Indirect_Y),
        0x74 => OpCode::new(0x74, "DOP", 2, 4, AddressingMode::ZeroPage_X),
        0x75 => OpCode::new(0x75, "ADC", 2, 4, AddressingMode::ZeroPage_X),
        0x76 => OpCode::new(0x76, "ROR", 2, 6, AddressingMode::ZeroPage_X),
        0x77 => OpCode::new(0x77, "RRA", 2, 6, AddressingMode::ZeroPage_X),
        0x78 => OpCode::new(0x78, "SEI", 1, 2, AddressingMode::NoneAddressing),
        0x79 => OpCode::new(0x79, "ADC", 3, 4, AddressingMode::Absolute_Y),
        0x7A => OpCode::new(0x7A, "NOP", 1, 2, AddressingMode::NoneAddressing),
        0x7B => OpCode::new(0x7B, "RRA", 3, 7, AddressingMode::Absolute_Y),
        0x7C => OpCode::new(0x7C, "TOP", 3, 4, AddressingMode::Absolute_X),
        0x7D => OpCode::new(0x7D, "ADC", 3, 4, AddressingMode::Absolute_X),
        0x7E => OpCode::new(0x7E, "ROR", 3, 7, AddressingMode::Absolute_X),
        _ => OpCode::new(0x7F, "RRA", 3, 7, AddressingMode::Absolute_X),
    }
}

/// The row of the opcode table for a `code` in one sixteen-code block.
fn lookup_row_8(code: u8) -> (r: OpCode)
    requires
        code / 16 == 8,
    ensures
        r == opcode_spec(code),
{
    match code {
        0x80 => OpCode::new(0x80, "DOP", 2, 2, AddressingMode::Immediate),
        0x81 => OpCode::new(0x81, "STA", 2, 6, AddressingMode::Indirect_X),
        0x82 => OpCode::new(0x82, "DOP", 2, 2, AddressingMode::Immediate),
        0x83 => OpCode::new(0x83, "AAX", 2, 6, AddressingMode::Indirect_X),
        0x84 => OpCode::new(0x84, "STY", 2, 3, AddressingMode::ZeroPage),
        0x85 => OpCode::new(0x85, "STA", 2, 3, AddressingMode::ZeroPage),
        0x86 => OpCode::new(0x86, "STX", 2, 3, AddressingMode::ZeroPage),
        0x87 => OpCode::new(0x87, "AAX", 2, 3, AddressingMode::ZeroPage),
        0x88 => OpCode::new(0x88, "DEY", 1, 2, AddressingMode::NoneAddressing),
        0x89 => OpCode::new(0x89, "DOP", 2, 2, AddressingMode::Immediate),
        0x8A => OpCode::new(0x8A, "TXA", 1, 2, AddressingMode::NoneAddressing),
        0x8B => OpCode::new(0x8B, "XAA", 2, 2, AddressingMode::Immediate),
        0x8C => OpCode::new(0x8C, "STY", 3, 4, AddressingMode::Absolute),
        0x8D => OpCode::new(0x8D, "STA", 3, 4, AddressingMode::Absolute),
        0x8E => OpCode::new(0x8E, "STX", 3, 4, AddressingMode::Absolute),
        _ => OpCode::new(0x8F, "AAX", 3, 4, AddressingMode::Absolute),
    }
}

/// The row of the opcode table for a `code` in one sixteen-code block.
fn lookup_row_9(code: u8) -> (r: OpCode)
    requires
        code / 16 == 9,
    ensures
        r == opcode_spec(code),
{
    match code {
        0x90 => OpCode::new(0x90, "BCC", 2, 2, AddressingMode::Relative),
        0x91 => OpCode::new(0x91, "STA", 2, 6, AddressingMode::Indirect_Y),
        0x92 => OpCode::new(0x92, "KIL", 1, 0, AddressingMode::NoneAddressing),
        0x93 => OpCode::new(0x93, "AXA", 2, 6, AddressingMode::Indirect_Y),
        0x94 => OpCode::new(0x94, "STY", 2, 4, AddressingMode::ZeroPage_X),
        0x95 => OpCode::new(0x95, "STA", 2, 4, AddressingMode::ZeroPage_X),
        0x96 => OpCode::new(0x96, "STX", 2, 4, AddressingMode::ZeroPage_Y),
        0x97 => OpCode::new(0x97, "AAX", 2, 4, AddressingMode::ZeroPage_Y),
        0x98 => OpCode::new(0x98, "TYA", 1, 2, AddressingMode::NoneAddressing),
        0x99 => OpCode::new(0x99, "STA", 3, 5, AddressingMode::Absolute_Y),
        0x9A => OpCode::new(0x9A, "TXS", 1, 2, AddressingMode::NoneAddressing),
        0x9B => OpCode::new(0x9B, "XAS", 3, 5, AddressingMode::Absolute_Y),
        0x9C => OpCode::new(0x9C, "SYA", 3, 5, AddressingMode::Absolute_X),
        0x9D => OpCode::new(0x9D, "STA", 3, 5, AddressingMode::Absolute_X),
        0x9E => OpCode::new(0x9E, "SXA", 3, 5, AddressingMode::Absolute_Y),
        _ => OpCode::new(0x9F, "AXA", 3, 5, AddressingMode::Absolute_Y),
    }
}

/// The row of the opcode table for a `code` in one sixteen-code block.
fn lookup_row_a(code: u8) -> (r: OpCode)
    requires
        code / 16 == 10,
    ensures
        r == opcode_spec(code),
{
    match code {
        0xA0 => OpCode::new(0xA0, "LDY", 2, 2, AddressingMode::Immediate),
        0xA1 => OpCode::new(0xA1, "LDA", 2, 6, AddressingMode::Indirect_X),
        0xA2 => OpCode::new(0xA2, "LDX", 2, 2, AddressingMode::Immediate),
        0xA3 => OpCode::new(0xA3, "LAX", 2, 6, AddressingMode::Indirect_X),
        0xA4 => OpCode::new(0xA4, "LDY", 2, 3, AddressingMode::ZeroPage),
        0xA5 => OpCode::new(0xA5, "LDA", 2, 3, AddressingMode::ZeroPage),
        0xA6 => OpCode::new(0xA6, "LDX", 2, 3, AddressingMode::ZeroPage),
        0xA7 => OpCode::new(0xA7, "LAX", 2, 3, AddressingMode::ZeroPage),
        0xA8 => OpCode::new(0xA8, "TAY", 1, 2, AddressingMode::NoneAddressing),
        0xA9 => OpCode::new(0xA9, "LDA", 2, 2, AddressingMode::Immediate),
        0xAA => OpCode::new(0xAA, "TAX", 1, 2, AddressingMode::NoneAddressing),
        0xAB => OpCode::new(0xAB, "ATX", 2, 2, AddressingMode::Immediate),
        0xAC => OpCode::new(0xAC, "LDY", 3, 4, AddressingMode::Absolute),
        0xAD => OpCode::new(0xAD, "LDA", 3, 4, AddressingMode::Absolute),
        0xAE => OpCode::new(0xAE, "LDX", 3, 4, AddressingMode::Absolute),
        _ => OpCode::new(0xAF, "LAX", 3, 4, AddressingMode::Absolute),
    }
}

/// The row of the opcode table for a `code` in one sixteen-code block.
fn lookup_row_b(code: u8) -> (r: OpCode)
    requires
        code / 16 == 11,
    ensures
        r == opcode_spec(code),
{
    match code {
        0xB0 => OpCode::new(0xB0, "BCS", 2, 2, AddressingMode::Relative),
        0xB1 => OpCode::new(0xB1, "LDA", 2, 5, AddressingMode::Indirect_Y),
        0xB2 => OpCode::new(0xB2, "KIL", 1, 0, AddressingMode::NoneAddressing),
        0xB3 => OpCode::new(0xB3, "LAX", 2, 5, AddressingMode::Indirect_Y),
        0xB4 => OpCode::new(0xB4, "LDY", 2, 4, AddressingMode::ZeroPage_X),
        0xB5 => OpCode::new(0xB5, "LDA", 2, 4, AddressingMode::ZeroPage_X),
        0xB6 => OpCode::new(0xB6, "LDX", 2, 4, AddressingMode::ZeroPage_Y),
        0xB7 => OpCode::new(0xB7, "LAX", 2, 4, AddressingMode::ZeroPage_Y),
        0xB8 => OpCode::new(0xB8, "CLV", 1, 2, AddressingMode::NoneAddressing),
        0xB9 => OpCode::new(0xB9, "LDA", 3, 4, AddressingMode::Absolute_Y),
        0xBA => OpCode::new(0xBA, "TSX", 1, 2, AddressingMode::NoneAddressing),
        0xBB => OpCode::new(0xBB, "LAR", 3, 4, AddressingMode::Absolute_Y),
        0xBC => OpCode::new(0xBC, "LDY", 3, 4, AddressingMode::Absolute_X),
        0xBD => OpCode::new(0xBD, "LDA", 3, 4, AddressingMode::Absolute_X),
        0xBE => OpCode::new(0xBE, "LDX", 3, 4, AddressingMode::Absolute_Y),
        _ => OpCode::new(0xBF, "LAX", 3, 4, AddressingMode::Absolute_Y),
    }
}

/// The row of the opcode table for a `code` in one sixteen-code block.
fn lookup_row_c(code: u8) -> (r: OpCode)
    requires
        code / 16 == 12,
    ensures
        r == opcode_spec(code),
{
    match code {
        0xC0 => OpCode::new(0xC0, "CPY", 2, 2, AddressingMode::Immediate),
        0xC1 => OpCode::new(0xC1, "CMP", 2, 6, AddressingMode::Indirect_X),
        0xC2 => OpCode::new(0xC2, "DOP", 2, 2, AddressingMode::Immediate),
        0xC3 => OpCode::new(0xC3, "DCP", 2, 8, AddressingMode::Indirect_X),
        0xC4 => OpCode::new(0xC4, "CPY", 2, 3, AddressingMode::ZeroPage),
        0xC5 => OpCode::new(0xC5, "CMP", 2, 3, AddressingMode::ZeroPage),
        0xC6 => OpCode::new(0xC6, "DEC", 2, 5, AddressingMode::ZeroPage),
        0xC7 => OpCode::new(0xC7, "DCP", 2, 5, AddressingMode::ZeroPage),
        0xC8 => OpCode::new(0xC8, "INY", 1, 2, AddressingMode::NoneAddressing),
        0xC9 => OpCode::new(0xC9, "CMP", 2, 2, AddressingMode::Immediate),
        0xCA => OpCode::new(0xCA, "DEX", 1, 2, AddressingMode::NoneAddressing),
        0xCB => OpCode::new(0xCB, "AXS", 2, 2, AddressingMode::Immediate),
        0xCC => OpCode::new(0xCC, "CPY", 3, 4, AddressingMode::Absolute),
        0xCD => OpCode::new(0xCD, "CMP", 3, 4, AddressingMode::Absolute),
        0xCE => OpCode::new(0xCE, "DEC", 3, 6, AddressingMode::Absolute),
        _ => OpCode::new(0xCF, "DCP", 3, 6, AddressingMode::Absolute),
    }
}

/// The row of the opcode table for a `code` in one sixteen-code block.
fn lookup_row_d(code: u8) -> (r: OpCode)
    requires
        code / 16 == 13,
    ensures
        r == opcode_spec(code),
{
    match code {
        0xD0 => OpCode::new(0xD0, "BNE", 2, 2, AddressingMode::Relative),
        0xD1 => OpCode::new(0xD1, "CMP", 2, 5, AddressingMode::Indirect_Y),
        0xD2 => OpCode::new(0xD2, "KIL", 1, 0, AddressingMode::NoneAddressing),
        0xD3 => OpCode::new(0xD3, "DCP", 2, 8, AddressingMode::Indirect_Y),
        0xD4 => OpCode::new(0xD4, "DOP", 2, 4, AddressingMode::ZeroPage_X),
        0xD5 => OpCode::new(0xD5, "CMP", 2, 4, AddressingMode::ZeroPage_X),
        0xD6 => OpCode::new(0xD6, "DEC", 2, 6, AddressingMode::ZeroPage_X),
        0xD7 => OpCode::new(0xD7, "DCP", 2, 6, AddressingMode::ZeroPage_X),
        0xD8 => OpCode::new(0xD8, "CLD", 1, 2, AddressingMode::NoneAddressing),
        0xD9 => OpCode::new(0xD9, "CMP", 3, 4, AddressingMode::Absolute_Y),
        0xDA => OpCode::new(0xDA, "NOP", 1, 2, AddressingMode::NoneAddressing),
        0xDB => OpCode::new(0xDB, "DCP", 3, 7, AddressingMode::Absolute_Y),
        0xDC => OpCode::new(0xDC, "TOP", 3, 4, AddressingMode::Absolute_X),
        0xDD => OpCode::new(0xDD, "CMP", 3, 4, AddressingMode::Absolute_X),
        0xDE => OpCode::new(0xDE, "DEC", 3, 7, AddressingMode::Absolute_X),
        _ => OpCode::new(0xDF, "DCP", 3, 7, AddressingMode::Absolute_X),
    }
}

/// The row of the opcode table for a `code` in one sixteen-code block.
fn lookup_row_e(code: u8) -> (r: OpCode)
    requires
        code / 16 == 14,
    ensures
        r == opcode_spec(code),
{
    match code {
        0xE0 => OpCode::new(0xE0, "CPX", 2, 2, AddressingMode::Immediate),
        0xE1 => OpCode::new(0xE1, "SBC", 2, 6, AddressingMode::Indirect_X),
        0xE2 => OpCode::new(0xE2, "DOP", 2, 2, AddressingMode::Immediate),
        0xE3 => OpCode::new(0xE3, "ISC", 2, 8, AddressingMode::Indirect_X),
        0xE4 => OpCode::new(0xE4, "CPX", 2, 3, AddressingMode::ZeroPage),
        0xE5 => OpCode::new(0xE5, "SBC", 2, 3, AddressingMode::ZeroPage),
        0xE6 => OpCode::new(0xE6, "INC", 2, 5, AddressingMode::ZeroPage),
        0xE7 => OpCode::new(0xE7, "ISC", 2, 5, AddressingMode::ZeroPage),
        0xE8 => OpCode::new(0xE8, "INX", 1, 2, AddressingMode::NoneAddressing),
        0xE9 => OpCode::new(0xE9, "SBC", 2, 2, AddressingMode::Immediate),
        0xEA => OpCode::new(0xEA, "NOP", 1, 2, AddressingMode::NoneAddressing),
        0xEB => OpCode::new(0xEB, "SBC", 2, 2, AddressingMode::Immediate),
        0xEC => OpCode::new(0xEC, "CPX", 3, 4, AddressingMode::Absolute),
        0xED => OpCode::new(0xED, "SBC", 3, 4, AddressingMode::Absolute),
        0xEE => OpCode::new(0xEE, "INC", 3, 6, AddressingMode::Absolute),
        _ => OpCode::new(0xEF, "ISC", 3, 6, AddressingMode::Absolute),
    }
}

/// The row of the opcode table for a `code` in one sixteen-code block.
fn lookup_row_f(code: u8) -> (r: OpCode)
    requires
        code / 16 == 15,
    ensures
        r == opcode_spec(code),
{
    match code {
        0xF0 => OpCode::new(0xF0, "BEQ", 2, 2, AddressingMode::Relative),
        0xF1 => OpCode::new(0xF1, "SBC", 2, 5, AddressingMode::Indirect_Y),
        0xF2 => OpCode::new(0xF2, "KIL", 1, 0, AddressingMode::NoneAddressing),
        0xF3 => OpCode::new(0xF3, "ISC", 2, 8, AddressingMode::Indirect_Y),
        0xF4 => OpCode::new(0xF4, "DOP", 2, 4, AddressingMode::ZeroPage_X),
        0xF5 => OpCode::new(0xF5, "SBC", 2, 4, AddressingMode::ZeroPage_X),
        0xF6 => OpCode::new(0xF6, "INC", 2, 6, AddressingMode::ZeroPage_X),
        0xF7 => OpCode::new(0xF7, "ISC", 2, 6, AddressingMode::ZeroPage_X),
        0xF8 => OpCode::new(0xF8, "SED", 1, 2, AddressingMode::NoneAddressing),
        0xF9 => OpCode::new(0xF9, "SBC", 3, 4, AddressingMode::Absolute_Y),
        0xFA => OpCode::new(0xFA, "NOP", 1, 2, AddressingMode::NoneAddressing),
        0xFB => OpCode::new(0xFB, "ISC", 3, 7, AddressingMode::Absolute_Y),
        0xFC => OpCode::new(0xFC, "TOP", 3, 4, AddressingMode::Absolute_X),
        0xFD => OpCode::new(0xFD, "SBC", 3, 4, AddressingMode::Absolute_X),
        0xFE => OpCode::new(0xFE, "INC", 3, 7, AddressingMode::Absolute_X),
        _ => OpCode::new(0xFF, "ISC", 3, 7, AddressingMode::Absolute_X),
    }
}

} // verus!
