use vstd::prelude::*;

use crate::cpu::state::{
    AddressingMode, FLAG_B, FLAG_CARRY, FLAG_DECIMAL, FLAG_INTERRUPT_DISABLE, FLAG_NEGATIVE, FLAG_OVERFLOW, FLAG_ZERO,
    STACK_BASE,
};
use crate::opcodes::{opcode_spec, OpCode};

verus! {

/// The state of the processor as the contracts see it.
#[verifier::ext_equal]
pub struct CpuState {
    pub a: u8,
    pub x: u8,
    pub y: u8,
    pub status: u8,
    pub pc: u16,
    pub sp: u8,
    pub mem: Seq<u8>,
    pub halted: bool,
}

/// Memory holds the addresses 0x0000 through 0xFFFE; 0xFFFF is not one of them.
pub open spec fn in_memory(addr: int) -> bool {
    0 <= addr < 0xFFFF
}

/// `v` reduced to a byte (arithmetic modulo 256).
pub open spec fn wrap8(v: int) -> u8 {
    (v % 0x100) as u8
}

/// `v` reduced to a 16-bit word (arithmetic modulo 65536).
pub open spec fn wrap16(v: int) -> u16 {
    (v % 0x10000) as u16
}

/// The little-endian word made of a low and a high byte.
pub open spec fn word(lo: u8, hi: u8) -> u16 {
    (hi as int * 0x100 + lo as int) as u16
}

/// A byte read as a two's complement number.
pub open spec fn signed8(v: u8) -> int {
    if v < 0x80 {
        v as int
    } else {
        v as int - 0x100
    }
}

/// Whether any bit of `mask` is set in `status`.
pub open spec fn flag_on(status: u8, mask: u8) -> bool {
    status & mask != 0
}

/// `status` with the bits of `mask` set (`on`) or cleared.
pub open spec fn with_flag(status: u8, mask: u8, on: bool) -> u8 {
    if on {
        status | mask
    } else {
        status & !mask
    }
}

/// `status` with zero and negative describing the byte `v`.
pub open spec fn with_zn(status: u8, v: u8) -> u8 {
    with_flag(with_flag(status, FLAG_ZERO, v == 0), FLAG_NEGATIVE, v >= 0x80)
}

/// The address that holds the high byte of an indirect jump through `base`:
/// the byte after `base`, wrapping within the page of `base`.
pub open spec fn indirect_high_address(base: u16) -> int {
    (base as int / 0x100) * 0x100 + (base as int % 0x100 + 1) % 0x100
}

/// The upper-case hexadecimal digit of `n` (0 through 15).
pub open spec fn hex_digit(n: int) -> char {
    seq!['0', '1', '2', '3', '4', '5', '6', '7', '8', '9', 'A', 'B', 'C', 'D', 'E', 'F'][n]
}

/// Two upper-case hexadecimal digits for a byte.
pub open spec fn hex_byte(v: u8) -> Seq<char> {
    seq![hex_digit(v as int / 16), hex_digit(v as int % 16)]
}

/// Four upper-case hexadecimal digits for a word.
pub open spec fn hex_word(v: u16) -> Seq<char> {
    hex_byte((v as int / 0x100) as u8) + hex_byte((v as int % 0x100) as u8)
}

/// `label` when a bit of `mask` is set in `status`, else `-`.
pub open spec fn flag_char(status: u8, mask: u8, label: char) -> char {
    if status & mask != 0 {
        label
    } else {
        '-'
    }
}

/// The status register as eight characters, bit 7 first: `NV-BDIZC`, with `-`
/// for each clear flag; bit 5 is always shown as `-`.
pub open spec fn status_chars(status: u8) -> Seq<char> {
    seq![
        flag_char(status, FLAG_NEGATIVE, 'N'),
        flag_char(status, FLAG_OVERFLOW, 'V'),
        '-',
        flag_char(status, FLAG_B, 'B'),
        flag_char(status, FLAG_DECIMAL, 'D'),
        flag_char(status, FLAG_INTERRUPT_DISABLE, 'I'),
        flag_char(status, FLAG_ZERO, 'Z'),
        flag_char(status, FLAG_CARRY, 'C'),
    ]
}

/// One line describing the registers and the flags, such as
/// `PC=0xC123  A=0x10  X=0x20  Y=0x30  SP=0x7F  STATUS=[NV-B--Z-]`.
pub open spec fn describe(s: CpuState) -> Seq<char> {
    "PC=0x"@ + hex_word(s.pc) + "  A=0x"@ + hex_byte(s.a) + "  X=0x"@ + hex_byte(s.x)
        + "  Y=0x"@ + hex_byte(s.y) + "  SP=0x"@ + hex_byte(s.sp) + "  STATUS=["@
        + status_chars(s.status) + "]"@
}

/// The instructions that the processor executes.
pub enum Operation {
    Brk, Ora, Asl, Php, Bpl, Clc, Jsr, And, Bit, Rol, Plp, Bmi, Sec, Rti, Eor, Lsr, Pha,
    Jmp, Cli, Rts, Adc, Ror, Pla, Bvs, Sta, Sty, Stx, Dey, Txa, Bcc, Tya, Txs, Ldy, Lda,
    Ldx, Tay, Tax, Bcs, Tsx, Cpy, Cmp, Dec, Iny, Dex, Bne, Cpx, Sbc, Inc, Inx, Beq,
}

/// The instruction that an opcode byte selects, or `None` for the opcodes
/// that the processor does not execute.
pub open spec fn operation_of(code: u8) -> Option<Operation> {
    match code {
        0x00 => Some(Operation::Brk),
        0x01 | 0x05 | 0x09 | 0x0D | 0x11 | 0x15 | 0x19 | 0x1D => Some(Operation::Ora),
        0x06 | 0x0A | 0x0E | 0x16 | 0x1E => Some(Operation::Asl),
        0x08 => Some(Operation::Php),
        0x10 => Some(Operation::Bpl),
        0x18 => Some(Operation::Clc),
        0x20 => Some(Operation::Jsr),
        0x21 | 0x25 | 0x29 | 0x2D | 0x31 | 0x35 | 0x39 | 0x3D => Some(Operation::And),
        0x24 | 0x2C => Some(Operation::Bit),
        0x26 | 0x2A | 0x2E | 0x36 | 0x3E => Some(Operation::Rol),
        0x28 => Some(Operation::Plp),
        0x30 => Some(Operation::Bmi),
        0x38 => Some(Operation::Sec),
        0x40 => Some(Operation::Rti),
        0x41 | 0x45 | 0x49 | 0x4D | 0x51 | 0x55 | 0x59 | 0x5D => Some(Operation::Eor),
        0x46 | 0x4A | 0x4E | 0x56 | 0x5E => Some(Operation::Lsr),
        0x48 => Some(Operation::Pha),
        0x4C | 0x6C => Some(Operation::Jmp),
        0x58 => Some(Operation::Cli),
        0x60 => Some(Operation::Rts),
        0x61 | 0x65 | 0x69 | 0x6D | 0x71 | 0x75 | 0x79 | 0x7D => Some(Operation::Adc),
        0x66 | 0x6A | 0x6E | 0x76 | 0x7E => Some(Operation::Ror),
        0x68 => Some(Operation::Pla),
        0x70 => Some(Operation::Bvs),
        0x81 | 0x85 | 0x8D | 0x91 | 0x95 | 0x99 | 0x9D => Some(Operation::Sta),
        0x84 | 0x8C | 0x94 => Some(Operation::Sty),
        0x86 | 0x8E | 0x96 => Some(Operation::Stx),
        0x88 => Some(Operation::Dey),
        0x8A => Some(Operation::Txa),
        0x90 => Some(Operation::Bcc),
        0x98 => Some(Operation::Tya),
        0x9A => Some(Operation::Txs),
        0xA0 | 0xA4 | 0xAC | 0xB4 | 0xBC => Some(Operation::Ldy),
        0xA1 | 0xA5 | 0xA9 | 0xAD | 0xB1 | 0xB5 | 0xB9 | 0xBD => Some(Operation::Lda),
        0xA2 | 0xA6 | 0xAE | 0xB6 | 0xBE => Some(Operation::Ldx),
        0xA8 => Some(Operation::Tay),
        0xAA => Some(Operation::Tax),
        0xB0 => Some(Operation::Bcs),
        0xBA => Some(Operation::Tsx),
        0xC0 | 0xC4 | 0xCC => Some(Operation::Cpy),
        0xC1 | 0xC5 | 0xC9 | 0xCD | 0xD1 | 0xD5 | 0xD9 | 0xDD => Some(Operation::Cmp),
        0xC6 | 0xCE | 0xD6 | 0xDE => Some(Operation::Dec),
        0xC8 => Some(Operation::Iny),
        0xCA => Some(Operation::Dex),
        0xD0 => Some(Operation::Bne),
        0xE0 | 0xE4 | 0xEC => Some(Operation::Cpx),
        0xE1 | 0xE5 | 0xE9 | 0xED | 0xF1 | 0xF5 | 0xF9 | 0xFD => Some(Operation::Sbc),
        0xE6 | 0xEE | 0xF6 | 0xFE => Some(Operation::Inc),
        0xE8 => Some(Operation::Inx),
        0xF0 => Some(Operation::Beq),
        _ => None,
    }
}

impl CpuState {
    /// Memory holds exactly 0xFFFF bytes, as the processor's memory does.
    pub open spec fn wf(self) -> bool {
        self.mem.len() == 0xFFFF
    }

    // ---------------------------------------------------------------- memory

    pub open spec fn read(self, addr: int) -> u8 {
        self.mem[addr]
    }

    pub open spec fn write(self, addr: int, value: u8) -> CpuState {
        CpuState { mem: self.mem.update(addr, value), ..self }
    }

    /// The little-endian word at `addr` and `addr + 1`.
    pub open spec fn read_word(self, addr: int) -> u16 {
        word(self.read(addr), self.read(addr + 1))
    }

    // ----------------------------------------------------------------- flags

    pub open spec fn flag(self, mask: u8) -> bool {
        flag_on(self.status, mask)
    }

    pub open spec fn set_flag(self, mask: u8, on: bool) -> CpuState {
        CpuState { status: with_flag(self.status, mask, on), ..self }
    }

    pub open spec fn set_zn(self, v: u8) -> CpuState {
        CpuState { status: with_zn(self.status, v), ..self }
    }

    /// The carry flag as a number, 0 or 1.
    pub open spec fn carry_in(self) -> int {
        if self.flag(FLAG_CARRY) {
            1
        } else {
            0
        }
    }

    // --------------------------------------------------------- control flow

    /// Move the program counter over the `len - 1` operand bytes of an
    /// instruction of length `len`, wrapping at 0x10000.
    pub open spec fn advance(self, len: u8) -> CpuState {
        CpuState { pc: wrap16(self.pc + len - 1), ..self }
    }

    pub open spec fn jump(self, target: u16) -> CpuState {
        CpuState { pc: target, ..self }
    }

    // ----------------------------------------------------------------- stack

    /// The address of the next free stack cell.
    pub open spec fn stack_top(self) -> int {
        STACK_BASE as int + self.sp as int
    }

    pub open spec fn push(self, v: u8) -> CpuState {
        CpuState { sp: wrap8(self.sp - 1), ..self.write(self.stack_top(), v) }
    }

    /// The byte popped from the stack, and the state after the pop.
    pub open spec fn pop(self) -> (u8, CpuState) {
        let s = CpuState { sp: wrap8(self.sp + 1), ..self };
        (s.read(s.stack_top()), s)
    }

    /// Push a word: the high byte first, then the low byte.
    pub open spec fn push_word(self, v: u16) -> CpuState {
        self.push((v as int / 0x100) as u8).push((v as int % 0x100) as u8)
    }

    /// Pop a word: the low byte first, then the high byte.
    pub open spec fn pop_word(self) -> (u16, CpuState) {
        let (lo, s1) = self.pop();
        let (hi, s2) = s1.pop();
        (word(lo, hi), s2)
    }

    // ------------------------------------------------------------ addressing

    /// Computing the operand address of `mode` reads only memory that exists.
    /// Accumulator, relative and implied modes have no operand address.
    pub open spec fn operand_defined(self, mode: AddressingMode) -> bool {
        match mode {
            AddressingMode::Immediate => true,
            AddressingMode::ZeroPage | AddressingMode::ZeroPage_X | AddressingMode::ZeroPage_Y
            | AddressingMode::Indirect_X | AddressingMode::Indirect_Y => in_memory(self.pc as int),
            AddressingMode::Absolute | AddressingMode::Absolute_X | AddressingMode::Absolute_Y =>
                in_memory(self.pc + 1),
            AddressingMode::Indirect => {
                &&& in_memory(self.pc + 1)
                &&& in_memory(self.read_word(self.pc as int) as int)
                &&& in_memory(indirect_high_address(self.read_word(self.pc as int)))
            },
            _ => false,
        }
    }

    /// The address of the operand of an instruction whose operand bytes start
    /// at the program counter.
    pub open spec fn operand_address(self, mode: AddressingMode) -> u16 {
        let pc = self.pc as int;
        match mode {
            AddressingMode::Immediate => self.pc,
            AddressingMode::ZeroPage => self.read(pc) as u16,
            AddressingMode::ZeroPage_X => wrap8(self.read(pc) + self.x) as u16,
            AddressingMode::ZeroPage_Y => wrap8(self.read(pc) + self.y) as u16,
            AddressingMode::Absolute => self.read_word(pc),
            AddressingMode::Absolute_X => wrap16(self.read_word(pc) + self.x),
            AddressingMode::Absolute_Y => wrap16(self.read_word(pc) + self.y),
            AddressingMode::Indirect => {
                let base = self.read_word(pc);
                word(self.read(base as int), self.read(indirect_high_address(base)))
            },
            AddressingMode::Indirect_X => {
                let ptr = wrap8(self.read(pc) + self.x);
                word(self.read(ptr as int), self.read(wrap8(ptr + 1) as int))
            },
            AddressingMode::Indirect_Y => {
                let base = self.read(pc);
                wrap16(word(self.read(base as int), self.read(wrap8(base + 1) as int)) + self.y)
            },
            _ => 0,
        }
    }

    /// The operand address is defined and names a memory cell.
    pub open spec fn operand_in_memory(self, mode: AddressingMode) -> bool {
        self.operand_defined(mode) && in_memory(self.operand_address(mode) as int)
    }

    pub open spec fn operand(self, mode: AddressingMode) -> u8 {
        self.read(self.operand_address(mode) as int)
    }

    /// An instruction of length `len` that reads or writes its operand in memory
    /// can run: the length covers the opcode byte and the operand lies in memory.
    pub open spec fn memory_op_ok(self, mode: AddressingMode, len: u8) -> bool {
        len >= 1 && self.operand_in_memory(mode)
    }

    /// A shift or rotate can run: on the accumulator, or on an operand in memory.
    pub open spec fn modify_op_ok(self, mode: AddressingMode, len: u8) -> bool {
        len >= 1 && (mode is Accumulator || self.operand_in_memory(mode))
    }

    /// A branch can run: its offset byte, at the program counter, lies in memory.
    pub open spec fn branch_ok(self, len: u8) -> bool {
        len >= 1 && in_memory(self.pc as int)
    }

    /// The byte that a shift or rotate works on.
    pub open spec fn modify_source(self, mode: AddressingMode) -> u8 {
        if mode is Accumulator {
            self.a
        } else {
            self.operand(mode)
        }
    }

    /// Store the result of a shift or rotate where its source came from.
    pub open spec fn modify_store(self, mode: AddressingMode, r: u8) -> CpuState {
        if mode is Accumulator {
            CpuState { a: r, ..self }
        } else {
            self.write(self.operand_address(mode) as int, r)
        }
    }

    // ---------------------------------------------------------- instructions

    pub open spec fn lda(self, mode: AddressingMode, len: u8) -> CpuState {
        let v = self.operand(mode);
        CpuState { a: v, ..self }.set_zn(v).advance(len)
    }

    pub open spec fn ldx(self, mode: AddressingMode, len: u8) -> CpuState {
        let v = self.operand(mode);
        CpuState { x: v, ..self }.set_zn(v).advance(len)
    }

    pub open spec fn ldy(self, mode: AddressingMode, len: u8) -> CpuState {
        let v = self.operand(mode);
        CpuState { y: v, ..self }.set_zn(v).advance(len)
    }

    /// Store `v` at the operand address.
    pub open spec fn store(self, mode: AddressingMode, len: u8, v: u8) -> CpuState {
        self.write(self.operand_address(mode) as int, v).advance(len)
    }

    pub open spec fn pha(self, len: u8) -> CpuState {
        self.push(self.a).advance(len)
    }

    pub open spec fn pla(self, len: u8) -> CpuState {
        let (v, s) = self.pop();
        CpuState { a: v, ..s }.advance(len)
    }

    pub open spec fn php(self, len: u8) -> CpuState {
        self.push(self.status).advance(len)
    }

    pub open spec fn plp(self, len: u8) -> CpuState {
        let (v, s) = self.pop();
        CpuState { status: v, ..s }.advance(len)
    }

    pub open spec fn tax(self, len: u8) -> CpuState {
        CpuState { x: self.a, ..self }.set_zn(self.a).advance(len)
    }

    pub open spec fn tay(self, len: u8) -> CpuState {
        CpuState { y: self.a, ..self }.set_zn(self.a).advance(len)
    }

    pub open spec fn tsx(self, len: u8) -> CpuState {
        CpuState { x: self.sp, ..self }.set_zn(self.sp).advance(len)
    }

    pub open spec fn txa(self, len: u8) -> CpuState {
        CpuState { a: self.x, ..self }.set_zn(self.x).advance(len)
    }

    pub open spec fn tya(self, len: u8) -> CpuState {
        CpuState { a: self.y, ..self }.set_zn(self.y).advance(len)
    }

    /// Transfer X to the stack pointer; this processor also sets zero and
    /// negative from the value moved.
    pub open spec fn txs(self, len: u8) -> CpuState {
        CpuState { sp: self.x, ..self }.set_zn(self.x).advance(len)
    }

    /// Add with carry: A + M + C. Carry out when the unsigned sum exceeds 0xFF;
    /// overflow when the signed sum leaves -128..=127.
    pub open spec fn adc(self, mode: AddressingMode, len: u8) -> CpuState {
        let v = self.operand(mode);
        let sum = self.a + v + self.carry_in();
        let signed_sum = signed8(self.a) + signed8(v) + self.carry_in();
        let r = wrap8(sum);
        CpuState { a: r, ..self }
            .set_flag(FLAG_CARRY, sum > 0xFF)
            .set_flag(FLAG_OVERFLOW, !(-128 <= signed_sum <= 127))
            .set_zn(r)
            .advance(len)
    }

    /// Subtract with borrow: A - M - (1 - C). Carry out when no borrow was
    /// needed; overflow when the signed difference leaves -128..=127.
    pub open spec fn sbc(self, mode: AddressingMode, len: u8) -> CpuState {
        let v = self.operand(mode);
        let diff = self.a - v - (1 - self.carry_in());
        let signed_diff = signed8(self.a) - signed8(v) - (1 - self.carry_in());
        let r = wrap8(diff);
        CpuState { a: r, ..self }
            .set_flag(FLAG_CARRY, diff >= 0)
            .set_flag(FLAG_OVERFLOW, !(-128 <= signed_diff <= 127))
            .set_zn(r)
            .advance(len)
    }

    pub open spec fn and(self, mode: AddressingMode, len: u8) -> CpuState {
        let r = self.a & self.operand(mode);
        CpuState { a: r, ..self }.set_zn(r).advance(len)
    }

    pub open spec fn ora(self, mode: AddressingMode, len: u8) -> CpuState {
        let r = self.a | self.operand(mode);
        CpuState { a: r, ..self }.set_zn(r).advance(len)
    }

    pub open spec fn eor(self, mode: AddressingMode, len: u8) -> CpuState {
        let r = self.a ^ self.operand(mode);
        CpuState { a: r, ..self }.set_zn(r).advance(len)
    }

    /// Bit test: zero from A & M; overflow and negative copy bits 6 and 7 of M.
    pub open spec fn bit(self, mode: AddressingMode, len: u8) -> CpuState {
        let v = self.operand(mode);
        self.set_flag(FLAG_ZERO, self.a & v == 0)
            .set_flag(FLAG_OVERFLOW, v & FLAG_OVERFLOW != 0)
            .set_flag(FLAG_NEGATIVE, v & FLAG_NEGATIVE != 0)
            .advance(len)
    }

    /// Compare `reg` with M: carry when reg >= M; zero and negative from reg - M.
    pub open spec fn compare_op(self, reg: u8, mode: AddressingMode, len: u8) -> CpuState {
        let v = self.operand(mode);
        self.set_flag(FLAG_CARRY, reg >= v).set_zn(wrap8(reg - v)).advance(len)
    }

    pub open spec fn asl(self, mode: AddressingMode, len: u8) -> CpuState {
        let v = self.modify_source(mode);
        let r = wrap8(2 * v);
        self.set_flag(FLAG_CARRY, v >= 0x80).set_zn(r).modify_store(mode, r).advance(len)
    }

    pub open spec fn lsr(self, mode: AddressingMode, len: u8) -> CpuState {
        let v = self.modify_source(mode);
        let r = (v / 2) as u8;
        self.set_flag(FLAG_CARRY, v % 2 == 1).set_zn(r).modify_store(mode, r).advance(len)
    }

    pub open spec fn rol(self, mode: AddressingMode, len: u8) -> CpuState {
        let v = self.modify_source(mode);
        let r = wrap8(2 * v + self.carry_in());
        self.set_flag(FLAG_CARRY, v >= 0x80).set_zn(r).modify_store(mode, r).advance(len)
    }

    pub open spec fn ror(self, mode: AddressingMode, len: u8) -> CpuState {
        let v = self.modify_source(mode);
        let r = (v / 2 + 0x80 * self.carry_in()) as u8;
        self.set_flag(FLAG_CARRY, v % 2 == 1).set_zn(r).modify_store(mode, r).advance(len)
    }

    pub open spec fn inc(self, mode: AddressingMode, len: u8) -> CpuState {
        let r = wrap8(self.operand(mode) + 1);
        self.set_zn(r).write(self.operand_address(mode) as int, r).advance(len)
    }

    pub open spec fn dec(self, mode: AddressingMode, len: u8) -> CpuState {
        let r = wrap8(self.operand(mode) - 1);
        self.set_zn(r).write(self.operand_address(mode) as int, r).advance(len)
    }

    pub open spec fn inx(self, len: u8) -> CpuState {
        let r = wrap8(self.x + 1);
        CpuState { x: r, ..self }.set_zn(r).advance(len)
    }

    pub open spec fn iny(self, len: u8) -> CpuState {
        let r = wrap8(self.y + 1);
        CpuState { y: r, ..self }.set_zn(r).advance(len)
    }

    pub open spec fn dex(self, len: u8) -> CpuState {
        let r = wrap8(self.x - 1);
        CpuState { x: r, ..self }.set_zn(r).advance(len)
    }

    pub open spec fn dey(self, len: u8) -> CpuState {
        let r = wrap8(self.y - 1);
        CpuState { y: r, ..self }.set_zn(r).advance(len)
    }

    /// Set or clear one flag and move past the instruction.
    pub open spec fn flag_op(self, mask: u8, on: bool, len: u8) -> CpuState {
        self.set_flag(mask, on).advance(len)
    }

    /// A relative branch: the signed offset byte at the program counter is
    /// added to the address of the next instruction when `taken`.
    pub open spec fn branch(self, taken: bool, len: u8) -> CpuState {
        let offset = signed8(self.read(self.pc as int));
        let s = self.advance(len);
        if taken {
            s.jump(wrap16(s.pc + offset))
        } else {
            s
        }
    }

    /// Jump to subroutine: push the address of the last byte of the
    /// instruction, then jump to the operand address.
    pub open spec fn jsr(self, mode: AddressingMode, len: u8) -> CpuState {
        let target = self.operand_address(mode);
        let s = self.advance(len);
        s.push_word(wrap16(s.pc - 1)).jump(target)
    }

    /// Return from interrupt: pop the status, then the program counter.
    pub open spec fn rti(self, len: u8) -> CpuState {
        let (status, s1) = self.pop();
        let (pc, s2) = CpuState { status: status, ..s1 }.advance(len).pop_word();
        s2.jump(pc)
    }

    /// Return from subroutine: resume after the address that `jsr` pushed.
    pub open spec fn rts(self, len: u8) -> CpuState {
        let (ret, s) = self.pop_word();
        s.jump(wrap16(ret + 1)).advance(len)
    }

    pub open spec fn jmp(self, mode: AddressingMode) -> CpuState {
        self.jump(self.operand_address(mode))
    }

    // ------------------------------------------------------ loading, reset

    /// Memory with `program` copied to 0x8000 onward and the reset vector
    /// (0xFFFC, 0xFFFD) pointing at 0x8000.
    pub open spec fn with_program(self, program: Seq<u8>) -> CpuState {
        let copied = Seq::new(
            self.mem.len(),
            |i: int|
                if 0x8000 <= i < 0x8000 + program.len() {
                    program[i - 0x8000]
                } else {
                    self.mem[i]
                },
        );
        CpuState { mem: copied, ..self }.write(0xFFFC, 0x00).write(0xFFFD, 0x80)
    }

    /// The state after a reset: registers and status cleared, the stack
    /// pointer at 0xFD, and the program counter loaded from the reset vector.
    pub open spec fn after_reset(self) -> CpuState {
        CpuState {
            a: 0,
            x: 0,
            y: 0,
            status: 0,
            sp: 0xFD,
            pc: self.read_word(0xFFFC),
            ..self
        }
    }

    // ---------------------------------------------------------- whole steps

    /// `op` with the operand description `opcode` can run from this state,
    /// whose program counter is just past the opcode byte.
    pub open spec fn can_execute(self, op: Operation, opcode: OpCode) -> bool {
        let mode = opcode.mode;
        let len = opcode.len;
        match op {
            Operation::Brk => true,
            Operation::Lda | Operation::Ldx | Operation::Ldy | Operation::Sta | Operation::Stx
            | Operation::Sty | Operation::Adc | Operation::Sbc | Operation::And | Operation::Ora
            | Operation::Eor | Operation::Bit | Operation::Cmp | Operation::Cpx | Operation::Cpy
            | Operation::Inc | Operation::Dec => self.memory_op_ok(mode, len),
            Operation::Asl | Operation::Lsr | Operation::Rol | Operation::Ror =>
                self.modify_op_ok(mode, len),
            Operation::Bpl | Operation::Bmi | Operation::Bvs | Operation::Bcc | Operation::Bcs
            | Operation::Bne | Operation::Beq => self.branch_ok(len),
            Operation::Jsr => len >= 1 && self.operand_defined(mode),
            Operation::Jmp => self.operand_defined(mode),
            _ => len >= 1,
        }
    }

    /// The state after `op`, from a state whose program counter is just past
    /// the opcode byte.
    pub open spec fn execute(self, op: Operation, opcode: OpCode) -> CpuState {
        let mode = opcode.mode;
        let len = opcode.len;
        match op {
            Operation::Brk => self,
            Operation::Ora => self.ora(mode, len),
            Operation::Asl => self.asl(mode, len),
            Operation::Php => self.php(len),
            Operation::Bpl => self.branch(!self.flag(FLAG_NEGATIVE), len),
            Operation::Clc => self.flag_op(FLAG_CARRY, false, len),
            Operation::Jsr => self.jsr(mode, len),
            Operation::And => self.and(mode, len),
            Operation::Bit => self.bit(mode, len),
            Operation::Rol => self.rol(mode, len),
            Operation::Plp => self.plp(len),
            Operation::Bmi => self.branch(self.flag(FLAG_NEGATIVE), len),
            Operation::Sec => self.flag_op(FLAG_CARRY, true, len),
            Operation::Rti => self.rti(len),
            Operation::Eor => self.eor(mode, len),
            Operation::Lsr => self.lsr(mode, len),
            Operation::Pha => self.pha(len),
            Operation::Jmp => self.jmp(mode),
            Operation::Cli => self.flag_op(FLAG_INTERRUPT_DISABLE, false, len),
            Operation::Rts => self.rts(len),
            Operation::Adc => self.adc(mode, len),
            Operation::Ror => self.ror(mode, len),
            Operation::Pla => self.pla(len),
            Operation::Bvs => self.branch(self.flag(FLAG_OVERFLOW), len),
            Operation::Sta => self.store(mode, len, self.a),
            Operation::Sty => self.store(mode, len, self.y),
            Operation::Stx => self.store(mode, len, self.x),
            Operation::Dey => self.dey(len),
            Operation::Txa => self.txa(len),
            Operation::Bcc => self.branch(!self.flag(FLAG_CARRY), len),
            Operation::Tya => self.tya(len),
            Operation::Txs => self.txs(len),
            Operation::Ldy => self.ldy(mode, len),
            Operation::Lda => self.lda(mode, len),
            Operation::Ldx => self.ldx(mode, len),
            Operation::Tay => self.tay(len),
            Operation::Tax => self.tax(len),
            Operation::Bcs => self.branch(self.flag(FLAG_CARRY), len),
            Operation::Tsx => self.tsx(len),
            Operation::Cpy => self.compare_op(self.y, mode, len),
            Operation::Cmp => self.compare_op(self.a, mode, len),
            Operation::Dec => self.dec(mode, len),
            Operation::Iny => self.iny(len),
            Operation::Dex => self.dex(len),
            Operation::Bne => self.branch(!self.flag(FLAG_ZERO), len),
            Operation::Cpx => self.compare_op(self.x, mode, len),
            Operation::Sbc => self.sbc(mode, len),
            Operation::Inc => self.inc(mode, len),
            Operation::Inx => self.inx(len),
            Operation::Beq => self.branch(self.flag(FLAG_ZERO), len),
        }
    }

    /// The opcode byte at the program counter.
    pub open spec fn current_code(self) -> u8 {
        self.read(self.pc as int)
    }

    /// The state once the opcode byte has been fetched.
    pub open spec fn fetched(self) -> CpuState {
        CpuState { pc: (self.pc + 1) as u16, ..self }
    }

    /// The instruction at the program counter is BRK.
    pub open spec fn at_break(self) -> bool {
        self.current_code() == 0x00
    }

    /// One fetch-and-execute step can run: the opcode byte lies in memory, it
    /// selects an instruction the processor executes, and that instruction can run.
    pub open spec fn can_step(self) -> bool {
        &&& in_memory(self.pc as int)
        &&& operation_of(self.current_code()) is Some
        &&& self.fetched().can_execute(
            operation_of(self.current_code())->0,
            opcode_spec(self.current_code()),
        )
    }

    /// The state after one fetch-and-execute step. At BRK only the fetch happens.
    pub open spec fn next(self) -> CpuState {
        self.fetched().execute(operation_of(self.current_code())->0, opcode_spec(self.current_code()))
    }

    /// Starting here, the processor reaches a BRK within `n` steps, and each
    /// step on the way can run.
    pub open spec fn halts_within(self, n: nat) -> bool
        decreases n,
    {
        &&& self.can_step()
        &&& (self.at_break() || (n > 0 && self.next().halts_within((n - 1) as nat)))
    }

    /// The state after stepping until a BRK has executed, taking at most `n + 1` steps.
    pub open spec fn run_within(self, n: nat) -> CpuState
        decreases n,
    {
        if self.at_break() || n == 0 {
            self.next()
        } else {
            self.next().run_within((n - 1) as nat)
        }
    }

    /// The program that starts here reaches a BRK, and every step on the way can run.
    pub open spec fn halts(self) -> bool {
        exists|n: nat| self.halts_within(n)
    }

    /// The state after running until a BRK has executed.
    pub open spec fn final_state(self) -> CpuState {
        self.run_within(choose|n: nat| self.halts_within(n))
    }
}

} // verus!
