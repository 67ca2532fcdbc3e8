//! What each instruction does, stated directly in terms of the registers, the
//! flag bits and the memory cells before and after it. Each law is about the
//! state that a step reaches with the instruction (`CpuState::execute`), which
//! is also what the instruction's own method ensures.
use vstd::prelude::*;

use crate::cpu::model::{
    describe, hex_byte, hex_digit, hex_word, operation_of, status_chars, with_flag, CpuState, Operation,
};
use crate::cpu::state::{
    AddressingMode, FLAG_B, FLAG_CARRY, FLAG_DECIMAL, FLAG_INTERRUPT_DISABLE, FLAG_NEGATIVE, FLAG_OVERFLOW, FLAG_ZERO,
};
use crate::opcodes::{opcode_spec, OpCode};

verus! {

/// The address of the instruction after one of `len` bytes whose operand
/// bytes start at `pc`.
pub open spec fn pc_after(pc: u16, len: u8) -> int {
    (pc + len - 1) % 0x10000
}

/// A byte read as a two's complement number.
pub open spec fn as_signed(v: u8) -> int {
    if v >= 0x80 {
        v - 0x100
    } else {
        v as int
    }
}

/// The byte at the operand address of `mode`.
pub open spec fn operand_byte(s: CpuState, mode: AddressingMode) -> u8 {
    s.mem[s.operand_address(mode) as int]
}

/// Zero and negative in `status` describe the byte `v`.
pub open spec fn zn_describe(status: u8, v: u8) -> bool {
    &&& (status & FLAG_ZERO != 0) == (v == 0)
    &&& (status & FLAG_NEGATIVE != 0) == (v >= 0x80)
}

/// The status bits of `mask` are the same in both.
pub open spec fn same_bit(st1: u8, st2: u8, mask: u8) -> bool {
    (st1 & mask != 0) == (st2 & mask != 0)
}

/// The mnemonic of an instruction, as the opcode table writes it.
pub open spec fn mnemonic_of(op: Operation) -> &'static str {
    match op {
        Operation::Brk => "BRK",
        Operation::Ora => "ORA",
        Operation::Asl => "ASL",
        Operation::Php => "PHP",
        Operation::Bpl => "BPL",
        Operation::Clc => "CLC",
        Operation::Jsr => "JSR",
        Operation::And => "AND",
        Operation::Bit => "BIT",
        Operation::Rol => "ROL",
        Operation::Plp => "PLP",
        Operation::Bmi => "BMI",
        Operation::Sec => "SEC",
        Operation::Rti => "RTI",
        Operation::Eor => "EOR",
        Operation::Lsr => "LSR",
        Operation::Pha => "PHA",
        Operation::Jmp => "JMP",
        Operation::Cli => "CLI",
        Operation::Rts => "RTS",
        Operation::Adc => "ADC",
        Operation::Ror => "ROR",
        Operation::Pla => "PLA",
        Operation::Bvs => "BVS",
        Operation::Sta => "STA",
        Operation::Sty => "STY",
        Operation::Stx => "STX",
        Operation::Dey => "DEY",
        Operation::Txa => "TXA",
        Operation::Bcc => "BCC",
        Operation::Tya => "TYA",
        Operation::Txs => "TXS",
        Operation::Ldy => "LDY",
        Operation::Lda => "LDA",
        Operation::Ldx => "LDX",
        Operation::Tay => "TAY",
        Operation::Tax => "TAX",
        Operation::Bcs => "BCS",
        Operation::Tsx => "TSX",
        Operation::Cpy => "CPY",
        Operation::Cmp => "CMP",
        Operation::Dec => "DEC",
        Operation::Iny => "INY",
        Operation::Dex => "DEX",
        Operation::Bne => "BNE",
        Operation::Cpx => "CPX",
        Operation::Sbc => "SBC",
        Operation::Inc => "INC",
        Operation::Inx => "INX",
        Operation::Beq => "BEQ",
    }
}

/// Setting or clearing the bits of a nonzero mask is what reading them then
/// reports, and bits outside the mask keep their value.
proof fn lemma_with_flag()
    ensures
        forall|st: u8, m: u8, b: bool|
            m != 0 ==> ((#[trigger] (with_flag(st, m, b) & m)) != 0) == b,
        forall|st: u8, m: u8, b: bool, m2: u8|
            m & m2 == 0 ==> ((#[trigger] (with_flag(st, m, b) & m2)) != 0) == (st & m2 != 0),
        FLAG_CARRY & FLAG_ZERO == 0,
        FLAG_CARRY & FLAG_NEGATIVE == 0,
        FLAG_CARRY & FLAG_OVERFLOW == 0,
        FLAG_CARRY & FLAG_INTERRUPT_DISABLE == 0,
        FLAG_ZERO & FLAG_CARRY == 0,
        FLAG_ZERO & FLAG_NEGATIVE == 0,
        FLAG_ZERO & FLAG_OVERFLOW == 0,
        FLAG_ZERO & FLAG_INTERRUPT_DISABLE == 0,
        FLAG_NEGATIVE & FLAG_CARRY == 0,
        FLAG_NEGATIVE & FLAG_ZERO == 0,
        FLAG_NEGATIVE & FLAG_OVERFLOW == 0,
        FLAG_NEGATIVE & FLAG_INTERRUPT_DISABLE == 0,
        FLAG_OVERFLOW & FLAG_CARRY == 0,
        FLAG_OVERFLOW & FLAG_ZERO == 0,
        FLAG_OVERFLOW & FLAG_NEGATIVE == 0,
        FLAG_OVERFLOW & FLAG_INTERRUPT_DISABLE == 0,
        FLAG_INTERRUPT_DISABLE & FLAG_CARRY == 0,
        FLAG_INTERRUPT_DISABLE & FLAG_ZERO == 0,
        FLAG_INTERRUPT_DISABLE & FLAG_NEGATIVE == 0,
        FLAG_INTERRUPT_DISABLE & FLAG_OVERFLOW == 0,
        FLAG_CARRY != 0,
        FLAG_ZERO != 0,
        FLAG_NEGATIVE != 0,
        FLAG_OVERFLOW != 0,
        FLAG_INTERRUPT_DISABLE != 0,
{
    assert forall|st: u8, m: u8, b: bool| m != 0 implies ((#[trigger] (with_flag(st, m, b) & m))
        != 0) == b by {
        assert(m != 0 ==> ((st | m) & m) != 0) by (bit_vector);
        assert(((st & !m) & m) == 0) by (bit_vector);
    }
    assert forall|st: u8, m: u8, b: bool, m2: u8| m & m2 == 0 implies ((#[trigger] (with_flag(
        st,
        m,
        b,
    ) & m2)) != 0) == (st & m2 != 0) by {
        assert(m & m2 == 0 ==> (((st | m) & m2) != 0) == (st & m2 != 0)) by (bit_vector);
        assert(m & m2 == 0 ==> (((st & !m) & m2) != 0) == (st & m2 != 0)) by (bit_vector);
    }
    assert(FLAG_CARRY & FLAG_ZERO == 0
        && FLAG_CARRY & FLAG_NEGATIVE == 0
        && FLAG_CARRY & FLAG_OVERFLOW == 0
        && FLAG_CARRY & FLAG_INTERRUPT_DISABLE == 0
        && FLAG_ZERO & FLAG_CARRY == 0
        && FLAG_ZERO & FLAG_NEGATIVE == 0
        && FLAG_ZERO & FLAG_OVERFLOW == 0
        && FLAG_ZERO & FLAG_INTERRUPT_DISABLE == 0
        && FLAG_NEGATIVE & FLAG_CARRY == 0
        && FLAG_NEGATIVE & FLAG_ZERO == 0
        && FLAG_NEGATIVE & FLAG_OVERFLOW == 0
        && FLAG_NEGATIVE & FLAG_INTERRUPT_DISABLE == 0
        && FLAG_OVERFLOW & FLAG_CARRY == 0
        && FLAG_OVERFLOW & FLAG_ZERO == 0
        && FLAG_OVERFLOW & FLAG_NEGATIVE == 0
        && FLAG_OVERFLOW & FLAG_INTERRUPT_DISABLE == 0
        && FLAG_INTERRUPT_DISABLE & FLAG_CARRY == 0
        && FLAG_INTERRUPT_DISABLE & FLAG_ZERO == 0
        && FLAG_INTERRUPT_DISABLE & FLAG_NEGATIVE == 0
        && FLAG_INTERRUPT_DISABLE & FLAG_OVERFLOW == 0
    ) by (bit_vector);
}

// ----------------------------------------------------------- memory, flags

/// Reading a cell gives its byte; writing a cell replaces that byte only;
/// the next free stack cell is 0x0100 + SP; a flag test reports whether any
/// bit of the mask is set in the status register.
pub proof fn law_cells_and_flags(s: CpuState, addr: int, value: u8, mask: u8)
    ensures
        s.read(addr) == s.mem[addr],
        s.write(addr, value).mem == s.mem.update(addr, value),
        s.write(addr, value).a == s.a && s.write(addr, value).pc == s.pc && s.write(addr, value).sp
            == s.sp && s.write(addr, value).status == s.status,
        s.read_word(addr) == s.mem[addr] + 0x100 * s.mem[addr + 1],
        s.stack_top() == 0x100 + s.sp,
        s.flag(mask) == (s.status & mask != 0),
{
}

// ------------------------------------------------------------------ addressing

/// Where each addressing mode finds its operand, from the operand bytes at
/// the program counter and the index registers. Zero page indexing wraps
/// within page zero; absolute indexing wraps at 0x10000; an indirect JMP
/// whose pointer is the last byte of a page takes the target's high byte from
/// the first byte of that page.
pub proof fn law_operand_addresses(s: CpuState)
    ensures
        s.operand_address(AddressingMode::Immediate) == s.pc,
        s.operand_address(AddressingMode::ZeroPage) == s.mem[s.pc as int],
        s.operand_address(AddressingMode::ZeroPage_X) == (s.mem[s.pc as int] + s.x) % 0x100,
        s.operand_address(AddressingMode::ZeroPage_Y) == (s.mem[s.pc as int] + s.y) % 0x100,
        s.operand_address(AddressingMode::Absolute) == s.mem[s.pc as int] + 0x100 * s.mem[s.pc
            + 1],
        s.operand_address(AddressingMode::Absolute_X) == (s.mem[s.pc as int] + 0x100 * s.mem[s.pc
            + 1] + s.x) % 0x10000,
        s.operand_address(AddressingMode::Absolute_Y) == (s.mem[s.pc as int] + 0x100 * s.mem[s.pc
            + 1] + s.y) % 0x10000,
        ({
            let base = s.mem[s.pc as int] + 0x100 * s.mem[s.pc + 1];
            let high = base - base % 0x100 + (base % 0x100 + 1) % 0x100;
            s.operand_address(AddressingMode::Indirect) == s.mem[base] + 0x100 * s.mem[high]
        }),
        ({
            let ptr = (s.mem[s.pc as int] + s.x) % 0x100;
            s.operand_address(AddressingMode::Indirect_X) == s.mem[ptr] + 0x100 * s.mem[(ptr + 1)
                % 0x100]
        }),
        ({
            let ptr = s.mem[s.pc as int] as int;
            s.operand_address(AddressingMode::Indirect_Y) == (s.mem[ptr] + 0x100 * s.mem[(ptr + 1)
                % 0x100] + s.y) % 0x10000
        }),
{
}

/// When an operand address can be found: immediate always; the zero page
/// modes and the indexed indirect modes when their operand byte (at the
/// program counter) is in memory; the absolute modes when both operand bytes
/// are; an indirect JMP when, besides, the pointer and the cell its high byte
/// comes from are in memory. Accumulator, relative and implied instructions
/// have no operand address.
pub proof fn law_operand_defined(s: CpuState)
    ensures
        s.operand_defined(AddressingMode::Immediate),
        s.operand_defined(AddressingMode::ZeroPage) == (s.pc < 0xFFFF),
        s.operand_defined(AddressingMode::ZeroPage_X) == (s.pc < 0xFFFF),
        s.operand_defined(AddressingMode::ZeroPage_Y) == (s.pc < 0xFFFF),
        s.operand_defined(AddressingMode::Indirect_X) == (s.pc < 0xFFFF),
        s.operand_defined(AddressingMode::Indirect_Y) == (s.pc < 0xFFFF),
        s.operand_defined(AddressingMode::Absolute) == (s.pc < 0xFFFE),
        s.operand_defined(AddressingMode::Absolute_X) == (s.pc < 0xFFFE),
        s.operand_defined(AddressingMode::Absolute_Y) == (s.pc < 0xFFFE),
        ({
            let base = s.mem[s.pc as int] + 0x100 * s.mem[s.pc + 1];
            let high = base - base % 0x100 + (base % 0x100 + 1) % 0x100;
            s.operand_defined(AddressingMode::Indirect) == (s.pc < 0xFFFE && base < 0xFFFF && high
                < 0xFFFF)
        }),
        !s.operand_defined(AddressingMode::Accumulator),
        !s.operand_defined(AddressingMode::Relative),
        !s.operand_defined(AddressingMode::NoneAddressing),
{
}

/// When each instruction can run. One that reads or writes its operand in
/// memory: when its length covers the opcode byte, its operand address can be
/// found, and that address is a memory cell (below 0xFFFF). A shift or rotate:
/// the same, or on the accumulator. A branch: when its offset byte is in
/// memory. JSR and JMP: when the target address can be found. The others:
/// when the length covers the opcode byte; BRK always.
pub proof fn law_memory_instructions_can_run(s: CpuState, opcode: OpCode)
    ensures
        s.can_execute(Operation::Lda, opcode) == (opcode.len >= 1 && s.operand_defined(opcode.mode)
            && s.operand_address(opcode.mode) < 0xFFFF),
        s.can_execute(Operation::Ldx, opcode) == s.can_execute(Operation::Lda, opcode),
        s.can_execute(Operation::Ldy, opcode) == s.can_execute(Operation::Lda, opcode),
        s.can_execute(Operation::Sta, opcode) == s.can_execute(Operation::Lda, opcode),
        s.can_execute(Operation::Stx, opcode) == s.can_execute(Operation::Lda, opcode),
        s.can_execute(Operation::Sty, opcode) == s.can_execute(Operation::Lda, opcode),
        s.can_execute(Operation::Adc, opcode) == s.can_execute(Operation::Lda, opcode),
        s.can_execute(Operation::Sbc, opcode) == s.can_execute(Operation::Lda, opcode),
        s.can_execute(Operation::And, opcode) == s.can_execute(Operation::Lda, opcode),
        s.can_execute(Operation::Ora, opcode) == s.can_execute(Operation::Lda, opcode),
        s.can_execute(Operation::Eor, opcode) == s.can_execute(Operation::Lda, opcode),
        s.can_execute(Operation::Bit, opcode) == s.can_execute(Operation::Lda, opcode),
        s.can_execute(Operation::Cmp, opcode) == s.can_execute(Operation::Lda, opcode),
        s.can_execute(Operation::Cpx, opcode) == s.can_execute(Operation::Lda, opcode),
        s.can_execute(Operation::Cpy, opcode) == s.can_execute(Operation::Lda, opcode),
        s.can_execute(Operation::Inc, opcode) == s.can_execute(Operation::Lda, opcode),
        s.can_execute(Operation::Dec, opcode) == s.can_execute(Operation::Lda, opcode),
        s.can_execute(Operation::Asl, opcode) == (opcode.len >= 1 && (opcode.mode
            == AddressingMode::Accumulator || s.can_execute(Operation::Lda, opcode))),
        s.can_execute(Operation::Lsr, opcode) == (opcode.len >= 1 && (opcode.mode
            == AddressingMode::Accumulator || s.can_execute(Operation::Lda, opcode))),
        s.can_execute(Operation::Rol, opcode) == (opcode.len >= 1 && (opcode.mode
            == AddressingMode::Accumulator || s.can_execute(Operation::Lda, opcode))),
        s.can_execute(Operation::Ror, opcode) == (opcode.len >= 1 && (opcode.mode
            == AddressingMode::Accumulator || s.can_execute(Operation::Lda, opcode))),
        s.can_execute(Operation::Bpl, opcode) == (opcode.len >= 1 && s.pc < 0xFFFF),
        s.can_execute(Operation::Bmi, opcode) == (opcode.len >= 1 && s.pc < 0xFFFF),
        s.can_execute(Operation::Bvs, opcode) == (opcode.len >= 1 && s.pc < 0xFFFF),
        s.can_execute(Operation::Bcc, opcode) == (opcode.len >= 1 && s.pc < 0xFFFF),
        s.can_execute(Operation::Bcs, opcode) == (opcode.len >= 1 && s.pc < 0xFFFF),
        s.can_execute(Operation::Bne, opcode) == (opcode.len >= 1 && s.pc < 0xFFFF),
        s.can_execute(Operation::Beq, opcode) == (opcode.len >= 1 && s.pc < 0xFFFF),
        s.can_execute(Operation::Jsr, opcode) == (opcode.len >= 1 && s.operand_defined(opcode.mode)),
        s.can_execute(Operation::Jmp, opcode) == s.operand_defined(opcode.mode),
        s.can_execute(Operation::Php, opcode) == (opcode.len >= 1),
        s.can_execute(Operation::Clc, opcode) == (opcode.len >= 1),
        s.can_execute(Operation::Plp, opcode) == (opcode.len >= 1),
        s.can_execute(Operation::Sec, opcode) == (opcode.len >= 1),
        s.can_execute(Operation::Rti, opcode) == (opcode.len >= 1),
        s.can_execute(Operation::Pha, opcode) == (opcode.len >= 1),
        s.can_execute(Operation::Cli, opcode) == (opcode.len >= 1),
        s.can_execute(Operation::Rts, opcode) == (opcode.len >= 1),
        s.can_execute(Operation::Pla, opcode) == (opcode.len >= 1),
        s.can_execute(Operation::Dey, opcode) == (opcode.len >= 1),
        s.can_execute(Operation::Txa, opcode) == (opcode.len >= 1),
        s.can_execute(Operation::Tya, opcode) == (opcode.len >= 1),
        s.can_execute(Operation::Txs, opcode) == (opcode.len >= 1),
        s.can_execute(Operation::Tay, opcode) == (opcode.len >= 1),
        s.can_execute(Operation::Tax, opcode) == (opcode.len >= 1),
        s.can_execute(Operation::Tsx, opcode) == (opcode.len >= 1),
        s.can_execute(Operation::Iny, opcode) == (opcode.len >= 1),
        s.can_execute(Operation::Dex, opcode) == (opcode.len >= 1),
        s.can_execute(Operation::Inx, opcode) == (opcode.len >= 1),
        s.can_execute(Operation::Brk, opcode),
{
}

// ----------------------------------------------------------------------- loads

/// LDA, LDX and LDY copy the operand byte into their register, set zero and
/// negative from it, keep carry and overflow, and leave memory alone.
pub proof fn law_loads(s: CpuState, opcode: OpCode)
    ensures
        ({
            let t = s.execute(Operation::Lda, opcode);
            let v = operand_byte(s, opcode.mode);
            &&& t.a == v && t.x == s.x && t.y == s.y && t.sp == s.sp && t.mem == s.mem
            &&& zn_describe(t.status, v)
            &&& same_bit(t.status, s.status, FLAG_CARRY)
            &&& same_bit(t.status, s.status, FLAG_OVERFLOW)
            &&& t.pc == pc_after(s.pc, opcode.len)
        }),
        ({
            let t = s.execute(Operation::Ldx, opcode);
            let v = operand_byte(s, opcode.mode);
            &&& t.x == v && t.a == s.a && t.y == s.y && t.sp == s.sp && t.mem == s.mem
            &&& zn_describe(t.status, v)
            &&& same_bit(t.status, s.status, FLAG_CARRY)
            &&& t.pc == pc_after(s.pc, opcode.len)
        }),
        ({
            let t = s.execute(Operation::Ldy, opcode);
            let v = operand_byte(s, opcode.mode);
            &&& t.y == v && t.a == s.a && t.x == s.x && t.sp == s.sp && t.mem == s.mem
            &&& zn_describe(t.status, v)
            &&& same_bit(t.status, s.status, FLAG_CARRY)
            &&& t.pc == pc_after(s.pc, opcode.len)
        }),
{
    lemma_with_flag();
}

/// STA, STX and STY write their register to the operand address and change
/// nothing else but the program counter.
pub proof fn law_stores(s: CpuState, opcode: OpCode)
    ensures
        ({
            let t = s.execute(Operation::Sta, opcode);
            &&& t.mem == s.mem.update(s.operand_address(opcode.mode) as int, s.a)
            &&& t.a == s.a && t.x == s.x && t.y == s.y && t.sp == s.sp && t.status == s.status
            &&& t.pc == pc_after(s.pc, opcode.len)
        }),
        ({
            let t = s.execute(Operation::Stx, opcode);
            &&& t.mem == s.mem.update(s.operand_address(opcode.mode) as int, s.x)
            &&& t.a == s.a && t.x == s.x && t.y == s.y && t.sp == s.sp && t.status == s.status
        }),
        ({
            let t = s.execute(Operation::Sty, opcode);
            &&& t.mem == s.mem.update(s.operand_address(opcode.mode) as int, s.y)
            &&& t.a == s.a && t.x == s.x && t.y == s.y && t.sp == s.sp && t.status == s.status
        }),
{
}

/// The transfers copy one register to another and set zero and negative from
/// the value moved (TXS too).
pub proof fn law_transfers(s: CpuState, opcode: OpCode)
    ensures
        ({
            let t = s.execute(Operation::Tax, opcode);
            t.x == s.a && t.a == s.a && t.y == s.y && t.sp == s.sp && zn_describe(t.status, s.a)
                && same_bit(t.status, s.status, FLAG_CARRY) && t.mem == s.mem
        }),
        ({
            let t = s.execute(Operation::Tay, opcode);
            t.y == s.a && t.a == s.a && t.x == s.x && zn_describe(t.status, s.a)
        }),
        ({
            let t = s.execute(Operation::Tsx, opcode);
            t.x == s.sp && t.sp == s.sp && t.a == s.a && zn_describe(t.status, s.sp)
        }),
        ({
            let t = s.execute(Operation::Txa, opcode);
            t.a == s.x && t.x == s.x && t.y == s.y && zn_describe(t.status, s.x)
        }),
        ({
            let t = s.execute(Operation::Tya, opcode);
            t.a == s.y && t.y == s.y && t.x == s.x && zn_describe(t.status, s.y)
        }),
        ({
            let t = s.execute(Operation::Txs, opcode);
            t.sp == s.x && t.x == s.x && t.a == s.a && zn_describe(t.status, s.x)
        }),
        s.execute(Operation::Tax, opcode).pc == pc_after(s.pc, opcode.len),
{
    lemma_with_flag();
}

// ------------------------------------------------------------------ arithmetic

/// ADC adds the operand and the carry to A: A becomes the sum modulo 256,
/// carry is set exactly when the unsigned sum exceeds 0xFF, overflow exactly
/// when the signed sum leaves -128..=127, and zero and negative describe the
/// new A.
pub proof fn law_adc(s: CpuState, opcode: OpCode)
    ensures
        ({
            let t = s.execute(Operation::Adc, opcode);
            let v = operand_byte(s, opcode.mode);
            let c: int = if s.status & FLAG_CARRY != 0 { 1 } else { 0 };
            let sum = s.a + v + c;
            let signed_sum = as_signed(s.a) + as_signed(v) + c;
            &&& t.a == sum % 0x100
            &&& (t.status & FLAG_CARRY != 0) == (sum > 0xFF)
            &&& (t.status & FLAG_OVERFLOW != 0) == (signed_sum < -128 || signed_sum > 127)
            &&& zn_describe(t.status, t.a)
            &&& t.x == s.x && t.y == s.y && t.sp == s.sp && t.mem == s.mem
            &&& t.pc == pc_after(s.pc, opcode.len)
        }),
{
    lemma_with_flag();
}

/// SBC subtracts the operand and the borrow (1 when carry is clear, 0 when it
/// is set) from A: A becomes A - M - borrow modulo 256, carry is set exactly
/// when that difference is not negative, overflow exactly when the signed
/// difference leaves -128..=127, and zero and negative describe the new A.
pub proof fn law_sbc(s: CpuState, opcode: OpCode)
    ensures
        ({
            let t = s.execute(Operation::Sbc, opcode);
            let v = operand_byte(s, opcode.mode);
            let borrow: int = if s.status & FLAG_CARRY != 0 { 0 } else { 1 };
            let diff = s.a - v - borrow;
            let signed_diff = as_signed(s.a) - as_signed(v) - borrow;
            &&& t.a == diff % 0x100
            &&& (t.status & FLAG_CARRY != 0) == (diff >= 0)
            &&& (t.status & FLAG_OVERFLOW != 0) == (signed_diff < -128 || signed_diff > 127)
            &&& zn_describe(t.status, t.a)
            &&& t.x == s.x && t.y == s.y && t.sp == s.sp && t.mem == s.mem
            &&& t.pc == pc_after(s.pc, opcode.len)
        }),
{
    lemma_with_flag();
}

/// With carry clear, SBC takes one more off: A - M - 1.
pub proof fn law_sbc_borrows_when_carry_clear(s: CpuState, opcode: OpCode)
    requires
        s.status & FLAG_CARRY == 0,
    ensures
        s.execute(Operation::Sbc, opcode).a == (s.a - operand_byte(s, opcode.mode) - 1) % 0x100,
        (s.execute(Operation::Sbc, opcode).status & FLAG_CARRY != 0) == (s.a > operand_byte(
            s,
            opcode.mode,
        )),
{
    law_sbc(s, opcode);
}

/// AND, ORA and EOR combine A with the operand bit by bit and set zero and
/// negative from the result.
pub proof fn law_logic(s: CpuState, opcode: OpCode)
    ensures
        ({
            let t = s.execute(Operation::And, opcode);
            let v = operand_byte(s, opcode.mode);
            t.a == s.a & v && zn_describe(t.status, s.a & v) && same_bit(
                t.status,
                s.status,
                FLAG_CARRY,
            ) && t.mem == s.mem && t.x == s.x && t.pc == pc_after(s.pc, opcode.len)
        }),
        ({
            let t = s.execute(Operation::Ora, opcode);
            let v = operand_byte(s, opcode.mode);
            t.a == s.a | v && zn_describe(t.status, s.a | v) && same_bit(
                t.status,
                s.status,
                FLAG_CARRY,
            ) && t.mem == s.mem && t.x == s.x && t.pc == pc_after(s.pc, opcode.len)
        }),
        ({
            let t = s.execute(Operation::Eor, opcode);
            let v = operand_byte(s, opcode.mode);
            t.a == s.a ^ v && zn_describe(t.status, s.a ^ v) && same_bit(
                t.status,
                s.status,
                FLAG_CARRY,
            ) && t.mem == s.mem && t.x == s.x && t.pc == pc_after(s.pc, opcode.len)
        }),
{
    lemma_with_flag();
}

/// BIT sets zero exactly when A & M is 0, copies bits 6 and 7 of M into
/// overflow and negative, and changes neither A nor memory nor carry.
pub proof fn law_bit(s: CpuState, opcode: OpCode)
    ensures
        ({
            let t = s.execute(Operation::Bit, opcode);
            let v = operand_byte(s, opcode.mode);
            &&& (t.status & FLAG_ZERO != 0) == (s.a & v == 0)
            &&& (t.status & FLAG_OVERFLOW != 0) == (v & 0x40 != 0)
            &&& (t.status & FLAG_NEGATIVE != 0) == (v >= 0x80)
            &&& same_bit(t.status, s.status, FLAG_CARRY)
            &&& t.a == s.a && t.x == s.x && t.y == s.y && t.mem == s.mem
            &&& t.pc == pc_after(s.pc, opcode.len)
        }),
{
    lemma_with_flag();
    let v = operand_byte(s, opcode.mode);
    assert((v & FLAG_NEGATIVE != 0) == (v >= 0x80)) by (bit_vector);
    assert((v & FLAG_OVERFLOW) == (v & 0x40)) by (bit_vector);
}

/// CMP, CPX and CPY compare their register `r` with M: carry when r >= M,
/// zero when r == M, negative from bit 7 of r - M modulo 256; no register
/// and no memory changes.
pub proof fn law_compares(s: CpuState, opcode: OpCode)
    ensures
        ({
            let t = s.execute(Operation::Cmp, opcode);
            let v = operand_byte(s, opcode.mode);
            &&& (t.status & FLAG_CARRY != 0) == (s.a >= v)
            &&& (t.status & FLAG_ZERO != 0) == (s.a == v)
            &&& (t.status & FLAG_NEGATIVE != 0) == ((s.a - v) % 0x100 >= 0x80)
            &&& same_bit(t.status, s.status, FLAG_OVERFLOW)
            &&& t.a == s.a && t.x == s.x && t.y == s.y && t.mem == s.mem
            &&& t.pc == pc_after(s.pc, opcode.len)
        }),
        ({
            let t = s.execute(Operation::Cpx, opcode);
            let v = operand_byte(s, opcode.mode);
            &&& (t.status & FLAG_CARRY != 0) == (s.x >= v)
            &&& (t.status & FLAG_ZERO != 0) == (s.x == v)
            &&& (t.status & FLAG_NEGATIVE != 0) == ((s.x - v) % 0x100 >= 0x80)
            &&& t.a == s.a && t.x == s.x && t.y == s.y && t.mem == s.mem
        }),
        ({
            let t = s.execute(Operation::Cpy, opcode);
            let v = operand_byte(s, opcode.mode);
            &&& (t.status & FLAG_CARRY != 0) == (s.y >= v)
            &&& (t.status & FLAG_ZERO != 0) == (s.y == v)
            &&& (t.status & FLAG_NEGATIVE != 0) == ((s.y - v) % 0x100 >= 0x80)
            &&& t.a == s.a && t.x == s.x && t.y == s.y && t.mem == s.mem
        }),
{
    lemma_with_flag();
}

// ------------------------------------------------------------ increments

/// INC writes M + 1 and DEC writes M - 1, modulo 256, back to the operand
/// address, with zero and negative describing the value written.
pub proof fn law_inc_dec(s: CpuState, opcode: OpCode)
    ensures
        ({
            let t = s.execute(Operation::Inc, opcode);
            let r = (operand_byte(s, opcode.mode) + 1) % 0x100;
            &&& t.mem == s.mem.update(s.operand_address(opcode.mode) as int, r as u8)
            &&& zn_describe(t.status, r as u8)
            &&& same_bit(t.status, s.status, FLAG_CARRY)
            &&& t.a == s.a && t.x == s.x && t.y == s.y && t.sp == s.sp
            &&& t.pc == pc_after(s.pc, opcode.len)
        }),
        ({
            let t = s.execute(Operation::Dec, opcode);
            let r = (operand_byte(s, opcode.mode) - 1) % 0x100;
            &&& t.mem == s.mem.update(s.operand_address(opcode.mode) as int, r as u8)
            &&& zn_describe(t.status, r as u8)
            &&& same_bit(t.status, s.status, FLAG_CARRY)
            &&& t.a == s.a && t.x == s.x && t.y == s.y && t.sp == s.sp
            &&& t.pc == pc_after(s.pc, opcode.len)
        }),
{
    lemma_with_flag();
}

/// INX, INY, DEX and DEY add or subtract one, modulo 256, in their register.
pub proof fn law_register_steps(s: CpuState, opcode: OpCode)
    ensures
        ({
            let t = s.execute(Operation::Inx, opcode);
            t.x == (s.x + 1) % 0x100 && t.y == s.y && t.a == s.a && zn_describe(t.status, t.x)
                && t.mem == s.mem && t.pc == pc_after(s.pc, opcode.len)
        }),
        ({
            let t = s.execute(Operation::Iny, opcode);
            t.y == (s.y + 1) % 0x100 && t.x == s.x && t.a == s.a && zn_describe(t.status, t.y)
        }),
        ({
            let t = s.execute(Operation::Dex, opcode);
            t.x == (s.x - 1) % 0x100 && t.y == s.y && t.a == s.a && zn_describe(t.status, t.x)
        }),
        ({
            let t = s.execute(Operation::Dey, opcode);
            t.y == (s.y - 1) % 0x100 && t.x == s.x && t.a == s.a && zn_describe(t.status, t.y)
        }),
{
    lemma_with_flag();
}

// ------------------------------------------------------- shifts and rotates

/// The byte that a shift or rotate works on: A in accumulator mode, else the
/// operand byte.
pub open spec fn shift_input(s: CpuState, mode: AddressingMode) -> u8 {
    if mode is Accumulator {
        s.a
    } else {
        operand_byte(s, mode)
    }
}

/// The state holds `r` where a shift or rotate in `mode` stores its result:
/// A in accumulator mode (memory unchanged), else the operand address (A
/// unchanged).
pub open spec fn holds_shift_result(s: CpuState, t: CpuState, mode: AddressingMode, r: int) -> bool {
    if mode is Accumulator {
        t.a == r && t.mem == s.mem
    } else {
        t.a == s.a && t.mem == s.mem.update(s.operand_address(mode) as int, r as u8)
    }
}

/// ASL doubles the byte modulo 256 and moves bit 7 into carry; LSR halves it
/// and moves bit 0 into carry; ROL and ROR do the same but shift the old
/// carry in at the other end. Zero and negative describe the result.
pub proof fn law_shifts(s: CpuState, opcode: OpCode)
    ensures
        ({
            let t = s.execute(Operation::Asl, opcode);
            let v = shift_input(s, opcode.mode);
            let r = (2 * v) % 0x100;
            &&& holds_shift_result(s, t, opcode.mode, r)
            &&& (t.status & FLAG_CARRY != 0) == (v >= 0x80)
            &&& zn_describe(t.status, r as u8)
            &&& t.pc == pc_after(s.pc, opcode.len)
        }),
        ({
            let t = s.execute(Operation::Lsr, opcode);
            let v = shift_input(s, opcode.mode);
            let r = v as int / 2;
            &&& holds_shift_result(s, t, opcode.mode, r)
            &&& (t.status & FLAG_CARRY != 0) == (v % 2 == 1)
            &&& zn_describe(t.status, r as u8)
            &&& t.pc == pc_after(s.pc, opcode.len)
        }),
        ({
            let t = s.execute(Operation::Rol, opcode);
            let v = shift_input(s, opcode.mode);
            let c: int = if s.status & FLAG_CARRY != 0 { 1 } else { 0 };
            let r = (2 * v + c) % 0x100;
            &&& holds_shift_result(s, t, opcode.mode, r)
            &&& (t.status & FLAG_CARRY != 0) == (v >= 0x80)
            &&& zn_describe(t.status, r as u8)
            &&& t.pc == pc_after(s.pc, opcode.len)
        }),
        ({
            let t = s.execute(Operation::Ror, opcode);
            let v = shift_input(s, opcode.mode);
            let c: int = if s.status & FLAG_CARRY != 0 { 1 } else { 0 };
            let r = v as int / 2 + 0x80 * c;
            &&& holds_shift_result(s, t, opcode.mode, r)
            &&& (t.status & FLAG_CARRY != 0) == (v % 2 == 1)
            &&& zn_describe(t.status, r as u8)
            &&& t.pc == pc_after(s.pc, opcode.len)
        }),
{
    lemma_with_flag();
}

// ------------------------------------------------------------------- flags

/// SEC sets carry, CLC clears it, CLI clears interrupt disable; the other
/// flags and the registers stay.
pub proof fn law_flag_instructions(s: CpuState, opcode: OpCode)
    ensures
        ({
            let t = s.execute(Operation::Sec, opcode);
            (t.status & FLAG_CARRY != 0) && same_bit(t.status, s.status, FLAG_ZERO) && same_bit(
                t.status,
                s.status,
                FLAG_NEGATIVE,
            ) && t.a == s.a && t.mem == s.mem && t.pc == pc_after(s.pc, opcode.len)
        }),
        ({
            let t = s.execute(Operation::Clc, opcode);
            !(t.status & FLAG_CARRY != 0) && same_bit(t.status, s.status, FLAG_ZERO) && same_bit(
                t.status,
                s.status,
                FLAG_OVERFLOW,
            ) && t.a == s.a && t.mem == s.mem
        }),
        ({
            let t = s.execute(Operation::Cli, opcode);
            !(t.status & FLAG_INTERRUPT_DISABLE != 0) && same_bit(t.status, s.status, FLAG_CARRY)
                && same_bit(t.status, s.status, FLAG_ZERO) && t.a == s.a && t.mem == s.mem
        }),
{
    lemma_with_flag();
}

// ---------------------------------------------------------------- branches

/// The program counter after a relative branch whose offset byte is at `pc`:
/// the next instruction, moved by the signed offset when `taken`.
pub open spec fn branch_target(s: CpuState, len: u8, taken: bool) -> int {
    if taken {
        (pc_after(s.pc, len) + as_signed(s.mem[s.pc as int])) % 0x10000
    } else {
        pc_after(s.pc, len)
    }
}

/// Each branch is taken exactly on its condition: BPL on negative clear, BMI
/// on negative set, BVS on overflow set, BCC on carry clear, BCS on carry
/// set, BNE on zero clear, BEQ on zero set. A branch changes only the program
/// counter.
pub proof fn law_branches(s: CpuState, opcode: OpCode)
    ensures
        s.execute(Operation::Bpl, opcode).pc == branch_target(s, opcode.len, s.status & FLAG_NEGATIVE == 0),
        s.execute(Operation::Bmi, opcode).pc == branch_target(s, opcode.len, s.status & FLAG_NEGATIVE != 0),
        s.execute(Operation::Bvs, opcode).pc == branch_target(s, opcode.len, s.status & FLAG_OVERFLOW != 0),
        s.execute(Operation::Bcc, opcode).pc == branch_target(s, opcode.len, s.status & FLAG_CARRY == 0),
        s.execute(Operation::Bcs, opcode).pc == branch_target(s, opcode.len, s.status & FLAG_CARRY != 0),
        s.execute(Operation::Bne, opcode).pc == branch_target(s, opcode.len, s.status & FLAG_ZERO == 0),
        s.execute(Operation::Beq, opcode).pc == branch_target(s, opcode.len, s.status & FLAG_ZERO != 0),
        ({
            let t = s.execute(Operation::Beq, opcode);
            t.a == s.a && t.x == s.x && t.y == s.y && t.sp == s.sp && t.status == s.status
                && t.mem == s.mem
        }),
{
}

// ----------------------------------------------------------- stack, calls

/// PHA and PHP write A or the status at 0x0100 + SP and move SP down by one
/// (wrapping); PLA and PLP move SP up by one and read A or the status from
/// 0x0100 + SP.
pub proof fn law_stack_instructions(s: CpuState, opcode: OpCode)
    ensures
        ({
            let t = s.execute(Operation::Pha, opcode);
            t.mem == s.mem.update(0x100 + s.sp, s.a) && t.sp == (s.sp - 1) % 0x100 && t.a == s.a
                && t.status == s.status && t.pc == pc_after(s.pc, opcode.len)
        }),
        ({
            let t = s.execute(Operation::Php, opcode);
            t.mem == s.mem.update(0x100 + s.sp, s.status) && t.sp == (s.sp - 1) % 0x100
                && t.status == s.status
        }),
        ({
            let t = s.execute(Operation::Pla, opcode);
            let sp = (s.sp + 1) % 0x100;
            t.sp == sp && t.a == s.mem[0x100 + sp] && t.status == s.status && t.mem == s.mem
                && t.pc == pc_after(s.pc, opcode.len)
        }),
        ({
            let t = s.execute(Operation::Plp, opcode);
            let sp = (s.sp + 1) % 0x100;
            t.sp == sp && t.status == s.mem[0x100 + sp] && t.a == s.a && t.mem == s.mem
        }),
{
}

/// JSR pushes the address of its own last byte (high byte first, at
/// 0x0100 + SP, then the low byte below it), moves SP down by two and jumps
/// to the operand address.
pub proof fn law_jsr(s: CpuState, opcode: OpCode)
    ensures
        ({
            let t = s.execute(Operation::Jsr, opcode);
            let ret = (pc_after(s.pc, opcode.len) - 1) % 0x10000;
            let hi_addr = 0x100 + s.sp;
            let lo_addr = 0x100 + (s.sp - 1) % 0x100;
            &&& t.pc == s.operand_address(opcode.mode)
            &&& t.sp == (s.sp - 2) % 0x100
            &&& t.mem == s.mem.update(hi_addr, (ret / 0x100) as u8).update(lo_addr, (ret % 0x100) as u8)
            &&& t.a == s.a && t.status == s.status
        }),
{
}

/// RTS pulls a word (low byte from 0x0100 + SP + 1, high byte from the next
/// cell) and continues at that address plus one; RTI first pulls the status,
/// then the program counter, and continues at it.
pub proof fn law_returns(s: CpuState, opcode: OpCode)
    requires
        opcode.len == 1,
    ensures
        ({
            let t = s.execute(Operation::Rts, opcode);
            let lo = s.mem[0x100 + (s.sp + 1) % 0x100];
            let hi = s.mem[0x100 + (s.sp + 2) % 0x100];
            t.pc == (lo + 0x100 * hi + 1) % 0x10000 && t.sp == (s.sp + 2) % 0x100 && t.a == s.a
                && t.status == s.status && t.mem == s.mem
        }),
        ({
            let t = s.execute(Operation::Rti, opcode);
            let status = s.mem[0x100 + (s.sp + 1) % 0x100];
            let lo = s.mem[0x100 + (s.sp + 2) % 0x100];
            let hi = s.mem[0x100 + (s.sp + 3) % 0x100];
            t.status == status && t.pc == lo + 0x100 * hi && t.sp == (s.sp + 3) % 0x100 && t.a
                == s.a && t.mem == s.mem
        }),
{
}

/// JMP continues at the operand address and changes nothing else.
pub proof fn law_jmp(s: CpuState, opcode: OpCode)
    ensures
        s.execute(Operation::Jmp, opcode) == (CpuState { pc: s.operand_address(opcode.mode), ..s }),
{
}

/// BRK, once fetched, changes nothing.
pub proof fn law_brk(s: CpuState, opcode: OpCode)
    ensures
        s.execute(Operation::Brk, opcode) == s,
{
}

// ------------------------------------------------------------------ frames

/// Every instruction but the jumps, calls, returns, branches and BRK ends
/// with the program counter on the next instruction.
pub proof fn law_next_instruction(s: CpuState, op: Operation, opcode: OpCode)
    requires
        !(op is Jmp || op is Jsr || op is Rts || op is Rti || op is Brk || op is Bpl || op is Bmi
            || op is Bvs || op is Bcc || op is Bcs || op is Bne || op is Beq),
    ensures
        s.execute(op, opcode).pc == pc_after(s.pc, opcode.len),
{
}

/// Only PHA, PHP, PLA, PLP, JSR, RTS, RTI and TXS move the stack pointer.
pub proof fn law_stack_pointer_frame(s: CpuState, op: Operation, opcode: OpCode)
    requires
        !(op is Pha || op is Php || op is Pla || op is Plp || op is Jsr || op is Rts || op is Rti
            || op is Txs),
    ensures
        s.execute(op, opcode).sp == s.sp,
{
}

/// Only the loads, transfers, arithmetic and logic into A, PLA, and the
/// shifts and rotates on the accumulator change A; only LDX, TAX, TSX, INX
/// and DEX change X; only LDY, TAY, INY and DEY change Y.
pub proof fn law_register_frame(s: CpuState, op: Operation, opcode: OpCode)
    ensures
        !(op is Lda || op is Pla || op is Txa || op is Tya || op is Adc || op is Sbc || op is And
            || op is Ora || op is Eor || ((op is Asl || op is Lsr || op is Rol || op is Ror)
            && opcode.mode == AddressingMode::Accumulator)) ==> s.execute(op, opcode).a == s.a,
        !(op is Ldx || op is Tax || op is Tsx || op is Inx || op is Dex) ==> s.execute(
            op,
            opcode,
        ).x == s.x,
        !(op is Ldy || op is Tay || op is Iny || op is Dey) ==> s.execute(op, opcode).y == s.y,
{
}

/// The status register is left as it was by the stores, the pushes, the
/// branches, JSR, RTS, JMP and BRK.
pub proof fn law_status_frame(s: CpuState, op: Operation, opcode: OpCode)
    requires
        op is Sta || op is Stx || op is Sty || op is Pha || op is Php || op is Bpl || op is Bmi
            || op is Bvs || op is Bcc || op is Bcs || op is Bne || op is Beq || op is Jsr
            || op is Rts || op is Jmp || op is Brk,
    ensures
        s.execute(op, opcode).status == s.status,
{
}

// ------------------------------------------------------------ steps and runs

/// A step reads the opcode byte at the program counter, moves the program
/// counter one byte on, and executes the instruction that the byte decodes
/// to, with the addressing mode and length of its table row.
pub proof fn law_step(s: CpuState)
    ensures
        s.next() == (CpuState { pc: (s.pc + 1) as u16, ..s }).execute(
            operation_of(s.mem[s.pc as int])->0,
            opcode_spec(s.mem[s.pc as int]),
        ),
{
}

/// At a BRK the step only moves the program counter one byte on, and the run
/// ends there.
pub proof fn law_break_ends_run(s: CpuState)
    requires
        s.can_step(),
        s.mem[s.pc as int] == 0x00,
    ensures
        s.next() == (CpuState { pc: (s.pc + 1) as u16, ..s }),
        s.halts(),
        s.final_state() == (CpuState { pc: (s.pc + 1) as u16, ..s }),
{
    assert(s.halts_within(0));
    crate::cpu::laws::law_final_state(s, 0);
}

/// Away from a BRK, a run is one step followed by the run from the state that
/// step reaches.
pub proof fn law_run_continues(s: CpuState, n: nat)
    requires
        s.halts_within(n),
        s.mem[s.pc as int] != 0x00,
    ensures
        s.next().halts(),
        s.final_state() == s.next().final_state(),
{
    assert(n > 0);
    crate::cpu::laws::law_final_state(s, n);
    crate::cpu::laws::law_final_state(s.next(), (n - 1) as nat);
}

// ---------------------------------------------------------------- the status line

/// The upper-case hexadecimal character for a digit 0 through 15.
pub open spec fn hex_char(d: int) -> char {
    if d < 10 {
        seq!['0', '1', '2', '3', '4', '5', '6', '7', '8', '9'][d]
    } else {
        seq!['A', 'B', 'C', 'D', 'E', 'F'][d - 10]
    }
}

/// Where the parts of the status line stand in it.
proof fn lemma_describe_layout(s: CpuState)
    ensures
        describe(s).len() == 61,
        describe(s)[5] == hex_word(s.pc)[0] && describe(s)[6] == hex_word(s.pc)[1],
        describe(s)[7] == hex_word(s.pc)[2] && describe(s)[8] == hex_word(s.pc)[3],
        describe(s)[15] == hex_byte(s.a)[0] && describe(s)[16] == hex_byte(s.a)[1],
        describe(s)[23] == hex_byte(s.x)[0] && describe(s)[24] == hex_byte(s.x)[1],
        describe(s)[31] == hex_byte(s.y)[0] && describe(s)[32] == hex_byte(s.y)[1],
        describe(s)[40] == hex_byte(s.sp)[0] && describe(s)[41] == hex_byte(s.sp)[1],
        forall|i: int| 0 <= i < 8 ==> describe(s)[52 + i] == #[trigger] status_chars(s.status)[i],
        describe(s)[60] == ']',
{
    reveal_strlit("PC=0x");
    reveal_strlit("  A=0x");
    reveal_strlit("  X=0x");
    reveal_strlit("  Y=0x");
    reveal_strlit("  SP=0x");
    reveal_strlit("  STATUS=[");
    reveal_strlit("]");
    let p2 = "PC=0x"@ + hex_word(s.pc);
    let p4 = p2 + "  A=0x"@ + hex_byte(s.a);
    let p6 = p4 + "  X=0x"@ + hex_byte(s.x);
    let p8 = p6 + "  Y=0x"@ + hex_byte(s.y);
    let p10 = p8 + "  SP=0x"@ + hex_byte(s.sp);
    let p12 = p10 + "  STATUS=["@ + status_chars(s.status);
    assert(describe(s) == p12 + "]"@);
    assert(p2.len() == 9);
    assert(p4.len() == 17);
    assert(p6.len() == 25);
    assert(p8.len() == 33);
    assert(p10.len() == 42);
    assert(p12.len() == 60);
    assert(p2[5] == hex_word(s.pc)[0] && p2[6] == hex_word(s.pc)[1]);
    assert(p2[7] == hex_word(s.pc)[2] && p2[8] == hex_word(s.pc)[3]);
    assert(p4[5] == p2[5] && p4[6] == p2[6] && p4[7] == p2[7] && p4[8] == p2[8]);
    assert(p6[5] == p2[5] && p6[6] == p2[6] && p6[7] == p2[7] && p6[8] == p2[8]);
    assert(p8[5] == p2[5] && p8[6] == p2[6] && p8[7] == p2[7] && p8[8] == p2[8]);
    assert(p10[5] == p2[5] && p10[6] == p2[6] && p10[7] == p2[7] && p10[8] == p2[8]);
    assert(p12[5] == p2[5] && p12[6] == p2[6] && p12[7] == p2[7] && p12[8] == p2[8]);
    assert(p4[15] == hex_byte(s.a)[0] && p4[16] == hex_byte(s.a)[1]);
    assert(p6[15] == p4[15] && p6[16] == p4[16]);
    assert(p8[15] == p4[15] && p8[16] == p4[16]);
    assert(p10[15] == p4[15] && p10[16] == p4[16]);
    assert(p12[15] == p4[15] && p12[16] == p4[16]);
    assert(p6[23] == hex_byte(s.x)[0] && p6[24] == hex_byte(s.x)[1]);
    assert(p8[23] == p6[23] && p8[24] == p6[24]);
    assert(p10[23] == p6[23] && p10[24] == p6[24]);
    assert(p12[23] == p6[23] && p12[24] == p6[24]);
    assert(p8[31] == hex_byte(s.y)[0] && p8[32] == hex_byte(s.y)[1]);
    assert(p10[31] == p8[31] && p10[32] == p8[32]);
    assert(p12[31] == p8[31] && p12[32] == p8[32]);
    assert(p10[40] == hex_byte(s.sp)[0] && p10[41] == hex_byte(s.sp)[1]);
    assert(p12[40] == p10[40] && p12[41] == p10[41]);
}

/// The labels of the status line stand between its numbers.
#[verifier::rlimit(50)]
proof fn lemma_describe_labels(s: CpuState)
    ensures
        describe(s).subrange(0, 5) == seq!['P', 'C', '=', '0', 'x'],
        describe(s).subrange(9, 15) == seq![' ', ' ', 'A', '=', '0', 'x'],
        describe(s).subrange(17, 23) == seq![' ', ' ', 'X', '=', '0', 'x'],
        describe(s).subrange(25, 31) == seq![' ', ' ', 'Y', '=', '0', 'x'],
        describe(s).subrange(33, 40) == seq![' ', ' ', 'S', 'P', '=', '0', 'x'],
        describe(s).subrange(42, 52) == seq![' ', ' ', 'S', 'T', 'A', 'T', 'U', 'S', '=', '['],
{
    reveal_strlit("PC=0x");
    reveal_strlit("  A=0x");
    reveal_strlit("  X=0x");
    reveal_strlit("  Y=0x");
    reveal_strlit("  SP=0x");
    reveal_strlit("  STATUS=[");
    reveal_strlit("]");
    let p1 = "PC=0x"@;
    let p2 = p1 + hex_word(s.pc);
    let p3 = p2 + "  A=0x"@;
    let p4 = p3 + hex_byte(s.a);
    let p5 = p4 + "  X=0x"@;
    let p6 = p5 + hex_byte(s.x);
    let p7 = p6 + "  Y=0x"@;
    let p8 = p7 + hex_byte(s.y);
    let p9 = p8 + "  SP=0x"@;
    let p10 = p9 + hex_byte(s.sp);
    let p11 = p10 + "  STATUS=["@;
    let d = p11 + status_chars(s.status) + "]"@;
    assert(describe(s) == d);
    assert(p11.len() == 52);
    assert(d.subrange(0, 52) =~= p11);
    assert(p11.subrange(0, 42) =~= p10);
    assert(p10.subrange(0, 40) =~= p9);
    assert(p9.subrange(0, 33) =~= p8);
    assert(p8.subrange(0, 31) =~= p7);
    assert(p7.subrange(0, 25) =~= p6);
    assert(p6.subrange(0, 23) =~= p5);
    assert(p5.subrange(0, 17) =~= p4);
    assert(p4.subrange(0, 15) =~= p3);
    assert(p3.subrange(0, 9) =~= p2);
    assert(p2.subrange(0, 5) =~= p1);
    assert(d.subrange(42, 52) =~= p11.subrange(42, 52));
    assert(p11.subrange(42, 52) =~= "  STATUS=["@);
    assert(d.subrange(33, 40) =~= p9.subrange(33, 40));
    assert(p9.subrange(33, 40) =~= "  SP=0x"@);
    assert(d.subrange(25, 31) =~= p7.subrange(25, 31));
    assert(p7.subrange(25, 31) =~= "  Y=0x"@);
    assert(d.subrange(17, 23) =~= p5.subrange(17, 23));
    assert(p5.subrange(17, 23) =~= "  X=0x"@);
    assert(d.subrange(9, 15) =~= p3.subrange(9, 15));
    assert(p3.subrange(9, 15) =~= "  A=0x"@);
    assert(d.subrange(0, 5) =~= p1);
}

/// The model's hexadecimal digit is the upper-case character for it.
proof fn lemma_hex_char(n: int)
    requires
        0 <= n < 16,
    ensures
        hex_digit(n) == hex_char(n),
{
    let digits = seq!['0', '1', '2', '3', '4', '5', '6', '7', '8', '9', 'A', 'B', 'C', 'D', 'E', 'F'];
    assert(digits[n] == hex_digit(n));
    if n < 10 {
        let low = seq!['0', '1', '2', '3', '4', '5', '6', '7', '8', '9'];
        assert(digits.subrange(0, 10) =~= low);
        assert(digits.subrange(0, 10)[n] == digits[n]);
    } else {
        let high = seq!['A', 'B', 'C', 'D', 'E', 'F'];
        assert(digits.subrange(10, 16) =~= high);
        assert(digits.subrange(10, 16)[n - 10] == digits[n]);
    }
}

/// The hexadecimal digits of a byte, as characters.
proof fn lemma_hex_byte(v: u8)
    ensures
        hex_byte(v)[0] == hex_char(v as int / 16),
        hex_byte(v)[1] == hex_char(v as int % 16),
{
    lemma_hex_char(v as int / 16);
    lemma_hex_char(v as int % 16);
}

/// The hexadecimal digits of a word, as characters.
proof fn lemma_hex_word(w: u16)
    ensures
        hex_word(w)[0] == hex_char(w as int / 0x1000),
        hex_word(w)[1] == hex_char(w as int / 0x100 % 16),
        hex_word(w)[2] == hex_char(w as int / 16 % 16),
        hex_word(w)[3] == hex_char(w as int % 16),
{
    let wi = w as int;
    let hi = (wi / 0x100) as u8;
    let lo = (wi % 0x100) as u8;
    assert(hi as int == wi / 0x100 && lo as int == wi % 0x100);
    lemma_hex_byte(hi);
    lemma_hex_byte(lo);
    assert(hex_word(w)[0] == hex_byte(hi)[0] && hex_word(w)[1] == hex_byte(hi)[1]);
    assert(hex_word(w)[2] == hex_byte(lo)[0] && hex_word(w)[3] == hex_byte(lo)[1]);
    assert(wi / 0x100 / 16 == wi / 0x1000 && (wi % 0x100) / 16 == wi / 16 % 16 && (wi % 0x100)
        % 16 == wi % 16) by (nonlinear_arith)
        requires
            0 <= wi < 0x10000,
    ;
}

/// The status line is 61 characters: the program counter in four hex digits
/// at 5..=8, A, X, Y and SP in two hex digits each at 15, 23, 31 and 40, and
/// the flags N V - B D I Z C at 52..=59, each shown by its letter when set
/// and by `-` when clear (bit 5 always `-`), closed by `]`; the labels
/// `PC=0x`, `  A=0x`, `  X=0x`, `  Y=0x`, `  SP=0x` and `  STATUS=[` stand
/// before them.
pub proof fn law_describe(s: CpuState)
    ensures
        describe(s).len() == 61,
        describe(s)[5] == hex_char(s.pc as int / 0x1000),
        describe(s)[6] == hex_char(s.pc as int / 0x100 % 16),
        describe(s)[7] == hex_char(s.pc as int / 16 % 16),
        describe(s)[8] == hex_char(s.pc as int % 16),
        describe(s)[15] == hex_char(s.a as int / 16) && describe(s)[16] == hex_char(s.a as int % 16),
        describe(s)[23] == hex_char(s.x as int / 16) && describe(s)[24] == hex_char(s.x as int % 16),
        describe(s)[31] == hex_char(s.y as int / 16) && describe(s)[32] == hex_char(s.y as int % 16),
        describe(s)[40] == hex_char(s.sp as int / 16) && describe(s)[41] == hex_char(s.sp as int % 16),
        describe(s)[52] == (if s.status & 0x80 != 0 { 'N' } else { '-' }),
        describe(s)[53] == (if s.status & 0x40 != 0 { 'V' } else { '-' }),
        describe(s)[54] == '-',
        describe(s)[55] == (if s.status & 0x10 != 0 { 'B' } else { '-' }),
        describe(s)[56] == (if s.status & 0x08 != 0 { 'D' } else { '-' }),
        describe(s)[57] == (if s.status & 0x04 != 0 { 'I' } else { '-' }),
        describe(s)[58] == (if s.status & 0x02 != 0 { 'Z' } else { '-' }),
        describe(s)[59] == (if s.status & 0x01 != 0 { 'C' } else { '-' }),
        describe(s)[60] == ']',
        describe(s).subrange(0, 5) == seq!['P', 'C', '=', '0', 'x'],
        describe(s).subrange(9, 15) == seq![' ', ' ', 'A', '=', '0', 'x'],
        describe(s).subrange(17, 23) == seq![' ', ' ', 'X', '=', '0', 'x'],
        describe(s).subrange(25, 31) == seq![' ', ' ', 'Y', '=', '0', 'x'],
        describe(s).subrange(33, 40) == seq![' ', ' ', 'S', 'P', '=', '0', 'x'],
        describe(s).subrange(42, 52) == seq![' ', ' ', 'S', 'T', 'A', 'T', 'U', 'S', '=', '['],
{
    lemma_describe_layout(s);
    lemma_describe_labels(s);
    lemma_hex_word(s.pc);
    lemma_hex_byte(s.a);
    lemma_hex_byte(s.x);
    lemma_hex_byte(s.y);
    lemma_hex_byte(s.sp);
    let f = status_chars(s.status);
    assert(f[0] == describe(s)[52] && f[1] == describe(s)[53] && f[2] == describe(s)[54]);
    assert(f[3] == describe(s)[55] && f[4] == describe(s)[56] && f[5] == describe(s)[57]);
    assert(f[6] == describe(s)[58] && f[7] == describe(s)[59]);
}

// ---------------------------------------------------------------- decoding

/// Every opcode the processor executes runs the instruction that the opcode
/// table names for it.
pub proof fn law_decode_matches_table(code: u8)
    ensures
        operation_of(code) matches Some(op) ==> opcode_spec(code).mnemonic == mnemonic_of(op),
{
}

/// Conversely, every opcode whose table row names an instruction the
/// processor executes decodes to that instruction. The one exception is
/// 0xEB, an undocumented duplicate of SBC, which the processor does not execute.
#[verifier::rlimit(100)]
pub proof fn law_table_selects_operation(code: u8, op: Operation)
    requires
        opcode_spec(code).mnemonic@ == mnemonic_of(op)@,
        code != 0xEB,
    ensures
        operation_of(code) == Some(op),
{
    reveal_strlit("AAC");
    reveal_strlit("AAX");
    reveal_strlit("ADC");
    reveal_strlit("AND");
    reveal_strlit("ARR");
    reveal_strlit("ASL");
    reveal_strlit("ASR");
    reveal_strlit("ATX");
    reveal_strlit("AXA");
    reveal_strlit("AXS");
    reveal_strlit("BCC");
    reveal_strlit("BCS");
    reveal_strlit("BEQ");
    reveal_strlit("BIT");
    reveal_strlit("BMI");
    reveal_strlit("BNE");
    reveal_strlit("BPL");
    reveal_strlit("BRK");
    reveal_strlit("BVC");
    reveal_strlit("BVS");
    reveal_strlit("CLC");
    reveal_strlit("CLD");
    reveal_strlit("CLI");
    reveal_strlit("CLV");
    reveal_strlit("CMP");
    reveal_strlit("CPX");
    reveal_strlit("CPY");
    reveal_strlit("DCP");
    reveal_strlit("DEC");
    reveal_strlit("DEX");
    reveal_strlit("DEY");
    reveal_strlit("DOP");
    reveal_strlit("EOR");
    reveal_strlit("INC");
    reveal_strlit("INX");
    reveal_strlit("INY");
    reveal_strlit("ISC");
    reveal_strlit("JMP");
    reveal_strlit("JSR");
    reveal_strlit("KIL");
    reveal_strlit("LAR");
    reveal_strlit("LAX");
    reveal_strlit("LDA");
    reveal_strlit("LDX");
    reveal_strlit("LDY");
    reveal_strlit("LSR");
    reveal_strlit("NOP");
    reveal_strlit("ORA");
    reveal_strlit("PHA");
    reveal_strlit("PHP");
    reveal_strlit("PLA");
    reveal_strlit("PLP");
    reveal_strlit("RLA");
    reveal_strlit("ROL");
    reveal_strlit("ROR");
    reveal_strlit("RRA");
    reveal_strlit("RTI");
    reveal_strlit("RTS");
    reveal_strlit("SBC");
    reveal_strlit("SEC");
    reveal_strlit("SED");
    reveal_strlit("SEI");
    reveal_strlit("SLO");
    reveal_strlit("SRE");
    reveal_strlit("STA");
    reveal_strlit("STX");
    reveal_strlit("STY");
    reveal_strlit("SXA");
    reveal_strlit("SYA");
    reveal_strlit("TAX");
    reveal_strlit("TAY");
    reveal_strlit("TOP");
    reveal_strlit("TSX");
    reveal_strlit("TXA");
    reveal_strlit("TXS");
    reveal_strlit("TYA");
    reveal_strlit("XAA");
    reveal_strlit("XAS");
    let k = opcode_spec(code).mnemonic@;
    match op {
        Operation::Brk => {
            assert(k[0] == 'B' && k[1] == 'R' && k[2] == 'K');
        },
        Operation::Ora => {
            assert(k[0] == 'O' && k[1] == 'R' && k[2] == 'A');
        },
        Operation::Asl => {
            assert(k[0] == 'A' && k[1] == 'S' && k[2] == 'L');
        },
        Operation::Php => {
            assert(k[0] == 'P' && k[1] == 'H' && k[2] == 'P');
        },
        Operation::Bpl => {
            assert(k[0] == 'B' && k[1] == 'P' && k[2] == 'L');
        },
        Operation::Clc => {
            assert(k[0] == 'C' && k[1] == 'L' && k[2] == 'C');
        },
        Operation::Jsr => {
            assert(k[0] == 'J' && k[1] == 'S' && k[2] == 'R');
        },
        Operation::And => {
            assert(k[0] == 'A' && k[1] == 'N' && k[2] == 'D');
        },
        Operation::Bit => {
            assert(k[0] == 'B' && k[1] == 'I' && k[2] == 'T');
        },
        Operation::Rol => {
            assert(k[0] == 'R' && k[1] == 'O' && k[2] == 'L');
        },
        Operation::Plp => {
            assert(k[0] == 'P' && k[1] == 'L' && k[2] == 'P');
        },
        Operation::Bmi => {
            assert(k[0] == 'B' && k[1] == 'M' && k[2] == 'I');
        },
        Operation::Sec => {
            assert(k[0] == 'S' && k[1] == 'E' && k[2] == 'C');
        },
        Operation::Rti => {
            assert(k[0] == 'R' && k[1] == 'T' && k[2] == 'I');
        },
        Operation::Eor => {
            assert(k[0] == 'E' && k[1] == 'O' && k[2] == 'R');
        },
        Operation::Lsr => {
            assert(k[0] == 'L' && k[1] == 'S' && k[2] == 'R');
        },
        Operation::Pha => {
            assert(k[0] == 'P' && k[1] == 'H' && k[2] == 'A');
        },
        Operation::Jmp => {
            assert(k[0] == 'J' && k[1] == 'M' && k[2] == 'P');
        },
        Operation::Cli => {
            assert(k[0] == 'C' && k[1] == 'L' && k[2] == 'I');
        },
        Operation::Rts => {
            assert(k[0] == 'R' && k[1] == 'T' && k[2] == 'S');
        },
        Operation::Adc => {
            assert(k[0] == 'A' && k[1] == 'D' && k[2] == 'C');
        },
        Operation::Ror => {
            assert(k[0] == 'R' && k[1] == 'O' && k[2] == 'R');
        },
        Operation::Pla => {
            assert(k[0] == 'P' && k[1] == 'L' && k[2] == 'A');
        },
        Operation::Bvs => {
            assert(k[0] == 'B' && k[1] == 'V' && k[2] == 'S');
        },
        Operation::Sta => {
            assert(k[0] == 'S' && k[1] == 'T' && k[2] == 'A');
        },
        Operation::Sty => {
            assert(k[0] == 'S' && k[1] == 'T' && k[2] == 'Y');
        },
        Operation::Stx => {
            assert(k[0] == 'S' && k[1] == 'T' && k[2] == 'X');
        },
        Operation::Dey => {
            assert(k[0] == 'D' && k[1] == 'E' && k[2] == 'Y');
        },
        Operation::Txa => {
            assert(k[0] == 'T' && k[1] == 'X' && k[2] == 'A');
        },
        Operation::Bcc => {
            assert(k[0] == 'B' && k[1] == 'C' && k[2] == 'C');
        },
        Operation::Tya => {
            assert(k[0] == 'T' && k[1] == 'Y' && k[2] == 'A');
        },
        Operation::Txs => {
            assert(k[0] == 'T' && k[1] == 'X' && k[2] == 'S');
        },
        Operation::Ldy => {
            assert(k[0] == 'L' && k[1] == 'D' && k[2] == 'Y');
        },
        Operation::Lda => {
            assert(k[0] == 'L' && k[1] == 'D' && k[2] == 'A');
        },
        Operation::Ldx => {
            assert(k[0] == 'L' && k[1] == 'D' && k[2] == 'X');
        },
        Operation::Tay => {
            assert(k[0] == 'T' && k[1] == 'A' && k[2] == 'Y');
        },
        Operation::Tax => {
            assert(k[0] == 'T' && k[1] == 'A' && k[2] == 'X');
        },
        Operation::Bcs => {
            assert(k[0] == 'B' && k[1] == 'C' && k[2] == 'S');
        },
        Operation::Tsx => {
            assert(k[0] == 'T' && k[1] == 'S' && k[2] == 'X');
        },
        Operation::Cpy => {
            assert(k[0] == 'C' && k[1] == 'P' && k[2] == 'Y');
        },
        Operation::Cmp => {
            assert(k[0] == 'C' && k[1] == 'M' && k[2] == 'P');
        },
        Operation::Dec => {
            assert(k[0] == 'D' && k[1] == 'E' && k[2] == 'C');
        },
        Operation::Iny => {
            assert(k[0] == 'I' && k[1] == 'N' && k[2] == 'Y');
        },
        Operation::Dex => {
            assert(k[0] == 'D' && k[1] == 'E' && k[2] == 'X');
        },
        Operation::Bne => {
            assert(k[0] == 'B' && k[1] == 'N' && k[2] == 'E');
        },
        Operation::Cpx => {
            assert(k[0] == 'C' && k[1] == 'P' && k[2] == 'X');
        },
        Operation::Sbc => {
            assert(k[0] == 'S' && k[1] == 'B' && k[2] == 'C');
        },
        Operation::Inc => {
            assert(k[0] == 'I' && k[1] == 'N' && k[2] == 'C');
        },
        Operation::Inx => {
            assert(k[0] == 'I' && k[1] == 'N' && k[2] == 'X');
        },
        Operation::Beq => {
            assert(k[0] == 'B' && k[1] == 'E' && k[2] == 'Q');
        },
    }
}

} // verus!
