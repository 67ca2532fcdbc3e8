use vstd::prelude::*;

use crate::cpu::model::{signed8, wrap16, wrap8, CpuState, Operation};
use crate::cpu::state::{AddressingMode, CPU, FLAG_CARRY, FLAG_NEGATIVE, FLAG_OVERFLOW, FLAG_ZERO};
use crate::opcodes::OpCode;

verus! {

/// The carry, zero, overflow and negative masks are pairwise disjoint.
proof fn lemma_flag_masks_disjoint()
    ensures
        FLAG_CARRY & FLAG_ZERO == 0,
        FLAG_CARRY & FLAG_NEGATIVE == 0,
        FLAG_ZERO & FLAG_NEGATIVE == 0,
        FLAG_OVERFLOW & FLAG_CARRY == 0,
        FLAG_OVERFLOW & FLAG_ZERO == 0,
        FLAG_OVERFLOW & FLAG_NEGATIVE == 0,
        FLAG_ZERO & FLAG_CARRY == 0,
        FLAG_NEGATIVE & FLAG_CARRY == 0,
        FLAG_NEGATIVE & FLAG_ZERO == 0,
{
    assert(FLAG_CARRY & FLAG_ZERO == 0
        && FLAG_CARRY & FLAG_NEGATIVE == 0
        && FLAG_ZERO & FLAG_NEGATIVE == 0
        && FLAG_OVERFLOW & FLAG_CARRY == 0
        && FLAG_OVERFLOW & FLAG_ZERO == 0
        && FLAG_OVERFLOW & FLAG_NEGATIVE == 0
        && FLAG_ZERO & FLAG_CARRY == 0
        && FLAG_NEGATIVE & FLAG_CARRY == 0
        && FLAG_NEGATIVE & FLAG_ZERO == 0
    ) by (bit_vector);
}

/// The memory of every processor holds 0xFFFF bytes.
pub proof fn law_memory_size(cpu: &CPU)
    ensures
        cpu@.wf(),
{
    broadcast use vstd::array::group_array_axioms;

}

/// A read gives back what a write stored there, and a write leaves every
/// other cell as it was.
pub proof fn law_read_after_write(s: CpuState, addr: int, value: u8, other: int)
    requires
        s.wf(),
        0 <= addr < 0xFFFF,
        0 <= other < 0xFFFF,
        other != addr,
    ensures
        s.write(addr, value).read(addr) == value,
        s.write(addr, value).read(other) == s.read(other),
{
}

/// A word read gives back the word written little-endian at the same address.
pub proof fn law_read_word_after_write_word(s: CpuState, pos: int, data: u16)
    requires
        s.wf(),
        0 <= pos,
        pos + 1 < 0xFFFF,
    ensures
        s.write(pos, (data as int % 0x100) as u8).write(pos + 1, (data as int / 0x100) as u8).read_word(
            pos,
        ) == data,
{
}

/// Setting or clearing a flag is what reading that flag then reports.
pub proof fn law_flag_after_set_flag(s: CpuState, mask: u8, on: bool)
    requires
        mask != 0,
    ensures
        s.set_flag(mask, on).flag(mask) == on,
{
    let st = s.status;
    assert(mask != 0 ==> ((st | mask) & mask != 0)) by (bit_vector);
    assert((st & !mask) & mask == 0) by (bit_vector);
}

/// Setting or clearing a flag leaves every flag outside its mask as it was.
pub proof fn law_set_flag_keeps_other_flags(s: CpuState, mask: u8, on: bool, other: u8)
    requires
        mask & other == 0,
    ensures
        s.set_flag(mask, on).flag(other) == s.flag(other),
{
    let st = s.status;
    assert(mask & other == 0 ==> (((st | mask) & other != 0) == (st & other != 0))) by (bit_vector);
    assert(mask & other == 0 ==> (((st & !mask) & other != 0) == (st & other != 0))) by (bit_vector);
}

/// Updating zero and negative from a byte leaves carry and overflow as they
/// were, and reports zero and sign of the byte.
pub proof fn law_zn_flags(s: CpuState, v: u8, other: u8)
    requires
        other & FLAG_ZERO == 0,
        other & FLAG_NEGATIVE == 0,
    ensures
        s.set_zn(v).flag(other) == s.flag(other),
        s.set_zn(v).flag(FLAG_ZERO) == (v == 0),
        s.set_zn(v).flag(FLAG_NEGATIVE) == (v >= 0x80),
{
    let t = s.set_flag(FLAG_ZERO, v == 0);
    lemma_flag_masks_disjoint();
    assert(FLAG_ZERO & other == 0 && FLAG_NEGATIVE & other == 0) by (bit_vector)
        requires
            other & FLAG_ZERO == 0,
            other & FLAG_NEGATIVE == 0,
    ;
    law_set_flag_keeps_other_flags(s, FLAG_ZERO, v == 0, other);
    law_set_flag_keeps_other_flags(t, FLAG_NEGATIVE, v >= 0x80, other);
    law_flag_after_set_flag(s, FLAG_ZERO, v == 0);
    law_set_flag_keeps_other_flags(t, FLAG_NEGATIVE, v >= 0x80, FLAG_ZERO);
    law_flag_after_set_flag(t, FLAG_NEGATIVE, v >= 0x80);
}

/// Popping right after a push gives the pushed byte back and restores the
/// stack pointer; the byte stays in the stack page.
pub proof fn law_pop_after_push(s: CpuState, v: u8)
    requires
        s.wf(),
    ensures
        s.push(v).pop() == (v, s.write(s.stack_top(), v)),
{
    let (_, t) = s.push(v).pop();
    assert(t =~= s.write(s.stack_top(), v));
}

/// Popping a word right after pushing it gives the word back and restores
/// the stack pointer.
pub proof fn law_pop_word_after_push_word(s: CpuState, v: u16)
    requires
        s.wf(),
    ensures
        s.push_word(v).pop_word() == (v, CpuState { sp: s.sp, ..s.push_word(v) }),
{
    let hi = (v as int / 0x100) as u8;
    let lo = (v as int % 0x100) as u8;
    let s1 = s.push(hi);
    law_pop_after_push(s1, lo);
    law_pop_after_push(s, hi);
    let (_, t) = s.push_word(v).pop_word();
    assert(t =~= CpuState { sp: s.sp, ..s.push_word(v) });
}

/// PLP right after PHP restores the status register and the stack pointer.
pub proof fn law_plp_after_php(s: CpuState, len1: u8, len2: u8)
    requires
        s.wf(),
    ensures
        s.php(len1).plp(len2).status == s.status,
        s.php(len1).plp(len2).sp == s.sp,
{
    law_pop_after_push(s, s.status);
}

/// PLA right after PHA restores the accumulator and the stack pointer.
pub proof fn law_pla_after_pha(s: CpuState, len1: u8, len2: u8)
    requires
        s.wf(),
    ensures
        s.pha(len1).pla(len2).a == s.a,
        s.pha(len1).pla(len2).sp == s.sp,
{
    law_pop_after_push(s, s.a);
}

/// TSX right after TXS leaves both the stack pointer and X equal to the old X.
pub proof fn law_tsx_after_txs(s: CpuState, len1: u8, len2: u8)
    ensures
        s.txs(len1).tsx(len2).sp == s.x,
        s.txs(len1).tsx(len2).x == s.x,
{
}

/// DEX undoes INX and DEY undoes INY, across the wrap at 0xFF.
pub proof fn law_decrement_undoes_increment(s: CpuState, len1: u8, len2: u8)
    ensures
        s.inx(len1).dex(len2).x == s.x,
        s.iny(len1).dey(len2).y == s.y,
{
}

/// RTS right after JSR returns to the instruction that follows the JSR, with
/// the stack pointer restored. The JSR's operand bytes start at the program
/// counter and the instruction is `len` bytes long.
pub proof fn law_rts_after_jsr(s: CpuState, mode: AddressingMode, len: u8)
    requires
        s.wf(),
        len >= 1,
    ensures
        s.jsr(mode, len).rts(1).pc == wrap16(s.pc + len - 1),
        s.jsr(mode, len).rts(1).sp == s.sp,
{
    let s1 = s.advance(len);
    let ret = wrap16(s1.pc - 1);
    law_pop_word_after_push_word(s1, ret);
}

/// ROR on the accumulator undoes ROL: the accumulator and the carry are back.
pub proof fn law_ror_undoes_rol(s: CpuState)
    ensures
        s.rol(AddressingMode::Accumulator, 1).ror(AddressingMode::Accumulator, 1).a == s.a,
        s.rol(AddressingMode::Accumulator, 1).ror(AddressingMode::Accumulator, 1).flag(FLAG_CARRY)
            == s.flag(FLAG_CARRY),
{
    lemma_flag_masks_disjoint();
    let v = s.a;
    let r = wrap8(2 * v + s.carry_in());
    let t0 = s.set_flag(FLAG_CARRY, v >= 0x80);
    law_flag_after_set_flag(s, FLAG_CARRY, v >= 0x80);
    law_zn_flags(t0, r, FLAG_CARRY);
    let t = s.rol(AddressingMode::Accumulator, 1);
    assert(t.a == r);
    assert(t.flag(FLAG_CARRY) == (v >= 0x80));
    let u0 = t.set_flag(FLAG_CARRY, r % 2 == 1);
    law_flag_after_set_flag(t, FLAG_CARRY, r % 2 == 1);
    law_zn_flags(u0, (r / 2 + 0x80 * t.carry_in()) as u8, FLAG_CARRY);
}

/// With the carry set (no borrow), SBC stores A - M modulo 256 and sets
/// carry, zero and negative exactly as CMP does.
pub proof fn law_sbc_matches_cmp(s: CpuState, mode: AddressingMode, len: u8)
    requires
        s.flag(FLAG_CARRY),
    ensures
        s.sbc(mode, len).a == wrap8(s.a - s.operand(mode)),
        s.sbc(mode, len).flag(FLAG_CARRY) == s.compare_op(s.a, mode, len).flag(FLAG_CARRY),
        s.sbc(mode, len).flag(FLAG_ZERO) == s.compare_op(s.a, mode, len).flag(FLAG_ZERO),
        s.sbc(mode, len).flag(FLAG_NEGATIVE) == s.compare_op(s.a, mode, len).flag(FLAG_NEGATIVE),
{
    lemma_flag_masks_disjoint();
    let v = s.operand(mode);
    let r = wrap8(s.a - v);
    let c = s.a >= v;
    // compare: carry, then zero and negative
    let c0 = s.set_flag(FLAG_CARRY, c);
    law_flag_after_set_flag(s, FLAG_CARRY, c);
    law_zn_flags(c0, r, FLAG_CARRY);
    // subtract: carry, overflow, then zero and negative
    let t0 = CpuState { a: r, ..s }.set_flag(FLAG_CARRY, c);
    let signed_diff = signed8(s.a) - signed8(v);
    let t1 = t0.set_flag(FLAG_OVERFLOW, !(-128 <= signed_diff <= 127));
    law_flag_after_set_flag(CpuState { a: r, ..s }, FLAG_CARRY, c);
    assert(FLAG_OVERFLOW & FLAG_CARRY == 0) by (bit_vector);
    law_set_flag_keeps_other_flags(t0, FLAG_OVERFLOW, !(-128 <= signed_diff <= 127), FLAG_CARRY);
    law_zn_flags(t1, r, FLAG_CARRY);
}

/// Loading a program and resetting starts execution at 0x8000 with the
/// program's bytes there, the registers cleared and the stack pointer at 0xFD.
pub proof fn law_reset_after_load(s: CpuState, program: Seq<u8>)
    requires
        s.wf(),
        program.len() <= 0x7FFC,
    ensures
        s.with_program(program).after_reset().pc == 0x8000,
        s.with_program(program).after_reset().sp == 0xFD,
        s.with_program(program).after_reset().a == 0,
        s.with_program(program).after_reset().x == 0,
        s.with_program(program).after_reset().y == 0,
        s.with_program(program).after_reset().status == 0,
        forall|i: int|
            0 <= i < program.len() ==> #[trigger] s.with_program(program).after_reset().read(
                0x8000 + i,
            ) == program[i],
{
}

/// Running is deterministic: any two bounds within which the program halts
/// give the same final state.
pub proof fn law_run_is_deterministic(s: CpuState, n: nat, m: nat)
    requires
        s.halts_within(n),
        s.halts_within(m),
    ensures
        s.run_within(n) == s.run_within(m),
    decreases n,
{
    if !s.at_break() {
        law_run_is_deterministic(s.next(), (n - 1) as nat, (m - 1) as nat);
    }
}

/// The state after a run is the state after any bound within which it halts.
pub proof fn law_final_state(s: CpuState, n: nat)
    requires
        s.halts_within(n),
    ensures
        s.halts(),
        s.final_state() == s.run_within(n),
{
    law_run_is_deterministic(s, n, choose|k: nat| s.halts_within(k));
}

/// A run that starts at a BRK stops right after fetching it: only the
/// program counter moves, one byte on.
pub proof fn law_run_stops_at_break(s: CpuState)
    requires
        s.can_step(),
        s.at_break(),
    ensures
        s.halts(),
        s.final_state() == s.fetched(),
{
    assert(s.halts_within(0));
    law_final_state(s, 0);
}

/// Every step that can run keeps the memory at 0xFFFF bytes.
pub proof fn law_step_keeps_memory_size(s: CpuState)
    requires
        s.wf(),
        s.can_step(),
    ensures
        s.next().wf(),
{
}

/// A run that halts within `n` steps keeps the memory at 0xFFFF bytes.
pub proof fn law_run_keeps_memory_size(s: CpuState, n: nat)
    requires
        s.wf(),
        s.halts_within(n),
    ensures
        s.run_within(n).wf(),
    decreases n,
{
    law_step_keeps_memory_size(s);
    if !(s.at_break() || n == 0) {
        law_run_keeps_memory_size(s.next(), (n - 1) as nat);
    }
}

/// The stack lives in page one: the next free stack cell is between 0x0100
/// and 0x01FF.
pub proof fn law_stack_in_page_one(s: CpuState)
    ensures
        0x0100 <= s.stack_top() <= 0x01FF,
{
}

/// An indirect jump through a pointer at the last byte of a page takes the
/// high byte of its target from the first byte of that same page, not from
/// the next page.
pub proof fn law_indirect_jump_wraps_within_page(s: CpuState)
    requires
        s.read_word(s.pc as int) as int % 0x100 == 0xFF,
    ensures
        s.operand_address(AddressingMode::Indirect) == crate::cpu::model::word(
            s.read(s.read_word(s.pc as int) as int),
            s.read(s.read_word(s.pc as int) as int - 0xFF),
        ),
{
}

/// Loading a program changes only the cells it is copied to and the reset vector.
pub proof fn law_load_keeps_other_memory(s: CpuState, program: Seq<u8>, addr: int)
    requires
        s.wf(),
        program.len() <= 0x7FFF,
        0 <= addr < 0xFFFF,
        !(0x8000 <= addr < 0x8000 + program.len()),
        addr != 0xFFFC,
        addr != 0xFFFD,
    ensures
        s.with_program(program).read(addr) == s.read(addr),
{
}

/// The instructions that only read memory, move data between registers,
/// pull from the stack or change the flow of control leave memory as it was.
pub proof fn law_memory_unchanged(s: CpuState, op: Operation, opcode: OpCode)
    requires
        !(op is Sta || op is Stx || op is Sty || op is Inc || op is Dec || op is Asl || op is Lsr
            || op is Rol || op is Ror || op is Pha || op is Php || op is Jsr),
    ensures
        s.execute(op, opcode).mem == s.mem,
{
}

} // verus!
