use vstd::prelude::*;

use crate::cpu::model::signed8;
use crate::cpu::state::{
    AddressingMode, CPU, FLAG_CARRY, FLAG_INTERRUPT_DISABLE, FLAG_NEGATIVE, FLAG_OVERFLOW,
    FLAG_ZERO,
};
use crate::opcodes::OpCode;

verus! {

/// The overflow test of addition on the sign bits agrees with signed overflow.
proof fn lemma_adc_overflow(a: u8, v: u8, c: int, r: u8)
    requires
        0 <= c <= 1,
        r as int == (a + v + c) % 0x100,
    ensures
        ((a ^ r) & (v ^ r) & 0x80 != 0) == !(-128 <= signed8(a) + signed8(v) + c <= 127),
{
    assert(((a ^ r) & (v ^ r) & 0x80 != 0) == ((a >= 0x80) != (r >= 0x80) && (v >= 0x80) != (
    r >= 0x80))) by (bit_vector);
}

/// The overflow test of subtraction on the sign bits agrees with signed overflow.
proof fn lemma_sbc_overflow(a: u8, v: u8, borrow: int, r: u8)
    requires
        0 <= borrow <= 1,
        r as int == (a - v - borrow) % 0x100,
    ensures
        ((a ^ v) & (a ^ r) & 0x80 != 0) == !(-128 <= signed8(a) - signed8(v) - borrow <= 127),
{
    assert(((a ^ v) & (a ^ r) & 0x80 != 0) == ((a >= 0x80) != (v >= 0x80) && (a >= 0x80) != (
    r >= 0x80))) by (bit_vector);
}

/// Shifts and masks of a byte, in arithmetic.
proof fn lemma_byte_bits(v: u8)
    ensures
        (v << 1) as int == (2 * v) % 0x100,
        ((v << 1) | 1) as int == (2 * v + 1) % 0x100,
        (v >> 1) as int == v / 2,
        ((v >> 1) | 0x80) as int == v / 2 + 0x80,
        (v & FLAG_NEGATIVE != 0) == (v >= 0x80),
        (v & 0x80 != 0) == (v >= 0x80),
        (v & 0x01 != 0) == (v % 2 == 1),
{
    assert((v << 1) == (2 * v) % 0x100) by (bit_vector);
    assert(((v << 1) | 1) == (2 * v + 1) % 0x100) by (bit_vector);
    assert((v >> 1) == v / 2) by (bit_vector);
    assert(((v >> 1) | 0x80) == v / 2 + 0x80) by (bit_vector);
    assert((v & 0x80 != 0) == (v >= 0x80)) by (bit_vector);
    assert((v & 0x01 != 0) == (v % 2 == 1)) by (bit_vector);
}

impl CPU {
    /// LDA: load the accumulator from the operand.
    pub fn lda(&mut self, opcode: &OpCode)
        requires
            old(self)@.memory_op_ok(opcode.mode, opcode.len),
        ensures
            final(self)@ == old(self)@.lda(opcode.mode, opcode.len),
    {
        let addr = self.get_operand_address(&opcode.mode);
        let value = self.mem_read(addr);

        self.register_a = value;
        self.update_zero_and_negative_flags(self.register_a);
        self.advance_pc(opcode);
    }

    /// LDX: load X from the operand.
    pub fn ldx(&mut self, opcode: &OpCode)
        requires
            old(self)@.memory_op_ok(opcode.mode, opcode.len),
        ensures
            final(self)@ == old(self)@.ldx(opcode.mode, opcode.len),
    {
        let addr = self.get_operand_address(&opcode.mode);
        let value = self.mem_read(addr);

        self.register_x = value;
        self.update_zero_and_negative_flags(self.register_x);
        self.advance_pc(opcode);
    }

    /// LDY: load Y from the operand.
    pub fn ldy(&mut self, opcode: &OpCode)
        requires
            old(self)@.memory_op_ok(opcode.mode, opcode.len),
        ensures
            final(self)@ == old(self)@.ldy(opcode.mode, opcode.len),
    {
        let addr = self.get_operand_address(&opcode.mode);
        let value = self.mem_read(addr);

        self.register_y = value;
        self.update_zero_and_negative_flags(self.register_y);
        self.advance_pc(opcode);
    }

    /// STA: store the accumulator at the operand address.
    pub fn sta(&mut self, opcode: &OpCode)
        requires
            old(self)@.memory_op_ok(opcode.mode, opcode.len),
        ensures
            final(self)@ == old(self)@.store(opcode.mode, opcode.len, old(self)@.a),
    {
        let addr = self.get_operand_address(&opcode.mode);
        self.mem_write(addr, self.register_a);
        self.advance_pc(opcode);
    }

    /// STX: store X at the operand address.
    pub fn stx(&mut self, opcode: &OpCode)
        requires
            old(self)@.memory_op_ok(opcode.mode, opcode.len),
        ensures
            final(self)@ == old(self)@.store(opcode.mode, opcode.len, old(self)@.x),
    {
        let addr = self.get_operand_address(&opcode.mode);
        self.mem_write(addr, self.register_x);
        self.advance_pc(opcode);
    }

    /// STY: store Y at the operand address.
    pub fn sty(&mut self, opcode: &OpCode)
        requires
            old(self)@.memory_op_ok(opcode.mode, opcode.len),
        ensures
            final(self)@ == old(self)@.store(opcode.mode, opcode.len, old(self)@.y),
    {
        let addr = self.get_operand_address(&opcode.mode);
        self.mem_write(addr, self.register_y);
        self.advance_pc(opcode);
    }

    /// PHA: push the accumulator.
    pub fn pha(&mut self, opcode: &OpCode)
        requires
            opcode.len >= 1,
        ensures
            final(self)@ == old(self)@.pha(opcode.len),
    {
        let data = self.register_a;
        self.stack_push(data);
        self.advance_pc(opcode);
    }

    /// PLA: pull the accumulator; the flags are left as they are.
    pub fn pla(&mut self, opcode: &OpCode)
        requires
            opcode.len >= 1,
        ensures
            final(self)@ == old(self)@.pla(opcode.len),
    {
        self.register_a = self.stack_pop();
        self.advance_pc(opcode);
    }

    /// PHP: push the status register.
    pub fn php(&mut self, opcode: &OpCode)
        requires
            opcode.len >= 1,
        ensures
            final(self)@ == old(self)@.php(opcode.len),
    {
        let data = self.status;
        self.stack_push(data);
        self.advance_pc(opcode);
    }

    /// PLP: pull the status register.
    pub fn plp(&mut self, opcode: &OpCode)
        requires
            opcode.len >= 1,
        ensures
            final(self)@ == old(self)@.plp(opcode.len),
    {
        self.status = self.stack_pop();
        self.advance_pc(opcode);
    }

    /// TAX: copy the accumulator to X.
    pub fn tax(&mut self, opcode: &OpCode)
        requires
            opcode.len >= 1,
        ensures
            final(self)@ == old(self)@.tax(opcode.len),
    {
        self.register_x = self.register_a;
        self.update_zero_and_negative_flags(self.register_x);
        self.advance_pc(opcode);
    }

    /// TAY: copy the accumulator to Y.
    pub fn tay(&mut self, opcode: &OpCode)
        requires
            opcode.len >= 1,
        ensures
            final(self)@ == old(self)@.tay(opcode.len),
    {
        self.register_y = self.register_a;
        self.update_zero_and_negative_flags(self.register_y);
        self.advance_pc(opcode);
    }

    /// TSX: copy the stack pointer to X.
    pub fn tsx(&mut self, opcode: &OpCode)
        requires
            opcode.len >= 1,
        ensures
            final(self)@ == old(self)@.tsx(opcode.len),
    {
        self.register_x = self.sp;
        self.update_zero_and_negative_flags(self.register_x);
        self.advance_pc(opcode);
    }

    /// TXA: copy X to the accumulator.
    pub fn txa(&mut self, opcode: &OpCode)
        requires
            opcode.len >= 1,
        ensures
            final(self)@ == old(self)@.txa(opcode.len),
    {
        self.register_a = self.register_x;
        self.update_zero_and_negative_flags(self.register_a);
        self.advance_pc(opcode);
    }

    /// TYA: copy Y to the accumulator.
    pub fn tya(&mut self, opcode: &OpCode)
        requires
            opcode.len >= 1,
        ensures
            final(self)@ == old(self)@.tya(opcode.len),
    {
        self.register_a = self.register_y;
        self.update_zero_and_negative_flags(self.register_a);
        self.advance_pc(opcode);
    }

    /// TXS: copy X to the stack pointer, setting zero and negative from it.
    pub fn txs(&mut self, opcode: &OpCode)
        requires
            opcode.len >= 1,
        ensures
            final(self)@ == old(self)@.txs(opcode.len),
    {
        self.sp = self.register_x;
        self.update_zero_and_negative_flags(self.sp);
        self.advance_pc(opcode);
    }

    /// ADC: add the operand and the carry to the accumulator.
    pub fn adc(&mut self, opcode: &OpCode)
        requires
            old(self)@.memory_op_ok(opcode.mode, opcode.len),
        ensures
            final(self)@ == old(self)@.adc(opcode.mode, opcode.len),
    {
        let addr = self.get_operand_address(&opcode.mode);
        let value = self.mem_read(addr);
        let carry: u8 = if self.get_flag(FLAG_CARRY) { 1 } else { 0 };

        let a = self.register_a;
        let sum = (a as u16).wrapping_add(value as u16).wrapping_add(carry as u16);

        self.set_flag(FLAG_CARRY, sum > 0xFF);

        let result = sum as u8;
        proof {
            assert(result == sum % 0x100) by (bit_vector)
                requires
                    result == sum as u8,
            ;
            lemma_adc_overflow(a, value, carry as int, result);
        }
        let overflow = (a ^ result) & (value ^ result) & 0x80 != 0;
        self.set_flag(FLAG_OVERFLOW, overflow);

        self.register_a = result;
        self.update_zero_and_negative_flags(self.register_a);
        self.advance_pc(opcode);
    }

    /// SBC: subtract the operand and the borrow (the inverted carry) from the accumulator.
    pub fn sbc(&mut self, opcode: &OpCode)
        requires
            old(self)@.memory_op_ok(opcode.mode, opcode.len),
        ensures
            final(self)@ == old(self)@.sbc(opcode.mode, opcode.len),
    {
        let addr = self.get_operand_address(&opcode.mode);
        let value = self.mem_read(addr);
        let carry: u8 = if self.get_flag(FLAG_CARRY) { 1 } else { 0 };

        let a = self.register_a;
        let neg_value = (!value) as u16;
        proof {
            assert(!value == 0xFF - value) by (bit_vector);
        }

        let sum = (a as u16).wrapping_add(neg_value).wrapping_add(carry as u16);

        self.set_flag(FLAG_CARRY, sum > 0xFF);

        let result = sum as u8;
        proof {
            assert(result == sum % 0x100) by (bit_vector)
                requires
                    result == sum as u8,
            ;
            assert(result as int == (a - value - (1 - carry)) % 0x100);
            lemma_sbc_overflow(a, value, 1 - carry, result);
        }
        let overflow = (a ^ value) & (a ^ result) & 0x80 != 0;
        self.set_flag(FLAG_OVERFLOW, overflow);

        self.register_a = result;
        self.update_zero_and_negative_flags(self.register_a);
        self.advance_pc(opcode);
    }

    /// AND: bitwise and of the accumulator with the operand.
    pub fn and(&mut self, opcode: &OpCode)
        requires
            old(self)@.memory_op_ok(opcode.mode, opcode.len),
        ensures
            final(self)@ == old(self)@.and(opcode.mode, opcode.len),
    {
        let addr = self.get_operand_address(&opcode.mode);
        let value = self.mem_read(addr);

        self.register_a = self.register_a & value;
        self.update_zero_and_negative_flags(self.register_a);
        self.advance_pc(opcode);
    }

    /// ORA: bitwise or of the accumulator with the operand.
    pub fn ora(&mut self, opcode: &OpCode)
        requires
            old(self)@.memory_op_ok(opcode.mode, opcode.len),
        ensures
            final(self)@ == old(self)@.ora(opcode.mode, opcode.len),
    {
        let addr = self.get_operand_address(&opcode.mode);
        let value = self.mem_read(addr);

        self.register_a = self.register_a | value;
        self.update_zero_and_negative_flags(self.register_a);
        self.advance_pc(opcode);
    }

    /// BIT: test the accumulator against the operand.
    pub fn bit(&mut self, opcode: &OpCode)
        requires
            old(self)@.memory_op_ok(opcode.mode, opcode.len),
        ensures
            final(self)@ == old(self)@.bit(opcode.mode, opcode.len),
    {
        let addr = self.get_operand_address(&opcode.mode);
        let value = self.mem_read(addr);

        let result = self.register_a & value;
        self.set_flag(FLAG_ZERO, result == 0);
        self.set_flag(FLAG_OVERFLOW, value & FLAG_OVERFLOW != 0);
        self.set_flag(FLAG_NEGATIVE, value & FLAG_NEGATIVE != 0);
        self.advance_pc(opcode);
    }

    /// CMP: compare the accumulator with the operand.
    pub fn cmp(&mut self, opcode: &OpCode)
        requires
            old(self)@.memory_op_ok(opcode.mode, opcode.len),
        ensures
            final(self)@ == old(self)@.compare_op(old(self)@.a, opcode.mode, opcode.len),
    {
        let addr = self.get_operand_address(&opcode.mode);
        let value = self.mem_read(addr);

        let r = self.register_a;
        let result = r.wrapping_sub(value);
        self.set_flag(FLAG_CARRY, r >= value);
        self.update_zero_and_negative_flags(result);
        self.advance_pc(opcode);
    }

    /// CPX: compare X with the operand.
    pub fn cpx(&mut self, opcode: &OpCode)
        requires
            old(self)@.memory_op_ok(opcode.mode, opcode.len),
        ensures
            final(self)@ == old(self)@.compare_op(old(self)@.x, opcode.mode, opcode.len),
    {
        let addr = self.get_operand_address(&opcode.mode);
        let value = self.mem_read(addr);

        let r = self.register_x;
        let result = r.wrapping_sub(value);
        self.set_flag(FLAG_CARRY, r >= value);
        self.update_zero_and_negative_flags(result);
        self.advance_pc(opcode);
    }

    /// CPY: compare Y with the operand.
    pub fn cpy(&mut self, opcode: &OpCode)
        requires
            old(self)@.memory_op_ok(opcode.mode, opcode.len),
        ensures
            final(self)@ == old(self)@.compare_op(old(self)@.y, opcode.mode, opcode.len),
    {
        let addr = self.get_operand_address(&opcode.mode);
        let value = self.mem_read(addr);

        let r = self.register_y;
        let result = r.wrapping_sub(value);
        self.set_flag(FLAG_CARRY, r >= value);
        self.update_zero_and_negative_flags(result);
        self.advance_pc(opcode);
    }

    /// ASL: shift left; bit 7 goes to carry.
    pub fn asl(&mut self, opcode: &OpCode)
        requires
            old(self)@.modify_op_ok(opcode.mode, opcode.len),
        ensures
            final(self)@ == old(self)@.asl(opcode.mode, opcode.len),
    {
        match &opcode.mode {
            AddressingMode::Accumulator => {
                let value = self.register_a;
                proof {
                    lemma_byte_bits(value);
                }
                let result = value << 1;
                self.set_flag(FLAG_CARRY, value & FLAG_NEGATIVE != 0);
                self.update_zero_and_negative_flags(result);
                self.register_a = result;
            },
            _ => {
                let addr = self.get_operand_address(&opcode.mode);
                let value = self.mem_read(addr);
                proof {
                    lemma_byte_bits(value);
                }
                let result = value << 1;
                self.set_flag(FLAG_CARRY, value & FLAG_NEGATIVE != 0);
                self.update_zero_and_negative_flags(result);
                self.mem_write(addr, result);
            },
        }
        self.advance_pc(opcode);
    }

    /// LSR: shift right; bit 0 goes to carry.
    pub fn lsr(&mut self, opcode: &OpCode)
        requires
            old(self)@.modify_op_ok(opcode.mode, opcode.len),
        ensures
            final(self)@ == old(self)@.lsr(opcode.mode, opcode.len),
    {
        match &opcode.mode {
            AddressingMode::Accumulator => {
                let value = self.register_a;
                proof {
                    lemma_byte_bits(value);
                }
                let result = value >> 1;
                self.set_flag(FLAG_CARRY, value & 0x01 != 0);
                self.update_zero_and_negative_flags(result);
                self.register_a = result;
            },
            _ => {
                let addr = self.get_operand_address(&opcode.mode);
                let value = self.mem_read(addr);
                proof {
                    lemma_byte_bits(value);
                }
                let result = value >> 1;
                self.set_flag(FLAG_CARRY, value & 0x01 != 0);
                self.update_zero_and_negative_flags(result);
                self.mem_write(addr, result);
            },
        }
        self.advance_pc(opcode);
    }

    /// ROL: rotate left through the carry.
    pub fn rol(&mut self, opcode: &OpCode)
        requires
            old(self)@.modify_op_ok(opcode.mode, opcode.len),
        ensures
            final(self)@ == old(self)@.rol(opcode.mode, opcode.len),
    {
        match &opcode.mode {
            AddressingMode::Accumulator => {
                let value = self.register_a;
                proof {
                    lemma_byte_bits(value);
                }
                let result = if self.get_flag(FLAG_CARRY) {
                    value << 1 | 1
                } else {
                    value << 1
                };
                self.set_flag(FLAG_CARRY, value & 0x80 != 0);
                self.update_zero_and_negative_flags(result);
                self.register_a = result;
            },
            _ => {
                let addr = self.get_operand_address(&opcode.mode);
                let value = self.mem_read(addr);
                proof {
                    lemma_byte_bits(value);
                }
                let result = if self.get_flag(FLAG_CARRY) {
                        value << 1 | 1
                    } else {
                        value << 1
                    };
                self.set_flag(FLAG_CARRY, value & 0x80 != 0);
                self.update_zero_and_negative_flags(result);
                self.mem_write(addr, result);
            },
        }
        self.advance_pc(opcode);
    }

    /// ROR: rotate right through the carry.
    pub fn ror(&mut self, opcode: &OpCode)
        requires
            old(self)@.modify_op_ok(opcode.mode, opcode.len),
        ensures
            final(self)@ == old(self)@.ror(opcode.mode, opcode.len),
    {
        match &opcode.mode {
            AddressingMode::Accumulator => {
                let value = self.register_a;
                proof {
                    lemma_byte_bits(value);
                }
                let result = if self.get_flag(FLAG_CARRY) {
                    value >> 1 | 0x80
                } else {
                    value >> 1
                };
                self.set_flag(FLAG_CARRY, value & 0x01 != 0);
                self.update_zero_and_negative_flags(result);
                self.register_a = result;
            },
            _ => {
                let addr = self.get_operand_address(&opcode.mode);
                let value = self.mem_read(addr);
                proof {
                    lemma_byte_bits(value);
                }
                let result = if self.get_flag(FLAG_CARRY) {
                        value >> 1 | 0x80
                    } else {
                        value >> 1
                    };
                self.set_flag(FLAG_CARRY, value & 0x01 != 0);
                self.update_zero_and_negative_flags(result);
                self.mem_write(addr, result);
            },
        }
        self.advance_pc(opcode);
    }

    /// INC: increment the operand in memory, wrapping.
    pub fn inc(&mut self, opcode: &OpCode)
        requires
            old(self)@.memory_op_ok(opcode.mode, opcode.len),
        ensures
            final(self)@ == old(self)@.inc(opcode.mode, opcode.len),
    {
        let addr = self.get_operand_address(&opcode.mode);
        let value = self.mem_read(addr);
        let result = value.wrapping_add(1);
        self.update_zero_and_negative_flags(result);
        self.mem_write(addr, result);
        self.advance_pc(opcode);
    }

    /// DEC: decrement the operand in memory, wrapping.
    pub fn dec(&mut self, opcode: &OpCode)
        requires
            old(self)@.memory_op_ok(opcode.mode, opcode.len),
        ensures
            final(self)@ == old(self)@.dec(opcode.mode, opcode.len),
    {
        let addr = self.get_operand_address(&opcode.mode);
        let value = self.mem_read(addr);
        let result = value.wrapping_sub(1);
        self.update_zero_and_negative_flags(result);
        self.mem_write(addr, result);
        self.advance_pc(opcode);
    }

    /// INX: increment X, wrapping.
    pub fn inx(&mut self, opcode: &OpCode)
        requires
            opcode.len >= 1,
        ensures
            final(self)@ == old(self)@.inx(opcode.len),
    {
        self.register_x = self.register_x.wrapping_add(1);
        self.update_zero_and_negative_flags(self.register_x);
        self.advance_pc(opcode);
    }

    /// INY: increment Y, wrapping.
    pub fn iny(&mut self, opcode: &OpCode)
        requires
            opcode.len >= 1,
        ensures
            final(self)@ == old(self)@.iny(opcode.len),
    {
        self.register_y = self.register_y.wrapping_add(1);
        self.update_zero_and_negative_flags(self.register_y);
        self.advance_pc(opcode);
    }

    /// DEX: decrement X, wrapping.
    pub fn dex(&mut self, opcode: &OpCode)
        requires
            opcode.len >= 1,
        ensures
            final(self)@ == old(self)@.dex(opcode.len),
    {
        self.register_x = self.register_x.wrapping_sub(1);
        self.update_zero_and_negative_flags(self.register_x);
        self.advance_pc(opcode);
    }

    /// DEY: decrement Y, wrapping.
    pub fn dey(&mut self, opcode: &OpCode)
        requires
            opcode.len >= 1,
        ensures
            final(self)@ == old(self)@.dey(opcode.len),
    {
        self.register_y = self.register_y.wrapping_sub(1);
        self.update_zero_and_negative_flags(self.register_y);
        self.advance_pc(opcode);
    }

    /// SEC: set the carry.
    pub fn sec(&mut self, opcode: &OpCode)
        requires
            opcode.len >= 1,
        ensures
            final(self)@ == old(self)@.flag_op(FLAG_CARRY, true, opcode.len),
    {
        self.set_flag(FLAG_CARRY, true);
        self.advance_pc(opcode);
    }

    /// BPL: branch when negative is clear.
    pub fn bpl(&mut self, opcode: &OpCode)
        requires
            old(self)@.branch_ok(opcode.len),
        ensures
            final(self)@ == old(self)@.branch(!old(self)@.flag(FLAG_NEGATIVE), opcode.len),
    {
        let byte = self.mem_read(self.program_counter);
        let offset = byte as i8;
        proof {
            crate::cpu::lemma_signed_byte(byte);
        }
        self.advance_pc(opcode);
        self.branch_if(!self.get_flag(FLAG_NEGATIVE), offset);
    }

    /// BMI: branch when negative is set.
    pub fn bmi(&mut self, opcode: &OpCode)
        requires
            old(self)@.branch_ok(opcode.len),
        ensures
            final(self)@ == old(self)@.branch(old(self)@.flag(FLAG_NEGATIVE), opcode.len),
    {
        let byte = self.mem_read(self.program_counter);
        let offset = byte as i8;
        proof {
            crate::cpu::lemma_signed_byte(byte);
        }
        self.advance_pc(opcode);
        self.branch_if(self.get_flag(FLAG_NEGATIVE), offset);
    }

    /// CLC: clear the carry.
    pub fn clc(&mut self, opcode: &OpCode)
        requires
            opcode.len >= 1,
        ensures
            final(self)@ == old(self)@.flag_op(FLAG_CARRY, false, opcode.len),
    {
        self.set_flag(FLAG_CARRY, false);
        self.advance_pc(opcode);
    }

    /// JSR: push the address of the last byte of this instruction and jump
    /// to the operand address.
    pub fn jsr(&mut self, opcode: &OpCode)
        requires
            opcode.len >= 1,
            old(self)@.operand_defined(opcode.mode),
        ensures
            final(self)@ == old(self)@.jsr(opcode.mode, opcode.len),
    {
        let addr = self.get_operand_address(&opcode.mode);
        self.advance_pc(opcode);
        self.stack_push_u16(self.program_counter.wrapping_sub(1));
        self.program_counter = addr;
    }

    /// RTI: pull the status, then the program counter.
    pub fn rti(&mut self, opcode: &OpCode)
        requires
            opcode.len >= 1,
        ensures
            final(self)@ == old(self)@.rti(opcode.len),
    {
        self.status = self.stack_pop();
        self.advance_pc(opcode);
        self.program_counter = self.stack_pop_u16();
    }

    /// EOR: exclusive or of the accumulator with the operand.
    pub fn eor(&mut self, opcode: &OpCode)
        requires
            old(self)@.memory_op_ok(opcode.mode, opcode.len),
        ensures
            final(self)@ == old(self)@.eor(opcode.mode, opcode.len),
    {
        let addr = self.get_operand_address(&opcode.mode);
        let value = self.mem_read(addr);

        self.register_a = self.register_a ^ value;
        self.update_zero_and_negative_flags(self.register_a);
        self.advance_pc(opcode);
    }

    /// JMP: continue at the operand address.
    pub fn jmp(&mut self, opcode: &OpCode)
        requires
            old(self)@.operand_defined(opcode.mode),
        ensures
            final(self)@ == old(self)@.jmp(opcode.mode),
    {
        let addr = self.get_operand_address(&opcode.mode);
        self.program_counter = addr;
    }

    /// CLI: clear interrupt disable.
    pub fn cli(&mut self, opcode: &OpCode)
        requires
            opcode.len >= 1,
        ensures
            final(self)@ == old(self)@.flag_op(FLAG_INTERRUPT_DISABLE, false, opcode.len),
    {
        self.set_flag(FLAG_INTERRUPT_DISABLE, false);
        self.advance_pc(opcode);
    }

    /// RTS: pull the return address pushed by JSR and continue at the byte after it.
    pub fn rts(&mut self, opcode: &OpCode)
        requires
            opcode.len >= 1,
        ensures
            final(self)@ == old(self)@.rts(opcode.len),
    {
        self.program_counter = self.stack_pop_u16().wrapping_add(1);
        self.advance_pc(opcode);
    }

    /// BVS: branch when overflow is set.
    pub fn bvs(&mut self, opcode: &OpCode)
        requires
            old(self)@.branch_ok(opcode.len),
        ensures
            final(self)@ == old(self)@.branch(old(self)@.flag(FLAG_OVERFLOW), opcode.len),
    {
        let byte = self.mem_read(self.program_counter);
        let offset = byte as i8;
        proof {
            crate::cpu::lemma_signed_byte(byte);
        }
        self.advance_pc(opcode);
        self.branch_if(self.get_flag(FLAG_OVERFLOW), offset);
    }

    /// BCC: branch when carry is clear.
    pub fn bcc(&mut self, opcode: &OpCode)
        requires
            old(self)@.branch_ok(opcode.len),
        ensures
            final(self)@ == old(self)@.branch(!old(self)@.flag(FLAG_CARRY), opcode.len),
    {
        let byte = self.mem_read(self.program_counter);
        let offset = byte as i8;
        proof {
            crate::cpu::lemma_signed_byte(byte);
        }
        self.advance_pc(opcode);
        self.branch_if(!self.get_flag(FLAG_CARRY), offset);
    }

    /// BCS: branch when carry is set.
    pub fn bcs(&mut self, opcode: &OpCode)
        requires
            old(self)@.branch_ok(opcode.len),
        ensures
            final(self)@ == old(self)@.branch(old(self)@.flag(FLAG_CARRY), opcode.len),
    {
        let byte = self.mem_read(self.program_counter);
        let offset = byte as i8;
        proof {
            crate::cpu::lemma_signed_byte(byte);
        }
        self.advance_pc(opcode);
        self.branch_if(self.get_flag(FLAG_CARRY), offset);
    }

    /// BNE: branch when zero is clear.
    pub fn bne(&mut self, opcode: &OpCode)
        requires
            old(self)@.branch_ok(opcode.len),
        ensures
            final(self)@ == old(self)@.branch(!old(self)@.flag(FLAG_ZERO), opcode.len),
    {
        let byte = self.mem_read(self.program_counter);
        let offset = byte as i8;
        proof {
            crate::cpu::lemma_signed_byte(byte);
        }
        self.advance_pc(opcode);
        self.branch_if(!self.get_flag(FLAG_ZERO), offset);
    }

    /// BEQ: branch when zero is set.
    pub fn beq(&mut self, opcode: &OpCode)
        requires
            old(self)@.branch_ok(opcode.len),
        ensures
            final(self)@ == old(self)@.branch(old(self)@.flag(FLAG_ZERO), opcode.len),
    {
        let byte = self.mem_read(self.program_counter);
        let offset = byte as i8;
        proof {
            crate::cpu::lemma_signed_byte(byte);
        }
        self.advance_pc(opcode);
        self.branch_if(self.get_flag(FLAG_ZERO), offset);
    }
}

} // verus!
