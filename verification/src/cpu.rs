use vstd::prelude::*;

use crate::cpu::model::{in_memory, operation_of, signed8, wrap16, CpuState, Operation};
use crate::cpu::state::{AddressingMode, CPU, FLAG_CARRY, FLAG_NEGATIVE, FLAG_ZERO, STACK_BASE};
use crate::opcodes::{lookup_opcode, OpCode};

pub mod display;
pub mod instruction;
pub mod laws;
pub mod semantics;
pub mod model;
pub mod state;

verus! {

/// `(hi << 8) | lo` is the little-endian word of the two bytes.
proof fn lemma_word_bits(lo: u16, hi: u16)
    requires
        lo < 0x100,
        hi < 0x100,
    ensures
        (hi << 8) | lo == hi * 0x100 + lo,
{
    assert((hi << 8) | lo == hi * 0x100 + lo) by (bit_vector)
        requires
            lo < 0x100,
            hi < 0x100,
    ;
}

/// The two bytes of a word, as shifts and masks.
proof fn lemma_word_split(data: u16)
    ensures
        (data >> 8) as u8 == data as int / 0x100,
        (data & 0xff) as u8 == data as int % 0x100,
{
    assert((data >> 8) as u8 == data / 0x100) by (bit_vector);
    assert((data & 0xff) as u8 == data % 0x100) by (bit_vector);
}

/// A byte reinterpreted as a signed offset.
proof fn lemma_signed_byte(v: u8)
    ensures
        (v as i8) as int == signed8(v),
{
    assert(v < 0x80 ==> (v as i8) as i16 == v as i16) by (bit_vector);
    assert(v >= 0x80 ==> (v as i8) as i16 == v as i16 - 0x100) by (bit_vector);
}

/// The instruction that an opcode byte selects, or `None` for the opcodes
/// that the processor does not execute.
pub fn decode_operation(code: u8) -> (op: Option<Operation>)
    ensures
        op == operation_of(code),
{
    match code {
        0x00 => Some(Operation::Brk),
        0x01 | 0x05 | 0x09 | 0x0D | 0x11 | 0x15 | 0x19 | 0x1D => Some(Operation::Ora),
        0x06 | 0x0A | 0x0E | 0x16 | 0x1E => Some(Operation::Asl),
        0x08 => Some(Operation::Php),
        0x10 => Some(Operation::Bpl),
        0x18 => Some(Operation::Clc),
        0x20 => Some(Operation::Jsr),
        0x21 | 0x25 | 0x29 | 0x2D | 0x31 | 0x35 | 0x39 | 0x3D => Some(Operation::And),
        0x24 | 0x2C => Some(Operation::Bit),
        0x26 | 0x2A | 0x2E | 0x36 | 0x3E => Some(Operation::Rol),
        0x28 => Some(Operation::Plp),
        0x30 => Some(Operation::Bmi),
        0x38 => Some(Operation::Sec),
        0x40 => Some(Operation::Rti),
        0x41 | 0x45 | 0x49 | 0x4D | 0x51 | 0x55 | 0x59 | 0x5D => Some(Operation::Eor),
        0x46 | 0x4A | 0x4E | 0x56 | 0x5E => Some(Operation::Lsr),
        0x48 => Some(Operation::Pha),
        0x4C | 0x6C => Some(Operation::Jmp),
        0x58 => Some(Operation::Cli),
        0x60 => Some(Operation::Rts),
        0x61 | 0x65 | 0x69 | 0x6D | 0x71 | 0x75 | 0x79 | 0x7D => Some(Operation::Adc),
        0x66 | 0x6A | 0x6E | 0x76 | 0x7E => Some(Operation::Ror),
        0x68 => Some(Operation::Pla),
        0x70 => Some(Operation::Bvs),
        0x81 | 0x85 | 0x8D | 0x91 | 0x95 | 0x99 | 0x9D => Some(Operation::Sta),
        0x84 | 0x8C | 0x94 => Some(Operation::Sty),
        0x86 | 0x8E | 0x96 => Some(Operation::Stx),
        0x88 => Some(Operation::Dey),
        0x8A => Some(Operation::Txa),
        0x90 => Some(Operation::Bcc),
        0x98 => Some(Operation::Tya),
        0x9A => Some(Operation::Txs),
        0xA0 | 0xA4 | 0xAC | 0xB4 | 0xBC => Some(Operation::Ldy),
        0xA1 | 0xA5 | 0xA9 | 0xAD | 0xB1 | 0xB5 | 0xB9 | 0xBD => Some(Operation::Lda),
        0xA2 | 0xA6 | 0xAE | 0xB6 | 0xBE => Some(Operation::Ldx),
        0xA8 => Some(Operation::Tay),
        0xAA => Some(Operation::Tax),
        0xB0 => Some(Operation::Bcs),
        0xBA => Some(Operation::Tsx),
        0xC0 | 0xC4 | 0xCC => Some(Operation::Cpy),
        0xC1 | 0xC5 | 0xC9 | 0xCD | 0xD1 | 0xD5 | 0xD9 | 0xDD => Some(Operation::Cmp),
        0xC6 | 0xCE | 0xD6 | 0xDE => Some(Operation::Dec),
        0xC8 => Some(Operation::Iny),
        0xCA => Some(Operation::Dex),
        0xD0 => Some(Operation::Bne),
        0xE0 | 0xE4 | 0xEC => Some(Operation::Cpx),
        0xE1 | 0xE5 | 0xE9 | 0xED | 0xF1 | 0xF5 | 0xF9 | 0xFD => Some(Operation::Sbc),
        0xE6 | 0xEE | 0xF6 | 0xFE => Some(Operation::Inc),
        0xE8 => Some(Operation::Inx),
        0xF0 => Some(Operation::Beq),
        _ => None,
    }
}

impl CPU {
    /// A processor with cleared registers and memory, and the stack pointer at 0xFF.
    pub fn new() -> (cpu: Self)
        ensures
            cpu@.a == 0,
            cpu@.x == 0,
            cpu@.y == 0,
            cpu@.status == 0,
            cpu@.pc == 0,
            cpu@.sp == 0xFF,
            cpu@.mem == Seq::new(0xFFFF, |i: int| 0u8),
            !cpu@.halted,
    {
        let memory = [0u8; 0xFFFF];
        proof {
            broadcast use vstd::array::group_array_axioms;
            assert(memory@ =~= Seq::new(0xFFFF, |i: int| 0u8));
        }
        CPU {
            register_a: 0,
            register_x: 0,
            register_y: 0,
            status: 0,
            program_counter: 0,
            sp: 0xFF,
            memory: memory,
            halted: false,
        }
    }

    /// Clear the registers and the status, put the stack pointer at 0xFD and
    /// load the program counter from the reset vector at 0xFFFC.
    pub fn reset(&mut self)
        ensures
            final(self)@ == old(self)@.after_reset(),
    {
        self.register_a = 0;
        self.register_x = 0;
        self.register_y = 0;
        self.status = 0;
        self.sp = 0xFD;

        self.program_counter = self.mem_read_u16(0xFFFC);
    }

    /// Copy `program` to 0x8000 onward and point the reset vector at it.
    pub fn load(&mut self, program: Vec<u8>)
        requires
            program.len() <= 0x7FFF,
        ensures
            final(self)@ == old(self)@.with_program(program@),
    {
        proof {
            broadcast use vstd::array::group_array_axioms;
        }
        let mut i: usize = 0;
        while i < program.len()
            invariant
                i <= program.len() <= 0x7FFF,
                self.memory@.len() == 0xFFFF,
                forall|j: int|
                    #![trigger self.memory@[j]]
                    0 <= j < 0xFFFF ==> self.memory@[j] == (if 0x8000 <= j < 0x8000 + i {
                        program@[j - 0x8000]
                    } else {
                        old(self)@.mem[j]
                    }),
                self@ == (CpuState { mem: self.memory@, ..old(self)@ }),
            decreases program.len() - i,
        {
            self.memory[0x8000 + i] = program[i];
            proof {
                broadcast use vstd::array::group_array_axioms;
            }
            i = i + 1;
        }
        proof {
            let copied = Seq::new(
                old(self)@.mem.len(),
                |j: int|
                    if 0x8000 <= j < 0x8000 + program@.len() {
                        program@[j - 0x8000]
                    } else {
                        old(self)@.mem[j]
                    },
            );
            assert(self.memory@ =~= copied);
        }
        self.mem_write_u16(0xFFFC, 0x8000);
    }

    /// Load `program`, reset, and run until BRK.
    pub fn load_and_run(&mut self, program: Vec<u8>)
        requires
            program.len() <= 0x7FFF,
            old(self)@.with_program(program@).after_reset().halts(),
        ensures
            final(self)@ == old(self)@.with_program(program@).after_reset().final_state(),
    {
        self.load(program);
        self.reset();
        self.run()
    }

    /// The address of the next free stack cell.
    pub fn stack_top(&self) -> (addr: u16)
        ensures
            addr == self@.stack_top(),
    {
        let sp = self.sp;
        proof {
            assert((sp as u16) | 0x0100u16 == sp + 0x100) by (bit_vector);
        }
        (self.sp as u16) | STACK_BASE
    }

    /// Push a byte onto the stack.
    pub fn stack_push(&mut self, data: u8)
        ensures
            final(self)@ == old(self)@.push(data),
    {
        let addr = self.stack_top();
        self.mem_write(addr, data);
        self.sp = self.sp.wrapping_sub(1);
    }

    /// Pop a byte from the stack.
    pub fn stack_pop(&mut self) -> (data: u8)
        ensures
            (data, final(self)@) == old(self)@.pop(),
    {
        self.sp = self.sp.wrapping_add(1);
        let addr = self.stack_top();
        let data = self.mem_read(addr);
        data
    }

    /// Push a word onto the stack, high byte first.
    pub fn stack_push_u16(&mut self, data: u16)
        ensures
            final(self)@ == old(self)@.push_word(data),
    {
        let hi = (data >> 8) as u8;
        let lo = (data & 0xFF) as u8;
        proof {
            lemma_word_split(data);
        }
        self.stack_push(hi);
        self.stack_push(lo);
    }

    /// Pop a word from the stack, low byte first.
    pub fn stack_pop_u16(&mut self) -> (data: u16)
        ensures
            (data, final(self)@) == old(self)@.pop_word(),
    {
        let lo = self.stack_pop() as u16;
        let hi = self.stack_pop() as u16;
        proof {
            lemma_word_bits(lo, hi);
        }
        hi << 8 | lo
    }

    /// Set (`flag`) or clear the status bits of `bit`.
    pub fn set_flag(&mut self, bit: u8, flag: bool)
        ensures
            final(self)@ == old(self)@.set_flag(bit, flag),
    {
        self.status = if flag {
            self.status | bit
        } else {
            self.status & (!bit)
        }
    }

    /// Whether any status bit of `bit` is set.
    pub fn get_flag(&self, bit: u8) -> (flag: bool)
        ensures
            flag == self@.flag(bit),
    {
        self.status & bit != 0
    }

    /// Set carry when `reg >= oprand`, zero when they are equal, and negative
    /// when `reg < oprand`.
    pub fn compare(&mut self, reg: u8, oprand: u8)
        ensures
            final(self)@ == old(self)@.set_flag(FLAG_CARRY, reg >= oprand).set_flag(
                FLAG_ZERO,
                reg == oprand,
            ).set_flag(FLAG_NEGATIVE, reg < oprand),
    {
        self.set_flag(FLAG_CARRY, reg >= oprand);
        self.set_flag(FLAG_ZERO, reg == oprand);
        self.set_flag(FLAG_NEGATIVE, reg < oprand);
    }

    /// When `cond` holds, add the signed `offset` to the program counter,
    /// wrapping at 0x10000.
    pub fn branch_if(&mut self, cond: bool, offset: i8)
        ensures
            final(self)@ == (if cond {
                old(self)@.jump(wrap16(old(self)@.pc + offset))
            } else {
                old(self)@
            }),
    {
        if cond {
            let jmp_addr = self.program_counter.wrapping_add_signed(offset as i16);
            self.program_counter = jmp_addr;
        }
    }

    /// Set zero when `result` is 0 and negative when its bit 7 is set.
    pub fn update_zero_and_negative_flags(&mut self, result: u8)
        ensures
            final(self)@ == old(self)@.set_zn(result),
    {
        proof {
            assert((result & 0b1000_0000 != 0) == (result >= 0x80)) by (bit_vector);
        }
        self.set_flag(FLAG_ZERO, result == 0);
        self.set_flag(FLAG_NEGATIVE, result & 0b1000_0000 != 0);
    }

    /// Move the program counter over the operand bytes of `opcode`.
    pub fn advance_pc(&mut self, opcode: &OpCode)
        requires
            opcode.len >= 1,
        ensures
            final(self)@ == old(self)@.advance(opcode.len),
    {
        self.program_counter = self.program_counter.wrapping_add((opcode.len - 1) as u16);
    }

    /// Fetch the instruction at the program counter and execute it.
    /// Returns `false` when it was BRK, which ends a run.
    pub fn step(&mut self) -> (running: bool)
        requires
            old(self)@.can_step(),
        ensures
            final(self)@ == old(self)@.next(),
            running == !old(self)@.at_break(),
    {
        let code = self.mem_read(self.program_counter);
        self.program_counter = self.program_counter + 1;

        let opcode = lookup_opcode(code);
        match code {
            0x00 => {
                return false;
            },
            0x01 | 0x05 | 0x09 | 0x0D | 0x11 | 0x15 | 0x19 | 0x1D => {
                self.ora(&opcode);
            },
            0x06 | 0x0A | 0x0E | 0x16 | 0x1E => {
                self.asl(&opcode);
            },
            0x08 => {
                self.php(&opcode);
            },
            0x10 => {
                self.bpl(&opcode);
            },
            0x18 => {
                self.clc(&opcode);
            },
            0x20 => {
                self.jsr(&opcode);
            },
            0x21 | 0x25 | 0x29 | 0x2D | 0x31 | 0x35 | 0x39 | 0x3D => {
                self.and(&opcode);
            },
            0x24 | 0x2C => {
                self.bit(&opcode);
            },
            0x26 | 0x2A | 0x2E | 0x36 | 0x3E => {
                self.rol(&opcode);
            },
            0x28 => {
                self.plp(&opcode);
            },
            0x30 => {
                self.bmi(&opcode);
            },
            0x38 => {
                self.sec(&opcode);
            },
            0x40 => {
                self.rti(&opcode);
            },
            0x41 | 0x45 | 0x49 | 0x4D | 0x51 | 0x55 | 0x59 | 0x5D => {
                self.eor(&opcode);
            },
            0x46 | 0x4A | 0x4E | 0x56 | 0x5E => {
                self.lsr(&opcode);
            },
            0x48 => {
                self.pha(&opcode);
            },
            0x4C | 0x6C => {
                self.jmp(&opcode);
            },
            0x58 => {
                self.cli(&opcode);
            },
            0x60 => {
                self.rts(&opcode);
            },
            0x61 | 0x65 | 0x69 | 0x6D | 0x71 | 0x75 | 0x79 | 0x7D => {
                self.adc(&opcode);
            },
            0x66 | 0x6A | 0x6E | 0x76 | 0x7E => {
                self.ror(&opcode);
            },
            0x68 => {
                self.pla(&opcode);
            },
            0x70 => {
                self.bvs(&opcode);
            },
            0x81 | 0x85 | 0x8D | 0x91 | 0x95 | 0x99 | 0x9D => {
                self.sta(&opcode);
            },
            0x84 | 0x8C | 0x94 => {
                self.sty(&opcode);
            },
            0x86 | 0x8E | 0x96 => {
                self.stx(&opcode);
            },
            0x88 => {
                self.dey(&opcode);
            },
            0x8A => {
                self.txa(&opcode);
            },
            0x90 => {
                self.bcc(&opcode);
            },
            0x98 => {
                self.tya(&opcode);
            },
            0x9A => {
                self.txs(&opcode);
            },
            0xA0 | 0xA4 | 0xAC | 0xB4 | 0xBC => {
                self.ldy(&opcode);
            },
            0xA1 | 0xA5 | 0xA9 | 0xAD | 0xB1 | 0xB5 | 0xB9 | 0xBD => {
                self.lda(&opcode);
            },
            0xA2 | 0xA6 | 0xAE | 0xB6 | 0xBE => {
                self.ldx(&opcode);
            },
            0xA8 => {
                self.tay(&opcode);
            },
            0xAA => {
                self.tax(&opcode);
            },
            0xB0 => {
                self.bcs(&opcode);
            },
            0xBA => {
                self.tsx(&opcode);
            },
            0xC0 | 0xC4 | 0xCC => {
                self.cpy(&opcode);
            },
            0xC1 | 0xC5 | 0xC9 | 0xCD | 0xD1 | 0xD5 | 0xD9 | 0xDD => {
                self.cmp(&opcode);
            },
            0xC6 | 0xCE | 0xD6 | 0xDE => {
                self.dec(&opcode);
            },
            0xC8 => {
                self.iny(&opcode);
            },
            0xCA => {
                self.dex(&opcode);
            },
            0xD0 => {
                self.bne(&opcode);
            },
            0xE0 | 0xE4 | 0xEC => {
                self.cpx(&opcode);
            },
            0xE1 | 0xE5 | 0xE9 | 0xED | 0xF1 | 0xF5 | 0xF9 | 0xFD => {
                self.sbc(&opcode);
            },
            0xE6 | 0xEE | 0xF6 | 0xFE => {
                self.inc(&opcode);
            },
            0xE8 => {
                self.inx(&opcode);
            },
            0xF0 => {
                self.beq(&opcode);
            },
            // `can_step` admits no other opcode
            _ => {},
        }
        true
    }

    /// Execute instructions until a BRK has been fetched. The program must
    /// reach a BRK, and each instruction on the way must be one that can run.
    pub fn run(&mut self)
        requires
            old(self)@.halts(),
        ensures
            final(self)@ == old(self)@.final_state(),
    {
        let ghost bound: nat = choose|n: nat| old(self)@.halts_within(n);
        let ghost mut left: nat = bound;
        loop
            invariant
                self@.halts_within(left),
                self@.run_within(left) == old(self)@.run_within(bound),
                bound == choose|n: nat| old(self)@.halts_within(n),
            decreases left,
        {
            let running = self.step();
            if !running {
                return;
            }
            proof {
                left = (left - 1) as nat;
            }
        }
    }

    /// Whether the operand address of `mode`, for operand bytes starting at
    /// `pc`, can be computed without reading past memory.
    fn operand_defined_at(&self, pc: u16, mode: &AddressingMode) -> (ok: bool)
        ensures
            ok == self@.jump(pc).operand_defined(*mode),
    {
        proof {
            let t = self@.jump(pc);
            assert(t.mem == self@.mem && t.pc == pc);
        }
        match mode {
            AddressingMode::Immediate => true,
            AddressingMode::ZeroPage | AddressingMode::ZeroPage_X | AddressingMode::ZeroPage_Y
            | AddressingMode::Indirect_X | AddressingMode::Indirect_Y => pc < 0xFFFF,
            AddressingMode::Absolute | AddressingMode::Absolute_X | AddressingMode::Absolute_Y =>
                pc < 0xFFFE,
            AddressingMode::Indirect => {
                if pc >= 0xFFFE {
                    return false;
                }
                let base = self.mem_read_u16(pc);
                let ptr = base & 0xFF00;
                let low = base as u8;
                proof {
                    assert(ptr == (base / 0x100) * 0x100) by (bit_vector)
                        requires
                            ptr == base & 0xFF00,
                    ;
                    assert(low == base % 0x100) by (bit_vector)
                        requires
                            low == base as u8,
                    ;
                }
                base < 0xFFFF && ptr + (low.wrapping_add(1) as u16) < 0xFFFF
            },
            _ => false,
        }
    }

    /// Whether the operand of `mode`, for operand bytes starting at `pc`, is
    /// a memory cell.
    fn operand_in_memory_at(&self, pc: u16, mode: &AddressingMode) -> (ok: bool)
        ensures
            ok == self@.jump(pc).operand_in_memory(*mode),
    {
        self.operand_defined_at(pc, mode) && self.operand_address_at(pc, mode) < 0xFFFF
    }

    /// Whether `step` can run from this state: the opcode byte lies in
    /// memory, it is one the processor executes, and that instruction's
    /// operands lie in memory.
    pub fn can_step(&self) -> (ok: bool)
        ensures
            ok == self@.can_step(),
    {
        if self.program_counter >= 0xFFFF {
            return false;
        }
        let code = self.mem_read(self.program_counter);
        let pc = self.program_counter + 1;
        let opcode = lookup_opcode(code);
        let len_ok = opcode.len >= 1;
        proof {
            assert(self@.fetched() =~= self@.jump(pc));
        }
        match decode_operation(code) {
            None => false,
            Some(op) => match op {
                Operation::Brk => true,
                Operation::Lda | Operation::Ldx | Operation::Ldy | Operation::Sta | Operation::Stx
                | Operation::Sty | Operation::Adc | Operation::Sbc | Operation::And
                | Operation::Ora | Operation::Eor | Operation::Bit | Operation::Cmp
                | Operation::Cpx | Operation::Cpy | Operation::Inc | Operation::Dec => len_ok
                    && self.operand_in_memory_at(pc, &opcode.mode),
                Operation::Asl | Operation::Lsr | Operation::Rol | Operation::Ror => len_ok && (
                match opcode.mode {
                    AddressingMode::Accumulator => true,
                    _ => self.operand_in_memory_at(pc, &opcode.mode),
                }),
                Operation::Bpl | Operation::Bmi | Operation::Bvs | Operation::Bcc
                | Operation::Bcs | Operation::Bne | Operation::Beq => len_ok && pc < 0xFFFF,
                Operation::Jsr => len_ok && self.operand_defined_at(pc, &opcode.mode),
                Operation::Jmp => self.operand_defined_at(pc, &opcode.mode),
                _ => len_ok,
            },
        }
    }

    /// The operand address of `mode` for the instruction whose operand bytes
    /// start at the program counter.
    fn get_operand_address(&self, mode: &AddressingMode) -> (addr: u16)
        requires
            self@.operand_defined(*mode),
        ensures
            addr == self@.operand_address(*mode),
    {
        proof {
            assert(self@.jump(self.program_counter) =~= self@);
        }
        self.operand_address_at(self.program_counter, mode)
    }

    /// The operand address of `mode` for an instruction whose operand bytes
    /// start at `pc`.
    #[verifier::rlimit(50)]
    fn operand_address_at(&self, pc: u16, mode: &AddressingMode) -> (addr: u16)
        requires
            self@.jump(pc).operand_defined(*mode),
        ensures
            addr == self@.jump(pc).operand_address(*mode),
    {
        proof {
            broadcast use vstd::array::group_array_axioms;
            let t = self@.jump(pc);
            assert(t.mem == self@.mem && t.x == self.register_x && t.y == self.register_y && t.pc == pc);
        }
        match mode {
            AddressingMode::Immediate => pc,
            AddressingMode::ZeroPage => self.mem_read(pc) as u16,
            AddressingMode::Absolute => self.mem_read_u16(pc),
            AddressingMode::ZeroPage_X => {
                let pos = self.mem_read(pc);
                pos.wrapping_add(self.register_x) as u16
            },
            AddressingMode::ZeroPage_Y => {
                let pos = self.mem_read(pc);
                pos.wrapping_add(self.register_y) as u16
            },
            AddressingMode::Absolute_X => {
                let base = self.mem_read_u16(pc);
                base.wrapping_add(self.register_x as u16)
            },
            AddressingMode::Absolute_Y => {
                let base = self.mem_read_u16(pc);
                base.wrapping_add(self.register_y as u16)
            },
            AddressingMode::Indirect => {
                let base = self.mem_read_u16(pc);
                let ptr = base & 0xFF00;
                let low = base as u8;
                proof {
                    assert(ptr == (base / 0x100) * 0x100) by (bit_vector)
                        requires
                            ptr == base & 0xFF00,
                    ;
                    assert(low == base % 0x100) by (bit_vector)
                        requires
                            low == base as u8,
                    ;
                }
                let indirect_addr_lo = self.mem_read(base);
                let indirect_addr_hi = self.mem_read(ptr + (low.wrapping_add(1) as u16));
                proof {
                    lemma_word_bits(indirect_addr_lo as u16, indirect_addr_hi as u16);
                }
                (indirect_addr_hi as u16) << 8 | indirect_addr_lo as u16
            },
            AddressingMode::Indirect_X => {
                let base = self.mem_read(pc);
                let ptr: u8 = base.wrapping_add(self.register_x);
                let lo = self.mem_read(ptr as u16);
                let hi = self.mem_read(ptr.wrapping_add(1) as u16);
                proof {
                    lemma_word_bits(lo as u16, hi as u16);
                }
                (hi as u16) << 8 | (lo as u16)
            },
            AddressingMode::Indirect_Y => {
                let base = self.mem_read(pc);
                let lo = self.mem_read(base as u16);
                let hi = self.mem_read(base.wrapping_add(1) as u16);
                proof {
                    lemma_word_bits(lo as u16, hi as u16);
                }
                let deref_base = (hi as u16) << 8 | (lo as u16);
                deref_base.wrapping_add(self.register_y as u16)
            },
            _ => 0,
        }
    }

    /// The byte at `addr`.
    pub fn mem_read(&self, addr: u16) -> (data: u8)
        requires
            in_memory(addr as int),
        ensures
            data == self@.read(addr as int),
    {
        self.memory[addr as usize]
    }

    /// Store `data` at `addr`.
    pub fn mem_write(&mut self, addr: u16, data: u8)
        requires
            in_memory(addr as int),
        ensures
            final(self)@ == old(self)@.write(addr as int, data),
    {
        self.memory[addr as usize] = data;
    }

    /// The little-endian word at `pos` and `pos + 1`.
    pub fn mem_read_u16(&self, pos: u16) -> (data: u16)
        requires
            in_memory(pos + 1),
        ensures
            data == self@.read_word(pos as int),
    {
        let lo = self.mem_read(pos) as u16;
        let hi = self.mem_read(pos + 1) as u16;
        proof {
            lemma_word_bits(lo, hi);
        }
        (hi << 8) | (lo as u16)
    }

    /// Store `data` little-endian at `pos` and `pos + 1`.
    pub fn mem_write_u16(&mut self, pos: u16, data: u16)
        requires
            in_memory(pos + 1),
        ensures
            final(self)@ == old(self)@.write(pos as int, (data as int % 0x100) as u8).write(
                pos + 1,
                (data as int / 0x100) as u8,
            ),
    {
        let hi = (data >> 8) as u8;
        let lo = (data & 0xff) as u8;
        proof {
            lemma_word_split(data);
        }
        self.mem_write(pos, lo);
        self.mem_write(pos + 1, hi);
    }
}

} // verus!
