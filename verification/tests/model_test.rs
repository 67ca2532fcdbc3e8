use mynes::cpu::state::{
    AddressingMode, CPU, FLAG_B, FLAG_CARRY, FLAG_DECIMAL, FLAG_INTERRUPT_DISABLE,
    FLAG_NEGATIVE, FLAG_OVERFLOW, FLAG_ZERO,
};
use mynes::opcodes::{lookup_opcode, OpCode};

#[test]
fn new_cpu_is_cleared() {
    let cpu = CPU::new();
    assert_eq!(cpu.register_a, 0);
    assert_eq!(cpu.register_x, 0);
    assert_eq!(cpu.register_y, 0);
    assert_eq!(cpu.status, 0);
    assert_eq!(cpu.program_counter, 0);
    assert_eq!(cpu.sp, 0xFF);
    assert!(cpu.memory.iter().all(|b| *b == 0));
    assert!(!cpu.halted);
}

#[test]
fn read_after_write_keeps_other_cells() {
    let mut cpu = CPU::new();
    cpu.mem_write(0x1234, 0x56);
    assert_eq!(cpu.mem_read(0x1234), 0x56);
    assert_eq!(cpu.mem_read(0x1235), 0x00);
    cpu.mem_write(0xFFFE, 0x99);
    assert_eq!(cpu.mem_read(0xFFFE), 0x99);
}

#[test]
fn word_read_after_word_write() {
    let mut cpu = CPU::new();
    cpu.mem_write_u16(0x2000, 0xBEEF);
    assert_eq!(cpu.mem_read(0x2000), 0xEF);
    assert_eq!(cpu.mem_read(0x2001), 0xBE);
    assert_eq!(cpu.mem_read_u16(0x2000), 0xBEEF);
}

#[test]
fn stack_push_wraps_below_zero() {
    let mut cpu = CPU::new();
    cpu.sp = 0x00;
    cpu.stack_push(0x42);
    assert_eq!(cpu.sp, 0xFF);
    assert_eq!(cpu.mem_read(0x0100), 0x42);
    assert_eq!(cpu.stack_pop(), 0x42);
    assert_eq!(cpu.sp, 0x00);
}

#[test]
fn stack_top_is_in_page_one() {
    let mut cpu = CPU::new();
    cpu.sp = 0x00;
    assert_eq!(cpu.stack_top(), 0x0100);
    cpu.sp = 0xFF;
    assert_eq!(cpu.stack_top(), 0x01FF);
}

#[test]
fn set_flag_leaves_other_flags() {
    let mut cpu = CPU::new();
    cpu.status = FLAG_NEGATIVE | FLAG_DECIMAL;
    cpu.set_flag(FLAG_OVERFLOW, true);
    assert_eq!(cpu.status, FLAG_NEGATIVE | FLAG_DECIMAL | FLAG_OVERFLOW);
    cpu.set_flag(FLAG_NEGATIVE, false);
    assert_eq!(cpu.status, FLAG_DECIMAL | FLAG_OVERFLOW);
    assert!(!cpu.get_flag(FLAG_NEGATIVE));
    assert!(cpu.get_flag(FLAG_DECIMAL));
}

#[test]
fn update_zero_and_negative_flags_keeps_carry() {
    let mut cpu = CPU::new();
    cpu.status = FLAG_CARRY | FLAG_ZERO;
    cpu.update_zero_and_negative_flags(0x80);
    assert_eq!(cpu.status, FLAG_CARRY | FLAG_NEGATIVE);
    cpu.update_zero_and_negative_flags(0x00);
    assert_eq!(cpu.status, FLAG_CARRY | FLAG_ZERO);
}

#[test]
fn branch_if_wraps_around_address_zero() {
    let mut cpu = CPU::new();
    cpu.program_counter = 0x0005;
    cpu.branch_if(true, -0x10);
    assert_eq!(cpu.program_counter, 0xFFF5);
    cpu.branch_if(true, 0x7F);
    assert_eq!(cpu.program_counter, 0x0074);
}

#[test]
fn advance_pc_skips_operand_bytes() {
    let mut cpu = CPU::new();
    cpu.program_counter = 0xFFFF;
    cpu.advance_pc(&lookup_opcode(0xAD));
    assert_eq!(cpu.program_counter, 0x0001);
    cpu.advance_pc(&lookup_opcode(0xE8));
    assert_eq!(cpu.program_counter, 0x0001);
}

#[test]
fn opcode_table_rows() {
    let lda = lookup_opcode(0xA9);
    assert_eq!(lda.code, 0xA9);
    assert_eq!(lda.mnemonic, "LDA");
    assert_eq!(lda.len, 2);
    assert_eq!(lda.cycles, 2);
    assert_eq!(lda.mode, AddressingMode::Immediate);
    let jmp = lookup_opcode(0x6C);
    assert_eq!(jmp.mnemonic, "JMP");
    assert_eq!(jmp.len, 3);
    assert_eq!(jmp.cycles, 5);
    assert_eq!(jmp.mode, AddressingMode::Indirect);
    let isc = lookup_opcode(0xFF);
    assert_eq!(isc.mnemonic, "ISC");
    assert_eq!(isc.mode, AddressingMode::Absolute_X);
    let brk = lookup_opcode(0x00);
    assert_eq!(brk.mnemonic, "BRK");
    assert_eq!(brk.len, 1);
    assert_eq!(brk.cycles, 7);
    assert_eq!(brk.mode, AddressingMode::NoneAddressing);
}

#[test]
fn opcode_new_keeps_fields() {
    let op = OpCode::new(0x42, "XYZ", 3, 9, AddressingMode::Absolute_Y);
    assert_eq!(op.code, 0x42);
    assert_eq!(op.mnemonic, "XYZ");
    assert_eq!(op.len, 3);
    assert_eq!(op.cycles, 9);
    assert_eq!(op.mode, AddressingMode::Absolute_Y);
}

#[test]
fn adc_signed_overflow_with_negative_operands() {
    let mut cpu = CPU::new();
    cpu.load_and_run(vec![0xa9, 0x80, 0x69, 0xFF, 0x00]);
    assert_eq!(cpu.register_a, 0x7F);
    assert!(cpu.get_flag(FLAG_CARRY));
    assert!(cpu.get_flag(FLAG_OVERFLOW));
    assert!(!cpu.get_flag(FLAG_NEGATIVE));
}

#[test]
fn adc_adds_carry_in() {
    let mut cpu = CPU::new();
    cpu.load_and_run(vec![0x38, 0xa9, 0x10, 0x69, 0x20, 0x00]);
    assert_eq!(cpu.register_a, 0x31);
    assert!(!cpu.get_flag(FLAG_CARRY));
    assert!(!cpu.get_flag(FLAG_OVERFLOW));
}

#[test]
fn sbc_signed_overflow() {
    let mut cpu = CPU::new();
    cpu.load_and_run(vec![0x38, 0xa9, 0x80, 0xe9, 0x01, 0x00]);
    assert_eq!(cpu.register_a, 0x7F);
    assert!(cpu.get_flag(FLAG_CARRY));
    assert!(cpu.get_flag(FLAG_OVERFLOW));
}

#[test]
fn sbc_with_carry_matches_cmp_flags() {
    for &(a, m) in &[(0x10u8, 0x20u8), (0x20, 0x20), (0x90, 0x10), (0x00, 0xFF)] {
        let mut sub = CPU::new();
        sub.load_and_run(vec![0x38, 0xa9, a, 0xe9, m, 0x00]);
        let mut cmp = CPU::new();
        cmp.load_and_run(vec![0xa9, a, 0xc9, m, 0x00]);
        assert_eq!(sub.register_a, a.wrapping_sub(m));
        for flag in [FLAG_CARRY, FLAG_ZERO, FLAG_NEGATIVE] {
            assert_eq!(sub.get_flag(flag), cmp.get_flag(flag));
        }
    }
}

#[test]
fn ror_undoes_rol() {
    for &(value, carry) in &[(0x81u8, true), (0x40, false), (0xFF, false), (0x00, true)] {
        let mut cpu = CPU::new();
        let set_carry = if carry { 0x38 } else { 0x18 };
        cpu.load_and_run(vec![set_carry, 0xa9, value, 0x2a, 0x6a, 0x00]);
        assert_eq!(cpu.register_a, value);
        assert_eq!(cpu.get_flag(FLAG_CARRY), carry);
    }
}

#[test]
fn dex_undoes_inx_across_wrap() {
    let mut cpu = CPU::new();
    cpu.load_and_run(vec![0xa2, 0xff, 0xe8, 0xca, 0xa0, 0x00, 0x88, 0xc8, 0x00]);
    assert_eq!(cpu.register_x, 0xff);
    assert_eq!(cpu.register_y, 0x00);
}

#[test]
fn pha_pla_and_php_plp_restore() {
    let mut cpu = CPU::new();
    cpu.load(vec![0x48, 0x08, 0xa9, 0x00, 0x28, 0x68, 0x00]);
    cpu.reset();
    cpu.register_a = 0x5A;
    cpu.status = FLAG_CARRY | FLAG_B;
    cpu.run();
    assert_eq!(cpu.register_a, 0x5A);
    assert_eq!(cpu.status, FLAG_CARRY | FLAG_B);
    assert_eq!(cpu.sp, 0xFD);
}

#[test]
fn load_then_reset_starts_at_program() {
    let mut cpu = CPU::new();
    cpu.load(vec![0x11, 0x22, 0x33]);
    cpu.reset();
    assert_eq!(cpu.program_counter, 0x8000);
    assert_eq!(cpu.mem_read(0x8000), 0x11);
    assert_eq!(cpu.mem_read(0x8002), 0x33);
    assert_eq!(cpu.mem_read(0xFFFC), 0x00);
    assert_eq!(cpu.mem_read(0xFFFD), 0x80);
    assert_eq!(cpu.sp, 0xFD);
}

#[test]
fn run_stops_right_after_break() {
    let mut cpu = CPU::new();
    cpu.load(vec![0x00]);
    cpu.reset();
    cpu.register_a = 0x12;
    cpu.run();
    assert_eq!(cpu.program_counter, 0x8001);
    assert_eq!(cpu.register_a, 0x12);
    assert_eq!(cpu.sp, 0xFD);
}

#[test]
fn step_reports_break() {
    let mut cpu = CPU::new();
    cpu.load(vec![0xe8, 0x00]);
    cpu.reset();
    assert!(cpu.can_step());
    assert!(cpu.step());
    assert_eq!(cpu.register_x, 1);
    assert!(cpu.can_step());
    assert!(!cpu.step());
    assert_eq!(cpu.program_counter, 0x8002);
}

#[test]
fn can_step_rejects_what_cannot_run() {
    let mut cpu = CPU::new();
    // NOP (0xEA) is not executed by this processor
    cpu.load(vec![0xea]);
    cpu.reset();
    assert!(!cpu.can_step());
    // program counter past the last memory cell
    cpu.program_counter = 0xFFFF;
    assert!(!cpu.can_step());
    // an absolute operand whose high byte would be at 0xFFFF
    cpu.mem_write(0xFFFD, 0xad);
    cpu.program_counter = 0xFFFD;
    assert!(!cpu.can_step());
    // an absolute load from 0xFFFF
    cpu.load(vec![0xad, 0xff, 0xff]);
    cpu.reset();
    assert!(!cpu.can_step());
    cpu.load(vec![0xad, 0xfe, 0xff]);
    cpu.reset();
    assert!(cpu.can_step());
}

#[test]
fn instruction_methods_on_operands() {
    let mut cpu = CPU::new();
    cpu.program_counter = 0x0200;
    cpu.mem_write(0x0200, 0x10);
    cpu.mem_write(0x0010, 0x34);
    cpu.mem_write(0x0011, 0x12);
    cpu.mem_write(0x1235, 0x77);
    cpu.register_y = 0x01;
    // LDA (zp),Y
    cpu.lda(&lookup_opcode(0xB1));
    assert_eq!(cpu.register_a, 0x77);
    assert_eq!(cpu.program_counter, 0x0201);
    // STX zp,Y
    cpu.mem_write(0x0201, 0xFF);
    cpu.register_x = 0x3C;
    cpu.stx(&lookup_opcode(0x96));
    assert_eq!(cpu.mem_read(0x0000), 0x3C);
    assert_eq!(cpu.program_counter, 0x0202);
}

#[test]
fn indexed_indirect_wraps_in_zero_page() {
    let mut cpu = CPU::new();
    cpu.program_counter = 0x0300;
    cpu.mem_write(0x0300, 0xFE);
    cpu.register_x = 0x01;
    cpu.mem_write(0x00FF, 0x00);
    cpu.mem_write(0x0000, 0x40);
    cpu.mem_write(0x4000, 0xAB);
    cpu.lda(&lookup_opcode(0xA1));
    assert_eq!(cpu.register_a, 0xAB);
    assert!(cpu.get_flag(FLAG_NEGATIVE));
}

#[test]
fn absolute_x_wraps_past_top() {
    let mut cpu = CPU::new();
    cpu.program_counter = 0x0300;
    cpu.mem_write_u16(0x0300, 0xFFFE);
    cpu.register_x = 0x03;
    cpu.mem_write(0x0001, 0x5C);
    cpu.lda(&lookup_opcode(0xBD));
    assert_eq!(cpu.register_a, 0x5C);
    assert_eq!(cpu.program_counter, 0x0302);
}

#[test]
fn lsr_and_asl_on_accumulator() {
    let mut cpu = CPU::new();
    cpu.register_a = 0x81;
    cpu.lsr(&lookup_opcode(0x4A));
    assert_eq!(cpu.register_a, 0x40);
    assert!(cpu.get_flag(FLAG_CARRY));
    cpu.asl(&lookup_opcode(0x0A));
    assert_eq!(cpu.register_a, 0x80);
    assert!(!cpu.get_flag(FLAG_CARRY));
    assert!(cpu.get_flag(FLAG_NEGATIVE));
}

#[test]
fn txs_sets_zero_and_negative() {
    let mut cpu = CPU::new();
    cpu.register_x = 0x00;
    cpu.txs(&lookup_opcode(0x9A));
    assert_eq!(cpu.sp, 0x00);
    assert!(cpu.get_flag(FLAG_ZERO));
}

#[test]
fn pla_leaves_flags() {
    let mut cpu = CPU::new();
    cpu.stack_push(0x00);
    cpu.status = FLAG_NEGATIVE;
    cpu.pla(&lookup_opcode(0x68));
    assert_eq!(cpu.register_a, 0x00);
    assert_eq!(cpu.status, FLAG_NEGATIVE);
}

#[test]
fn display_with_every_flag_set() {
    let mut cpu = CPU::new();
    cpu.program_counter = 0x00AB;
    cpu.register_a = 0xFF;
    cpu.status = 0xFF;
    assert_eq!(
        cpu.to_string(),
        "PC=0x00AB  A=0xFF  X=0x00  Y=0x00  SP=0xFF  STATUS=[NV-BDIZC]"
    );
    cpu.status = FLAG_INTERRUPT_DISABLE | FLAG_CARRY;
    assert_eq!(
        cpu.to_string(),
        "PC=0x00AB  A=0xFF  X=0x00  Y=0x00  SP=0xFF  STATUS=[-----I-C]"
    );
}

#[test]
fn every_opcode_row_is_consistent() {
    for code in 0..=255u8 {
        let op = lookup_opcode(code);
        assert_eq!(op.code, code);
        let expected = match op.mode {
            AddressingMode::Accumulator | AddressingMode::NoneAddressing => 1,
            AddressingMode::Absolute
            | AddressingMode::Absolute_X
            | AddressingMode::Absolute_Y
            | AddressingMode::Indirect => 3,
            _ => 2,
        };
        assert_eq!(op.len, expected);
    }
}

#[test]
fn running_twice_gives_the_same_state() {
    let program = vec![0xa2, 0x05, 0xca, 0xd0, 0xfd, 0xa9, 0x33, 0x00];
    let mut first = CPU::new();
    first.load_and_run(program.clone());
    let mut second = CPU::new();
    second.load_and_run(program);
    assert_eq!(first.register_x, 0);
    assert_eq!(first.register_a, 0x33);
    assert_eq!(first.to_string(), second.to_string());
    assert!(first.memory.iter().eq(second.memory.iter()));
}

#[test]
fn jsr_then_rts_returns_after_the_call() {
    let mut cpu = CPU::new();
    cpu.load(vec![0x20, 0x04, 0x80, 0x00, 0x60]);
    cpu.reset();
    assert!(cpu.step());
    assert_eq!(cpu.program_counter, 0x8004);
    assert_eq!(cpu.sp, 0xFB);
    assert!(cpu.step());
    assert_eq!(cpu.program_counter, 0x8003);
    assert_eq!(cpu.sp, 0xFD);
}

#[test]
fn load_keeps_other_memory() {
    let mut cpu = CPU::new();
    cpu.mem_write(0x7FFF, 0x11);
    cpu.mem_write(0x8003, 0x22);
    cpu.mem_write(0xFFFE, 0x33);
    cpu.load(vec![0x01, 0x02, 0x03]);
    assert_eq!(cpu.mem_read(0x7FFF), 0x11);
    assert_eq!(cpu.mem_read(0x8003), 0x22);
    assert_eq!(cpu.mem_read(0xFFFE), 0x33);
    assert_eq!(cpu.mem_read(0x8001), 0x02);
}

#[test]
fn reading_instructions_leave_memory() {
    let program = vec![0xa9, 0x10, 0x69, 0x05, 0xc9, 0x15, 0xf0, 0x00, 0xaa, 0x00];
    let mut cpu = CPU::new();
    cpu.load(program);
    let before: Vec<u8> = cpu.memory.to_vec();
    cpu.reset();
    cpu.run();
    assert_eq!(cpu.register_x, 0x15);
    assert!(cpu.memory.iter().eq(before.iter()));
}
