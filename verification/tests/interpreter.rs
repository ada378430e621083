use mos6502::cpu::Cpu;
use mos6502::model::StepResult;

fn load_program(cpu: &mut Cpu, start: u16, bytes: &[u8]) {
    cpu.write(0xFFFC, (start & 0x00FF) as u8);
    cpu.write(0xFFFD, (start >> 8) as u8);
    for (i, b) in bytes.iter().enumerate() {
        cpu.write(start.wrapping_add(i as u16), *b);
    }
}

fn run_to_halt(cpu: &mut Cpu) {
    for _ in 0..1000 {
        match cpu.step() {
            StepResult::Continue => {}
            StepResult::Halt => return,
            StepResult::Fault { opcode, addr } => {
                panic!("unexpected fault: opcode {:02X} at {:04X}", opcode, addr)
            }
        }
    }
    panic!("program did not halt");
}

#[test]
fn test_set_zn_zero_sets_zero_flag_only() {
    let mut cpu = Cpu::new();
    cpu.p = 0x55;
    cpu.set_zn(0x00);
    assert_eq!(cpu.p, 0x57);
    assert_ne!(cpu.p & 0x02, 0);
    assert_eq!(cpu.p & 0x80, 0);
}

#[test]
fn test_set_zn_negative_sets_negative_flag_only() {
    let mut cpu = Cpu::new();
    cpu.p = 0x24;
    cpu.set_zn(0x80);
    assert_eq!(cpu.p, 0xA4);
    assert_eq!(cpu.p & 0x02, 0);
    assert_ne!(cpu.p & 0x80, 0);
}

#[test]
fn test_set_zn_plain_value_clears_both_flags() {
    let mut cpu = Cpu::new();
    cpu.p = 0xFF;
    cpu.set_zn(0x10);
    assert_eq!(cpu.p, 0x7D);
}

#[test]
fn test_set_zn_leaves_other_status_bits() {
    let mut cpu = Cpu::new();
    cpu.p = 0x6D;
    cpu.set_zn(0x01);
    assert_eq!(cpu.p & 0x7D, 0x6D & 0x7D);
    cpu.set_zn(0x00);
    assert_eq!(cpu.p & 0x7D, 0x6D & 0x7D);
}

#[test]
fn test_inx_wraps_ff_to_zero() {
    let mut cpu = Cpu::new();
    load_program(&mut cpu, 0x8000, &[0xA2, 0xFF, 0xE8, 0x00]);
    cpu.reset();
    run_to_halt(&mut cpu);
    assert_eq!(cpu.x, 0x00);
    assert_ne!(cpu.p & 0x02, 0);
    assert_eq!(cpu.p & 0x80, 0);
}

#[test]
fn test_dex_wraps_zero_to_ff() {
    let mut cpu = Cpu::new();
    load_program(&mut cpu, 0x8000, &[0xA2, 0x00, 0xCA, 0x00]);
    cpu.reset();
    run_to_halt(&mut cpu);
    assert_eq!(cpu.x, 0xFF);
    assert_eq!(cpu.p & 0x02, 0);
    assert_ne!(cpu.p & 0x80, 0);
}

#[test]
fn test_iny_wraps_ff_to_zero() {
    let mut cpu = Cpu::new();
    load_program(&mut cpu, 0x8000, &[0xA0, 0xFF, 0xC8, 0x00]);
    cpu.reset();
    run_to_halt(&mut cpu);
    assert_eq!(cpu.y, 0x00);
    assert_ne!(cpu.p & 0x02, 0);
    assert_eq!(cpu.p & 0x80, 0);
}

#[test]
fn test_dey_wraps_zero_to_ff() {
    let mut cpu = Cpu::new();
    load_program(&mut cpu, 0x8000, &[0xA0, 0x00, 0x88, 0x00]);
    cpu.reset();
    run_to_halt(&mut cpu);
    assert_eq!(cpu.y, 0xFF);
    assert_eq!(cpu.p & 0x02, 0);
    assert_ne!(cpu.p & 0x80, 0);
}

#[test]
fn test_inx_ordinary_increment() {
    let mut cpu = Cpu::new();
    load_program(&mut cpu, 0x8000, &[0xA2, 0x41, 0xE8, 0x00]);
    cpu.reset();
    run_to_halt(&mut cpu);
    assert_eq!(cpu.x, 0x42);
    assert_eq!(cpu.p & 0x02, 0);
    assert_eq!(cpu.p & 0x80, 0);
}

#[test]
fn test_push_pop_word_round_trip() {
    let mut cpu = Cpu::new();
    let sp_before = cpu.sp;
    cpu.push_word(0xBEEF);
    assert_eq!(cpu.pop_word(), 0xBEEF);
    assert_eq!(cpu.sp, sp_before);
}

#[test]
fn test_push_pop_word_extreme_values() {
    let mut cpu = Cpu::new();
    for v in [0x0000u16, 0x00FF, 0xFF00, 0xFFFF, 0x8001] {
        let sp_before = cpu.sp;
        cpu.push_word(v);
        assert_eq!(cpu.pop_word(), v);
        assert_eq!(cpu.sp, sp_before);
    }
}

#[test]
fn test_push_pop_word_wraps_stack_pointer() {
    let mut cpu = Cpu::new();
    cpu.sp = 0x00;
    cpu.push_word(0x1234);
    assert_eq!(cpu.sp, 0xFE);
    assert_eq!(cpu.pop_word(), 0x1234);
    assert_eq!(cpu.sp, 0x00);
}

#[test]
fn test_push_byte_writes_stack_page() {
    let mut cpu = Cpu::new();
    assert_eq!(cpu.stack_addr(), 0x01FD);
    cpu.push_byte(0xAB);
    assert_eq!(cpu.read(0x01FD), 0xAB);
    assert_eq!(cpu.sp, 0xFC);
    assert_eq!(cpu.pop_byte(), 0xAB);
    assert_eq!(cpu.sp, 0xFD);
}

#[test]
fn test_stack_pointer_wraps_at_page_bottom() {
    let mut cpu = Cpu::new();
    cpu.sp = 0x00;
    cpu.push_byte(0x7E);
    assert_eq!(cpu.read(0x0100), 0x7E);
    assert_eq!(cpu.sp, 0xFF);
    assert_eq!(cpu.pop_byte(), 0x7E);
    assert_eq!(cpu.sp, 0x00);
}

#[test]
fn test_lda_immediate_scenario() {
    let mut cpu = Cpu::new();
    load_program(&mut cpu, 0x8000, &[0xA9, 0x10, 0x00]);
    cpu.reset();
    assert_eq!(cpu.pc, 0x8000);
    run_to_halt(&mut cpu);
    assert_eq!(cpu.a, 0x10);
    assert_eq!(cpu.p & 0x02, 0);
    assert_eq!(cpu.p & 0x80, 0);
}

#[test]
fn test_lda_zero_sets_zero_flag() {
    let mut cpu = Cpu::new();
    load_program(&mut cpu, 0x8000, &[0xA9, 0x00, 0x00]);
    cpu.reset();
    run_to_halt(&mut cpu);
    assert_eq!(cpu.a, 0x00);
    assert_ne!(cpu.p & 0x02, 0);
    assert_eq!(cpu.p & 0x80, 0);
}

#[test]
fn test_lda_high_bit_sets_negative_flag() {
    let mut cpu = Cpu::new();
    load_program(&mut cpu, 0x8000, &[0xA9, 0x80, 0x00]);
    cpu.reset();
    run_to_halt(&mut cpu);
    assert_eq!(cpu.a, 0x80);
    assert_eq!(cpu.p & 0x02, 0);
    assert_ne!(cpu.p & 0x80, 0);
}

#[test]
fn test_jsr_rts_scenario() {
    let mut cpu = Cpu::new();
    // 0x8000: JSR $9000; LDA #$01; BRK -- 0x9000: LDA #$10; RTS
    load_program(&mut cpu, 0x8000, &[0x20, 0x00, 0x90, 0xA9, 0x01, 0x00]);
    cpu.write(0x9000, 0xA9);
    cpu.write(0x9001, 0x10);
    cpu.write(0x9002, 0x60);
    cpu.reset();
    run_to_halt(&mut cpu);
    assert_eq!(cpu.a, 0x01);
}

#[test]
fn test_jsr_pushes_return_address_and_jumps() {
    let mut cpu = Cpu::new();
    load_program(&mut cpu, 0x8000, &[0x20, 0x00, 0x90]);
    cpu.reset();
    assert_eq!(cpu.step(), StepResult::Continue);
    assert_eq!(cpu.pc, 0x9000);
    assert_eq!(cpu.sp, 0xFB);
    // The pushed return address is 0x8002: the last byte of the call.
    assert_eq!(cpu.read(0x01FD), 0x80);
    assert_eq!(cpu.read(0x01FC), 0x02);
}

#[test]
fn test_rts_resumes_after_call() {
    let mut cpu = Cpu::new();
    load_program(&mut cpu, 0x8000, &[0x20, 0x00, 0x90]);
    cpu.write(0x9000, 0x60);
    cpu.reset();
    assert_eq!(cpu.step(), StepResult::Continue);
    assert_eq!(cpu.step(), StepResult::Continue);
    assert_eq!(cpu.pc, 0x8003);
    assert_eq!(cpu.sp, 0xFD);
}

#[test]
fn test_unknown_opcode_faults_without_mutation() {
    let mut cpu = Cpu::new();
    load_program(&mut cpu, 0x8000, &[0xA9, 0x55, 0xFF]);
    cpu.reset();
    assert_eq!(cpu.step(), StepResult::Continue);
    let (a, x, y, p, sp, pc) = (cpu.a, cpu.x, cpu.y, cpu.p, cpu.sp, cpu.pc);
    let r = cpu.step();
    assert_eq!(r, StepResult::Fault { opcode: 0xFF, addr: 0x8002 });
    assert_eq!(cpu.a, a);
    assert_eq!(cpu.x, x);
    assert_eq!(cpu.y, y);
    assert_eq!(cpu.p, p);
    assert_eq!(cpu.sp, sp);
    assert_eq!(cpu.pc, pc);
}

#[test]
fn test_brk_halts() {
    let mut cpu = Cpu::new();
    load_program(&mut cpu, 0x8000, &[0x00]);
    cpu.reset();
    assert_eq!(cpu.step(), StepResult::Halt);
    assert_eq!(cpu.pc, 0x8001);
}

#[test]
fn test_transfers_copy_registers_and_flags() {
    let mut cpu = Cpu::new();
    // LDA #$42; TAX; TAY; LDA #$00; TXA; BRK
    load_program(&mut cpu, 0x8000, &[0xA9, 0x42, 0xAA, 0xA8, 0xA9, 0x00, 0x8A, 0x00]);
    cpu.reset();
    run_to_halt(&mut cpu);
    assert_eq!(cpu.a, 0x42);
    assert_eq!(cpu.x, 0x42);
    assert_eq!(cpu.y, 0x42);
    assert_eq!(cpu.p & 0x02, 0);
}

#[test]
fn test_tya_transfers_y() {
    let mut cpu = Cpu::new();
    // LDY #$99; TYA; BRK
    load_program(&mut cpu, 0x8000, &[0xA0, 0x99, 0x98, 0x00]);
    cpu.reset();
    run_to_halt(&mut cpu);
    assert_eq!(cpu.a, 0x99);
    assert_ne!(cpu.p & 0x80, 0);
}

#[test]
fn test_fetch_byte_reads_and_advances() {
    let mut cpu = Cpu::new();
    cpu.write(0x1234, 0xAB);
    cpu.pc = 0x1234;
    assert_eq!(cpu.fetch_byte(), 0xAB);
    assert_eq!(cpu.pc, 0x1235);
}

#[test]
fn test_fetch_byte_wraps_program_counter() {
    let mut cpu = Cpu::new();
    cpu.write(0xFFFF, 0x5A);
    cpu.pc = 0xFFFF;
    assert_eq!(cpu.fetch_byte(), 0x5A);
    assert_eq!(cpu.pc, 0x0000);
}

#[test]
fn test_fetch_word_is_little_endian() {
    let mut cpu = Cpu::new();
    cpu.write(0x2000, 0x34);
    cpu.write(0x2001, 0x12);
    cpu.pc = 0x2000;
    assert_eq!(cpu.fetch_word(), 0x1234);
    assert_eq!(cpu.pc, 0x2002);
}

#[test]
fn test_read_word_wraps_at_address_top() {
    let mut cpu = Cpu::new();
    cpu.write(0xFFFF, 0xCD);
    cpu.write(0x0000, 0xAB);
    assert_eq!(cpu.read_word(0xFFFF), 0xABCD);
}

#[test]
fn test_read_write_round_trip() {
    let mut cpu = Cpu::new();
    assert_eq!(cpu.read(0x4000), 0x00);
    cpu.write(0x4000, 0x5C);
    assert_eq!(cpu.read(0x4000), 0x5C);
    assert_eq!(cpu.read(0x4001), 0x00);
}

#[test]
fn test_reset_seeds_state_from_vector() {
    let mut cpu = Cpu::new();
    cpu.a = 0x11;
    cpu.x = 0x22;
    cpu.y = 0x33;
    cpu.p = 0xFF;
    cpu.sp = 0x00;
    cpu.write(0xFFFC, 0xCD);
    cpu.write(0xFFFD, 0xAB);
    cpu.reset();
    assert_eq!(cpu.a, 0x00);
    assert_eq!(cpu.x, 0x00);
    assert_eq!(cpu.y, 0x00);
    assert_eq!(cpu.sp, 0xFD);
    assert_eq!(cpu.p, 0x24);
    assert_eq!(cpu.pc, 0xABCD);
}
