use emu6502::bus_interface::{BusInterface, FlatMemory};
use emu6502::nmos6502::Nmos6502;
use emu6502::processor_status::ProcessorStatus;

const C: u8 = 0x01;
const Z: u8 = 0x02;
const I: u8 = 0x04;
const B: u8 = 0x10;
const U: u8 = 0x20;
const V: u8 = 0x40;
const N: u8 = 0x80;

fn machine(start: u16, program: &[u8]) -> (Nmos6502, FlatMemory) {
    let mut mem = FlatMemory::new();
    mem.load(start, &program.to_vec());
    let mut cpu = Nmos6502::new();
    cpu.set_pc(start);
    (cpu, mem)
}

fn run(cpu: &mut Nmos6502, mem: &mut FlatMemory, ticks: usize) {
    for _ in 0..ticks {
        cpu.tick(mem);
    }
}

#[test]
fn new_cpu_registers() {
    let cpu = Nmos6502::new();
    assert_eq!(cpu.get_pc(), 0);
    assert_eq!(cpu.get_a(), 0);
    assert_eq!(cpu.get_x(), 0);
    assert_eq!(cpu.get_y(), 0);
    assert_eq!(cpu.get_stack_pointer(), 0xFF);
    assert_eq!(cpu.get_status(), 0b0011_0000);
    assert!(!cpu.irq && !cpu.nmi && !cpu.halted);
}

#[test]
fn reset_loads_vector() {
    let mut mem = FlatMemory::new();
    mem.load(0xFFFC, &vec![0x34, 0x12]);
    let mut cpu = Nmos6502::new();
    cpu.reset(&mut mem);
    assert_eq!(cpu.get_pc(), 0x1234);
    assert_eq!(cpu.get_stack_pointer(), 0xFF);
    assert_eq!(cpu.get_status(), 0x30);
}

#[test]
fn lda_immediate_zero_flag() {
    let (mut cpu, mut mem) = machine(0x0000, &[0xA9, 0x00]);
    cpu.tick(&mut mem);
    assert_eq!(cpu.get_a(), 0);
    assert_ne!(cpu.get_status() & Z, 0);
    assert_eq!(cpu.get_status() & N, 0);
    assert_eq!(cpu.get_pc(), 0x0002);
    assert_eq!(cpu.last_pc_cycles, 2);
    assert_eq!(cpu.get_opcode(), 0xA9);
}

#[test]
fn adc_with_overflow() {
    // LDA #$50; CLC; CLD; ADC #$50
    let (mut cpu, mut mem) = machine(0x0000, &[0xA9, 0x50, 0x18, 0xD8, 0x69, 0x50]);
    run(&mut cpu, &mut mem, 4);
    assert_eq!(cpu.get_a(), 0xA0);
    let p = cpu.get_status();
    assert_ne!(p & V, 0);
    assert_ne!(p & N, 0);
    assert_eq!(p & C, 0);
    assert_eq!(p & Z, 0);
}

#[test]
fn sbc_binary() {
    // At $0200: LDA #$50; SEC; CLD; JMP $0000. At $0000: SBC #$F0.
    let (mut cpu, mut mem) = machine(0x0200, &[0xA9, 0x50, 0x38, 0xD8, 0x4C, 0x00, 0x00]);
    mem.load(0x0000, &vec![0xE9, 0xF0]);
    run(&mut cpu, &mut mem, 5);
    assert_eq!(cpu.get_pc(), 0x0002);
    assert_eq!(cpu.get_a(), 0x60);
    let p = cpu.get_status();
    assert_eq!(p & C, 0);
    // 0x50 - 0xF0 is 80 - (-16) = 96: no signed overflow, as ADC of 0x0F gives.
    assert_eq!(p & V, 0);
}

#[test]
fn jsr_rts_round_trip() {
    let (mut cpu, mut mem) = machine(0x0600, &[0x20, 0x09, 0x06]);
    mem.load(0x0609, &vec![0x60]);
    cpu.tick(&mut mem);
    assert_eq!(cpu.get_pc(), 0x0609);
    assert_eq!(cpu.get_stack_pointer(), 0xFD);
    assert_eq!(mem.get_byte_at(0x01FE), 0x02);
    assert_eq!(mem.get_byte_at(0x01FF), 0x06);
    cpu.tick(&mut mem);
    assert_eq!(cpu.get_pc(), 0x0603);
    assert_eq!(cpu.get_stack_pointer(), 0xFF);
}

#[test]
fn irq_masked_and_serviced() {
    // SEI; NOP; CLI; NOP
    let (mut cpu, mut mem) = machine(0x0000, &[0x78, 0xEA, 0x58, 0xEA]);
    mem.load(0xFFFE, &vec![0x00, 0x80]);
    cpu.tick(&mut mem);
    cpu.irq = true;
    cpu.tick(&mut mem);
    assert_eq!(cpu.get_pc(), 0x0002);
    cpu.tick(&mut mem);
    assert_eq!(cpu.get_pc(), 0x0003);
    assert_eq!(cpu.get_status() & I, 0);
    cpu.tick(&mut mem);
    assert_eq!(cpu.get_pc(), 0x8000);
    assert_eq!(cpu.get_stack_pointer(), 0xFC);
    assert_eq!(mem.get_byte_at(0x01FF), 0x00);
    assert_eq!(mem.get_byte_at(0x01FE), 0x03);
    let pushed = mem.get_byte_at(0x01FD);
    assert_eq!(pushed & B, 0);
    assert_ne!(pushed & U, 0);
    assert_ne!(cpu.get_status() & I, 0);
}

#[test]
fn nmi_has_priority_over_irq() {
    let (mut cpu, mut mem) = machine(0x0400, &[0xEA]);
    mem.load(0xFFFA, &vec![0x00, 0x90, 0x00, 0x00, 0x00, 0x80]);
    cpu.nmi = true;
    cpu.irq = true;
    cpu.tick(&mut mem);
    assert_eq!(cpu.get_pc(), 0x9000);
    assert!(cpu.irq);
    let pushed = mem.get_byte_at(0x01FD);
    assert_eq!(pushed & B, 0);
    assert_ne!(pushed & U, 0);
}

#[test]
fn zero_neg_update_on_every_byte() {
    for v in 0..=255u8 {
        let mut p = ProcessorStatus::from(0b0110_1101);
        p.update_zero_neg_flags(v);
        assert_eq!(p.zero(), v == 0);
        assert_eq!(p.negative(), v & 0x80 != 0);
        assert_eq!(p.as_byte() & 0x7D, 0b0110_1101 & 0x7D);
        let once = p.as_byte();
        p.update_zero_neg_flags(v);
        assert_eq!(p.as_byte(), once);
    }
}

#[test]
fn compare_sets_flags() {
    let mut p = ProcessorStatus::from(0);
    p.update_flags_with_compare(0x40, 0x40);
    assert!(p.zero() && p.carry() && !p.negative());
    p.update_flags_with_compare(0x41, 0x40);
    assert!(!p.zero() && p.carry() && !p.negative());
    p.update_flags_with_compare(0x40, 0x41);
    assert!(!p.zero() && !p.carry() && p.negative());
    p.update_flags_with_compare(0x10, 0xF0);
    assert!(!p.zero() && !p.carry() && !p.negative());
}

#[test]
fn flag_setters_and_clearers() {
    let mut p = ProcessorStatus::from(0);
    p.set_carry();
    p.set_interrupt_disable();
    p.set_decimal();
    p.set_overflow();
    assert_eq!(p.as_byte(), 0x4D);
    assert!(p.carry() && p.interrupt_disable() && p.decimal() && p.overflow());
    p.clr_carry();
    p.clr_interrupt_disable();
    p.clr_decimal();
    p.clr_overflow();
    assert_eq!(p.as_byte(), 0);
    p.set_zero();
    p.set_negative();
    assert_eq!(p.as_byte(), 0x82);
    p.clr_zero();
    p.clr_negative();
    assert_eq!(p.as_byte(), 0);
}

#[test]
fn adc_binary_nine_bit_sum() {
    // SEC; LDA #$FF; ADC #$01
    let (mut cpu, mut mem) = machine(0x0000, &[0x38, 0xA9, 0xFF, 0x69, 0x01]);
    run(&mut cpu, &mut mem, 3);
    assert_eq!(cpu.get_a(), 0x01);
    assert_ne!(cpu.get_status() & C, 0);
    // CLC; LDA #$12; ADC #$34
    let (mut cpu, mut mem) = machine(0x0000, &[0x18, 0xA9, 0x12, 0x69, 0x34]);
    run(&mut cpu, &mut mem, 3);
    assert_eq!(cpu.get_a(), 0x46);
    assert_eq!(cpu.get_status() & (C | V | Z | N), 0);
}

#[test]
fn sbc_matches_adc_of_complement() {
    for &(a, v, carry) in &[(0x50u8, 0xF0u8, true), (0x00, 0x01, true), (0x80, 0x01, false), (0x33, 0x33, true)] {
        let sec = if carry { 0x38 } else { 0x18 };
        let (mut c1, mut m1) = machine(0x0000, &[sec, 0xA9, a, 0xE9, v]);
        run(&mut c1, &mut m1, 3);
        let (mut c2, mut m2) = machine(0x0000, &[sec, 0xA9, a, 0x69, !v]);
        run(&mut c2, &mut m2, 3);
        assert_eq!(c1.get_a(), c2.get_a());
        assert_eq!(c1.get_status(), c2.get_status());
        let borrow = if carry { 0 } else { 1 };
        assert_eq!(c1.get_a(), a.wrapping_sub(v).wrapping_sub(borrow));
    }
}

#[test]
fn adc_decimal() {
    // SED; CLC; LDA #$15; ADC #$27
    let (mut cpu, mut mem) = machine(0x0000, &[0xF8, 0x18, 0xA9, 0x15, 0x69, 0x27]);
    run(&mut cpu, &mut mem, 4);
    assert_eq!(cpu.get_a(), 0x42);
    assert_eq!(cpu.get_status() & C, 0);
    // SED; CLC; LDA #$99; ADC #$01
    let (mut cpu, mut mem) = machine(0x0000, &[0xF8, 0x18, 0xA9, 0x99, 0x69, 0x01]);
    run(&mut cpu, &mut mem, 4);
    assert_eq!(cpu.get_a(), 0x00);
    assert_ne!(cpu.get_status() & C, 0);
    assert_ne!(cpu.get_status() & Z, 0);
}

#[test]
fn sbc_decimal() {
    // SED; SEC; LDA #$42; SBC #$15
    let (mut cpu, mut mem) = machine(0x0000, &[0xF8, 0x38, 0xA9, 0x42, 0xE9, 0x15]);
    run(&mut cpu, &mut mem, 4);
    assert_eq!(cpu.get_a(), 0x27);
    assert_ne!(cpu.get_status() & C, 0);
    // SED; SEC; LDA #$10; SBC #$20
    let (mut cpu, mut mem) = machine(0x0000, &[0xF8, 0x38, 0xA9, 0x10, 0xE9, 0x20]);
    run(&mut cpu, &mut mem, 4);
    assert_eq!(cpu.get_a(), 0x90);
    assert_eq!(cpu.get_status() & C, 0);
}

#[test]
fn rol_then_ror_restores_value_and_carry() {
    for &v in &[0x00u8, 0x01, 0x80, 0xA5, 0xFF] {
        for &sec in &[0x18u8, 0x38] {
            // SEC or CLC; LDA #v; ROL A; ROR A
            let (mut cpu, mut mem) = machine(0x0000, &[sec, 0xA9, v, 0x2A, 0x6A]);
            run(&mut cpu, &mut mem, 4);
            assert_eq!(cpu.get_a(), v);
            assert_eq!(cpu.get_status() & C, if sec == 0x38 { C } else { 0 });
        }
    }
}

#[test]
fn shifts_on_memory() {
    // LDA #$81; STA $10; ASL $10; LSR $10
    let (mut cpu, mut mem) = machine(0x0200, &[0xA9, 0x81, 0x85, 0x10, 0x06, 0x10]);
    run(&mut cpu, &mut mem, 3);
    assert_eq!(mem.get_byte_at(0x0010), 0x02);
    assert_ne!(cpu.get_status() & C, 0);
    assert_eq!(cpu.last_pc_cycles, 5);
    mem.load(0x0206, &vec![0x46, 0x10]);
    cpu.tick(&mut mem);
    assert_eq!(mem.get_byte_at(0x0010), 0x01);
    assert_eq!(cpu.get_status() & C, 0);
}

#[test]
fn push_then_pull_restores_byte_and_sp() {
    // LDA #$C3; PHA; LDA #$00; PLA
    let (mut cpu, mut mem) = machine(0x0000, &[0xA9, 0xC3, 0x48, 0xA9, 0x00, 0x68]);
    run(&mut cpu, &mut mem, 2);
    assert_eq!(cpu.get_stack_pointer(), 0xFE);
    assert_eq!(mem.get_byte_at(0x01FF), 0xC3);
    run(&mut cpu, &mut mem, 2);
    assert_eq!(cpu.get_a(), 0xC3);
    assert_eq!(cpu.get_stack_pointer(), 0xFF);
    assert_ne!(cpu.get_status() & N, 0);
}

#[test]
fn stack_pointer_wraps_in_page_one() {
    // LDX #$00; TXS; PHA
    let (mut cpu, mut mem) = machine(0x0000, &[0xA2, 0x00, 0x9A, 0xA9, 0x77, 0x48]);
    run(&mut cpu, &mut mem, 4);
    assert_eq!(mem.get_byte_at(0x0100), 0x77);
    assert_eq!(cpu.get_stack_pointer(), 0xFF);
}

#[test]
fn php_and_brk_push_bit5() {
    // CLC; PHP
    let (mut cpu, mut mem) = machine(0x0000, &[0x18, 0x08]);
    run(&mut cpu, &mut mem, 2);
    assert_eq!(mem.get_byte_at(0x01FF) & (B | U), B | U);
    // BRK at $0300
    let (mut cpu, mut mem) = machine(0x0300, &[0x00, 0xEA]);
    mem.load(0xFFFE, &vec![0x00, 0x40]);
    cpu.tick(&mut mem);
    assert_eq!(cpu.get_pc(), 0x4000);
    assert_eq!(mem.get_byte_at(0x01FF), 0x03);
    assert_eq!(mem.get_byte_at(0x01FE), 0x02);
    assert_eq!(mem.get_byte_at(0x01FD) & (B | U), B | U);
    assert_ne!(cpu.get_status() & I, 0);
    assert_eq!(cpu.last_pc_cycles, 7);
    assert!(cpu.break_flag_ext_debug);
}

#[test]
fn plp_keeps_bits_four_and_five() {
    // LDA #$00; PHA; PLP
    let (mut cpu, mut mem) = machine(0x0000, &[0xA9, 0x00, 0x48, 0x28]);
    run(&mut cpu, &mut mem, 3);
    assert_eq!(cpu.get_status(), 0x30);
    // LDA #$FF; PHA; PLP
    let (mut cpu, mut mem) = machine(0x0000, &[0xA9, 0xFF, 0x48, 0x28]);
    run(&mut cpu, &mut mem, 3);
    assert_eq!(cpu.get_status(), 0xFF);
}

#[test]
fn rti_returns_from_brk() {
    let (mut cpu, mut mem) = machine(0x0300, &[0x38, 0x00, 0xEA, 0xEA]);
    mem.load(0xFFFE, &vec![0x00, 0x40]);
    mem.load(0x4000, &vec![0x18, 0x40]);
    run(&mut cpu, &mut mem, 4);
    assert_eq!(cpu.get_pc(), 0x0303);
    assert_eq!(cpu.get_stack_pointer(), 0xFF);
    assert_ne!(cpu.get_status() & C, 0);
    assert_eq!(cpu.get_status() & I, 0);
}

#[test]
fn branch_taken_adds_cycle() {
    // LDA #$00; BEQ +4
    let (mut cpu, mut mem) = machine(0x1000, &[0xA9, 0x00, 0xF0, 0x04]);
    run(&mut cpu, &mut mem, 2);
    assert_eq!(cpu.get_pc(), 0x1008);
    assert_eq!(cpu.last_pc_cycles, 3);
    // LDA #$01; BEQ +4 (not taken)
    let (mut cpu, mut mem) = machine(0x1000, &[0xA9, 0x01, 0xF0, 0x04]);
    run(&mut cpu, &mut mem, 2);
    assert_eq!(cpu.get_pc(), 0x1004);
    assert_eq!(cpu.last_pc_cycles, 2);
    // BNE -4 from $1002 after LDX #$01
    let (mut cpu, mut mem) = machine(0x1000, &[0xA2, 0x01, 0xD0, 0xFC]);
    run(&mut cpu, &mut mem, 2);
    assert_eq!(cpu.get_pc(), 0x1000);
}

#[test]
fn absolute_indexed_page_penalty() {
    // LDX #$20; LDA $10F0,X
    let (mut cpu, mut mem) = machine(0x0000, &[0xA2, 0x20, 0xBD, 0xF0, 0x10]);
    mem.load(0x1110, &vec![0x5A]);
    run(&mut cpu, &mut mem, 2);
    assert_eq!(cpu.get_a(), 0x5A);
    assert_eq!(cpu.last_pc_cycles, 4);
    // LDX #$F0; LDA $1020,X: the low byte of the sum is 0x10, plus 0xF0 crosses.
    let (mut cpu, mut mem) = machine(0x0000, &[0xA2, 0xF0, 0xBD, 0x20, 0x10]);
    mem.load(0x1110, &vec![0x5B]);
    run(&mut cpu, &mut mem, 2);
    assert_eq!(cpu.get_a(), 0x5B);
    assert_eq!(cpu.last_pc_cycles, 5);
}

#[test]
fn zero_page_indexed_wraps() {
    // LDX #$10; LDA $F8,X reads $08
    let (mut cpu, mut mem) = machine(0x0200, &[0xA2, 0x10, 0xB5, 0xF8]);
    mem.load(0x0008, &vec![0x99]);
    run(&mut cpu, &mut mem, 2);
    assert_eq!(cpu.get_a(), 0x99);
    assert_eq!(cpu.last_pc_cycles, 5);
}

#[test]
fn indirect_modes() {
    // LDX #$04; LDA ($20,X): pointer at $24/$25
    let (mut cpu, mut mem) = machine(0x0200, &[0xA2, 0x04, 0xA1, 0x20]);
    mem.load(0x0024, &vec![0x00, 0x30]);
    mem.load(0x3000, &vec![0x42]);
    run(&mut cpu, &mut mem, 2);
    assert_eq!(cpu.get_a(), 0x42);
    // LDY #$10; LDA ($40),Y: pointer $3000, plus $10
    let (mut cpu, mut mem) = machine(0x0200, &[0xA0, 0x10, 0xB1, 0x40]);
    mem.load(0x0040, &vec![0x00, 0x30]);
    mem.load(0x3010, &vec![0x24]);
    run(&mut cpu, &mut mem, 2);
    assert_eq!(cpu.get_a(), 0x24);
    assert_eq!(cpu.last_pc_cycles, 5);
    // (zp,X) whose pointer straddles $FF reads its high byte from $00.
    let (mut cpu, mut mem) = machine(0x0200, &[0xA2, 0x00, 0xA1, 0xFF]);
    mem.load(0x00FF, &vec![0x34]);
    mem.load(0x0000, &vec![0x12]);
    mem.load(0x1234, &vec![0x77]);
    run(&mut cpu, &mut mem, 2);
    assert_eq!(cpu.get_a(), 0x77);
}

#[test]
fn jmp_indirect_stays_in_page() {
    let (mut cpu, mut mem) = machine(0x0200, &[0x6C, 0xFF, 0x10]);
    mem.load(0x10FF, &vec![0x00]);
    mem.load(0x1000, &vec![0x50]);
    mem.load(0x1100, &vec![0x60]);
    cpu.tick(&mut mem);
    assert_eq!(cpu.get_pc(), 0x5000);
    assert_eq!(cpu.last_pc_cycles, 5);
}

#[test]
fn bit_test_flags() {
    // LDA #$01; BIT $10 where $10 holds $C0
    let (mut cpu, mut mem) = machine(0x0200, &[0xA9, 0x01, 0x24, 0x10]);
    mem.load(0x0010, &vec![0xC0]);
    run(&mut cpu, &mut mem, 2);
    let p = cpu.get_status();
    assert_ne!(p & N, 0);
    assert_ne!(p & V, 0);
    assert_ne!(p & Z, 0);
    assert_eq!(cpu.get_a(), 0x01);
}

#[test]
fn increments_and_transfers() {
    // LDX #$FF; INX; TXA; TAY; DEY; INC $10; DEC $11
    let (mut cpu, mut mem) =
        machine(0x0200, &[0xA2, 0xFF, 0xE8, 0x8A, 0xA8, 0x88, 0xE6, 0x10, 0xC6, 0x11]);
    run(&mut cpu, &mut mem, 7);
    assert_eq!(cpu.get_x(), 0x00);
    assert_eq!(cpu.get_a(), 0x00);
    assert_eq!(cpu.get_y(), 0xFF);
    assert_eq!(mem.get_byte_at(0x0010), 0x01);
    assert_eq!(mem.get_byte_at(0x0011), 0xFF);
    assert_ne!(cpu.get_status() & N, 0);
}

#[test]
fn stores() {
    // LDA #$11; LDX #$22; LDY #$33; STA $2000; STX $21; STY $2002
    let (mut cpu, mut mem) = machine(
        0x0200,
        &[0xA9, 0x11, 0xA2, 0x22, 0xA0, 0x33, 0x8D, 0x00, 0x20, 0x86, 0x21, 0x8C, 0x02, 0x20],
    );
    run(&mut cpu, &mut mem, 6);
    assert_eq!(mem.get_byte_at(0x2000), 0x11);
    assert_eq!(mem.get_byte_at(0x0021), 0x22);
    assert_eq!(mem.get_byte_at(0x2002), 0x33);
}

#[test]
fn undefined_opcodes_are_no_ops() {
    let (mut cpu, mut mem) = machine(0x0200, &[0x02, 0x80, 0x55, 0xEA]);
    cpu.tick(&mut mem);
    assert_eq!(cpu.get_pc(), 0x0201);
    assert_eq!(cpu.uncaught_opcode_debug, Some(0x02));
    cpu.tick(&mut mem);
    assert_eq!(cpu.get_pc(), 0x0203);
    assert_eq!(cpu.get_a(), 0);
    assert_eq!(cpu.num_instructions_executed_debug, 2);
    assert_eq!(cpu.last_pc_debug, 0x0201);
}

#[test]
fn halted_cpu_does_nothing() {
    let (mut cpu, mut mem) = machine(0x0200, &[0xA9, 0x42]);
    cpu.halted = true;
    cpu.nmi = true;
    cpu.tick(&mut mem);
    assert_eq!(cpu.get_pc(), 0x0200);
    assert_eq!(cpu.get_a(), 0);
    assert_eq!(cpu.get_stack_pointer(), 0xFF);
}

#[test]
fn pipelined_read_wraps() {
    let mut mem = FlatMemory::new();
    mem.load(0xFFFF, &vec![0xAA, 0xBB, 0xCC]);
    assert_eq!(mem.get_pipelined_bytes(0xFFFF), (0xAA, 0xBB, 0xCC));
}
