use emulate6502::bus::Bus;
use emulate6502::cpu::CPU;
use emulate6502::devices::mem::Mem;

const C: u8 = 0b0000_0001;
const Z: u8 = 0b0000_0010;
const I: u8 = 0b0000_0100;
const D: u8 = 0b0000_1000;
const B: u8 = 0b0001_0000;
const U: u8 = 0b0010_0000;
const V: u8 = 0b0100_0000;
const N: u8 = 0b1000_0000;

fn boot(program: &[u8]) -> (CPU, Bus) {
    let mut cpu = CPU::default();
    let mut bus: Bus = Bus::default();
    bus.register(0..=0xFFFF, Box::new(Mem::default()));
    let mut addr: u16 = 0x0400;
    for byte in program {
        bus.write(addr, *byte);
        addr += 1;
    }
    bus.write(0xFFFC, 0x00);
    bus.write(0xFFFD, 0x04);
    cpu.reset(&bus);
    (cpu, bus)
}

fn run_steps(program: &[u8], steps: u32) -> (CPU, Bus) {
    let (mut cpu, mut bus) = boot(program);
    cpu.step(&mut bus, steps);
    (cpu, bus)
}

#[test]
fn scenario_load_immediate() {
    let mut cpu = CPU::default();
    let mut bus: Bus = Bus::default();
    bus.register(0..=0xFFFF, Box::new(Mem::default()));
    bus.write(0xFFFC, 0x00);
    bus.write(0xFFFD, 0x00);
    cpu.reset(&bus);
    bus.write(0x0000, 0xA9);
    bus.write(0x0001, 0x69);
    cpu.execute(&mut bus, 2);
    assert_eq!(cpu.read_acc(), 0x69);
}

#[test]
fn scenario_add_wraps_with_carry_and_zero() {
    let mut cpu = CPU::default();
    let mut bus: Bus = Bus::default();
    bus.register(0..=0xFFFF, Box::new(Mem::default()));
    cpu.reset(&bus);
    bus.write(0x0000, 0xA9);
    bus.write(0x0001, 0xFF);
    bus.write(0x0002, 0x69);
    bus.write(0x0003, 0x01);
    cpu.execute(&mut bus, 4);
    assert_eq!(cpu.read_acc(), 0x00);
    assert_eq!(cpu.read_status() & C, C);
    assert_eq!(cpu.read_status() & Z, Z);
    assert_eq!(cpu.read_status() & N, 0);
    assert_eq!(cpu.read_status() & V, 0);
}

#[test]
fn scenario_break_pushes_frame() {
    let mut cpu = CPU::default();
    let mut bus: Bus = Bus::default();
    bus.register(0..=0xFFFF, Box::new(Mem::default()));
    cpu.reset(&bus);
    bus.write(0xFFFE, 0x00);
    bus.write(0xFFFF, 0x02);
    bus.write(0x0000, 0x00);
    bus.write(0x0200, 0xEA);
    cpu.execute(&mut bus, 9);
    assert_eq!(bus.read(0x01FD), 0x00);
    assert_eq!(bus.read(0x01FC), 0x02);
    assert_eq!(bus.read(0x01FB) & B, B);
    assert_eq!(bus.read(0x01FB), 0x24 | B | U);
    assert_eq!(cpu.read_sp(), 0xFA);
    assert_eq!(cpu.read_pc(), 0x0201);
    assert_eq!(cpu.read_status(), 0x24 | B);
}

#[test]
fn scenario_jsr_pushes_address_of_its_last_byte() {
    let mut cpu = CPU::default();
    let mut bus: Bus = Bus::default();
    bus.register(0..=0xFFFF, Box::new(Mem::default()));
    cpu.reset(&bus);
    let before = cpu.read_sp();
    bus.write(0x0000, 0x20);
    bus.write(0x0001, 0x00);
    bus.write(0x0002, 0x02);
    assert_eq!(cpu.execute_instruction(&mut bus), 6);
    assert_eq!(cpu.read_sp(), before.wrapping_sub(2));
    assert_eq!(cpu.read_pc(), 0x0200);
    let hi = bus.read(0x0100 + before as u16) as u16;
    let lo = bus.read(0x0100 + before.wrapping_sub(1) as u16) as u16;
    assert_eq!(hi << 8 | lo, 0x0002);
}

#[test]
fn scenario_indirect_jump_with_fault_wraps_in_page() {
    let (mut cpu, mut bus) = boot(&[0x6C, 0xFF, 0x30]);
    cpu.config.emulate_indirect_jmp_bug = true;
    bus.write(0x30FF, 0x34);
    bus.write(0x3000, 0x12);
    bus.write(0x3100, 0x56);
    cpu.execute_instruction(&mut bus);
    assert_eq!(cpu.read_pc(), 0x1234);
}

#[test]
fn indirect_jump_without_fault_reads_next_byte() {
    let (mut cpu, mut bus) = boot(&[0x6C, 0xFF, 0x30]);
    bus.write(0x30FF, 0x34);
    bus.write(0x3000, 0x12);
    bus.write(0x3100, 0x56);
    cpu.execute_instruction(&mut bus);
    assert_eq!(cpu.read_pc(), 0x5634);
}

#[test]
fn indirect_jump_with_fault_inside_page_reads_next_byte() {
    let (mut cpu, mut bus) = boot(&[0x6C, 0x10, 0x30]);
    cpu.set_jmp_bug(true);
    bus.write(0x3010, 0x34);
    bus.write(0x3011, 0x12);
    cpu.execute_instruction(&mut bus);
    assert_eq!(cpu.read_pc(), 0x1234);
}

#[test]
fn indirect_jump_pointer_at_top_of_memory_wraps() {
    let (mut cpu, mut bus) = boot(&[0x6C, 0xFF, 0xFF]);
    bus.write(0xFFFF, 0x34);
    bus.write(0x0000, 0x12);
    cpu.execute_instruction(&mut bus);
    assert_eq!(cpu.read_pc(), 0x1234);
}

#[test]
fn inx_256_times_returns() {
    for start in [0x00u8, 0x01, 0x7F, 0x80, 0xFF] {
        let (mut cpu, mut bus) = boot(&[0xA2, start, 0xE8, 0x4C, 0x02, 0x04]);
        cpu.step(&mut bus, 1);
        for _ in 0..256 {
            cpu.step(&mut bus, 2);
        }
        assert_eq!(cpu.read_x(), start);
    }
}

#[test]
fn dey_256_times_returns() {
    for start in [0x00u8, 0x01, 0x7F, 0x80, 0xFF] {
        let (mut cpu, mut bus) = boot(&[0xA0, start, 0x88, 0x4C, 0x02, 0x04]);
        cpu.step(&mut bus, 1);
        for _ in 0..256 {
            cpu.step(&mut bus, 2);
        }
        assert_eq!(cpu.read_y(), start);
    }
}

#[test]
fn inc_then_dec_memory_256_times_each_returns() {
    let (mut cpu, mut bus) = boot(&[0xE6, 0x10, 0x4C, 0x00, 0x04]);
    bus.write(0x0010, 0x5A);
    for _ in 0..256 {
        cpu.step(&mut bus, 2);
    }
    assert_eq!(bus.read(0x0010), 0x5A);
    bus.write(0x0400, 0xC6);
    for _ in 0..256 {
        cpu.step(&mut bus, 2);
    }
    assert_eq!(bus.read(0x0010), 0x5A);
}

#[test]
fn inc_does_not_touch_carry() {
    // SEC; INC 0x10 with 0xFF there
    let (mut cpu, mut bus) = boot(&[0x38, 0xE6, 0x10, 0x18, 0xE6, 0x10]);
    bus.write(0x0010, 0xFF);
    cpu.step(&mut bus, 2);
    assert_eq!(bus.read(0x0010), 0x00);
    assert_eq!(cpu.read_status() & C, C);
    assert_eq!(cpu.read_status() & Z, Z);
    cpu.step(&mut bus, 2);
    assert_eq!(bus.read(0x0010), 0x01);
    assert_eq!(cpu.read_status() & C, 0);
    assert_eq!(cpu.read_status() & Z, 0);
}

#[test]
fn dex_wraps_below_zero() {
    let (cpu, _bus) = run_steps(&[0xCA], 1);
    assert_eq!(cpu.read_x(), 0xFF);
    assert_eq!(cpu.read_status() & N, N);
    assert_eq!(cpu.read_status() & Z, 0);
}

#[test]
fn adc_uses_carry_in() {
    // SEC; LDA #0x10; ADC #0x05
    let (cpu, _bus) = run_steps(&[0x38, 0xA9, 0x10, 0x69, 0x05], 3);
    assert_eq!(cpu.read_acc(), 0x16);
    assert_eq!(cpu.read_status() & C, 0);
}

#[test]
fn adc_signed_overflow() {
    // 0x50 + 0x50 = 0xA0: two positives give a negative
    let (cpu, _bus) = run_steps(&[0xA9, 0x50, 0x69, 0x50], 2);
    assert_eq!(cpu.read_acc(), 0xA0);
    assert_eq!(cpu.read_status() & V, V);
    assert_eq!(cpu.read_status() & N, N);
    assert_eq!(cpu.read_status() & C, 0);
    // 0xD0 + 0x90 = 0x160: two negatives give a positive, with carry
    let (cpu, _bus) = run_steps(&[0xA9, 0xD0, 0x69, 0x90], 2);
    assert_eq!(cpu.read_acc(), 0x60);
    assert_eq!(cpu.read_status() & V, V);
    assert_eq!(cpu.read_status() & C, C);
    // 0x50 + 0x90: different signs never overflow
    let (cpu, _bus) = run_steps(&[0xA9, 0x50, 0x69, 0x90], 2);
    assert_eq!(cpu.read_acc(), 0xE0);
    assert_eq!(cpu.read_status() & V, 0);
}

#[test]
fn sbc_without_borrow() {
    // SEC; LDA #0x50; SBC #0x30
    let (cpu, _bus) = run_steps(&[0x38, 0xA9, 0x50, 0xE9, 0x30], 3);
    assert_eq!(cpu.read_acc(), 0x20);
    assert_eq!(cpu.read_status() & C, C);
    assert_eq!(cpu.read_status() & Z, 0);
    assert_eq!(cpu.read_status() & N, 0);
    assert_eq!(cpu.read_status() & V, 0);
}

#[test]
fn sbc_with_carry_clear_takes_one_more() {
    // LDA #0x50; SBC #0x30 with Carry clear
    let (cpu, _bus) = run_steps(&[0xA9, 0x50, 0xE9, 0x30], 2);
    assert_eq!(cpu.read_acc(), 0x1F);
    assert_eq!(cpu.read_status() & C, C);
}

#[test]
fn sbc_borrows_below_zero() {
    // SEC; LDA #0x30; SBC #0x50
    let (cpu, _bus) = run_steps(&[0x38, 0xA9, 0x30, 0xE9, 0x50], 3);
    assert_eq!(cpu.read_acc(), 0xE0);
    assert_eq!(cpu.read_status() & C, 0);
    assert_eq!(cpu.read_status() & N, N);
    assert_eq!(cpu.read_status() & V, 0);
}

#[test]
fn sbc_to_zero() {
    let (cpu, _bus) = run_steps(&[0x38, 0xA9, 0x42, 0xE9, 0x42], 3);
    assert_eq!(cpu.read_acc(), 0x00);
    assert_eq!(cpu.read_status() & C, C);
    assert_eq!(cpu.read_status() & Z, Z);
}

#[test]
fn sbc_signed_overflow() {
    // 0x80 - 0x01 = 0x7F: negative minus positive gives positive
    let (cpu, _bus) = run_steps(&[0x38, 0xA9, 0x80, 0xE9, 0x01], 3);
    assert_eq!(cpu.read_acc(), 0x7F);
    assert_eq!(cpu.read_status() & V, V);
    assert_eq!(cpu.read_status() & C, C);
    // 0x80 - 0x00 keeps the carry: no borrow was needed
    let (cpu, _bus) = run_steps(&[0x38, 0xA9, 0x80, 0xE9, 0x00], 3);
    assert_eq!(cpu.read_acc(), 0x80);
    assert_eq!(cpu.read_status() & C, C);
    assert_eq!(cpu.read_status() & V, 0);
}

#[test]
fn asl_shifts_bit_seven_into_carry() {
    let (cpu, _bus) = run_steps(&[0xA9, 0x81, 0x0A], 2);
    assert_eq!(cpu.read_acc(), 0x02);
    assert_eq!(cpu.read_status() & C, C);
    assert_eq!(cpu.read_status() & N, 0);
}

#[test]
fn lsr_shifts_bit_zero_into_carry() {
    let (cpu, _bus) = run_steps(&[0xA9, 0x81, 0x4A], 2);
    assert_eq!(cpu.read_acc(), 0x40);
    assert_eq!(cpu.read_status() & C, C);
    assert_eq!(cpu.read_status() & N, 0);
    let (cpu, _bus) = run_steps(&[0xA9, 0x01, 0x4A], 2);
    assert_eq!(cpu.read_acc(), 0x00);
    assert_eq!(cpu.read_status() & C, C);
    assert_eq!(cpu.read_status() & Z, Z);
}

#[test]
fn lsr_memory() {
    let (mut cpu, mut bus) = boot(&[0x46, 0x10, 0x4E, 0x00, 0x30]);
    bus.write(0x0010, 0x03);
    bus.write(0x3000, 0x80);
    cpu.step(&mut bus, 1);
    assert_eq!(bus.read(0x0010), 0x01);
    assert_eq!(cpu.read_status() & C, C);
    cpu.step(&mut bus, 1);
    assert_eq!(bus.read(0x3000), 0x40);
    assert_eq!(cpu.read_status() & C, 0);
}

#[test]
fn rol_takes_carry_into_bit_zero() {
    // SEC; LDA #0x80; ROL A
    let (cpu, _bus) = run_steps(&[0x38, 0xA9, 0x80, 0x2A], 3);
    assert_eq!(cpu.read_acc(), 0x01);
    assert_eq!(cpu.read_status() & C, C);
    // CLC path: LDA #0x40; ROL A
    let (cpu, _bus) = run_steps(&[0xA9, 0x40, 0x2A], 2);
    assert_eq!(cpu.read_acc(), 0x80);
    assert_eq!(cpu.read_status() & C, 0);
    assert_eq!(cpu.read_status() & N, N);
}

#[test]
fn ror_takes_carry_into_bit_seven() {
    // SEC; LDA #0x01; ROR A
    let (cpu, _bus) = run_steps(&[0x38, 0xA9, 0x01, 0x6A], 3);
    assert_eq!(cpu.read_acc(), 0x80);
    assert_eq!(cpu.read_status() & C, C);
    assert_eq!(cpu.read_status() & N, N);
    let (cpu, _bus) = run_steps(&[0xA9, 0x02, 0x6A], 2);
    assert_eq!(cpu.read_acc(), 0x01);
    assert_eq!(cpu.read_status() & C, 0);
}

#[test]
fn rotate_memory() {
    let (mut cpu, mut bus) = boot(&[0x38, 0x26, 0x10, 0x66, 0x11]);
    bus.write(0x0010, 0x80);
    bus.write(0x0011, 0x00);
    cpu.step(&mut bus, 2);
    assert_eq!(bus.read(0x0010), 0x01);
    assert_eq!(cpu.read_status() & C, C);
    cpu.step(&mut bus, 1);
    assert_eq!(bus.read(0x0011), 0x80);
    assert_eq!(cpu.read_status() & C, 0);
}

#[test]
fn nine_rotations_return_the_byte() {
    let (mut cpu, mut bus) = boot(&[0xA9, 0xB7, 0x2A, 0x4C, 0x02, 0x04]);
    cpu.step(&mut bus, 1);
    for _ in 0..9 {
        cpu.step(&mut bus, 2);
    }
    assert_eq!(cpu.read_acc(), 0xB7);
    assert_eq!(cpu.read_status() & C, 0);
}

#[test]
fn stores_write_registers() {
    let (cpu, bus) = run_steps(
        &[0xA9, 0x11, 0xA2, 0x22, 0xA0, 0x33, 0x85, 0x10, 0x86, 0x11, 0x84, 0x12, 0x8D, 0x00, 0x30],
        7,
    );
    assert_eq!(bus.read(0x0010), 0x11);
    assert_eq!(bus.read(0x0011), 0x22);
    assert_eq!(bus.read(0x0012), 0x33);
    assert_eq!(bus.read(0x3000), 0x11);
    // loads set N and Z, stores leave the status alone
    assert_eq!(cpu.read_status(), 0x24);
}

#[test]
fn indexed_stores() {
    // LDA #0x77; LDX #2; LDY #3; STA 0x10,X; STA 0x3000,X; STA 0x3000,Y; STX 0x20,Y; STY 0x20,X
    let (_cpu, bus) = run_steps(
        &[
            0xA9, 0x77, 0xA2, 0x02, 0xA0, 0x03, 0x95, 0x10, 0x9D, 0x00, 0x30, 0x99, 0x00, 0x30,
            0x96, 0x20, 0x94, 0x20,
        ],
        8,
    );
    assert_eq!(bus.read(0x0012), 0x77);
    assert_eq!(bus.read(0x3002), 0x77);
    assert_eq!(bus.read(0x3003), 0x77);
    assert_eq!(bus.read(0x0023), 0x02);
    assert_eq!(bus.read(0x0022), 0x03);
}

#[test]
fn indirect_stores() {
    let (mut cpu, mut bus) = boot(&[0xA9, 0x5A, 0xA2, 0x04, 0xA0, 0x10, 0x81, 0x20, 0x91, 0x40]);
    bus.write(0x0024, 0x00);
    bus.write(0x0025, 0x30);
    bus.write(0x0040, 0xF8);
    bus.write(0x0041, 0x30);
    cpu.step(&mut bus, 5);
    assert_eq!(bus.read(0x3000), 0x5A);
    assert_eq!(bus.read(0x3108), 0x5A);
}

#[test]
fn zero_page_index_wraps_in_page_zero() {
    // LDX #0xFF; LDA 0x80,X reads 0x007F, not 0x017F
    let (mut cpu, mut bus) = boot(&[0xA2, 0xFF, 0xB5, 0x80]);
    bus.write(0x007F, 0x11);
    bus.write(0x017F, 0x22);
    cpu.step(&mut bus, 2);
    assert_eq!(cpu.read_acc(), 0x11);
}

#[test]
fn absolute_index_wraps_at_top_of_memory() {
    // LDX #2; LDA 0xFFFF,X reads 0x0001
    let (mut cpu, mut bus) = boot(&[0xA2, 0x02, 0xBD, 0xFF, 0xFF]);
    bus.write(0x0001, 0x66);
    cpu.step(&mut bus, 2);
    assert_eq!(cpu.read_acc(), 0x66);
}

#[test]
fn indirect_indexed_pointer_wraps_in_page_zero() {
    // pointer at 0xFF takes its high byte from 0x00
    let (mut cpu, mut bus) = boot(&[0xA0, 0x01, 0xB1, 0xFF]);
    bus.write(0x00FF, 0x00);
    bus.write(0x0000, 0x30);
    bus.write(0x0100, 0x40);
    bus.write(0x3001, 0x99);
    bus.write(0x4001, 0x11);
    cpu.step(&mut bus, 2);
    assert_eq!(cpu.read_acc(), 0x99);
}

#[test]
fn indexed_indirect_pointer_at_end_of_page_zero_reads_on() {
    // (0xFF,X) with X = 0 takes its high byte from 0x0100
    let (mut cpu, mut bus) = boot(&[0xA1, 0xFF]);
    bus.write(0x00FF, 0x00);
    bus.write(0x0000, 0x30);
    bus.write(0x0100, 0x40);
    bus.write(0x3000, 0x99);
    bus.write(0x4000, 0x11);
    cpu.step(&mut bus, 1);
    assert_eq!(cpu.read_acc(), 0x11);
}

#[test]
fn transfers() {
    let (cpu, _bus) = run_steps(&[0xA9, 0x80, 0xAA, 0xA8], 3);
    assert_eq!(cpu.read_x(), 0x80);
    assert_eq!(cpu.read_y(), 0x80);
    assert_eq!(cpu.read_status() & N, N);
    let (cpu, _bus) = run_steps(&[0xA2, 0x00, 0x8A], 2);
    assert_eq!(cpu.read_acc(), 0x00);
    assert_eq!(cpu.read_status() & Z, Z);
    let (cpu, _bus) = run_steps(&[0xA0, 0x17, 0x98], 2);
    assert_eq!(cpu.read_acc(), 0x17);
}

#[test]
fn stack_pointer_transfers() {
    // TSX sets flags from the stack pointer 0xFD
    let (cpu, _bus) = run_steps(&[0xBA], 1);
    assert_eq!(cpu.read_x(), 0xFD);
    assert_eq!(cpu.read_status() & N, N);
    // LDX #0x00 sets Zero; TXS leaves the status alone
    let (cpu, _bus) = run_steps(&[0xA2, 0x00, 0x9A], 2);
    assert_eq!(cpu.read_sp(), 0x00);
    assert_eq!(cpu.read_status() & Z, Z);
    let (cpu, _bus) = run_steps(&[0xA2, 0x80, 0xA9, 0x01, 0x9A], 3);
    assert_eq!(cpu.read_sp(), 0x80);
    assert_eq!(cpu.read_status() & N, 0);
}

#[test]
fn pha_pla_round_trip() {
    let (cpu, bus) = run_steps(&[0xA9, 0x42, 0x48, 0xA9, 0x00, 0x68], 4);
    assert_eq!(cpu.read_acc(), 0x42);
    assert_eq!(cpu.read_sp(), 0xFD);
    assert_eq!(bus.read(0x01FD), 0x42);
    assert_eq!(cpu.read_status() & Z, 0);
}

#[test]
fn pla_sets_zero_and_negative() {
    let (mut cpu, mut bus) = boot(&[0x68, 0x68]);
    bus.write(0x01FE, 0x00);
    bus.write(0x01FF, 0x80);
    cpu.step(&mut bus, 1);
    assert_eq!(cpu.read_status() & Z, Z);
    cpu.step(&mut bus, 1);
    assert_eq!(cpu.read_acc(), 0x80);
    assert_eq!(cpu.read_status() & N, N);
    assert_eq!(cpu.read_sp(), 0xFF);
}

#[test]
fn php_pushes_break_and_unused() {
    let (cpu, bus) = run_steps(&[0x38, 0x08], 2);
    assert_eq!(bus.read(0x01FD), 0x24 | C | B | U);
    assert_eq!(cpu.read_status(), 0x24 | C);
    assert_eq!(cpu.read_sp(), 0xFC);
}

#[test]
fn plp_forces_unused_and_keeps_break() {
    let (mut cpu, mut bus) = boot(&[0x28, 0x28]);
    bus.write(0x01FE, 0x00);
    bus.write(0x01FF, N | V | B | D | C);
    cpu.step(&mut bus, 1);
    assert_eq!(cpu.read_status(), U);
    cpu.step(&mut bus, 1);
    assert_eq!(cpu.read_status(), N | V | B | D | C | U);
}

#[test]
fn stack_wraps_within_its_page() {
    // LDX #0x00; TXS; LDA #0x99; PHA, PHA: 0x0100 then 0x01FF
    let (cpu, bus) = run_steps(&[0xA2, 0x00, 0x9A, 0xA9, 0x99, 0x48, 0x48], 5);
    assert_eq!(bus.read(0x0100), 0x99);
    assert_eq!(bus.read(0x01FF), 0x99);
    assert_eq!(bus.read(0x00FF), 0x00);
    assert_eq!(bus.read(0x0200), 0x00);
    assert_eq!(cpu.read_sp(), 0xFE);
}

#[test]
fn pull_wraps_within_its_page() {
    // LDX #0xFF; TXS; PLA reads 0x0100
    let (mut cpu, mut bus) = boot(&[0xA2, 0xFF, 0x9A, 0x68]);
    bus.write(0x0100, 0x3C);
    bus.write(0x0200, 0x77);
    cpu.step(&mut bus, 3);
    assert_eq!(cpu.read_acc(), 0x3C);
    assert_eq!(cpu.read_sp(), 0x00);
}

#[test]
fn three_hundred_pushes_stay_in_the_stack_page() {
    // LDA #0xEE; PHA; JMP back to the PHA
    let (mut cpu, mut bus) = boot(&[0xA9, 0xEE, 0x48, 0x4C, 0x02, 0x04]);
    cpu.step(&mut bus, 1);
    for _ in 0..300 {
        cpu.step(&mut bus, 2);
    }
    for addr in 0x0100..=0x01FFu16 {
        assert_eq!(bus.read(addr), 0xEE);
    }
    assert_eq!(bus.read(0x00FF), 0x00);
    assert_eq!(bus.read(0x0200), 0x00);
    assert_eq!(cpu.read_sp(), 0xFDu8.wrapping_sub(44));
}

#[test]
fn jsr_then_rts_returns_after_the_call() {
    let (mut cpu, mut bus) = boot(&[0x20, 0x00, 0x30, 0xA9, 0x07]);
    bus.write(0x3000, 0x60);
    cpu.step(&mut bus, 1);
    assert_eq!(cpu.read_pc(), 0x3000);
    assert_eq!(bus.read(0x01FD), 0x04);
    assert_eq!(bus.read(0x01FC), 0x02);
    cpu.step(&mut bus, 1);
    assert_eq!(cpu.read_pc(), 0x0403);
    assert_eq!(cpu.read_sp(), 0xFD);
    cpu.step(&mut bus, 1);
    assert_eq!(cpu.read_acc(), 0x07);
}

#[test]
fn brk_then_rti_returns_past_the_skipped_byte() {
    let (mut cpu, mut bus) = boot(&[0x38, 0x00, 0xFF, 0xA9, 0x07]);
    bus.write(0xFFFE, 0x00);
    bus.write(0xFFFF, 0x30);
    bus.write(0x3000, 0x18);
    bus.write(0x3001, 0x40);
    cpu.step(&mut bus, 2);
    assert_eq!(cpu.read_pc(), 0x3000);
    assert_eq!(cpu.read_status(), 0x24 | C | B);
    cpu.step(&mut bus, 2);
    // the status comes back as pushed, but for Break, which is cleared
    assert_eq!(cpu.read_status(), 0x24 | C);
    assert_eq!(cpu.read_pc(), 0x0403);
    assert_eq!(cpu.read_sp(), 0xFD);
}

#[test]
fn rti_clears_break_and_restores_pc() {
    let (mut cpu, mut bus) = boot(&[0x40]);
    bus.write(0x01FE, 0xFF);
    bus.write(0x01FF, 0x34);
    bus.write(0x0100, 0x12);
    cpu.step(&mut bus, 1);
    assert_eq!(cpu.read_status(), 0xFF & !B);
    assert_eq!(cpu.read_pc(), 0x1234);
    assert_eq!(cpu.read_sp(), 0x00);
}

#[test]
fn flag_instructions() {
    let (cpu, _bus) = run_steps(&[0x38, 0xF8, 0x78], 3);
    assert_eq!(cpu.read_status(), U | I | C | D);
    let (cpu, _bus) = run_steps(&[0x38, 0xF8, 0x18, 0xD8, 0x58], 5);
    assert_eq!(cpu.read_status(), U);
}

#[test]
fn compare_leaves_registers_alone() {
    let (cpu, _bus) = run_steps(
        &[0xA9, 0x10, 0xA2, 0x20, 0xA0, 0x30, 0xC9, 0x20, 0xE0, 0x20, 0xC0, 0x20],
        6,
    );
    assert_eq!(cpu.read_acc(), 0x10);
    assert_eq!(cpu.read_x(), 0x20);
    assert_eq!(cpu.read_y(), 0x30);
    assert_eq!(cpu.read_sp(), 0xFD);
    // the last comparison: Y (0x30) against 0x20
    assert_eq!(cpu.read_status(), 0x24 | C);
}

#[test]
fn compare_negative_is_bit_seven_of_the_difference() {
    // 0x90 - 0x01 = 0x8F: greater, yet Negative
    let (cpu, _bus) = run_steps(&[0xA9, 0x90, 0xC9, 0x01], 2);
    assert_eq!(cpu.read_status() & (C | Z | N), C | N);
    // 0x01 - 0x90 = 0x71: less, and not Negative
    let (cpu, _bus) = run_steps(&[0xA9, 0x01, 0xC9, 0x90], 2);
    assert_eq!(cpu.read_status() & (C | Z | N), 0);
}

#[test]
fn compare_keeps_overflow() {
    // 0x50 + 0x50 sets Overflow; CMP leaves it
    let (cpu, _bus) = run_steps(&[0xA9, 0x50, 0x69, 0x50, 0xC9, 0x00], 3);
    assert_eq!(cpu.read_status() & V, V);
}

#[test]
fn bit_test_mirrors_operand_bits_and_keeps_carry() {
    let (mut cpu, mut bus) = boot(&[0x38, 0xA9, 0x01, 0x24, 0x10, 0x24, 0x11]);
    bus.write(0x0010, 0xC0);
    bus.write(0x0011, 0x01);
    cpu.step(&mut bus, 3);
    assert_eq!(cpu.read_acc(), 0x01);
    assert_eq!(cpu.read_status(), 0x24 | C | Z | V | N);
    cpu.step(&mut bus, 1);
    assert_eq!(cpu.read_acc(), 0x01);
    assert_eq!(cpu.read_status(), 0x24 | C);
}

#[test]
fn logic_operations_keep_carry_and_overflow() {
    // 0xD0 + 0x90 sets Carry and Overflow
    let (cpu, _bus) = run_steps(&[0xA9, 0xD0, 0x69, 0x90, 0x29, 0x0F, 0x09, 0x80, 0x49, 0x80], 5);
    assert_eq!(cpu.read_acc(), 0x00);
    assert_eq!(cpu.read_status(), 0x24 | C | V | Z);
}

#[test]
fn program_counter_wraps_at_top_of_memory() {
    let mut cpu = CPU::default();
    let mut bus: Bus = Bus::default();
    bus.register(0..=0xFFFF, Box::new(Mem::default()));
    bus.write(0xFFFC, 0xFF);
    bus.write(0xFFFD, 0xFF);
    cpu.reset(&bus);
    assert_eq!(cpu.read_pc(), 0xFFFF);
    bus.write(0xFFFF, 0xA9);
    bus.write(0x0000, 0x42);
    cpu.step(&mut bus, 1);
    assert_eq!(cpu.read_acc(), 0x42);
    assert_eq!(cpu.read_pc(), 0x0001);
}

#[test]
fn jsr_at_bottom_of_memory_pushes_wrapped_address() {
    // JSR whose last byte is at 0xFFFF: operand bytes at 0xFFFE, 0xFFFF
    let mut cpu = CPU::default();
    let mut bus: Bus = Bus::default();
    bus.register(0..=0xFFFF, Box::new(Mem::default()));
    bus.write(0xFFFC, 0xFD);
    bus.write(0xFFFD, 0xFF);
    cpu.reset(&bus);
    bus.write(0xFFFD, 0x20);
    bus.write(0xFFFE, 0x00);
    bus.write(0xFFFF, 0x30);
    cpu.step(&mut bus, 1);
    assert_eq!(cpu.read_pc(), 0x3000);
    assert_eq!(bus.read(0x01FD), 0xFF);
    assert_eq!(bus.read(0x01FC), 0xFF);
}

#[test]
fn machine_without_devices_runs_breaks() {
    // every read is 0: BRK after BRK, each taking eight cycles
    let mut cpu = CPU::default();
    let mut bus: Bus = Bus::default();
    cpu.reset(&bus);
    assert_eq!(cpu.read_pc(), 0x0000);
    assert_eq!(cpu.step(&mut bus, 3), 24);
    assert_eq!(cpu.read_pc(), 0x0000);
    assert_eq!(cpu.read_sp(), 0xFDu8.wrapping_sub(9));
}
