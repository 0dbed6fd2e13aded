use emulate6502::bus::Bus;
use emulate6502::cpu::CPU;
use emulate6502::devices::mem::Mem;

fn machine(program: &[u8]) -> (CPU, Bus) {
    let mut cpu = CPU::default();
    let mut bus: Bus = Bus::default();
    bus.register(0..=0xFFFF, Box::new(Mem::default()));
    let mut addr: u16 = 0x0200;
    for byte in program {
        bus.write(addr, *byte);
        addr += 1;
    }
    bus.write(0xFFFC, 0x00);
    bus.write(0xFFFD, 0x02);
    cpu.reset(&bus);
    (cpu, bus)
}

fn cost(program: &[u8]) -> u32 {
    let (mut cpu, mut bus) = machine(program);
    cpu.execute_instruction(&mut bus)
}

/// Cost of the second instruction, after an LDX or LDY immediate that sets the
/// index register.
fn cost_after_index(load: u8, index: u8, program: &[u8]) -> u32 {
    let mut all = vec![load, index];
    all.extend_from_slice(program);
    let (mut cpu, mut bus) = machine(&all);
    assert_eq!(cpu.execute_instruction(&mut bus), 2);
    cpu.execute_instruction(&mut bus)
}

#[test]
fn reset_loads_registers_and_vector() {
    let (cpu, _bus) = machine(&[]);
    assert_eq!(cpu.read_pc(), 0x0200);
    assert_eq!(cpu.read_sp(), 0xFD);
    assert_eq!(cpu.read_status(), 0x24);
    assert_eq!(cpu.read_acc(), 0);
    assert_eq!(cpu.read_x(), 0);
    assert_eq!(cpu.read_y(), 0);
}

#[test]
fn default_registers_are_zero() {
    let cpu = CPU::default();
    assert_eq!(cpu.read_pc(), 0);
    assert_eq!(cpu.read_sp(), 0);
    assert_eq!(cpu.read_status(), 0);
    assert!(!cpu.config.emulate_indirect_jmp_bug);
}

#[test]
fn immediate_costs_two() {
    assert_eq!(cost(&[0xA9, 0x01]), 2);
}

#[test]
fn zero_page_costs_three() {
    assert_eq!(cost(&[0xA5, 0x10]), 3);
}

#[test]
fn zero_page_indexed_costs_four() {
    assert_eq!(cost(&[0xB5, 0x10]), 4);
    assert_eq!(cost(&[0xB6, 0x10]), 4);
}

#[test]
fn absolute_read_costs_four() {
    assert_eq!(cost(&[0xAD, 0x34, 0x12]), 4);
}

#[test]
fn absolute_x_page_cross_costs_one_more() {
    let crossing = cost_after_index(0xA2, 0x01, &[0xBD, 0xFF, 0x10]);
    let staying = cost_after_index(0xA2, 0x01, &[0xBD, 0x00, 0x10]);
    assert_eq!(staying, 4);
    assert_eq!(crossing, 5);
    assert_eq!(crossing, staying + 1);
}

#[test]
fn absolute_y_page_cross_costs_one_more() {
    assert_eq!(cost_after_index(0xA0, 0x01, &[0xB9, 0x00, 0x10]), 4);
    assert_eq!(cost_after_index(0xA0, 0x01, &[0xB9, 0xFF, 0x10]), 5);
}

#[test]
fn indexed_indirect_has_fixed_cost() {
    assert_eq!(cost_after_index(0xA2, 0x05, &[0xA1, 0x10]), 7);
    assert_eq!(cost_after_index(0xA2, 0xFF, &[0xA1, 0x10]), 7);
}

#[test]
fn indirect_indexed_page_cross_costs_one_more() {
    // pointer at 0x20 holds 0x30FF; with Y = 1 the operand is at 0x3100
    let (mut cpu, mut bus) = machine(&[0xA0, 0x01, 0xB1, 0x20, 0xB1, 0x22]);
    bus.write(0x0020, 0xFF);
    bus.write(0x0021, 0x30);
    bus.write(0x0022, 0x00);
    bus.write(0x0023, 0x30);
    bus.write(0x3100, 0x77);
    assert_eq!(cpu.execute_instruction(&mut bus), 2);
    assert_eq!(cpu.execute_instruction(&mut bus), 7);
    assert_eq!(cpu.read_acc(), 0x77);
    assert_eq!(cpu.execute_instruction(&mut bus), 6);
}

#[test]
fn stores_cost_one_less_than_loads_plus_the_write() {
    assert_eq!(cost(&[0x85, 0x10]), 3);
    assert_eq!(cost(&[0x95, 0x10]), 4);
    assert_eq!(cost(&[0x8D, 0x00, 0x30]), 4);
    assert_eq!(cost(&[0x9D, 0x00, 0x30]), 4);
    assert_eq!(cost(&[0x99, 0x00, 0x30]), 4);
    assert_eq!(cost(&[0x81, 0x10]), 7);
    assert_eq!(cost(&[0x91, 0x10]), 6);
    assert_eq!(cost(&[0x86, 0x10]), 3);
    assert_eq!(cost(&[0x96, 0x10]), 4);
    assert_eq!(cost(&[0x8E, 0x00, 0x30]), 4);
    assert_eq!(cost(&[0x84, 0x10]), 3);
    assert_eq!(cost(&[0x94, 0x10]), 4);
    assert_eq!(cost(&[0x8C, 0x00, 0x30]), 4);
}

#[test]
fn read_modify_write_costs() {
    assert_eq!(cost(&[0x0A]), 2);
    assert_eq!(cost(&[0x4A]), 2);
    assert_eq!(cost(&[0x2A]), 2);
    assert_eq!(cost(&[0x6A]), 2);
    assert_eq!(cost(&[0x06, 0x10]), 5);
    assert_eq!(cost(&[0x16, 0x10]), 6);
    assert_eq!(cost(&[0x0E, 0x00, 0x30]), 6);
    assert_eq!(cost(&[0x1E, 0x00, 0x30]), 6);
    assert_eq!(cost(&[0xE6, 0x10]), 5);
    assert_eq!(cost(&[0xCE, 0x00, 0x30]), 6);
    assert_eq!(cost_after_index(0xA2, 0x01, &[0xFE, 0xFF, 0x30]), 7);
}

#[test]
fn logic_and_compare_costs() {
    assert_eq!(cost(&[0x69, 0x01]), 2);
    assert_eq!(cost(&[0xE9, 0x01]), 2);
    assert_eq!(cost(&[0x29, 0x01]), 2);
    assert_eq!(cost(&[0x09, 0x01]), 3);
    assert_eq!(cost(&[0x49, 0x01]), 3);
    assert_eq!(cost(&[0xC9, 0x01]), 3);
    assert_eq!(cost(&[0xE0, 0x01]), 3);
    assert_eq!(cost(&[0xC0, 0x01]), 3);
    assert_eq!(cost(&[0x24, 0x10]), 4);
    assert_eq!(cost(&[0x2C, 0x00, 0x30]), 5);
    assert_eq!(cost(&[0xD1, 0x10]), 7);
    assert_eq!(cost(&[0xC1, 0x10]), 8);
}

#[test]
fn register_instruction_costs() {
    for opcode in [0xE8u8, 0xC8, 0xCA, 0x88, 0xAA, 0xA8, 0xBA, 0x8A, 0x9A, 0x98, 0xEA] {
        assert_eq!(cost(&[opcode]), 2);
    }
}

#[test]
fn flag_instruction_costs() {
    for opcode in [0x18u8, 0xD8, 0x58, 0xB8] {
        assert_eq!(cost(&[opcode]), 1);
    }
    for opcode in [0x38u8, 0xF8, 0x78] {
        assert_eq!(cost(&[opcode]), 2);
    }
}

#[test]
fn control_flow_costs() {
    assert_eq!(cost(&[0x4C, 0x00, 0x30]), 3);
    assert_eq!(cost(&[0x6C, 0x00, 0x30]), 6);
    assert_eq!(cost(&[0x20, 0x00, 0x30]), 6);
    assert_eq!(cost(&[0x60]), 6);
    assert_eq!(cost(&[0x40]), 6);
    assert_eq!(cost(&[0x00]), 8);
    assert_eq!(cost(&[0x48]), 3);
    assert_eq!(cost(&[0x08]), 3);
    assert_eq!(cost(&[0x68]), 4);
    assert_eq!(cost(&[0x28]), 4);
}

#[test]
fn branch_not_taken_costs_three() {
    // Carry is clear after reset: BCS is not taken
    let (mut cpu, mut bus) = machine(&[0xB0, 0x10]);
    assert_eq!(cpu.execute_instruction(&mut bus), 3);
    assert_eq!(cpu.read_pc(), 0x0202);
}

#[test]
fn branch_taken_costs_four() {
    let (mut cpu, mut bus) = machine(&[0x90, 0x10]);
    assert_eq!(cpu.execute_instruction(&mut bus), 4);
    assert_eq!(cpu.read_pc(), 0x0212);
}

#[test]
fn branch_backwards_into_other_page_costs_five() {
    // offset -3 from 0x0202 lands at 0x01FF, in the page before
    let (mut cpu, mut bus) = machine(&[0x90, 0xFD]);
    assert_eq!(cpu.execute_instruction(&mut bus), 5);
    assert_eq!(cpu.read_pc(), 0x01FF);
}

#[test]
fn branch_page_is_that_of_the_next_instruction() {
    // The branch sits at 0x02FE, its offset at 0x02FF; the next instruction is at
    // 0x0300, and so is the target page: no penalty.
    let (mut cpu, mut bus) = machine(&[0x4C, 0xFE, 0x02]);
    bus.write(0x02FE, 0x90);
    bus.write(0x02FF, 0x10);
    assert_eq!(cpu.execute_instruction(&mut bus), 3);
    assert_eq!(cpu.execute_instruction(&mut bus), 4);
    assert_eq!(cpu.read_pc(), 0x0310);
}

#[test]
fn unknown_opcode_costs_one_and_changes_nothing() {
    let (mut cpu, mut bus) = machine(&[0x02]);
    assert_eq!(cpu.execute_instruction(&mut bus), 1);
    assert_eq!(cpu.read_pc(), 0x0201);
    assert_eq!(cpu.read_sp(), 0xFD);
    assert_eq!(cpu.read_status(), 0x24);
    assert_eq!(cpu.read_acc(), 0);
    assert_eq!(cpu.read_x(), 0);
    assert_eq!(cpu.read_y(), 0);
}

#[test]
fn every_unknown_opcode_costs_one() {
    let known: [u8; 151] = [
        0xA9, 0xA5, 0xB5, 0xAD, 0xBD, 0xB9, 0xA1, 0xB1, 0xA2, 0xA6, 0xB6, 0xAE, 0xBE, 0xA0, 0xA4,
        0xB4, 0xAC, 0xBC, 0x85, 0x95, 0x8D, 0x9D, 0x99, 0x81, 0x91, 0x86, 0x96, 0x8E, 0x84, 0x94,
        0x8C, 0x69, 0x65, 0x75, 0x6D, 0x7D, 0x79, 0x61, 0x71, 0xE9, 0xE5, 0xF5, 0xED, 0xFD, 0xF9,
        0xE1, 0xF1, 0x29, 0x25, 0x35, 0x2D, 0x3D, 0x39, 0x21, 0x31, 0x09, 0x05, 0x15, 0x0D, 0x1D,
        0x19, 0x01, 0x11, 0x49, 0x45, 0x55, 0x4D, 0x5D, 0x59, 0x41, 0x51, 0xC9, 0xC5, 0xD5, 0xCD,
        0xDD, 0xD9, 0xC1, 0xD1, 0xE0, 0xE4, 0xEC, 0xC0, 0xC4, 0xCC, 0x24, 0x2C, 0x0A, 0x06, 0x16,
        0x0E, 0x1E, 0x4A, 0x46, 0x56, 0x4E, 0x5E, 0x2A, 0x26, 0x36, 0x2E, 0x3E, 0x6A, 0x66, 0x76,
        0x6E, 0x7E, 0xE6, 0xF6, 0xEE, 0xFE, 0xC6, 0xD6, 0xCE, 0xDE, 0xE8, 0xC8, 0xCA, 0x88, 0xB0,
        0x90, 0xF0, 0xD0, 0x30, 0x10, 0x70, 0x50, 0x18, 0xD8, 0x58, 0xB8, 0x38, 0xF8, 0x78, 0x4C,
        0x6C, 0x20, 0x60, 0x40, 0x00, 0x48, 0x08, 0x68, 0x28, 0xAA, 0xA8, 0xBA, 0x8A, 0x9A, 0x98,
        0xEA,
    ];
    let mut unknown = 0;
    for opcode in 0..=255u8 {
        if !known.contains(&opcode) {
            unknown += 1;
            let (mut cpu, mut bus) = machine(&[opcode, 0x00, 0x00]);
            assert_eq!(cpu.execute_instruction(&mut bus), 1);
            assert_eq!(cpu.read_pc(), 0x0201);
            assert_eq!(cpu.read_status(), 0x24);
            assert_eq!(cpu.read_sp(), 0xFD);
        }
    }
    assert_eq!(unknown, 105);
}

#[test]
fn step_adds_up_the_cycles() {
    // LDA #1 (2), ADC #1 (2), STA 0x3000 (4), NOP (2)
    let (mut cpu, mut bus) = machine(&[0xA9, 0x01, 0x69, 0x01, 0x8D, 0x00, 0x30, 0xEA]);
    assert_eq!(cpu.step(&mut bus, 0), 0);
    assert_eq!(cpu.read_pc(), 0x0200);
    assert_eq!(cpu.step(&mut bus, 3), 8);
    assert_eq!(bus.read(0x3000), 0x02);
    assert_eq!(cpu.step(&mut bus, 1), 2);
    assert_eq!(cpu.read_pc(), 0x0208);
}

#[test]
fn execute_with_empty_budget_does_nothing() {
    let (mut cpu, mut bus) = machine(&[0xA9, 0x01]);
    cpu.execute(&mut bus, 0);
    assert_eq!(cpu.read_pc(), 0x0200);
    assert_eq!(cpu.read_acc(), 0x00);
}

#[test]
fn execute_completes_the_instruction_that_reaches_the_budget() {
    // one cycle of budget still runs the whole LDA, and only that
    let (mut cpu, mut bus) = machine(&[0xA9, 0x01, 0xA9, 0x02]);
    cpu.execute(&mut bus, 1);
    assert_eq!(cpu.read_acc(), 0x01);
    assert_eq!(cpu.read_pc(), 0x0202);
    cpu.execute(&mut bus, 2);
    assert_eq!(cpu.read_acc(), 0x02);
    assert_eq!(cpu.read_pc(), 0x0204);
}
