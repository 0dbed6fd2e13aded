//! The instruction set as mathematics: what each addressing mode resolves to, what
//! each instruction does to the registers and the bus, what it costs, and which
//! opcode means which instruction.

use crate::bus::BusModel;
use crate::cpu::model::{
    bit, crosses, high, low, negative, signed, stack_addr, with_bit, word, wrap16, wrap8, zn,
    Registers, BREAK, CARRY, DECIMAL, INTERRUPT_DISABLE, IRQ_VECTOR, NEGATIVE, OVERFLOW, UNUSED,
    ZERO,
};
use vstd::prelude::*;

verus! {

/// The ways an instruction can name a byte of memory.
#[derive(Clone, Copy)]
pub enum Mode {
    Immediate,
    ZeroPage,
    ZeroPageX,
    ZeroPageY,
    Absolute,
    AbsoluteX,
    AbsoluteY,
    IndexedIndirect,
    IndirectIndexed,
}

/// What a mode resolves to: the effective address, and whether indexing left the
/// page of the base address.
pub struct Resolved {
    pub addr: u16,
    pub crossed: bool,
}

/// The registers and the bus after some part of an instruction.
pub struct State {
    pub regs: Registers,
    pub bus: BusModel,
}

/// The result of a whole instruction, with the cycles it took.
pub struct Outcome {
    pub regs: Registers,
    pub bus: BusModel,
    pub ticks: nat,
}

/// The operand byte that the program counter points at.
pub open spec fn operand_byte(r: Registers, bus: BusModel) -> u8 {
    bus.peek(r.pc)
}

/// The operand word that the program counter points at, low byte first.
pub open spec fn operand_word(r: Registers, bus: BusModel) -> u16 {
    word(bus.peek(r.pc), bus.peek(wrap16(r.pc + 1)))
}

/// The number of operand bytes that a mode reads at the program counter.
pub open spec fn operand_len(mode: Mode) -> int {
    match mode {
        Mode::Absolute => 2,
        Mode::AbsoluteX => 2,
        Mode::AbsoluteY => 2,
        _ => 1,
    }
}

/// The effective address of an operand in the given mode, with the program counter
/// at the first operand byte.
///
/// Zero-page indexing wraps within page zero. The pointer of the indexed-indirect
/// mode is read at the wrapped zero-page address and the address after it; the
/// pointer of the indirect-indexed mode is read within page zero.
#[verifier::opaque]
pub open spec fn resolve(mode: Mode, r: Registers, bus: BusModel) -> Resolved {
    match mode {
        Mode::Immediate => Resolved { addr: r.pc, crossed: false },
        Mode::ZeroPage => Resolved { addr: operand_byte(r, bus) as u16, crossed: false },
        Mode::ZeroPageX => Resolved {
            addr: wrap8(operand_byte(r, bus) + r.x) as u16,
            crossed: false,
        },
        Mode::ZeroPageY => Resolved {
            addr: wrap8(operand_byte(r, bus) + r.y) as u16,
            crossed: false,
        },
        Mode::Absolute => Resolved { addr: operand_word(r, bus), crossed: false },
        Mode::AbsoluteX => {
            let base = operand_word(r, bus);
            let addr = wrap16(base + r.x);
            Resolved { addr, crossed: crosses(base, addr) }
        },
        Mode::AbsoluteY => {
            let base = operand_word(r, bus);
            let addr = wrap16(base + r.y);
            Resolved { addr, crossed: crosses(base, addr) }
        },
        Mode::IndexedIndirect => {
            let zp = wrap8(operand_byte(r, bus) + r.x);
            Resolved {
                addr: word(bus.peek(zp as u16), bus.peek((zp + 1) as u16)),
                crossed: false,
            }
        },
        Mode::IndirectIndexed => {
            let zp = operand_byte(r, bus);
            let base = word(bus.peek(zp as u16), bus.peek(wrap8(zp + 1) as u16));
            let addr = wrap16(base + r.y);
            Resolved { addr, crossed: crosses(base, addr) }
        },
    }
}

/// Cycles, beyond the opcode fetch, to resolve a mode and read the operand.
#[verifier::opaque]
pub open spec fn read_cost(mode: Mode, crossed: bool) -> nat {
    let penalty: nat = if crossed {
        1
    } else {
        0
    };
    match mode {
        Mode::Immediate => 1,
        Mode::ZeroPage => 2,
        Mode::ZeroPageX => 3,
        Mode::ZeroPageY => 3,
        Mode::Absolute => 3,
        Mode::AbsoluteX => 3 + penalty,
        Mode::AbsoluteY => 3 + penalty,
        Mode::IndexedIndirect => 6,
        Mode::IndirectIndexed => 5 + penalty,
    }
}

/// Cycles, beyond the opcode fetch, to resolve a mode to an address without
/// reading the operand: one less than with the read.
#[verifier::opaque]
pub open spec fn address_cost(mode: Mode, crossed: bool) -> nat {
    (read_cost(mode, crossed) - 1) as nat
}

/// The registers that an instruction can load, store, compare or step.
#[derive(Clone, Copy)]
pub enum Reg {
    A,
    X,
    Y,
}

/// The value of a register.
pub open spec fn reg(r: Registers, which: Reg) -> u8 {
    match which {
        Reg::A => r.a,
        Reg::X => r.x,
        Reg::Y => r.y,
    }
}

/// The registers with one of them set to `value`.
pub open spec fn with_reg(r: Registers, which: Reg, value: u8) -> Registers {
    match which {
        Reg::A => Registers { a: value, ..r },
        Reg::X => Registers { x: value, ..r },
        Reg::Y => Registers { y: value, ..r },
    }
}

/// A register takes a value; Zero and Negative follow the value.
pub open spec fn load(r: Registers, which: Reg, value: u8) -> Registers {
    with_reg(r, which, value).with_status(zn(r.status, value))
}

/// The carry flag as a number.
pub open spec fn carry_in(r: Registers) -> int {
    if r.flag(CARRY) {
        1
    } else {
        0
    }
}

/// Add with carry. Carry is the carry out of bit 7; Overflow is set when both
/// operands have the same sign and the result has the other.
#[verifier::opaque]
pub open spec fn adc(r: Registers, value: u8) -> Registers {
    let sum = r.a + value + carry_in(r);
    let result = wrap8(sum);
    let overflow = negative(r.a) == negative(value) && negative(result) != negative(r.a);
    Registers {
        a: result,
        status: with_bit(
            with_bit(
                with_bit(with_bit(r.status, CARRY, sum > 0xFF), ZERO, result == 0),
                OVERFLOW,
                overflow,
            ),
            NEGATIVE,
            negative(result),
        ),
        ..r
    }
}

/// Subtract with borrow, the borrow being the complement of Carry. Carry is set
/// when no borrow was needed; Overflow when the operands have different signs and
/// the result has not the sign of the accumulator.
#[verifier::opaque]
pub open spec fn sbc(r: Registers, value: u8) -> Registers {
    let difference = r.a - value - (1 - carry_in(r));
    let result = wrap8(difference);
    let overflow = negative(r.a) != negative(value) && negative(result) != negative(r.a);
    Registers {
        a: result,
        status: with_bit(
            with_bit(
                with_bit(with_bit(r.status, CARRY, difference >= 0), ZERO, result == 0),
                OVERFLOW,
                overflow,
            ),
            NEGATIVE,
            negative(result),
        ),
        ..r
    }
}

/// The operations that combine the accumulator with an operand.
#[derive(Clone, Copy)]
pub enum Alu {
    Adc,
    Sbc,
    And,
    Ora,
    Eor,
}

/// The registers after an operation on the accumulator and `value`; the logical
/// operations set Zero and Negative from their result and no other flag.
pub open spec fn alu(op: Alu, r: Registers, value: u8) -> Registers {
    match op {
        Alu::Adc => adc(r, value),
        Alu::Sbc => sbc(r, value),
        Alu::And => load(r, Reg::A, r.a & value),
        Alu::Ora => load(r, Reg::A, r.a | value),
        Alu::Eor => load(r, Reg::A, r.a ^ value),
    }
}

/// Cycles an operation takes on its own, once the operand is read.
pub open spec fn alu_cost(op: Alu) -> nat {
    match op {
        Alu::Adc => 0,
        Alu::Sbc => 0,
        Alu::And => 0,
        Alu::Ora => 1,
        Alu::Eor => 1,
    }
}

/// The status after comparing `left` with `right`: Carry when `left >= right`,
/// Zero when they are equal, Negative from bit 7 of the difference.
#[verifier::opaque]
pub open spec fn compared(status: u8, left: u8, right: u8) -> u8 {
    with_bit(
        with_bit(with_bit(status, CARRY, left >= right), ZERO, left == right),
        NEGATIVE,
        negative(wrap8(left - right)),
    )
}

/// The status after a bit test of `value` against the accumulator `a`: Zero when
/// they have no bit in common, Overflow and Negative copied from bits 6 and 7 of
/// `value`.
#[verifier::opaque]
pub open spec fn bit_tested(status: u8, a: u8, value: u8) -> u8 {
    with_bit(
        with_bit(with_bit(status, ZERO, a & value == 0), OVERFLOW, bit(value, OVERFLOW)),
        NEGATIVE,
        bit(value, NEGATIVE),
    )
}

/// The shifts and rotates.
#[derive(Clone, Copy)]
pub enum Shift {
    Asl,
    Lsr,
    Rol,
    Ror,
}

/// The byte that a shift or rotate makes of `value`; the rotates take the old
/// Carry into the vacated bit.
#[verifier::opaque]
pub open spec fn shifted(op: Shift, value: u8, carry: bool) -> u8 {
    let c: int = if carry {
        1
    } else {
        0
    };
    match op {
        Shift::Asl => wrap8(value * 2),
        Shift::Lsr => (value / 2) as u8,
        Shift::Rol => wrap8(value * 2 + c),
        Shift::Ror => (value / 2 + 128 * c) as u8,
    }
}

/// The bit that a shift or rotate pushes out of `value`.
#[verifier::opaque]
pub open spec fn shifted_out(op: Shift, value: u8) -> bool {
    match op {
        Shift::Asl => negative(value),
        Shift::Lsr => value % 2 == 1,
        Shift::Rol => negative(value),
        Shift::Ror => value % 2 == 1,
    }
}

/// The status after a shift or rotate of `value`.
#[verifier::opaque]
pub open spec fn shift_status(op: Shift, status: u8, value: u8) -> u8 {
    let result = shifted(op, value, bit(status, CARRY));
    with_bit(
        with_bit(with_bit(status, CARRY, shifted_out(op, value)), ZERO, result == 0),
        NEGATIVE,
        negative(result),
    )
}

/// A shift or rotate of the accumulator.
#[verifier::opaque]
pub open spec fn shift_a(op: Shift, r: Registers) -> Registers {
    Registers {
        a: shifted(op, r.a, r.flag(CARRY)),
        status: shift_status(op, r.status, r.a),
        ..r
    }
}

/// A shift or rotate of the byte at `addr`.
#[verifier::opaque]
pub open spec fn shift_at(op: Shift, s: State, addr: u16) -> State {
    let value = s.bus.peek(addr);
    State {
        regs: s.regs.with_status(shift_status(op, s.regs.status, value)),
        bus: s.bus.poked(addr, shifted(op, value, s.regs.flag(CARRY))),
    }
}

/// The byte at `addr` moves by `delta` (1 or -1), modulo 256; Zero and Negative
/// follow the new byte.
#[verifier::opaque]
pub open spec fn step_at(delta: int, s: State, addr: u16) -> State {
    let value = wrap8(s.bus.peek(addr) + delta);
    State { regs: s.regs.with_status(zn(s.regs.status, value)), bus: s.bus.poked(addr, value) }
}

/// A register moves by `delta` (1 or -1), modulo 256.
#[verifier::opaque]
pub open spec fn step_reg(delta: int, r: Registers, which: Reg) -> Registers {
    load(r, which, wrap8(reg(r, which) + delta))
}

/// The address that a push writes: the slot that the stack pointer points at.
pub open spec fn push_addr(r: Registers) -> u16 {
    stack_addr(r.sp)
}

/// The address that a pull reads: the slot above the stack pointer, wrapping
/// within the stack page.
pub open spec fn pull_addr(r: Registers) -> u16 {
    stack_addr(wrap8(r.sp + 1))
}

/// A byte is pushed: written at the stack slot, then the stack pointer moves down,
/// wrapping within the stack page.
#[verifier::opaque]
pub open spec fn push(s: State, value: u8) -> State {
    State {
        regs: Registers { sp: wrap8(s.regs.sp - 1), ..s.regs },
        bus: s.bus.poked(push_addr(s.regs), value),
    }
}

/// The stack pointer after a pull: moved up, wrapping within the stack page.
#[verifier::opaque]
pub open spec fn pull_regs(r: Registers) -> Registers {
    Registers { sp: wrap8(r.sp + 1), ..r }
}

/// The byte that a pull reads.
#[verifier::opaque]
pub open spec fn pull_value(s: State) -> u8 {
    s.bus.peek(pull_addr(s.regs))
}

/// The status byte as it is pushed: with Break and Unused set.
#[verifier::opaque]
pub open spec fn pushed_status(status: u8) -> u8 {
    with_bit(with_bit(status, BREAK, true), UNUSED, true)
}

/// The target of a taken branch whose offset byte is at the program counter.
#[verifier::opaque]
pub open spec fn branch_target(r: Registers, bus: BusModel) -> u16 {
    wrap16(wrap16(r.pc + 1) + signed(operand_byte(r, bus)))
}

/// A branch on flag `pos` being `on`. Not taken, it steps over the offset byte.
/// Taken, it costs one cycle more, and another if the target lies in another page
/// than the instruction after the branch.
#[verifier::opaque]
pub open spec fn branch(pos: u8, on: bool, s: State) -> Outcome {
    if s.regs.flag(pos) == on {
        let target = branch_target(s.regs, s.bus);
        let penalty: nat = if crosses(wrap16(s.regs.pc + 1), target) {
            1
        } else {
            0
        };
        Outcome { regs: s.regs.with_pc(target), bus: s.bus, ticks: 4 + penalty }
    } else {
        Outcome { regs: s.regs.advance(1), bus: s.bus, ticks: 3 }
    }
}

/// Where the indirect jump reads the high byte of its target: the byte after the
/// pointer, or, with the hardware fault and a pointer at the end of a page, the
/// first byte of that same page.
#[verifier::opaque]
pub open spec fn indirect_high_addr(pointer: u16, bug: bool) -> u16 {
    if bug && pointer % 256 == 0xFF {
        (pointer - 0xFF) as u16
    } else {
        wrap16(pointer + 1)
    }
}

/// The target of an indirect jump whose pointer is at the program counter.
#[verifier::opaque]
pub open spec fn indirect_target(r: Registers, bus: BusModel, bug: bool) -> u16 {
    let pointer = operand_word(r, bus);
    word(bus.peek(pointer), bus.peek(indirect_high_addr(pointer, bug)))
}

/// Jump to subroutine, the target already resolved: the address of the last byte
/// of the instruction is pushed, high byte first.
#[verifier::opaque]
pub open spec fn jsr(s: State, target: u16) -> State {
    let ret = wrap16(s.regs.pc - 1);
    let s1 = push(s, high(ret));
    let s2 = push(s1, low(ret));
    State { regs: s2.regs.with_pc(target), bus: s2.bus }
}

/// Return from subroutine: the program counter is pulled, low byte first, and
/// moved on by one.
#[verifier::opaque]
pub open spec fn rts(s: State) -> State {
    let lo = pull_value(s);
    let r1 = pull_regs(s.regs);
    let hi = pull_value(State { regs: r1, bus: s.bus });
    let r2 = pull_regs(r1);
    State { regs: r2.with_pc(wrap16(word(lo, hi) + 1)), bus: s.bus }
}

/// Return from interrupt: the status is pulled and Break cleared, then the
/// program counter is pulled, low byte first.
#[verifier::opaque]
pub open spec fn rti(s: State) -> State {
    let status = with_bit(pull_value(s), BREAK, false);
    let r1 = pull_regs(s.regs).with_status(status);
    let lo = pull_value(State { regs: r1, bus: s.bus });
    let r2 = pull_regs(r1);
    let hi = pull_value(State { regs: r2, bus: s.bus });
    let r3 = pull_regs(r2);
    State { regs: r3.with_pc(word(lo, hi)), bus: s.bus }
}

/// Break: Break is set, the program counter skips one byte and is pushed, high
/// byte first, then the status with Break and Unused set; the program counter is
/// then loaded from the interrupt vector.
#[verifier::opaque]
pub open spec fn brk(s: State) -> State {
    let r0 = s.regs.with_flag(BREAK, true).advance(1);
    let s1 = push(State { regs: r0, bus: s.bus }, high(r0.pc));
    let s2 = push(s1, low(r0.pc));
    let s3 = push(s2, pushed_status(r0.status));
    State {
        regs: s3.regs.with_pc(
            word(s3.bus.peek(IRQ_VECTOR), s3.bus.peek((IRQ_VECTOR + 1) as u16)),
        ),
        bus: s3.bus,
    }
}

/// The instructions, each with the mode of its operand where it has one.
#[derive(Clone, Copy)]
pub enum Instruction {
    Load(Reg, Mode),
    Store(Reg, Mode),
    Arith(Alu, Mode),
    Compare(Reg, Mode),
    BitTest(Mode),
    ShiftA(Shift),
    ShiftM(Shift, Mode),
    IncM(Mode),
    DecM(Mode),
    IncR(Reg),
    DecR(Reg),
    /// Branch if the flag at the position has the value.
    Branch(u8, bool),
    /// Set the flag at the position to the value.
    Flag(u8, bool),
    Jmp,
    JmpIndirect,
    Jsr,
    Rts,
    Rti,
    Brk,
    Pha,
    Php,
    Pla,
    Plp,
    Tax,
    Tay,
    Tsx,
    Txa,
    Txs,
    Tya,
    Nop,
}

/// The modes in which an instruction can modify a byte of memory in place.
pub open spec fn modifiable(mode: Mode) -> bool {
    mode is ZeroPage || mode is ZeroPageX || mode is Absolute || mode is AbsoluteX
}

impl Instruction {
    /// The instruction is one that the processor has: the flag that a branch tests
    /// or a flag instruction sets is one of the eight, and a byte of memory is
    /// modified in place only in a mode made for it.
    pub open spec fn wf(self) -> bool {
        match self {
            Instruction::Branch(pos, _) => pos < 8,
            Instruction::Flag(pos, _) => pos < 8,
            Instruction::ShiftM(_, mode) => modifiable(mode),
            Instruction::IncM(mode) => modifiable(mode),
            Instruction::DecM(mode) => modifiable(mode),
            _ => true,
        }
    }
}

/// What an instruction does, from the state just after its opcode was fetched; the
/// cycle count includes the fetch.
pub open spec fn perform(ins: Instruction, s: State, bug: bool) -> Outcome {
    let r = s.regs;
    let bus = s.bus;
    match ins {
        Instruction::Load(which, mode) => {
            let t = resolve(mode, r, bus);
            Outcome {
                regs: load(r.advance(operand_len(mode)), which, bus.peek(t.addr)),
                bus,
                ticks: 1 + read_cost(mode, t.crossed),
            }
        },
        Instruction::Store(which, mode) => {
            let t = resolve(mode, r, bus);
            Outcome {
                regs: r.advance(operand_len(mode)),
                bus: bus.poked(t.addr, reg(r, which)),
                ticks: 1 + address_cost(mode, t.crossed) + 1,
            }
        },
        Instruction::Arith(op, mode) => {
            let t = resolve(mode, r, bus);
            Outcome {
                regs: alu(op, r.advance(operand_len(mode)), bus.peek(t.addr)),
                bus,
                ticks: 1 + read_cost(mode, t.crossed) + alu_cost(op),
            }
        },
        Instruction::Compare(which, mode) => {
            let t = resolve(mode, r, bus);
            Outcome {
                regs: r.advance(operand_len(mode)).with_status(
                    compared(r.status, reg(r, which), bus.peek(t.addr)),
                ),
                bus,
                ticks: 1 + read_cost(mode, t.crossed) + 1,
            }
        },
        Instruction::BitTest(mode) => {
            let t = resolve(mode, r, bus);
            Outcome {
                regs: r.advance(operand_len(mode)).with_status(
                    bit_tested(r.status, r.a, bus.peek(t.addr)),
                ),
                bus,
                ticks: 1 + read_cost(mode, t.crossed) + 1,
            }
        },
        Instruction::ShiftA(op) => Outcome { regs: shift_a(op, r), bus, ticks: 2 },
        Instruction::ShiftM(op, mode) => {
            let t = resolve(mode, r, bus);
            let after = shift_at(op, State { regs: r.advance(operand_len(mode)), bus }, t.addr);
            Outcome {
                regs: after.regs,
                bus: after.bus,
                ticks: 1 + address_cost(mode, t.crossed) + 3,
            }
        },
        Instruction::IncM(mode) => {
            let t = resolve(mode, r, bus);
            let after = step_at(1, State { regs: r.advance(operand_len(mode)), bus }, t.addr);
            Outcome {
                regs: after.regs,
                bus: after.bus,
                ticks: 1 + address_cost(mode, t.crossed) + 3,
            }
        },
        Instruction::DecM(mode) => {
            let t = resolve(mode, r, bus);
            let after = step_at(-1, State { regs: r.advance(operand_len(mode)), bus }, t.addr);
            Outcome {
                regs: after.regs,
                bus: after.bus,
                ticks: 1 + address_cost(mode, t.crossed) + 3,
            }
        },
        Instruction::IncR(which) => Outcome { regs: step_reg(1, r, which), bus, ticks: 2 },
        Instruction::DecR(which) => Outcome { regs: step_reg(-1, r, which), bus, ticks: 2 },
        Instruction::Branch(pos, on) => branch(pos, on, s),
        Instruction::Flag(pos, on) => Outcome {
            regs: r.with_flag(pos, on),
            bus,
            ticks: if on {
                2
            } else {
                1
            },
        },
        Instruction::Jmp => {
            let t = resolve(Mode::Absolute, r, bus);
            Outcome {
                regs: r.with_pc(t.addr),
                bus,
                ticks: 1 + address_cost(Mode::Absolute, false),
            }
        },
        Instruction::JmpIndirect => Outcome {
            regs: r.with_pc(indirect_target(r, bus, bug)),
            bus,
            ticks: 6,
        },
        Instruction::Jsr => {
            let t = resolve(Mode::Absolute, r, bus);
            let after = jsr(State { regs: r.advance(2), bus }, t.addr);
            Outcome {
                regs: after.regs,
                bus: after.bus,
                ticks: 1 + address_cost(Mode::Absolute, false) + 3,
            }
        },
        Instruction::Rts => {
            let after = rts(s);
            Outcome { regs: after.regs, bus: after.bus, ticks: 6 }
        },
        Instruction::Rti => {
            let after = rti(s);
            Outcome { regs: after.regs, bus: after.bus, ticks: 6 }
        },
        Instruction::Brk => {
            let after = brk(s);
            Outcome { regs: after.regs, bus: after.bus, ticks: 8 }
        },
        Instruction::Pha => {
            let after = push(s, r.a);
            Outcome { regs: after.regs, bus: after.bus, ticks: 3 }
        },
        Instruction::Php => {
            let after = push(s, pushed_status(r.status));
            Outcome { regs: after.regs, bus: after.bus, ticks: 3 }
        },
        Instruction::Pla => Outcome {
            regs: load(pull_regs(r), Reg::A, pull_value(s)),
            bus,
            ticks: 4,
        },
        Instruction::Plp => Outcome {
            regs: pull_regs(r).with_status(with_bit(pull_value(s), UNUSED, true)),
            bus,
            ticks: 4,
        },
        Instruction::Tax => Outcome { regs: load(r, Reg::X, r.a), bus, ticks: 2 },
        Instruction::Tay => Outcome { regs: load(r, Reg::Y, r.a), bus, ticks: 2 },
        Instruction::Tsx => Outcome { regs: load(r, Reg::X, r.sp), bus, ticks: 2 },
        Instruction::Txa => Outcome { regs: load(r, Reg::A, r.x), bus, ticks: 2 },
        Instruction::Txs => Outcome { regs: Registers { sp: r.x, ..r }, bus, ticks: 2 },
        Instruction::Tya => Outcome { regs: load(r, Reg::A, r.y), bus, ticks: 2 },
        Instruction::Nop => Outcome { regs: r, bus, ticks: 2 },
    }
}

/// The instruction that an opcode stands for; `None` for the opcodes that stand
/// for none.
pub open spec fn decode(opcode: u8) -> Option<Instruction> {
    match opcode {
        0xA9 => Some(Instruction::Load(Reg::A, Mode::Immediate)),
        0xA5 => Some(Instruction::Load(Reg::A, Mode::ZeroPage)),
        0xB5 => Some(Instruction::Load(Reg::A, Mode::ZeroPageX)),
        0xAD => Some(Instruction::Load(Reg::A, Mode::Absolute)),
        0xBD => Some(Instruction::Load(Reg::A, Mode::AbsoluteX)),
        0xB9 => Some(Instruction::Load(Reg::A, Mode::AbsoluteY)),
        0xA1 => Some(Instruction::Load(Reg::A, Mode::IndexedIndirect)),
        0xB1 => Some(Instruction::Load(Reg::A, Mode::IndirectIndexed)),
        0xA2 => Some(Instruction::Load(Reg::X, Mode::Immediate)),
        0xA6 => Some(Instruction::Load(Reg::X, Mode::ZeroPage)),
        0xB6 => Some(Instruction::Load(Reg::X, Mode::ZeroPageY)),
        0xAE => Some(Instruction::Load(Reg::X, Mode::Absolute)),
        0xBE => Some(Instruction::Load(Reg::X, Mode::AbsoluteY)),
        0xA0 => Some(Instruction::Load(Reg::Y, Mode::Immediate)),
        0xA4 => Some(Instruction::Load(Reg::Y, Mode::ZeroPage)),
        0xB4 => Some(Instruction::Load(Reg::Y, Mode::ZeroPageX)),
        0xAC => Some(Instruction::Load(Reg::Y, Mode::Absolute)),
        0xBC => Some(Instruction::Load(Reg::Y, Mode::AbsoluteX)),
        0x85 => Some(Instruction::Store(Reg::A, Mode::ZeroPage)),
        0x95 => Some(Instruction::Store(Reg::A, Mode::ZeroPageX)),
        0x8D => Some(Instruction::Store(Reg::A, Mode::Absolute)),
        0x9D => Some(Instruction::Store(Reg::A, Mode::AbsoluteX)),
        0x99 => Some(Instruction::Store(Reg::A, Mode::AbsoluteY)),
        0x81 => Some(Instruction::Store(Reg::A, Mode::IndexedIndirect)),
        0x91 => Some(Instruction::Store(Reg::A, Mode::IndirectIndexed)),
        0x86 => Some(Instruction::Store(Reg::X, Mode::ZeroPage)),
        0x96 => Some(Instruction::Store(Reg::X, Mode::ZeroPageY)),
        0x8E => Some(Instruction::Store(Reg::X, Mode::Absolute)),
        0x84 => Some(Instruction::Store(Reg::Y, Mode::ZeroPage)),
        0x94 => Some(Instruction::Store(Reg::Y, Mode::ZeroPageX)),
        0x8C => Some(Instruction::Store(Reg::Y, Mode::Absolute)),
        0x69 => Some(Instruction::Arith(Alu::Adc, Mode::Immediate)),
        0x65 => Some(Instruction::Arith(Alu::Adc, Mode::ZeroPage)),
        0x75 => Some(Instruction::Arith(Alu::Adc, Mode::ZeroPageX)),
        0x6D => Some(Instruction::Arith(Alu::Adc, Mode::Absolute)),
        0x7D => Some(Instruction::Arith(Alu::Adc, Mode::AbsoluteX)),
        0x79 => Some(Instruction::Arith(Alu::Adc, Mode::AbsoluteY)),
        0x61 => Some(Instruction::Arith(Alu::Adc, Mode::IndexedIndirect)),
        0x71 => Some(Instruction::Arith(Alu::Adc, Mode::IndirectIndexed)),
        0xE9 => Some(Instruction::Arith(Alu::Sbc, Mode::Immediate)),
        0xE5 => Some(Instruction::Arith(Alu::Sbc, Mode::ZeroPage)),
        0xF5 => Some(Instruction::Arith(Alu::Sbc, Mode::ZeroPageX)),
        0xED => Some(Instruction::Arith(Alu::Sbc, Mode::Absolute)),
        0xFD => Some(Instruction::Arith(Alu::Sbc, Mode::AbsoluteX)),
        0xF9 => Some(Instruction::Arith(Alu::Sbc, Mode::AbsoluteY)),
        0xE1 => Some(Instruction::Arith(Alu::Sbc, Mode::IndexedIndirect)),
        0xF1 => Some(Instruction::Arith(Alu::Sbc, Mode::IndirectIndexed)),
        0x29 => Some(Instruction::Arith(Alu::And, Mode::Immediate)),
        0x25 => Some(Instruction::Arith(Alu::And, Mode::ZeroPage)),
        0x35 => Some(Instruction::Arith(Alu::And, Mode::ZeroPageX)),
        0x2D => Some(Instruction::Arith(Alu::And, Mode::Absolute)),
        0x3D => Some(Instruction::Arith(Alu::And, Mode::AbsoluteX)),
        0x39 => Some(Instruction::Arith(Alu::And, Mode::AbsoluteY)),
        0x21 => Some(Instruction::Arith(Alu::And, Mode::IndexedIndirect)),
        0x31 => Some(Instruction::Arith(Alu::And, Mode::IndirectIndexed)),
        0x09 => Some(Instruction::Arith(Alu::Ora, Mode::Immediate)),
        0x05 => Some(Instruction::Arith(Alu::Ora, Mode::ZeroPage)),
        0x15 => Some(Instruction::Arith(Alu::Ora, Mode::ZeroPageX)),
        0x0D => Some(Instruction::Arith(Alu::Ora, Mode::Absolute)),
        0x1D => Some(Instruction::Arith(Alu::Ora, Mode::AbsoluteX)),
        0x19 => Some(Instruction::Arith(Alu::Ora, Mode::AbsoluteY)),
        0x01 => Some(Instruction::Arith(Alu::Ora, Mode::IndexedIndirect)),
        0x11 => Some(Instruction::Arith(Alu::Ora, Mode::IndirectIndexed)),
        0x49 => Some(Instruction::Arith(Alu::Eor, Mode::Immediate)),
        0x45 => Some(Instruction::Arith(Alu::Eor, Mode::ZeroPage)),
        0x55 => Some(Instruction::Arith(Alu::Eor, Mode::ZeroPageX)),
        0x4D => Some(Instruction::Arith(Alu::Eor, Mode::Absolute)),
        0x5D => Some(Instruction::Arith(Alu::Eor, Mode::AbsoluteX)),
        0x59 => Some(Instruction::Arith(Alu::Eor, Mode::AbsoluteY)),
        0x41 => Some(Instruction::Arith(Alu::Eor, Mode::IndexedIndirect)),
        0x51 => Some(Instruction::Arith(Alu::Eor, Mode::IndirectIndexed)),
        0xC9 => Some(Instruction::Compare(Reg::A, Mode::Immediate)),
        0xC5 => Some(Instruction::Compare(Reg::A, Mode::ZeroPage)),
        0xD5 => Some(Instruction::Compare(Reg::A, Mode::ZeroPageX)),
        0xCD => Some(Instruction::Compare(Reg::A, Mode::Absolute)),
        0xDD => Some(Instruction::Compare(Reg::A, Mode::AbsoluteX)),
        0xD9 => Some(Instruction::Compare(Reg::A, Mode::AbsoluteY)),
        0xC1 => Some(Instruction::Compare(Reg::A, Mode::IndexedIndirect)),
        0xD1 => Some(Instruction::Compare(Reg::A, Mode::IndirectIndexed)),
        0xE0 => Some(Instruction::Compare(Reg::X, Mode::Immediate)),
        0xE4 => Some(Instruction::Compare(Reg::X, Mode::ZeroPage)),
        0xEC => Some(Instruction::Compare(Reg::X, Mode::Absolute)),
        0xC0 => Some(Instruction::Compare(Reg::Y, Mode::Immediate)),
        0xC4 => Some(Instruction::Compare(Reg::Y, Mode::ZeroPage)),
        0xCC => Some(Instruction::Compare(Reg::Y, Mode::Absolute)),
        0x24 => Some(Instruction::BitTest(Mode::ZeroPage)),
        0x2C => Some(Instruction::BitTest(Mode::Absolute)),
        0x0A => Some(Instruction::ShiftA(Shift::Asl)),
        0x06 => Some(Instruction::ShiftM(Shift::Asl, Mode::ZeroPage)),
        0x16 => Some(Instruction::ShiftM(Shift::Asl, Mode::ZeroPageX)),
        0x0E => Some(Instruction::ShiftM(Shift::Asl, Mode::Absolute)),
        0x1E => Some(Instruction::ShiftM(Shift::Asl, Mode::AbsoluteX)),
        0x4A => Some(Instruction::ShiftA(Shift::Lsr)),
        0x46 => Some(Instruction::ShiftM(Shift::Lsr, Mode::ZeroPage)),
        0x56 => Some(Instruction::ShiftM(Shift::Lsr, Mode::ZeroPageX)),
        0x4E => Some(Instruction::ShiftM(Shift::Lsr, Mode::Absolute)),
        0x5E => Some(Instruction::ShiftM(Shift::Lsr, Mode::AbsoluteX)),
        0x2A => Some(Instruction::ShiftA(Shift::Rol)),
        0x26 => Some(Instruction::ShiftM(Shift::Rol, Mode::ZeroPage)),
        0x36 => Some(Instruction::ShiftM(Shift::Rol, Mode::ZeroPageX)),
        0x2E => Some(Instruction::ShiftM(Shift::Rol, Mode::Absolute)),
        0x3E => Some(Instruction::ShiftM(Shift::Rol, Mode::AbsoluteX)),
        0x6A => Some(Instruction::ShiftA(Shift::Ror)),
        0x66 => Some(Instruction::ShiftM(Shift::Ror, Mode::ZeroPage)),
        0x76 => Some(Instruction::ShiftM(Shift::Ror, Mode::ZeroPageX)),
        0x6E => Some(Instruction::ShiftM(Shift::Ror, Mode::Absolute)),
        0x7E => Some(Instruction::ShiftM(Shift::Ror, Mode::AbsoluteX)),
        0xE6 => Some(Instruction::IncM(Mode::ZeroPage)),
        0xF6 => Some(Instruction::IncM(Mode::ZeroPageX)),
        0xEE => Some(Instruction::IncM(Mode::Absolute)),
        0xFE => Some(Instruction::IncM(Mode::AbsoluteX)),
        0xC6 => Some(Instruction::DecM(Mode::ZeroPage)),
        0xD6 => Some(Instruction::DecM(Mode::ZeroPageX)),
        0xCE => Some(Instruction::DecM(Mode::Absolute)),
        0xDE => Some(Instruction::DecM(Mode::AbsoluteX)),
        0xE8 => Some(Instruction::IncR(Reg::X)),
        0xC8 => Some(Instruction::IncR(Reg::Y)),
        0xCA => Some(Instruction::DecR(Reg::X)),
        0x88 => Some(Instruction::DecR(Reg::Y)),
        0xB0 => Some(Instruction::Branch(CARRY, true)),
        0x90 => Some(Instruction::Branch(CARRY, false)),
        0xF0 => Some(Instruction::Branch(ZERO, true)),
        0xD0 => Some(Instruction::Branch(ZERO, false)),
        0x30 => Some(Instruction::Branch(NEGATIVE, true)),
        0x10 => Some(Instruction::Branch(NEGATIVE, false)),
        0x70 => Some(Instruction::Branch(OVERFLOW, true)),
        0x50 => Some(Instruction::Branch(OVERFLOW, false)),
        0x18 => Some(Instruction::Flag(CARRY, false)),
        0xD8 => Some(Instruction::Flag(DECIMAL, false)),
        0x58 => Some(Instruction::Flag(INTERRUPT_DISABLE, false)),
        0xB8 => Some(Instruction::Flag(OVERFLOW, false)),
        0x38 => Some(Instruction::Flag(CARRY, true)),
        0xF8 => Some(Instruction::Flag(DECIMAL, true)),
        0x78 => Some(Instruction::Flag(INTERRUPT_DISABLE, true)),
        0x4C => Some(Instruction::Jmp),
        0x6C => Some(Instruction::JmpIndirect),
        0x20 => Some(Instruction::Jsr),
        0x60 => Some(Instruction::Rts),
        0x40 => Some(Instruction::Rti),
        0x00 => Some(Instruction::Brk),
        0x48 => Some(Instruction::Pha),
        0x08 => Some(Instruction::Php),
        0x68 => Some(Instruction::Pla),
        0x28 => Some(Instruction::Plp),
        0xAA => Some(Instruction::Tax),
        0xA8 => Some(Instruction::Tay),
        0xBA => Some(Instruction::Tsx),
        0x8A => Some(Instruction::Txa),
        0x9A => Some(Instruction::Txs),
        0x98 => Some(Instruction::Tya),
        0xEA => Some(Instruction::Nop),
        _ => None,
    }
}

/// One fetch-decode-execute cycle: the opcode at the program counter is fetched,
/// and the instruction it stands for is performed. An opcode that stands for no
/// instruction costs the fetch and changes nothing else.
pub open spec fn step(r: Registers, bus: BusModel, bug: bool) -> Outcome {
    let fetched = State { regs: r.advance(1), bus };
    match decode(bus.peek(r.pc)) {
        Some(ins) => perform(ins, fetched, bug),
        None => Outcome { regs: fetched.regs, bus, ticks: 1 },
    }
}

} // verus!
