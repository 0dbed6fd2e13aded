//! The driver: fetch an opcode, perform the instruction it stands for, and report
//! the cycles it took.

use crate::bus::{Bus, BusModel, Device};
use crate::cpu::cpu::CPU;
use crate::cpu::isa;
use crate::cpu::isa::{decode, step, Alu, Instruction, Mode, Outcome, Reg, Shift, State};
use crate::cpu::model::{
    Registers, CARRY, DECIMAL, INTERRUPT_DISABLE, NEGATIVE, OVERFLOW, TICK_ROOM, ZERO,
};
use vstd::prelude::*;

verus! {

impl Outcome {
    /// The same outcome reached after `ticks` more cycles.
    pub open spec fn later(self, ticks: nat) -> Outcome {
        Outcome { ticks: self.ticks + ticks, ..self }
    }
}

/// What `count` instructions in a row do, with the cycles they take together.
pub open spec fn steps(r: Registers, bus: BusModel, bug: bool, count: nat) -> Outcome
    decreases count,
{
    if count == 0 {
        Outcome { regs: r, bus, ticks: 0 }
    } else {
        let first = step(r, bus, bug);
        steps(first.regs, first.bus, bug, (count - 1) as nat).later(first.ticks)
    }
}

/// What the processor does when it executes instructions until `budget` cycles are
/// used up: none if the budget is empty, else one instruction and then the same
/// with what is left of the budget. An instruction that starts within the budget
/// is completed, so the cycles taken may exceed the budget.
pub open spec fn spend(r: Registers, bus: BusModel, bug: bool, budget: int) -> Outcome
    decreases
        (if budget > 0 {
            budget
        } else {
            0
        }),
    via spend_terminates
{
    if budget <= 0 {
        Outcome { regs: r, bus, ticks: 0 }
    } else {
        let first = step(r, bus, bug);
        spend(first.regs, first.bus, bug, budget - first.ticks).later(first.ticks)
    }
}

/// Every instruction uses up at least one cycle of a budget.
#[via_fn]
proof fn spend_terminates(r: Registers, bus: BusModel, bug: bool, budget: int) {
    lemma_step_cost(r, bus, bug);
}

/// Every instruction takes at least the cycle of its opcode fetch, and none takes
/// more than eight cycles.
pub proof fn lemma_step_cost(r: Registers, bus: BusModel, bug: bool)
    ensures
        1 <= step(r, bus, bug).ticks <= 8,
{
    let fetched = State { regs: r.advance(1), bus };
    match decode(bus.peek(r.pc)) {
        Some(ins) => {
            lemma_decode_wf(bus.peek(r.pc));
            lemma_perform_cost(ins, fetched, bug);
        },
        None => {},
    }
}

/// Every instruction in the table is one that the processor has.
pub proof fn lemma_decode_wf(opcode: u8)
    ensures
        decode(opcode) matches Some(ins) ==> ins.wf(),
{
}

/// Resolving a mode and reading the operand takes one to six cycles; resolving it
/// without the read takes one cycle less.
pub proof fn lemma_mode_cost(mode: Mode, crossed: bool)
    ensures
        1 <= isa::read_cost(mode, crossed) <= 6,
        isa::address_cost(mode, crossed) == isa::read_cost(mode, crossed) - 1,
{
    reveal(isa::read_cost);
    reveal(isa::address_cost);
}

/// An instruction takes one to eight cycles, the opcode fetch included.
pub proof fn lemma_perform_cost(ins: Instruction, s: State, bug: bool)
    requires
        ins.wf(),
    ensures
        1 <= isa::perform(ins, s, bug).ticks <= 8,
{
    match ins {
        Instruction::Load(_, mode)
        | Instruction::Store(_, mode)
        | Instruction::Arith(_, mode)
        | Instruction::Compare(_, mode)
        | Instruction::BitTest(mode) => {
            lemma_mode_cost(mode, isa::resolve(mode, s.regs, s.bus).crossed);
        },
        Instruction::ShiftM(_, mode) | Instruction::IncM(mode) | Instruction::DecM(mode) => {
            lemma_mode_cost(mode, isa::resolve(mode, s.regs, s.bus).crossed);
            reveal(isa::read_cost);
        },
        Instruction::Jmp | Instruction::Jsr => {
            lemma_mode_cost(Mode::Absolute, false);
            reveal(isa::read_cost);
        },
        Instruction::Branch(_, _) => {
            reveal(isa::branch);
        },
        _ => {},
    }
}

/// Looks the opcode up in the instruction table.
pub fn decode_opcode(opcode: u8) -> (ins: Option<Instruction>)
    ensures
        ins == decode(opcode),
        ins matches Some(i) ==> i.wf(),
{
    match opcode {
        0xA9 => Some(Instruction::Load(Reg::A, Mode::Immediate)),
        0xA5 => Some(Instruction::Load(Reg::A, Mode::ZeroPage)),
        0xB5 => Some(Instruction::Load(Reg::A, Mode::ZeroPageX)),
        0xAD => Some(Instruction::Load(Reg::A, Mode::Absolute)),
        0xBD => Some(Instruction::Load(Reg::A, Mode::AbsoluteX)),
        0xB9 => Some(Instruction::Load(Reg::A, Mode::AbsoluteY)),
        0xA1 => Some(Instruction::Load(Reg::A, Mode::IndexedIndirect)),
        0xB1 => Some(Instruction::Load(Reg::A, Mode::IndirectIndexed)),
        0xA2 => Some(Instruction::Load(Reg::X, Mode::Immediate)),
        0xA6 => Some(Instruction::Load(Reg::X, Mode::ZeroPage)),
        0xB6 => Some(Instruction::Load(Reg::X, Mode::ZeroPageY)),
        0xAE => Some(Instruction::Load(Reg::X, Mode::Absolute)),
        0xBE => Some(Instruction::Load(Reg::X, Mode::AbsoluteY)),
        0xA0 => Some(Instruction::Load(Reg::Y, Mode::Immediate)),
        0xA4 => Some(Instruction::Load(Reg::Y, Mode::ZeroPage)),
        0xB4 => Some(Instruction::Load(Reg::Y, Mode::ZeroPageX)),
        0xAC => Some(Instruction::Load(Reg::Y, Mode::Absolute)),
        0xBC => Some(Instruction::Load(Reg::Y, Mode::AbsoluteX)),
        0x85 => Some(Instruction::Store(Reg::A, Mode::ZeroPage)),
        0x95 => Some(Instruction::Store(Reg::A, Mode::ZeroPageX)),
        0x8D => Some(Instruction::Store(Reg::A, Mode::Absolute)),
        0x9D => Some(Instruction::Store(Reg::A, Mode::AbsoluteX)),
        0x99 => Some(Instruction::Store(Reg::A, Mode::AbsoluteY)),
        0x81 => Some(Instruction::Store(Reg::A, Mode::IndexedIndirect)),
        0x91 => Some(Instruction::Store(Reg::A, Mode::IndirectIndexed)),
        0x86 => Some(Instruction::Store(Reg::X, Mode::ZeroPage)),
        0x96 => Some(Instruction::Store(Reg::X, Mode::ZeroPageY)),
        0x8E => Some(Instruction::Store(Reg::X, Mode::Absolute)),
        0x84 => Some(Instruction::Store(Reg::Y, Mode::ZeroPage)),
        0x94 => Some(Instruction::Store(Reg::Y, Mode::ZeroPageX)),
        0x8C => Some(Instruction::Store(Reg::Y, Mode::Absolute)),
        0x69 => Some(Instruction::Arith(Alu::Adc, Mode::Immediate)),
        0x65 => Some(Instruction::Arith(Alu::Adc, Mode::ZeroPage)),
        0x75 => Some(Instruction::Arith(Alu::Adc, Mode::ZeroPageX)),
        0x6D => Some(Instruction::Arith(Alu::Adc, Mode::Absolute)),
        0x7D => Some(Instruction::Arith(Alu::Adc, Mode::AbsoluteX)),
        0x79 => Some(Instruction::Arith(Alu::Adc, Mode::AbsoluteY)),
        0x61 => Some(Instruction::Arith(Alu::Adc, Mode::IndexedIndirect)),
        0x71 => Some(Instruction::Arith(Alu::Adc, Mode::IndirectIndexed)),
        0xE9 => Some(Instruction::Arith(Alu::Sbc, Mode::Immediate)),
        0xE5 => Some(Instruction::Arith(Alu::Sbc, Mode::ZeroPage)),
        0xF5 => Some(Instruction::Arith(Alu::Sbc, Mode::ZeroPageX)),
        0xED => Some(Instruction::Arith(Alu::Sbc, Mode::Absolute)),
        0xFD => Some(Instruction::Arith(Alu::Sbc, Mode::AbsoluteX)),
        0xF9 => Some(Instruction::Arith(Alu::Sbc, Mode::AbsoluteY)),
        0xE1 => Some(Instruction::Arith(Alu::Sbc, Mode::IndexedIndirect)),
        0xF1 => Some(Instruction::Arith(Alu::Sbc, Mode::IndirectIndexed)),
        0x29 => Some(Instruction::Arith(Alu::And, Mode::Immediate)),
        0x25 => Some(Instruction::Arith(Alu::And, Mode::ZeroPage)),
        0x35 => Some(Instruction::Arith(Alu::And, Mode::ZeroPageX)),
        0x2D => Some(Instruction::Arith(Alu::And, Mode::Absolute)),
        0x3D => Some(Instruction::Arith(Alu::And, Mode::AbsoluteX)),
        0x39 => Some(Instruction::Arith(Alu::And, Mode::AbsoluteY)),
        0x21 => Some(Instruction::Arith(Alu::And, Mode::IndexedIndirect)),
        0x31 => Some(Instruction::Arith(Alu::And, Mode::IndirectIndexed)),
        0x09 => Some(Instruction::Arith(Alu::Ora, Mode::Immediate)),
        0x05 => Some(Instruction::Arith(Alu::Ora, Mode::ZeroPage)),
        0x15 => Some(Instruction::Arith(Alu::Ora, Mode::ZeroPageX)),
        0x0D => Some(Instruction::Arith(Alu::Ora, Mode::Absolute)),
        0x1D => Some(Instruction::Arith(Alu::Ora, Mode::AbsoluteX)),
        0x19 => Some(Instruction::Arith(Alu::Ora, Mode::AbsoluteY)),
        0x01 => Some(Instruction::Arith(Alu::Ora, Mode::IndexedIndirect)),
        0x11 => Some(Instruction::Arith(Alu::Ora, Mode::IndirectIndexed)),
        0x49 => Some(Instruction::Arith(Alu::Eor, Mode::Immediate)),
        0x45 => Some(Instruction::Arith(Alu::Eor, Mode::ZeroPage)),
        0x55 => Some(Instruction::Arith(Alu::Eor, Mode::ZeroPageX)),
        0x4D => Some(Instruction::Arith(Alu::Eor, Mode::Absolute)),
        0x5D => Some(Instruction::Arith(Alu::Eor, Mode::AbsoluteX)),
        0x59 => Some(Instruction::Arith(Alu::Eor, Mode::AbsoluteY)),
        0x41 => Some(Instruction::Arith(Alu::Eor, Mode::IndexedIndirect)),
        0x51 => Some(Instruction::Arith(Alu::Eor, Mode::IndirectIndexed)),
        0xC9 => Some(Instruction::Compare(Reg::A, Mode::Immediate)),
        0xC5 => Some(Instruction::Compare(Reg::A, Mode::ZeroPage)),
        0xD5 => Some(Instruction::Compare(Reg::A, Mode::ZeroPageX)),
        0xCD => Some(Instruction::Compare(Reg::A, Mode::Absolute)),
        0xDD => Some(Instruction::Compare(Reg::A, Mode::AbsoluteX)),
        0xD9 => Some(Instruction::Compare(Reg::A, Mode::AbsoluteY)),
        0xC1 => Some(Instruction::Compare(Reg::A, Mode::IndexedIndirect)),
        0xD1 => Some(Instruction::Compare(Reg::A, Mode::IndirectIndexed)),
        0xE0 => Some(Instruction::Compare(Reg::X, Mode::Immediate)),
        0xE4 => Some(Instruction::Compare(Reg::X, Mode::ZeroPage)),
        0xEC => Some(Instruction::Compare(Reg::X, Mode::Absolute)),
        0xC0 => Some(Instruction::Compare(Reg::Y, Mode::Immediate)),
        0xC4 => Some(Instruction::Compare(Reg::Y, Mode::ZeroPage)),
        0xCC => Some(Instruction::Compare(Reg::Y, Mode::Absolute)),
        0x24 => Some(Instruction::BitTest(Mode::ZeroPage)),
        0x2C => Some(Instruction::BitTest(Mode::Absolute)),
        0x0A => Some(Instruction::ShiftA(Shift::Asl)),
        0x06 => Some(Instruction::ShiftM(Shift::Asl, Mode::ZeroPage)),
        0x16 => Some(Instruction::ShiftM(Shift::Asl, Mode::ZeroPageX)),
        0x0E => Some(Instruction::ShiftM(Shift::Asl, Mode::Absolute)),
        0x1E => Some(Instruction::ShiftM(Shift::Asl, Mode::AbsoluteX)),
        0x4A => Some(Instruction::ShiftA(Shift::Lsr)),
        0x46 => Some(Instruction::ShiftM(Shift::Lsr, Mode::ZeroPage)),
        0x56 => Some(Instruction::ShiftM(Shift::Lsr, Mode::ZeroPageX)),
        0x4E => Some(Instruction::ShiftM(Shift::Lsr, Mode::Absolute)),
        0x5E => Some(Instruction::ShiftM(Shift::Lsr, Mode::AbsoluteX)),
        0x2A => Some(Instruction::ShiftA(Shift::Rol)),
        0x26 => Some(Instruction::ShiftM(Shift::Rol, Mode::ZeroPage)),
        0x36 => Some(Instruction::ShiftM(Shift::Rol, Mode::ZeroPageX)),
        0x2E => Some(Instruction::ShiftM(Shift::Rol, Mode::Absolute)),
        0x3E => Some(Instruction::ShiftM(Shift::Rol, Mode::AbsoluteX)),
        0x6A => Some(Instruction::ShiftA(Shift::Ror)),
        0x66 => Some(Instruction::ShiftM(Shift::Ror, Mode::ZeroPage)),
        0x76 => Some(Instruction::ShiftM(Shift::Ror, Mode::ZeroPageX)),
        0x6E => Some(Instruction::ShiftM(Shift::Ror, Mode::Absolute)),
        0x7E => Some(Instruction::ShiftM(Shift::Ror, Mode::AbsoluteX)),
        0xE6 => Some(Instruction::IncM(Mode::ZeroPage)),
        0xF6 => Some(Instruction::IncM(Mode::ZeroPageX)),
        0xEE => Some(Instruction::IncM(Mode::Absolute)),
        0xFE => Some(Instruction::IncM(Mode::AbsoluteX)),
        0xC6 => Some(Instruction::DecM(Mode::ZeroPage)),
        0xD6 => Some(Instruction::DecM(Mode::ZeroPageX)),
        0xCE => Some(Instruction::DecM(Mode::Absolute)),
        0xDE => Some(Instruction::DecM(Mode::AbsoluteX)),
        0xE8 => Some(Instruction::IncR(Reg::X)),
        0xC8 => Some(Instruction::IncR(Reg::Y)),
        0xCA => Some(Instruction::DecR(Reg::X)),
        0x88 => Some(Instruction::DecR(Reg::Y)),
        0xB0 => Some(Instruction::Branch(CARRY, true)),
        0x90 => Some(Instruction::Branch(CARRY, false)),
        0xF0 => Some(Instruction::Branch(ZERO, true)),
        0xD0 => Some(Instruction::Branch(ZERO, false)),
        0x30 => Some(Instruction::Branch(NEGATIVE, true)),
        0x10 => Some(Instruction::Branch(NEGATIVE, false)),
        0x70 => Some(Instruction::Branch(OVERFLOW, true)),
        0x50 => Some(Instruction::Branch(OVERFLOW, false)),
        0x18 => Some(Instruction::Flag(CARRY, false)),
        0xD8 => Some(Instruction::Flag(DECIMAL, false)),
        0x58 => Some(Instruction::Flag(INTERRUPT_DISABLE, false)),
        0xB8 => Some(Instruction::Flag(OVERFLOW, false)),
        0x38 => Some(Instruction::Flag(CARRY, true)),
        0xF8 => Some(Instruction::Flag(DECIMAL, true)),
        0x78 => Some(Instruction::Flag(INTERRUPT_DISABLE, true)),
        0x4C => Some(Instruction::Jmp),
        0x6C => Some(Instruction::JmpIndirect),
        0x20 => Some(Instruction::Jsr),
        0x60 => Some(Instruction::Rts),
        0x40 => Some(Instruction::Rti),
        0x00 => Some(Instruction::Brk),
        0x48 => Some(Instruction::Pha),
        0x08 => Some(Instruction::Php),
        0x68 => Some(Instruction::Pla),
        0x28 => Some(Instruction::Plp),
        0xAA => Some(Instruction::Tax),
        0xA8 => Some(Instruction::Tay),
        0xBA => Some(Instruction::Tsx),
        0x8A => Some(Instruction::Txa),
        0x9A => Some(Instruction::Txs),
        0x98 => Some(Instruction::Tya),
        0xEA => Some(Instruction::Nop),
        _ => None,
    }
}

impl Registers {
    /// Resolves `mode` and reads the operand.
    pub(crate) fn operand<D: Device + ?Sized>(
        &mut self,
        bus: &Bus<D>,
        ticks: &mut u32,
        mode: Mode,
    ) -> (value: u8)
        requires
            *old(ticks) <= TICK_ROOM,
        ensures
            value == bus@.peek(isa::resolve(mode, *old(self), bus@).addr),
            *final(self) == old(self).advance(isa::operand_len(mode)),
            *final(ticks) == *old(ticks) + isa::read_cost(
                mode,
                isa::resolve(mode, *old(self), bus@).crossed,
            ),
            *final(ticks) <= *old(ticks) + 6,
    {
        proof {
            reveal(isa::read_cost);
        }
        match mode {
            Mode::Immediate => self.immediate_adressing(bus, ticks),
            Mode::ZeroPage => self.zero_page_adressing(bus, ticks),
            Mode::ZeroPageX => self.zero_page_adressing_x(bus, ticks),
            Mode::ZeroPageY => self.zero_page_adressing_y(bus, ticks),
            Mode::Absolute => self.absolute_adressing(bus, ticks),
            Mode::AbsoluteX => self.absolute_adressing_x(bus, ticks),
            Mode::AbsoluteY => self.absolute_adressing_y(bus, ticks),
            Mode::IndexedIndirect => self.indirect_indexing_adressing_x(bus, ticks),
            Mode::IndirectIndexed => self.indexing_indirect_adressing_y(bus, ticks),
        }
    }

    /// Resolves `mode` to the address of the operand, without reading it.
    pub(crate) fn address<D: Device + ?Sized>(
        &mut self,
        bus: &Bus<D>,
        ticks: &mut u32,
        mode: Mode,
    ) -> (addr: u16)
        requires
            *old(ticks) <= TICK_ROOM,
        ensures
            addr == isa::resolve(mode, *old(self), bus@).addr,
            *final(self) == old(self).advance(isa::operand_len(mode)),
            *final(ticks) == *old(ticks) + isa::address_cost(
                mode,
                isa::resolve(mode, *old(self), bus@).crossed,
            ),
            *final(ticks) <= *old(ticks) + 5,
    {
        proof {
            reveal(isa::read_cost);
            reveal(isa::address_cost);
        }
        match mode {
            Mode::Immediate => {
                proof {
                    reveal(isa::resolve);
                    reveal(isa::read_cost);
                    reveal(isa::address_cost);
                }
                let addr = self.pc;
                self.pc = self.pc.wrapping_add(1);
                addr
            },
            Mode::ZeroPage => self.get_zp_adress(bus, ticks),
            Mode::ZeroPageX => self.get_zp_adress_x(bus, ticks),
            Mode::ZeroPageY => self.get_zp_adress_y(bus, ticks),
            Mode::Absolute => self.get_absolute_adress(bus, ticks),
            Mode::AbsoluteX => self.get_absolute_adress_x(bus, ticks),
            Mode::AbsoluteY => self.get_absolute_adress_y(bus, ticks),
            Mode::IndexedIndirect => self.get_indirect_indexing_adress(bus, ticks),
            Mode::IndirectIndexed => self.get_indexing_indirect_adress(bus, ticks),
        }
    }

    /// Performs `ins`, whose opcode was just fetched; `ticks` holds the cycle of
    /// that fetch.
    pub(crate) fn perform<D: Device + ?Sized>(
        &mut self,
        bus: &mut Bus<D>,
        ticks: &mut u32,
        ins: Instruction,
        bug: bool,
    )
        requires
            ins.wf(),
            *old(ticks) == 1,
        ensures
            *final(self) == isa::perform(
                ins,
                State { regs: *old(self), bus: old(bus)@ },
                bug,
            ).regs,
            final(bus)@ == isa::perform(ins, State { regs: *old(self), bus: old(bus)@ }, bug).bus,
            *final(ticks) == isa::perform(
                ins,
                State { regs: *old(self), bus: old(bus)@ },
                bug,
            ).ticks,
    {
        match ins {
            Instruction::Load(which, mode) => {
                let value = self.operand(bus, ticks, mode);
                match which {
                    Reg::A => {
                        self.a = value;
                    },
                    Reg::X => {
                        self.x = value;
                    },
                    Reg::Y => {
                        self.y = value;
                    },
                }
                self.ld_set_status(value);
            },
            Instruction::Store(which, mode) => {
                let addr = self.address(bus, ticks, mode);
                match which {
                    Reg::A => self.sta(bus, addr, ticks),
                    Reg::X => self.stx(bus, addr, ticks),
                    Reg::Y => self.sty(bus, addr, ticks),
                }
            },
            Instruction::Arith(op, mode) => {
                let value = self.operand(bus, ticks, mode);
                match op {
                    Alu::Adc => self.adc(value),
                    Alu::Sbc => self.sbc(value),
                    Alu::And => self.and(value),
                    Alu::Ora => self.ora(value, ticks),
                    Alu::Eor => self.eor(ticks, value),
                }
            },
            Instruction::Compare(which, mode) => {
                let value = self.operand(bus, ticks, mode);
                match which {
                    Reg::A => self.compare_set_status(value),
                    Reg::X => self.cpx_set_status(value),
                    Reg::Y => self.cpy_set_status(value),
                }
                *ticks += 1;
            },
            Instruction::BitTest(mode) => {
                let value = self.operand(bus, ticks, mode);
                self.bit_test(value, ticks);
            },
            Instruction::ShiftA(op) => {
                match op {
                    Shift::Asl => {
                        let value = self.accumulator_adressing(ticks);
                        self.asl_acc(value);
                    },
                    Shift::Lsr => {
                        let value = self.accumulator_adressing(ticks);
                        self.lsr_acc(value);
                    },
                    Shift::Rol => self.rol_a(ticks),
                    Shift::Ror => self.ror_a(ticks),
                }
            },
            Instruction::ShiftM(op, mode) => {
                let addr = self.address(bus, ticks, mode);
                match op {
                    Shift::Asl => self.asl_mem(bus, addr, ticks),
                    Shift::Lsr => self.lsr_mem(bus, addr, ticks),
                    Shift::Rol => self.rol(bus, addr, ticks),
                    Shift::Ror => self.ror(bus, addr, ticks),
                }
            },
            Instruction::IncM(mode) => {
                let addr = self.address(bus, ticks, mode);
                self.inc(bus, ticks, addr);
            },
            Instruction::DecM(mode) => {
                let addr = self.address(bus, ticks, mode);
                self.dec(bus, ticks, addr);
            },
            Instruction::IncR(which) => {
                match which {
                    Reg::A => {
                        proof {
                            reveal(isa::step_reg);
                        }
                        *ticks += 1;
                        self.a = self.a.wrapping_add(1);
                        self.dec_set_status(self.a);
                    },
                    Reg::X => self.incx(ticks),
                    Reg::Y => self.incy(ticks),
                }
            },
            Instruction::DecR(which) => {
                match which {
                    Reg::A => {
                        proof {
                            reveal(isa::step_reg);
                        }
                        *ticks += 1;
                        self.a = self.a.wrapping_sub(1);
                        self.dec_set_status(self.a);
                    },
                    Reg::X => self.decx(ticks),
                    Reg::Y => self.decy(ticks),
                }
            },
            Instruction::Branch(pos, on) => self.branch(bus, ticks, pos, on),
            Instruction::Flag(pos, on) => {
                self.set_status(on, pos);
                if on {
                    *ticks += 1;
                }
            },
            Instruction::Jmp => {
                self.pc = self.get_absolute_adress(bus, ticks);
            },
            Instruction::JmpIndirect => {
                self.pc = self.get_indirect_adress(bus, ticks, bug);
            },
            Instruction::Jsr => {
                let target = self.get_absolute_adress(bus, ticks);
                self.jsr(bus, ticks, target);
            },
            Instruction::Rts => self.rts(bus, ticks),
            Instruction::Rti => self.rti(bus, ticks),
            Instruction::Brk => self.brk(bus, ticks),
            Instruction::Pha => self.pha(bus, ticks),
            Instruction::Php => self.php(bus, ticks),
            Instruction::Pla => self.pla(bus, ticks),
            Instruction::Plp => self.plp(bus, ticks),
            Instruction::Tax => self.tax(ticks),
            Instruction::Tay => self.tay(ticks),
            Instruction::Tsx => self.tsx(ticks),
            Instruction::Txa => self.txa(ticks),
            Instruction::Txs => self.txs(ticks),
            Instruction::Tya => self.tya(ticks),
            Instruction::Nop => {
                *ticks += 1;
            },
        }
    }
}

impl CPU {
    /// Executes one instruction and returns the cycles it took. An opcode that
    /// stands for no instruction takes the cycle of its fetch and does nothing.
    pub fn execute_instruction<D: Device + ?Sized>(&mut self, bus: &mut Bus<D>) -> (ticks: u32)
        ensures
            final(self).jmp_bug() == old(self).jmp_bug(),
            final(self)@ == step(old(self)@, old(bus)@, old(self).jmp_bug()).regs,
            final(bus)@ == step(old(self)@, old(bus)@, old(self).jmp_bug()).bus,
            ticks == step(old(self)@, old(bus)@, old(self).jmp_bug()).ticks,
    {
        let mut ticks: u32 = 0;
        let opcode = self.regs.fetch_byte(bus);
        ticks += 1;
        match decode_opcode(opcode) {
            Some(ins) => {
                let bug = self.config.emulate_indirect_jmp_bug;
                self.regs.perform(bus, &mut ticks, ins, bug);
            },
            None => {},
        }
        ticks
    }

    /// Executes `steps` instructions and returns the cycles they took together.
    pub fn step<D: Device + ?Sized>(&mut self, bus: &mut Bus<D>, steps: u32) -> (ret: u32)
        requires
            steps * 8 <= u32::MAX,
        ensures
            final(self).jmp_bug() == old(self).jmp_bug(),
            final(self)@ == self::steps(
                old(self)@,
                old(bus)@,
                old(self).jmp_bug(),
                steps as nat,
            ).regs,
            final(bus)@ == self::steps(
                old(self)@,
                old(bus)@,
                old(self).jmp_bug(),
                steps as nat,
            ).bus,
            ret == self::steps(old(self)@, old(bus)@, old(self).jmp_bug(), steps as nat).ticks,
    {
        let mut ret: u32 = 0;
        let mut done: u32 = 0;
        while done < steps
            invariant
                done <= steps,
                steps * 8 <= u32::MAX,
                ret <= done * 8,
                self.jmp_bug() == old(self).jmp_bug(),
                self::steps(old(self)@, old(bus)@, old(self).jmp_bug(), steps as nat)
                    == self::steps(self@, bus@, self.jmp_bug(), (steps - done) as nat).later(
                    ret as nat,
                ),
            decreases steps - done,
        {
            proof {
                lemma_step_cost(self@, bus@, self.jmp_bug());
            }
            ret += self.execute_instruction(bus);
            done += 1;
        }
        ret
    }

    /// Executes instructions until at least `min_ticks` cycles have passed; the
    /// instruction that reaches the count is completed.
    pub fn execute<D: Device + ?Sized>(&mut self, bus: &mut Bus<D>, min_ticks: u32)
        ensures
            final(self).jmp_bug() == old(self).jmp_bug(),
            final(self)@ == spend(
                old(self)@,
                old(bus)@,
                old(self).jmp_bug(),
                min_ticks as int,
            ).regs,
            final(bus)@ == spend(old(self)@, old(bus)@, old(self).jmp_bug(), min_ticks as int).bus,
    {
        let mut ticks: u64 = 0;
        while (min_ticks as u64) > ticks
            invariant
                ticks <= min_ticks + 8,
                self.jmp_bug() == old(self).jmp_bug(),
                spend(old(self)@, old(bus)@, old(self).jmp_bug(), min_ticks as int) == spend(
                    self@,
                    bus@,
                    self.jmp_bug(),
                    min_ticks - ticks,
                ).later(ticks as nat),
            decreases min_ticks + 8 - ticks,
        {
            proof {
                lemma_step_cost(self@, bus@, self.jmp_bug());
            }
            ticks += self.execute_instruction(bus) as u64;
        }
    }
}

} // verus!
