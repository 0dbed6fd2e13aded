//! The instructions: what each does to the registers and to memory once its
//! operand or address is resolved, and what it adds to the cycle counter.

use crate::bus::{Bus, Device};
use crate::cpu::isa;
use crate::cpu::isa::{Alu, Reg, Shift, State};
use crate::cpu::model::{
    lemma_masks, lemma_sign_tests, negative, with_bit, Registers, CARRY, NEGATIVE, TICK_ROOM,
    ZERO,
};
use vstd::prelude::*;

verus! {

impl Registers {
    /// Add with carry.
    pub(crate) fn adc(&mut self, value: u8)
        ensures
            *final(self) == isa::adc(*old(self), value),
    {
        proof {
            reveal(isa::adc);
        }
        proof {
            lemma_masks(self.status);
        }
        let carry_in: u16 = if self.status & 0x01 != 0 {
            1
        } else {
            0
        };
        let sum: u16 = self.a as u16 + value as u16 + carry_in;
        let result: u8 = if sum > 0xFF {
            (sum - 0x100) as u8
        } else {
            sum as u8
        };
        let carry_out = sum > 0xFF;
        let overflow = (!(self.a ^ value) & (self.a ^ result) & 0x80) != 0;
        proof {
            lemma_sign_tests(self.a, value, result);
        }
        self.a = result;
        self.adc_set_status(carry_out, overflow);
    }

    /// Subtract with borrow.
    pub(crate) fn sbc(&mut self, value: u8)
        ensures
            *final(self) == isa::sbc(*old(self), value),
    {
        proof {
            reveal(isa::sbc);
        }
        proof {
            lemma_masks(self.status);
        }
        let borrow: u16 = if self.status & 0x01 != 0 {
            0
        } else {
            1
        };
        let raised: u16 = 0x100 + self.a as u16 - value as u16 - borrow;
        let no_borrow = raised >= 0x100;
        let result: u8 = if no_borrow {
            (raised - 0x100) as u8
        } else {
            raised as u8
        };
        let overflow = ((self.a ^ value) & (self.a ^ result) & 0x80) != 0;
        proof {
            lemma_sign_tests(self.a, value, result);
        }
        self.a = result;
        self.sbc_set_status(no_borrow, overflow);
    }

    /// Logical and of the accumulator with `value`.
    pub(crate) fn and(&mut self, value: u8)
        ensures
            *final(self) == isa::alu(Alu::And, *old(self), value),
    {
        self.a = self.a & value;
        self.and_set_status();
    }

    /// Logical or of the accumulator with `value`.
    pub(crate) fn ora(&mut self, value: u8, ticks: &mut u32)
        requires
            *old(ticks) <= TICK_ROOM,
        ensures
            *final(self) == isa::alu(Alu::Ora, *old(self), value),
            *final(ticks) == *old(ticks) + isa::alu_cost(Alu::Ora),
    {
        *ticks += 1;
        self.a = self.a | value;
        self.eor_set_status(self.a);
    }

    /// Exclusive or of the accumulator with `value`.
    pub(crate) fn eor(&mut self, ticks: &mut u32, value: u8)
        requires
            *old(ticks) <= TICK_ROOM,
        ensures
            *final(self) == isa::alu(Alu::Eor, *old(self), value),
            *final(ticks) == *old(ticks) + isa::alu_cost(Alu::Eor),
    {
        *ticks += 1;
        self.a = self.a ^ value;
        self.eor_set_status(self.a);
    }

    /// A branch on the flag at bit `pos` being `on`: taken, the offset byte is
    /// added to the address of the next instruction; not taken, the offset byte is
    /// stepped over.
    pub(crate) fn branch<D: Device + ?Sized>(
        &mut self,
        bus: &Bus<D>,
        ticks: &mut u32,
        pos: u8,
        on: bool,
    )
        requires
            pos < 8,
            *old(ticks) <= TICK_ROOM,
        ensures
            *final(self) == isa::branch(pos, on, State { regs: *old(self), bus: bus@ }).regs,
            bus@ == isa::branch(pos, on, State { regs: *old(self), bus: bus@ }).bus,
            *final(ticks) + 1 == *old(ticks) + isa::branch(
                pos,
                on,
                State { regs: *old(self), bus: bus@ },
            ).ticks,
    {
        proof {
            reveal(isa::branch);
        }
        *ticks += 2;
        if (self.status & (1u8 << pos) != 0) == on {
            self.relative_adressing(bus, ticks);
        } else {
            self.pc = self.pc.wrapping_add(1);
        }
    }

    /// Tests `value` against the accumulator without changing either.
    pub(crate) fn bit_test(&mut self, value: u8, ticks: &mut u32)
        requires
            *old(ticks) <= TICK_ROOM,
        ensures
            *final(self) == old(self).with_status(
                isa::bit_tested(old(self).status, old(self).a, value),
            ),
            *final(ticks) == *old(ticks) + 1,
    {
        proof {
            reveal(isa::bit_tested);
        }
        proof {
            lemma_masks(value);
        }
        self.set_status(self.a & value == 0, 1);
        self.set_status(value & 0b01000000 != 0, 6);
        self.set_status(value & 0b10000000 != 0, 7);
        *ticks += 1;
    }

    /// Shifts `value`, the accumulator as the caller read it, left into the
    /// accumulator; Carry takes bit 7 of the accumulator.
    pub(crate) fn asl_acc(&mut self, value: u8)
        ensures
            *final(self) == (Registers {
                a: isa::shifted(Shift::Asl, value, false),
                status: with_bit(
                    with_bit(
                        with_bit(old(self).status, CARRY, negative(old(self).a)),
                        ZERO,
                        isa::shifted(Shift::Asl, value, false) == 0,
                    ),
                    NEGATIVE,
                    negative(isa::shifted(Shift::Asl, value, false)),
                ),
                ..*old(self)
            }),
            value == old(self).a ==> *final(self) == isa::shift_a(Shift::Asl, *old(self)),
    {
        proof {
            reveal(isa::shifted);
            reveal(isa::shifted_out);
            reveal(isa::shift_status);
            reveal(isa::shift_a);
        }
        proof {
            lemma_masks(self.a);
        }
        let c = self.a & 0b10000000 != 0;
        self.a = value.wrapping_mul(2);
        self.asl_set_status(self.a, c);
    }

    /// Shifts the byte at `addr` left; Carry takes its bit 7.
    pub(crate) fn asl_mem<D: Device + ?Sized>(
        &mut self,
        bus: &mut Bus<D>,
        addr: u16,
        ticks: &mut u32,
    )
        requires
            *old(ticks) <= TICK_ROOM,
        ensures
            (State { regs: *final(self), bus: final(bus)@ }) == isa::shift_at(
                Shift::Asl,
                State { regs: *old(self), bus: old(bus)@ },
                addr,
            ),
            *final(ticks) == *old(ticks) + 3,
    {
        proof {
            reveal(isa::shifted);
            reveal(isa::shifted_out);
            reveal(isa::shift_status);
            reveal(isa::shift_at);
        }
        let i = bus.read(addr);
        proof {
            lemma_masks(i);
        }
        let c = i & 0b10000000 != 0;
        let v = i.wrapping_mul(2);
        *ticks += 3;
        bus.write(addr, v);
        self.asl_set_status(v, c);
    }

    /// Shifts `value`, the accumulator as the caller read it, right into the
    /// accumulator; Carry takes bit 0 of the accumulator.
    pub(crate) fn lsr_acc(&mut self, value: u8)
        ensures
            *final(self) == (Registers {
                a: isa::shifted(Shift::Lsr, value, false),
                status: with_bit(
                    with_bit(
                        with_bit(old(self).status, CARRY, old(self).a % 2 == 1),
                        ZERO,
                        isa::shifted(Shift::Lsr, value, false) == 0,
                    ),
                    NEGATIVE,
                    negative(isa::shifted(Shift::Lsr, value, false)),
                ),
                ..*old(self)
            }),
            value == old(self).a ==> *final(self) == isa::shift_a(Shift::Lsr, *old(self)),
    {
        proof {
            reveal(isa::shifted);
            reveal(isa::shifted_out);
            reveal(isa::shift_status);
            reveal(isa::shift_a);
        }
        proof {
            lemma_masks(self.a);
        }
        let c = self.a & 0b00000001 != 0;
        self.a = value / 2;
        self.asl_set_status(self.a, c);
    }

    /// Shifts the byte at `addr` right; Carry takes its bit 0.
    pub(crate) fn lsr_mem<D: Device + ?Sized>(
        &mut self,
        bus: &mut Bus<D>,
        addr: u16,
        ticks: &mut u32,
    )
        requires
            *old(ticks) <= TICK_ROOM,
        ensures
            (State { regs: *final(self), bus: final(bus)@ }) == isa::shift_at(
                Shift::Lsr,
                State { regs: *old(self), bus: old(bus)@ },
                addr,
            ),
            *final(ticks) == *old(ticks) + 3,
    {
        proof {
            reveal(isa::shifted);
            reveal(isa::shifted_out);
            reveal(isa::shift_status);
            reveal(isa::shift_at);
        }
        let i = bus.read(addr);
        proof {
            lemma_masks(i);
        }
        let c = i & 0b00000001 != 0;
        let v = i / 2;
        *ticks += 3;
        bus.write(addr, v);
        self.asl_set_status(v, c);
    }

    /// Rotates the accumulator left through Carry.
    pub(crate) fn rol_a(&mut self, ticks: &mut u32)
        requires
            *old(ticks) <= TICK_ROOM,
        ensures
            *final(self) == isa::shift_a(Shift::Rol, *old(self)),
            *final(ticks) == *old(ticks) + 1,
    {
        proof {
            reveal(isa::shifted);
            reveal(isa::shifted_out);
            reveal(isa::shift_status);
            reveal(isa::shift_a);
        }
        proof {
            lemma_masks(self.a);
            lemma_masks(self.status);
        }
        let msb = self.a & 0b10000000 != 0;
        let carry_in: u8 = if self.status & 0b00000001 != 0 {
            1
        } else {
            0
        };
        self.a = self.a.wrapping_mul(2).wrapping_add(carry_in);
        *ticks += 1;
        self.rotate_set_status(self.a, msb);
    }

    /// Rotates the byte at `addr` left through Carry.
    pub(crate) fn rol<D: Device + ?Sized>(&mut self, bus: &mut Bus<D>, addr: u16, ticks: &mut u32)
        requires
            *old(ticks) <= TICK_ROOM,
        ensures
            (State { regs: *final(self), bus: final(bus)@ }) == isa::shift_at(
                Shift::Rol,
                State { regs: *old(self), bus: old(bus)@ },
                addr,
            ),
            *final(ticks) == *old(ticks) + 3,
    {
        proof {
            reveal(isa::shifted);
            reveal(isa::shifted_out);
            reveal(isa::shift_status);
            reveal(isa::shift_at);
        }
        let ov = bus.read(addr);
        proof {
            lemma_masks(ov);
            lemma_masks(self.status);
        }
        let msb = ov & 0b10000000 != 0;
        let carry_in: u8 = if self.status & 0b00000001 != 0 {
            1
        } else {
            0
        };
        let v = ov.wrapping_mul(2).wrapping_add(carry_in);
        bus.write(addr, v);
        *ticks += 3;
        self.rotate_set_status(v, msb);
    }

    /// Rotates the accumulator right through Carry.
    pub(crate) fn ror_a(&mut self, ticks: &mut u32)
        requires
            *old(ticks) <= TICK_ROOM,
        ensures
            *final(self) == isa::shift_a(Shift::Ror, *old(self)),
            *final(ticks) == *old(ticks) + 1,
    {
        proof {
            reveal(isa::shifted);
            reveal(isa::shifted_out);
            reveal(isa::shift_status);
            reveal(isa::shift_a);
        }
        proof {
            lemma_masks(self.a);
            lemma_masks(self.status);
        }
        let lsb = self.a & 0b00000001 != 0;
        let carry_in: u8 = if self.status & 0b00000001 != 0 {
            1
        } else {
            0
        };
        self.a = self.a / 2 + 128 * carry_in;
        *ticks += 1;
        self.rotate_set_status(self.a, lsb);
    }

    /// Rotates the byte at `addr` right through Carry.
    pub(crate) fn ror<D: Device + ?Sized>(&mut self, bus: &mut Bus<D>, addr: u16, ticks: &mut u32)
        requires
            *old(ticks) <= TICK_ROOM,
        ensures
            (State { regs: *final(self), bus: final(bus)@ }) == isa::shift_at(
                Shift::Ror,
                State { regs: *old(self), bus: old(bus)@ },
                addr,
            ),
            *final(ticks) == *old(ticks) + 3,
    {
        proof {
            reveal(isa::shifted);
            reveal(isa::shifted_out);
            reveal(isa::shift_status);
            reveal(isa::shift_at);
        }
        let ov = bus.read(addr);
        proof {
            lemma_masks(ov);
            lemma_masks(self.status);
        }
        let lsb = ov & 0b00000001 != 0;
        let carry_in: u8 = if self.status & 0b00000001 != 0 {
            1
        } else {
            0
        };
        let v = ov / 2 + 128 * carry_in;
        bus.write(addr, v);
        *ticks += 3;
        self.rotate_set_status(v, lsb);
    }

    /// Adds one to the byte at `addr`, modulo 256.
    pub(crate) fn inc<D: Device + ?Sized>(&mut self, bus: &mut Bus<D>, ticks: &mut u32, addr: u16)
        requires
            *old(ticks) <= TICK_ROOM,
        ensures
            (State { regs: *final(self), bus: final(bus)@ }) == isa::step_at(
                1,
                State { regs: *old(self), bus: old(bus)@ },
                addr,
            ),
            *final(ticks) == *old(ticks) + 3,
    {
        proof {
            reveal(isa::step_at);
        }
        let value = bus.read(addr).wrapping_add(1);
        *ticks += 3;
        bus.write(addr, value);
        self.dec_set_status(value);
    }

    /// Takes one from the byte at `addr`, modulo 256.
    pub(crate) fn dec<D: Device + ?Sized>(&mut self, bus: &mut Bus<D>, ticks: &mut u32, addr: u16)
        requires
            *old(ticks) <= TICK_ROOM,
        ensures
            (State { regs: *final(self), bus: final(bus)@ }) == isa::step_at(
                -1,
                State { regs: *old(self), bus: old(bus)@ },
                addr,
            ),
            *final(ticks) == *old(ticks) + 3,
    {
        proof {
            reveal(isa::step_at);
        }
        let value = bus.read(addr).wrapping_sub(1);
        *ticks += 3;
        bus.write(addr, value);
        self.dec_set_status(value);
    }

    /// Adds one to X, modulo 256.
    pub(crate) fn incx(&mut self, ticks: &mut u32)
        requires
            *old(ticks) <= TICK_ROOM,
        ensures
            *final(self) == isa::step_reg(1, *old(self), Reg::X),
            *final(ticks) == *old(ticks) + 1,
    {
        proof {
            reveal(isa::step_reg);
        }
        *ticks += 1;
        self.x = self.x.wrapping_add(1);
        self.dec_set_status(self.x);
    }

    /// Adds one to Y, modulo 256.
    pub(crate) fn incy(&mut self, ticks: &mut u32)
        requires
            *old(ticks) <= TICK_ROOM,
        ensures
            *final(self) == isa::step_reg(1, *old(self), Reg::Y),
            *final(ticks) == *old(ticks) + 1,
    {
        proof {
            reveal(isa::step_reg);
        }
        *ticks += 1;
        self.y = self.y.wrapping_add(1);
        self.dec_set_status(self.y);
    }

    /// Takes one from X, modulo 256.
    pub(crate) fn decx(&mut self, ticks: &mut u32)
        requires
            *old(ticks) <= TICK_ROOM,
        ensures
            *final(self) == isa::step_reg(-1, *old(self), Reg::X),
            *final(ticks) == *old(ticks) + 1,
    {
        proof {
            reveal(isa::step_reg);
        }
        *ticks += 1;
        self.x = self.x.wrapping_sub(1);
        self.dec_set_status(self.x);
    }

    /// Takes one from Y, modulo 256.
    pub(crate) fn decy(&mut self, ticks: &mut u32)
        requires
            *old(ticks) <= TICK_ROOM,
        ensures
            *final(self) == isa::step_reg(-1, *old(self), Reg::Y),
            *final(ticks) == *old(ticks) + 1,
    {
        proof {
            reveal(isa::step_reg);
        }
        *ticks += 1;
        self.y = self.y.wrapping_sub(1);
        self.dec_set_status(self.y);
    }

    /// Stores the accumulator at `addr`.
    pub(crate) fn sta<D: Device + ?Sized>(&mut self, bus: &mut Bus<D>, addr: u16, ticks: &mut u32)
        requires
            *old(ticks) <= TICK_ROOM,
        ensures
            *final(self) == *old(self),
            final(bus)@ == old(bus)@.poked(addr, old(self).a),
            *final(ticks) == *old(ticks) + 1,
    {
        bus.write(addr, self.a);
        *ticks += 1;
    }

    /// Stores X at `addr`.
    pub(crate) fn stx<D: Device + ?Sized>(&mut self, bus: &mut Bus<D>, addr: u16, ticks: &mut u32)
        requires
            *old(ticks) <= TICK_ROOM,
        ensures
            *final(self) == *old(self),
            final(bus)@ == old(bus)@.poked(addr, old(self).x),
            *final(ticks) == *old(ticks) + 1,
    {
        bus.write(addr, self.x);
        *ticks += 1;
    }

    /// Stores Y at `addr`.
    pub(crate) fn sty<D: Device + ?Sized>(&mut self, bus: &mut Bus<D>, addr: u16, ticks: &mut u32)
        requires
            *old(ticks) <= TICK_ROOM,
        ensures
            *final(self) == *old(self),
            final(bus)@ == old(bus)@.poked(addr, old(self).y),
            *final(ticks) == *old(ticks) + 1,
    {
        bus.write(addr, self.y);
        *ticks += 1;
    }

    /// The accumulator goes to X.
    pub(crate) fn tax(&mut self, ticks: &mut u32)
        requires
            *old(ticks) <= TICK_ROOM,
        ensures
            *final(self) == isa::load(*old(self), Reg::X, old(self).a),
            *final(ticks) == *old(ticks) + 1,
    {
        *ticks += 1;
        self.x = self.a;
        self.ld_set_status(self.x);
    }

    /// The accumulator goes to Y.
    pub(crate) fn tay(&mut self, ticks: &mut u32)
        requires
            *old(ticks) <= TICK_ROOM,
        ensures
            *final(self) == isa::load(*old(self), Reg::Y, old(self).a),
            *final(ticks) == *old(ticks) + 1,
    {
        *ticks += 1;
        self.y = self.a;
        self.ld_set_status(self.y);
    }

    /// The stack pointer goes to X.
    pub(crate) fn tsx(&mut self, ticks: &mut u32)
        requires
            *old(ticks) <= TICK_ROOM,
        ensures
            *final(self) == isa::load(*old(self), Reg::X, old(self).sp),
            *final(ticks) == *old(ticks) + 1,
    {
        *ticks += 1;
        self.x = self.sp;
        self.ld_set_status(self.x);
    }

    /// X goes to the accumulator.
    pub(crate) fn txa(&mut self, ticks: &mut u32)
        requires
            *old(ticks) <= TICK_ROOM,
        ensures
            *final(self) == isa::load(*old(self), Reg::A, old(self).x),
            *final(ticks) == *old(ticks) + 1,
    {
        *ticks += 1;
        self.a = self.x;
        self.ld_set_status(self.a);
    }

    /// X goes to the stack pointer; no flag changes.
    pub(crate) fn txs(&mut self, ticks: &mut u32)
        requires
            *old(ticks) <= TICK_ROOM,
        ensures
            *final(self) == (Registers { sp: old(self).x, ..*old(self) }),
            *final(ticks) == *old(ticks) + 1,
    {
        *ticks += 1;
        self.sp = self.x;
    }

    /// Y goes to the accumulator.
    pub(crate) fn tya(&mut self, ticks: &mut u32)
        requires
            *old(ticks) <= TICK_ROOM,
        ensures
            *final(self) == isa::load(*old(self), Reg::A, old(self).y),
            *final(ticks) == *old(ticks) + 1,
    {
        *ticks += 1;
        self.a = self.y;
        self.ld_set_status(self.a);
    }

    /// Pushes the accumulator.
    pub(crate) fn pha<D: Device + ?Sized>(&mut self, bus: &mut Bus<D>, ticks: &mut u32)
        requires
            *old(ticks) <= TICK_ROOM,
        ensures
            (State { regs: *final(self), bus: final(bus)@ }) == isa::push(
                State { regs: *old(self), bus: old(bus)@ },
                old(self).a,
            ),
            *final(ticks) == *old(ticks) + 2,
    {
        self.push_byte_stack(bus, self.a);
        *ticks += 2;
    }

    /// Pushes the status with Break and Unused set.
    pub(crate) fn php<D: Device + ?Sized>(&mut self, bus: &mut Bus<D>, ticks: &mut u32)
        requires
            *old(ticks) <= TICK_ROOM,
        ensures
            (State { regs: *final(self), bus: final(bus)@ }) == isa::push(
                State { regs: *old(self), bus: old(bus)@ },
                isa::pushed_status(old(self).status),
            ),
            *final(ticks) == *old(ticks) + 2,
    {
        proof {
            reveal(isa::pushed_status);
        }
        let status = self.status | 0b00110000;
        proof {
            lemma_pushed_status(self.status);
        }
        self.push_byte_stack(bus, status);
        *ticks += 2;
    }

    /// Pulls the accumulator; Zero and Negative follow it.
    pub(crate) fn pla<D: Device + ?Sized>(&mut self, bus: &Bus<D>, ticks: &mut u32)
        requires
            *old(ticks) <= TICK_ROOM,
        ensures
            *final(self) == isa::load(
                isa::pull_regs(*old(self)),
                Reg::A,
                isa::pull_value(State { regs: *old(self), bus: bus@ }),
            ),
            *final(ticks) == *old(ticks) + 3,
    {
        self.a = self.pull_byte_stack(bus);
        self.ld_set_status(self.a);
        *ticks += 3;
    }

    /// Pulls the status; Unused is set whatever was pulled.
    pub(crate) fn plp<D: Device + ?Sized>(&mut self, bus: &Bus<D>, ticks: &mut u32)
        requires
            *old(ticks) <= TICK_ROOM,
        ensures
            *final(self) == isa::pull_regs(*old(self)).with_status(
                with_bit(
                    isa::pull_value(State { regs: *old(self), bus: bus@ }),
                    crate::cpu::model::UNUSED,
                    true,
                ),
            ),
            *final(ticks) == *old(ticks) + 3,
    {
        let pulled = self.pull_byte_stack(bus);
        proof {
            lemma_pushed_status(pulled);
        }
        self.status = pulled | 0b00100000;
        *ticks += 3;
    }

    /// Jump to subroutine, the target already resolved.
    pub(crate) fn jsr<D: Device + ?Sized>(&mut self, bus: &mut Bus<D>, ticks: &mut u32, target: u16)
        requires
            *old(ticks) <= TICK_ROOM,
        ensures
            (State { regs: *final(self), bus: final(bus)@ }) == isa::jsr(
                State { regs: *old(self), bus: old(bus)@ },
                target,
            ),
            *final(ticks) == *old(ticks) + 3,
    {
        proof {
            reveal(isa::jsr);
        }
        *ticks += 3;
        let ret_addr = self.pc.wrapping_sub(1);
        self.push_byte_stack(bus, (ret_addr / 256) as u8);
        self.push_byte_stack(bus, (ret_addr % 256) as u8);
        self.pc = target;
    }

    /// Returns from a subroutine: pulls the program counter and moves it on by one.
    pub(crate) fn rts<D: Device + ?Sized>(&mut self, bus: &mut Bus<D>, ticks: &mut u32)
        requires
            *old(ticks) <= TICK_ROOM,
        ensures
            (State { regs: *final(self), bus: final(bus)@ }) == isa::rts(
                State { regs: *old(self), bus: old(bus)@ },
            ),
            *final(ticks) == *old(ticks) + 5,
    {
        proof {
            reveal(isa::rts);
        }
        *ticks += 5;
        let pc_lsb = self.pull_byte_stack(bus) as u16;
        let pc_msb = self.pull_byte_stack(bus) as u16;
        self.pc = (pc_msb * 256 + pc_lsb).wrapping_add(1);
    }

    /// Returns from an interrupt: pulls the status, clearing Break, then the
    /// program counter.
    pub(crate) fn rti<D: Device + ?Sized>(&mut self, bus: &mut Bus<D>, ticks: &mut u32)
        requires
            *old(ticks) <= TICK_ROOM,
        ensures
            (State { regs: *final(self), bus: final(bus)@ }) == isa::rti(
                State { regs: *old(self), bus: old(bus)@ },
            ),
            *final(ticks) == *old(ticks) + 5,
    {
        proof {
            reveal(isa::rti);
        }
        *ticks += 5;
        self.status = self.pull_byte_stack(bus);
        self.set_status(false, 4);
        let pc_lsb = self.pull_byte_stack(bus) as u16;
        let pc_msb = self.pull_byte_stack(bus) as u16;
        self.pc = pc_msb * 256 + pc_lsb;
    }

    /// Break: pushes the program counter and the status and jumps through the
    /// interrupt vector.
    pub(crate) fn brk<D: Device + ?Sized>(&mut self, bus: &mut Bus<D>, ticks: &mut u32)
        requires
            *old(ticks) <= TICK_ROOM,
        ensures
            (State { regs: *final(self), bus: final(bus)@ }) == isa::brk(
                State { regs: *old(self), bus: old(bus)@ },
            ),
            *final(ticks) == *old(ticks) + 7,
    {
        proof {
            reveal(isa::brk);
            reveal(isa::push);
            reveal(isa::pushed_status);
        }
        self.set_status(true, 4);
        self.pc = self.pc.wrapping_add(1);
        self.push_byte_stack(bus, (self.pc / 256) as u8);
        self.push_byte_stack(bus, (self.pc % 256) as u8);
        let status = self.status | 0b00110000;
        proof {
            lemma_pushed_status(self.status);
        }
        self.push_byte_stack(bus, status);
        let lo = bus.read(0xFFFE) as u16;
        let hi = bus.read(0xFFFF) as u16;
        self.pc = hi * 256 + lo;
        *ticks += 7;
    }
}

/// Or-ing 0x30 into a status byte sets Break and Unused; or-ing 0x20 sets Unused.
pub proof fn lemma_pushed_status(status: u8)
    by (bit_vector)
    ensures
        status | 0x30 == with_bit(with_bit(status, 4, true), 5, true),
        status | 0x20 == with_bit(status, 5, true),
{
}

} // verus!
