//! The addressing modes: each resolver reads the operand bytes at the program
//! counter, moves the program counter past them, and adds what the mode costs to
//! the cycle counter.

use crate::bus::{Bus, Device};
use crate::cpu::isa::{
    address_cost, branch_target, indirect_high_addr, indirect_target, operand_byte, operand_len,
    read_cost, resolve, Mode,
};
use crate::cpu::model::{crosses, lemma_page_mask, signed, wrap16, Registers, TICK_ROOM};
use vstd::prelude::*;

verus! {

/// Adds an index register to a base address, modulo 65536, and counts one cycle if
/// the sum lies in another page than the base.
fn indexed(base: u16, index: u8, ticks: &mut u32) -> (addr: u16)
    requires
        *old(ticks) < u32::MAX,
    ensures
        addr == wrap16(base + index),
        *final(ticks) == *old(ticks) + (if crosses(base, addr) {
            1nat
        } else {
            0nat
        }),
{
    let addr = base.wrapping_add(index as u16);
    proof {
        lemma_page_mask(base, addr);
    }
    if (base & 0xFF00) != (addr & 0xFF00) {
        *ticks += 1;
    }
    addr
}

/// Adds a signed offset byte to an address, modulo 65536.
fn displaced(from: u16, offset: u8) -> (to: u16)
    ensures
        to == wrap16(from + signed(offset)),
{
    if offset < 0x80 {
        from.wrapping_add(offset as u16)
    } else {
        from.wrapping_sub(0x100 - offset as u16)
    }
}

impl Registers {
    /// Reads the byte at the program counter and moves the program counter on.
    pub(crate) fn fetch_byte<D: Device + ?Sized>(&mut self, bus: &Bus<D>) -> (data: u8)
        ensures
            data == operand_byte(*old(self), bus@),
            *final(self) == old(self).advance(1),
    {
        let data = bus.read(self.pc);
        self.pc = self.pc.wrapping_add(1);
        data
    }

    /// Reads the byte at `addr`.
    pub(crate) fn read_byte<D: Device + ?Sized>(bus: &Bus<D>, addr: u16) -> (data: u8)
        ensures
            data == bus@.peek(addr),
    {
        bus.read(addr)
    }

    /// The operand is the next byte of the instruction.
    pub(crate) fn immediate_adressing<D: Device + ?Sized>(
        &mut self,
        bus: &Bus<D>,
        ticks: &mut u32,
    ) -> (value: u8)
        requires
            *old(ticks) <= TICK_ROOM + 8,
        ensures
            value == bus@.peek(resolve(Mode::Immediate, *old(self), bus@).addr),
            *final(self) == old(self).advance(operand_len(Mode::Immediate)),
            *final(ticks) == *old(ticks) + read_cost(Mode::Immediate, false),
    {
        proof {
            reveal(resolve);
            reveal(read_cost);
            reveal(address_cost);
        }
        *ticks += 1;
        self.fetch_byte(bus)
    }

    /// The operand is the accumulator.
    pub(crate) fn accumulator_adressing(&mut self, ticks: &mut u32) -> (value: u8)
        requires
            *old(ticks) <= TICK_ROOM + 8,
        ensures
            value == old(self).a,
            *final(self) == *old(self),
            *final(ticks) == *old(ticks) + 1,
    {
        *ticks += 1;
        self.a
    }

    /// The zero-page address that the operand byte names.
    pub(crate) fn get_zp_adress<D: Device + ?Sized>(
        &mut self,
        bus: &Bus<D>,
        ticks: &mut u32,
    ) -> (addr: u16)
        requires
            *old(ticks) <= TICK_ROOM + 8,
        ensures
            addr == resolve(Mode::ZeroPage, *old(self), bus@).addr,
            *final(self) == old(self).advance(operand_len(Mode::ZeroPage)),
            *final(ticks) == *old(ticks) + address_cost(Mode::ZeroPage, false),
    {
        proof {
            reveal(resolve);
            reveal(address_cost);
            reveal(read_cost);
        }
        *ticks += 1;
        self.fetch_byte(bus) as u16
    }

    /// The byte at the zero-page address that the operand byte names.
    pub(crate) fn zero_page_adressing<D: Device + ?Sized>(
        &mut self,
        bus: &Bus<D>,
        ticks: &mut u32,
    ) -> (value: u8)
        requires
            *old(ticks) <= TICK_ROOM + 8,
        ensures
            value == bus@.peek(resolve(Mode::ZeroPage, *old(self), bus@).addr),
            *final(self) == old(self).advance(operand_len(Mode::ZeroPage)),
            *final(ticks) == *old(ticks) + read_cost(Mode::ZeroPage, false),
    {
        proof {
            reveal(resolve);
            reveal(read_cost);
            reveal(address_cost);
        }
        let addr = self.get_zp_adress(bus, ticks);
        *ticks += 1;
        Self::read_byte(bus, addr)
    }

    /// The operand byte plus X, wrapping within page zero.
    pub(crate) fn get_zp_adress_x<D: Device + ?Sized>(
        &mut self,
        bus: &Bus<D>,
        ticks: &mut u32,
    ) -> (addr: u16)
        requires
            *old(ticks) <= TICK_ROOM + 8,
        ensures
            addr == resolve(Mode::ZeroPageX, *old(self), bus@).addr,
            *final(self) == old(self).advance(operand_len(Mode::ZeroPageX)),
            *final(ticks) == *old(ticks) + address_cost(Mode::ZeroPageX, false),
    {
        proof {
            reveal(resolve);
            reveal(address_cost);
            reveal(read_cost);
        }
        *ticks += 2;
        self.fetch_byte(bus).wrapping_add(self.x) as u16
    }

    /// The byte at the operand byte plus X, wrapping within page zero.
    pub(crate) fn zero_page_adressing_x<D: Device + ?Sized>(
        &mut self,
        bus: &Bus<D>,
        ticks: &mut u32,
    ) -> (value: u8)
        requires
            *old(ticks) <= TICK_ROOM + 8,
        ensures
            value == bus@.peek(resolve(Mode::ZeroPageX, *old(self), bus@).addr),
            *final(self) == old(self).advance(operand_len(Mode::ZeroPageX)),
            *final(ticks) == *old(ticks) + read_cost(Mode::ZeroPageX, false),
    {
        proof {
            reveal(resolve);
            reveal(read_cost);
            reveal(address_cost);
        }
        let addr = self.get_zp_adress_x(bus, ticks);
        *ticks += 1;
        Self::read_byte(bus, addr)
    }

    /// The operand byte plus Y, wrapping within page zero.
    pub(crate) fn get_zp_adress_y<D: Device + ?Sized>(
        &mut self,
        bus: &Bus<D>,
        ticks: &mut u32,
    ) -> (addr: u16)
        requires
            *old(ticks) <= TICK_ROOM + 8,
        ensures
            addr == resolve(Mode::ZeroPageY, *old(self), bus@).addr,
            *final(self) == old(self).advance(operand_len(Mode::ZeroPageY)),
            *final(ticks) == *old(ticks) + address_cost(Mode::ZeroPageY, false),
    {
        proof {
            reveal(resolve);
            reveal(address_cost);
            reveal(read_cost);
        }
        *ticks += 2;
        self.fetch_byte(bus).wrapping_add(self.y) as u16
    }

    /// The byte at the operand byte plus Y, wrapping within page zero.
    pub(crate) fn zero_page_adressing_y<D: Device + ?Sized>(
        &mut self,
        bus: &Bus<D>,
        ticks: &mut u32,
    ) -> (value: u8)
        requires
            *old(ticks) <= TICK_ROOM + 8,
        ensures
            value == bus@.peek(resolve(Mode::ZeroPageY, *old(self), bus@).addr),
            *final(self) == old(self).advance(operand_len(Mode::ZeroPageY)),
            *final(ticks) == *old(ticks) + read_cost(Mode::ZeroPageY, false),
    {
        proof {
            reveal(resolve);
            reveal(read_cost);
            reveal(address_cost);
        }
        let addr = self.fetch_byte(bus).wrapping_add(self.y);
        *ticks += 3;
        Self::read_byte(bus, addr as u16)
    }

    /// Takes a branch: the signed offset byte is added to the address of the next
    /// instruction. One cycle for taking it, one more if the target lies in
    /// another page than the next instruction.
    pub(crate) fn relative_adressing<D: Device + ?Sized>(&mut self, bus: &Bus<D>, ticks: &mut u32)
        requires
            *old(ticks) <= TICK_ROOM + 8,
        ensures
            *final(self) == old(self).with_pc(branch_target(*old(self), bus@)),
            *final(ticks) == *old(ticks) + 1 + (if crosses(
                wrap16(old(self).pc + 1),
                branch_target(*old(self), bus@),
            ) {
                1nat
            } else {
                0nat
            }),
    {
        proof {
            reveal(branch_target);
            reveal(resolve);
            reveal(read_cost);
        }
        let offset = self.immediate_adressing(bus, ticks);
        let next = self.pc;
        self.pc = displaced(next, offset);
        proof {
            lemma_page_mask(next, self.pc);
        }
        if (next & 0xFF00) != (self.pc & 0xFF00) {
            *ticks += 1;
        }
    }

    /// Reads the two operand bytes as an address, low byte first.
    pub(crate) fn get_absolute_adress<D: Device + ?Sized>(
        &mut self,
        bus: &Bus<D>,
        ticks: &mut u32,
    ) -> (addr: u16)
        requires
            *old(ticks) <= TICK_ROOM + 8,
        ensures
            addr == resolve(Mode::Absolute, *old(self), bus@).addr,
            *final(self) == old(self).advance(operand_len(Mode::Absolute)),
            *final(ticks) == *old(ticks) + address_cost(Mode::Absolute, false),
            *final(ticks) == *old(ticks) + 2,
    {
        proof {
            reveal(resolve);
            reveal(address_cost);
            reveal(read_cost);
        }
        let lo = self.fetch_byte(bus) as u16;
        let hi = self.fetch_byte(bus) as u16;
        *ticks += 2;
        hi * 256 + lo
    }

    /// The byte at the address that the two operand bytes name.
    pub(crate) fn absolute_adressing<D: Device + ?Sized>(
        &mut self,
        bus: &Bus<D>,
        ticks: &mut u32,
    ) -> (value: u8)
        requires
            *old(ticks) <= TICK_ROOM + 8,
        ensures
            value == bus@.peek(resolve(Mode::Absolute, *old(self), bus@).addr),
            *final(self) == old(self).advance(operand_len(Mode::Absolute)),
            *final(ticks) == *old(ticks) + read_cost(Mode::Absolute, false),
    {
        proof {
            reveal(resolve);
            reveal(read_cost);
            reveal(address_cost);
        }
        let addr = self.get_absolute_adress(bus, ticks);
        *ticks += 1;
        Self::read_byte(bus, addr)
    }

    /// The absolute address plus X, modulo 65536; one cycle more if the sum lies in
    /// another page than the base.
    pub(crate) fn get_absolute_adress_x<D: Device + ?Sized>(
        &mut self,
        bus: &Bus<D>,
        ticks: &mut u32,
    ) -> (addr: u16)
        requires
            *old(ticks) <= TICK_ROOM + 8,
        ensures
            addr == resolve(Mode::AbsoluteX, *old(self), bus@).addr,
            *final(self) == old(self).advance(operand_len(Mode::AbsoluteX)),
            *final(ticks) == *old(ticks) + address_cost(
                Mode::AbsoluteX,
                resolve(Mode::AbsoluteX, *old(self), bus@).crossed,
            ),
    {
        proof {
            reveal(resolve);
            reveal(address_cost);
            reveal(read_cost);
        }
        let base = self.get_absolute_adress(bus, ticks);
        indexed(base, self.x, ticks)
    }

    /// The byte at the absolute address plus X.
    pub(crate) fn absolute_adressing_x<D: Device + ?Sized>(
        &mut self,
        bus: &Bus<D>,
        ticks: &mut u32,
    ) -> (value: u8)
        requires
            *old(ticks) <= TICK_ROOM + 8,
        ensures
            value == bus@.peek(resolve(Mode::AbsoluteX, *old(self), bus@).addr),
            *final(self) == old(self).advance(operand_len(Mode::AbsoluteX)),
            *final(ticks) == *old(ticks) + read_cost(
                Mode::AbsoluteX,
                resolve(Mode::AbsoluteX, *old(self), bus@).crossed,
            ),
    {
        proof {
            reveal(resolve);
            reveal(read_cost);
            reveal(address_cost);
        }
        let addr = self.get_absolute_adress_x(bus, ticks);
        *ticks += 1;
        Self::read_byte(bus, addr)
    }

    /// The absolute address plus Y, modulo 65536; one cycle more if the sum lies in
    /// another page than the base.
    pub(crate) fn get_absolute_adress_y<D: Device + ?Sized>(
        &mut self,
        bus: &Bus<D>,
        ticks: &mut u32,
    ) -> (addr: u16)
        requires
            *old(ticks) <= TICK_ROOM + 8,
        ensures
            addr == resolve(Mode::AbsoluteY, *old(self), bus@).addr,
            *final(self) == old(self).advance(operand_len(Mode::AbsoluteY)),
            *final(ticks) == *old(ticks) + address_cost(
                Mode::AbsoluteY,
                resolve(Mode::AbsoluteY, *old(self), bus@).crossed,
            ),
    {
        proof {
            reveal(resolve);
            reveal(address_cost);
            reveal(read_cost);
        }
        let base = self.get_absolute_adress(bus, ticks);
        indexed(base, self.y, ticks)
    }

    /// The byte at the absolute address plus Y.
    pub(crate) fn absolute_adressing_y<D: Device + ?Sized>(
        &mut self,
        bus: &Bus<D>,
        ticks: &mut u32,
    ) -> (value: u8)
        requires
            *old(ticks) <= TICK_ROOM + 8,
        ensures
            value == bus@.peek(resolve(Mode::AbsoluteY, *old(self), bus@).addr),
            *final(self) == old(self).advance(operand_len(Mode::AbsoluteY)),
            *final(ticks) == *old(ticks) + read_cost(
                Mode::AbsoluteY,
                resolve(Mode::AbsoluteY, *old(self), bus@).crossed,
            ),
    {
        proof {
            reveal(resolve);
            reveal(read_cost);
            reveal(address_cost);
        }
        let addr = self.get_absolute_adress_y(bus, ticks);
        *ticks += 1;
        Self::read_byte(bus, addr)
    }

    /// The target of an indirect jump: the two operand bytes point at the low byte
    /// of the target. With `bug`, a pointer at the last byte of a page takes the
    /// high byte from the first byte of that page.
    pub(crate) fn get_indirect_adress<D: Device + ?Sized>(
        &mut self,
        bus: &Bus<D>,
        ticks: &mut u32,
        bug: bool,
    ) -> (addr: u16)
        requires
            *old(ticks) <= TICK_ROOM + 8,
        ensures
            addr == indirect_target(*old(self), bus@, bug),
            *final(self) == old(self).advance(2),
            *final(ticks) == *old(ticks) + 5,
    {
        proof {
            reveal(indirect_target);
            reveal(indirect_high_addr);
        }
        let lo = self.fetch_byte(bus);
        let hi = self.fetch_byte(bus);
        let in_addr = hi as u16 * 256 + lo as u16;
        *ticks += 5;
        proof {
            lemma_page_mask(in_addr, in_addr);
        }
        let hi_addr = if bug && (in_addr & 0x00FF) == 0x00FF {
            in_addr & 0xFF00
        } else {
            in_addr.wrapping_add(1)
        };
        let addr_lo = Self::read_byte(bus, in_addr);
        let addr_hi = Self::read_byte(bus, hi_addr);
        addr_hi as u16 * 256 + addr_lo as u16
    }

    /// The address that the pointer at zero-page operand plus X holds.
    pub(crate) fn get_indirect_indexing_adress<D: Device + ?Sized>(
        &mut self,
        bus: &Bus<D>,
        ticks: &mut u32,
    ) -> (addr: u16)
        requires
            *old(ticks) <= TICK_ROOM + 8,
        ensures
            addr == resolve(Mode::IndexedIndirect, *old(self), bus@).addr,
            *final(self) == old(self).advance(operand_len(Mode::IndexedIndirect)),
            *final(ticks) == *old(ticks) + address_cost(Mode::IndexedIndirect, false),
    {
        proof {
            reveal(resolve);
            reveal(address_cost);
            reveal(read_cost);
        }
        let zp_addr = self.fetch_byte(bus).wrapping_add(self.x);
        let lsb_addr = Self::read_byte(bus, zp_addr as u16);
        let msb_addr = Self::read_byte(bus, zp_addr as u16 + 1);
        *ticks += 5;
        msb_addr as u16 * 256 + lsb_addr as u16
    }

    /// The byte at the address that the pointer at zero-page operand plus X holds.
    pub(crate) fn indirect_indexing_adressing_x<D: Device + ?Sized>(
        &mut self,
        bus: &Bus<D>,
        ticks: &mut u32,
    ) -> (value: u8)
        requires
            *old(ticks) <= TICK_ROOM + 8,
        ensures
            value == bus@.peek(resolve(Mode::IndexedIndirect, *old(self), bus@).addr),
            *final(self) == old(self).advance(operand_len(Mode::IndexedIndirect)),
            *final(ticks) == *old(ticks) + read_cost(Mode::IndexedIndirect, false),
    {
        proof {
            reveal(resolve);
            reveal(read_cost);
            reveal(address_cost);
        }
        let addr = self.get_indirect_indexing_adress(bus, ticks);
        *ticks += 1;
        Self::read_byte(bus, addr)
    }

    /// The address that the pointer at the zero-page operand holds, plus Y, modulo
    /// 65536; one cycle more if the sum lies in another page than the pointer's
    /// value.
    pub(crate) fn get_indexing_indirect_adress<D: Device + ?Sized>(
        &mut self,
        bus: &Bus<D>,
        ticks: &mut u32,
    ) -> (addr: u16)
        requires
            *old(ticks) <= TICK_ROOM + 8,
        ensures
            addr == resolve(Mode::IndirectIndexed, *old(self), bus@).addr,
            *final(self) == old(self).advance(operand_len(Mode::IndirectIndexed)),
            *final(ticks) == *old(ticks) + address_cost(
                Mode::IndirectIndexed,
                resolve(Mode::IndirectIndexed, *old(self), bus@).crossed,
            ),
    {
        proof {
            reveal(resolve);
            reveal(address_cost);
            reveal(read_cost);
        }
        let zp = self.fetch_byte(bus);
        let lo = Self::read_byte(bus, zp as u16) as u16;
        let hi = Self::read_byte(bus, zp.wrapping_add(1) as u16) as u16;
        let base = hi * 256 + lo;
        *ticks += 4;
        indexed(base, self.y, ticks)
    }

    /// The byte at the address that the pointer at the zero-page operand holds,
    /// plus Y.
    pub(crate) fn indexing_indirect_adressing_y<D: Device + ?Sized>(
        &mut self,
        bus: &Bus<D>,
        ticks: &mut u32,
    ) -> (value: u8)
        requires
            *old(ticks) <= TICK_ROOM + 8,
        ensures
            value == bus@.peek(resolve(Mode::IndirectIndexed, *old(self), bus@).addr),
            *final(self) == old(self).advance(operand_len(Mode::IndirectIndexed)),
            *final(ticks) == *old(ticks) + read_cost(
                Mode::IndirectIndexed,
                resolve(Mode::IndirectIndexed, *old(self), bus@).crossed,
            ),
    {
        proof {
            reveal(resolve);
            reveal(read_cost);
            reveal(address_cost);
        }
        let addr = self.get_indexing_indirect_adress(bus, ticks);
        *ticks += 1;
        Self::read_byte(bus, addr)
    }
}

} // verus!
