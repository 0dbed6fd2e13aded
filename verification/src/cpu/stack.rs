//! The stack: 256 bytes at 0x0100 to 0x01FF, addressed by the stack pointer.

use crate::bus::{Bus, Device};
use crate::cpu::isa::{pull_regs, pull_value, push, State};
use crate::cpu::model::Registers;
use vstd::prelude::*;

verus! {

impl Registers {
    /// Moves the stack pointer up by one, wrapping, and reads the byte it then
    /// points at.
    pub(crate) fn pull_byte_stack<D: Device + ?Sized>(&mut self, bus: &Bus<D>) -> (value: u8)
        ensures
            *final(self) == pull_regs(*old(self)),
            value == pull_value(State { regs: *old(self), bus: bus@ }),
    {
        proof {
            reveal(pull_regs);
            reveal(pull_value);
        }
        self.sp = self.sp.wrapping_add(1);
        bus.read(0x0100 + self.sp as u16)
    }

    /// Writes `value` where the stack pointer points, then moves the stack pointer
    /// down by one, wrapping.
    pub(crate) fn push_byte_stack<D: Device + ?Sized>(&mut self, bus: &mut Bus<D>, value: u8)
        ensures
            (State { regs: *final(self), bus: final(bus)@ }) == push(
                State { regs: *old(self), bus: old(bus)@ },
                value,
            ),
    {
        proof {
            reveal(push);
        }
        bus.write(self.sp as u16 + 0x0100, value);
        self.sp = self.sp.wrapping_sub(1);
    }
}

} // verus!
