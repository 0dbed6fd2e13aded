//! The processor's registers and how they are initialised and read.

use crate::bus::{Bus, Device};
use crate::cpu::config::CpuConfig;
use crate::cpu::model::{word, Registers, RESET_VECTOR};
use vstd::prelude::*;

verus! {

/// The processor: its registers and its configuration.
pub struct CPU {
    pub(super) regs: Registers,
    pub config: CpuConfig,
}

impl View for CPU {
    type V = Registers;

    open(super) spec fn view(&self) -> Registers {
        self.regs
    }
}

impl Registers {
    /// Loads the program counter from the reset vector, low byte first.
    pub(crate) fn set_pc<D: Device + ?Sized>(&mut self, bus: &Bus<D>)
        ensures
            *final(self) == old(self).with_pc(
                word(bus@.peek(RESET_VECTOR), bus@.peek((RESET_VECTOR + 1) as u16)),
            ),
    {
        let lo = bus.read(0xFFFC);
        let hi = bus.read(0xFFFD);
        self.pc = hi as u16 * 256 + lo as u16;
    }
}

impl CPU {
    /// The configuration asks for the page-wrap fault of the indirect jump.
    pub open(super) spec fn jmp_bug(&self) -> bool {
        self.config.emulate_indirect_jmp_bug
    }

    /// A processor with every register zero and the default configuration.
    pub fn default() -> (cpu: Self)
        ensures
            cpu@ == (Registers { pc: 0, sp: 0, a: 0, x: 0, y: 0, status: 0 }),
            !cpu.jmp_bug(),
    {
        Self {
            regs: Registers { pc: 0, sp: 0, a: 0, x: 0, y: 0, status: 0 },
            config: CpuConfig::default(),
        }
    }

    /// Clears A, X and Y, points the stack at 0xFD, sets the status to Unused and
    /// InterruptDisable, and loads the program counter from the reset vector.
    pub fn reset<D: Device + ?Sized>(&mut self, bus: &Bus<D>)
        ensures
            final(self)@ == Registers::initial(
                word(bus@.peek(RESET_VECTOR), bus@.peek((RESET_VECTOR + 1) as u16)),
            ),
            final(self).jmp_bug() == old(self).jmp_bug(),
    {
        self.regs.a = 0;
        self.regs.x = 0;
        self.regs.y = 0;
        self.regs.sp = 0xFD;
        self.regs.status = 0x24;
        self.regs.set_pc(bus);
    }

    /// Switches the page-wrap fault of the indirect jump on or off.
    pub fn set_jmp_bug(&mut self, on: bool)
        ensures
            final(self).jmp_bug() == on,
            final(self)@ == old(self)@,
    {
        self.config.emulate_indirect_jmp_bug = on;
    }

    /// The accumulator.
    pub fn read_acc(&self) -> (value: u8)
        ensures
            value == self@.a,
    {
        self.regs.a
    }

    /// The X index register.
    pub fn read_x(&self) -> (value: u8)
        ensures
            value == self@.x,
    {
        self.regs.x
    }

    /// The Y index register.
    pub fn read_y(&self) -> (value: u8)
        ensures
            value == self@.y,
    {
        self.regs.y
    }

    /// The stack pointer, an offset into the stack page.
    pub fn read_sp(&self) -> (value: u8)
        ensures
            value == self@.sp,
    {
        self.regs.sp
    }

    /// The status byte.
    pub fn read_status(&self) -> (value: u8)
        ensures
            value == self@.status,
    {
        self.regs.status
    }

    /// The program counter.
    pub fn read_pc(&self) -> (value: u16)
        ensures
            value == self@.pc,
    {
        self.regs.pc
    }
}

} // verus!
