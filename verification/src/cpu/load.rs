//! Getting a program into memory, and running it up to a break address.

use crate::bus::{Bus, BusModel, Device};
use crate::cpu::cpu::CPU;
use crate::cpu::isa::step;
use crate::cpu::model::Registers;
use vstd::prelude::*;

verus! {

/// The address after `addr` for a byte-by-byte copy: the next one, but 0xFFFF stays.
pub open spec fn clamped_next(addr: u16) -> u16 {
    if addr != 0xFFFF {
        (addr + 1) as u16
    } else {
        addr
    }
}

/// The bus after `bytes` were written one by one, the first at `addr`, each next
/// one address higher, and all that would go past 0xFFFF at 0xFFFF.
pub open spec fn loaded(bus: BusModel, bytes: Seq<u8>, addr: u16) -> BusModel
    decreases bytes.len(),
{
    if bytes.len() == 0 {
        bus
    } else {
        loaded(bus.poked(addr, bytes[0]), bytes.drop_first(), clamped_next(addr))
    }
}

/// Where a run ends: the registers and the bus, and whether the break address was
/// reached.
pub struct Run {
    pub regs: Registers,
    pub bus: BusModel,
    pub hit: bool,
}

/// Executes instructions until the program counter equals `target` after one of
/// them, or `limit` instructions are done. The program counter is compared only
/// between instructions, and not before the first.
pub open spec fn chase(r: Registers, bus: BusModel, bug: bool, target: u16, limit: nat) -> Run
    decreases limit,
{
    if limit == 0 {
        Run { regs: r, bus, hit: false }
    } else {
        let o = step(r, bus, bug);
        if o.regs.pc == target {
            Run { regs: o.regs, bus: o.bus, hit: true }
        } else {
            chase(o.regs, o.bus, bug, target, (limit - 1) as nat)
        }
    }
}

/// The number of instructions that a run may execute: the number given, or, where
/// none is given, the greatest that the counter can hold.
pub open spec fn run_limit(max_cycles: Option<u64>) -> nat {
    match max_cycles {
        Some(n) => n as nat,
        None => u64::MAX as nat,
    }
}

impl CPU {
    /// Writes `contents` to the bus, the first byte at `offset` and each next one
    /// address higher; what would go past 0xFFFF is written at 0xFFFF. Returns
    /// `false`, and writes nothing, when there are no bytes.
    pub fn load_rom<D: Device + ?Sized>(
        &mut self,
        bus: &mut Bus<D>,
        contents: &[u8],
        offset: u16,
    ) -> (ok: bool)
        ensures
            ok == (contents@.len() > 0),
            final(bus)@ == loaded(old(bus)@, contents@, offset),
            final(self)@ == old(self)@,
            final(self).jmp_bug() == old(self).jmp_bug(),
    {
        if contents.len() == 0 {
            return false;
        }
        let mut addr = offset;
        let mut i: usize = 0;
        assert(contents@.subrange(0, contents@.len() as int) =~= contents@);
        while i < contents.len()
            invariant
                i <= contents@.len(),
                loaded(old(bus)@, contents@, offset) == loaded(
                    bus@,
                    contents@.subrange(i as int, contents@.len() as int),
                    addr,
                ),
            decreases contents.len() - i,
        {
            proof {
                let rest = contents@.subrange(i as int, contents@.len() as int);
                assert(rest.drop_first() =~= contents@.subrange(
                    i as int + 1,
                    contents@.len() as int,
                ));
            }
            bus.write(addr, contents[i]);
            if addr != 0xFFFF {
                addr += 1;
            }
            i += 1;
        }
        true
    }

    /// Runs until the program counter equals `break_address` after an
    /// instruction, and then returns 0; returns 1 when `max_cycles` instructions
    /// were executed without reaching it. Without `max_cycles` the count is
    /// bounded by `u64::MAX` alone.
    pub fn run<D: Device + ?Sized>(
        &mut self,
        bus: &mut Bus<D>,
        break_address: u16,
        max_cycles: Option<u64>,
    ) -> (code: u8)
        ensures
            final(self).jmp_bug() == old(self).jmp_bug(),
            final(self)@ == chase(
                old(self)@,
                old(bus)@,
                old(self).jmp_bug(),
                break_address,
                run_limit(max_cycles),
            ).regs,
            final(bus)@ == chase(
                old(self)@,
                old(bus)@,
                old(self).jmp_bug(),
                break_address,
                run_limit(max_cycles),
            ).bus,
            code == (if chase(
                old(self)@,
                old(bus)@,
                old(self).jmp_bug(),
                break_address,
                run_limit(max_cycles),
            ).hit {
                0u8
            } else {
                1u8
            }),
    {
        let limit: u64 = match max_cycles {
            Some(n) => n,
            None => u64::MAX,
        };
        let mut done: u64 = 0;
        while done < limit
            invariant
                done <= limit,
                limit == run_limit(max_cycles),
                self.jmp_bug() == old(self).jmp_bug(),
                chase(
                    old(self)@,
                    old(bus)@,
                    old(self).jmp_bug(),
                    break_address,
                    run_limit(max_cycles),
                ) == chase(self@, bus@, self.jmp_bug(), break_address, (limit - done) as nat),
            decreases limit - done,
        {
            let _ = self.execute_instruction(bus);
            done += 1;
            if self.regs.pc == break_address {
                return 0;
            }
        }
        1
    }
}

} // verus!
