//! Plain memory: 64 KiB of bytes, all readable and writable.

use crate::bus::{Device, DeviceModel};
use vstd::prelude::*;

verus! {

/// The number of bytes in a `Mem`.
pub const MEM_SIZE: usize = 65536;

/// What a read of plain memory returns: the byte kept at the offset.
pub open spec fn ram_read(cells: Seq<u8>, addr: u16) -> u8 {
    cells[addr as int]
}

/// Plain memory after a write: the byte at the offset replaced, all others kept.
pub open spec fn ram_write(cells: Seq<u8>, addr: u16, value: u8) -> Seq<u8> {
    cells.update(addr as int, value)
}

/// The model of a plain memory that holds `cells`.
pub open spec fn ram(cells: Seq<u8>) -> DeviceModel {
    DeviceModel {
        cells,
        serves: |addr: u16| true,
        read: |c: Seq<u8>, addr: u16| ram_read(c, addr),
        write: |c: Seq<u8>, addr: u16, value: u8| ram_write(c, addr, value),
    }
}

/// Plain memory reads back what was written to it, and a write changes no other
/// byte.
pub proof fn lemma_ram(cells: Seq<u8>, addr: u16, value: u8, other: u16)
    requires
        cells.len() == MEM_SIZE,
    ensures
        ram(cells).poked(addr, value) == ram(cells.update(addr as int, value)),
        ram(cells).poked(addr, value).peek(other) == (if other == addr {
            value
        } else {
            ram(cells).peek(other)
        }),
{
}

/// 64 KiB of plain memory.
pub struct Mem {
    data: [u8; 65536],
}

impl View for Mem {
    type V = Seq<u8>;

    closed spec fn view(&self) -> Seq<u8> {
        self.data@
    }
}

impl Mem {
    /// A memory of 65536 zero bytes.
    pub fn default() -> (mem: Self)
        ensures
            mem@ == Seq::new(MEM_SIZE as nat, |i: int| 0u8),
    {
        Self { data: [0u8; 65536] }
    }

    /// The number of bytes the memory holds.
    pub fn len(&self) -> (n: usize)
        ensures
            n == MEM_SIZE,
            n == self@.len(),
    {
        self.data.len()
    }
}

impl Device for Mem {
    open spec fn model(&self) -> DeviceModel {
        ram(self@)
    }

    fn read(&self, addr: u16) -> (value: u8) {
        self.data[addr as usize]
    }

    fn write(&mut self, addr: u16, value: u8) {
        self.data[addr as usize] = value;
    }
}

} // verus!
