//! Paged ROM: a set of ROM banks of which one at a time is visible. Writes to it
//! are ignored.

use crate::bus::{Device, DeviceModel};
use vstd::prelude::*;

verus! {

/// The number of bytes in a ROM bank.
pub const ROM_SIZE: usize = 16383;

/// The address at which the visible bank starts, as the device sees addresses.
pub const ROM_BASE: u16 = 0x8000;

/// One ROM bank.
pub struct Rom {
    data: [u8; 16383],
}

impl View for Rom {
    type V = Seq<u8>;

    closed spec fn view(&self) -> Seq<u8> {
        self.data@
    }
}

impl Rom {
    /// A bank that holds `data`.
    pub fn default(data: [u8; 16383]) -> (rom: Self)
        ensures
            rom@ == data@,
    {
        Self { data }
    }

    /// The byte at `addr` within the bank.
    pub fn read(&self, addr: u16) -> (value: u8)
        requires
            addr < ROM_SIZE,
        ensures
            value == self@[addr as int],
    {
        self.data[addr as usize]
    }
}

/// The banks, in the order they were added, and the number of the visible one.
pub struct PagedRomView {
    pub roms: Seq<Seq<u8>>,
    pub rom: u8,
}

impl PagedRomView {
    /// The number selects a bank that exists.
    pub open spec fn selected(self) -> bool {
        self.rom < self.roms.len()
    }

    /// The bytes of the visible bank; none where the number selects no bank.
    pub open spec fn visible(self) -> Seq<u8> {
        if self.selected() {
            self.roms[self.rom as int]
        } else {
            Seq::empty()
        }
    }
}

/// What a read of the visible bank returns: the byte at the address less the base.
pub open spec fn rom_read(cells: Seq<u8>, addr: u16) -> u8 {
    cells[addr - ROM_BASE]
}

/// The model of a paged ROM whose visible bank holds `cells`: it serves the
/// addresses of the bank, if a bank is selected, and ignores writes.
pub open spec fn paged(cells: Seq<u8>, selected: bool) -> DeviceModel {
    DeviceModel {
        cells,
        serves: |addr: u16| selected && ROM_BASE <= addr < ROM_BASE + ROM_SIZE,
        read: |c: Seq<u8>, addr: u16| rom_read(c, addr),
        write: |c: Seq<u8>, addr: u16, value: u8| c,
    }
}

/// ROM banks behind one window of addresses.
pub struct PagedRom {
    roms: Vec<Rom>,
    rom: u8,
}

impl View for PagedRom {
    type V = PagedRomView;

    closed spec fn view(&self) -> PagedRomView {
        PagedRomView { roms: Seq::new(self.roms@.len(), |i: int| self.roms@[i]@), rom: self.rom }
    }
}

impl PagedRom {
    /// No banks; the bank number is 255, which selects none.
    pub fn default() -> (paged: Self)
        ensures
            paged@.roms.len() == 0,
            paged@.rom == 255,
    {
        Self { roms: Vec::new(), rom: u8::MAX }
    }

    /// Makes bank `rom` the visible one if `rom` is below the number of the last
    /// bank, that number taken modulo 256; says whether it did.
    pub fn select_rom(&mut self, rom: u8) -> (done: bool)
        requires
            old(self)@.roms.len() > 0,
        ensures
            done == (rom < (old(self)@.roms.len() - 1) % 256),
            final(self)@.roms == old(self)@.roms,
            final(self)@.rom == (if done {
                rom
            } else {
                old(self)@.rom
            }),
    {
        let last: usize = self.roms.len() - 1;
        if rom < (last % 256) as u8 {
            self.rom = rom;
            return true;
        }
        false
    }

    /// Adds a bank after those already there.
    pub fn add_rom(&mut self, data: [u8; 16383])
        ensures
            final(self)@.roms == old(self)@.roms.push(data@),
            final(self)@.rom == old(self)@.rom,
    {
        self.roms.push(Rom::default(data));
    }
}

impl Device for PagedRom {
    open spec fn model(&self) -> DeviceModel {
        paged(self@.visible(), self@.selected())
    }

    /// Reads the visible bank; `addr` is an address from 0x8000 on.
    fn read(&self, addr: u16) -> (value: u8) {
        self.roms[self.rom as usize].read(addr - 0x8000)
    }

    /// Does nothing: the banks cannot be written.
    fn write(&mut self, addr: u16, value: u8) {
    }
}

} // verus!
