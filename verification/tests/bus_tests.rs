use emulate6502::bus::{Bus, Device, DeviceModel};
use emulate6502::devices::mem::Mem;

/// Answers every read with the low byte of the offset it was asked for, plus the
/// last byte written to it.
struct Echo {
    last: u8,
}

impl Device for Echo {
    fn model(&self) -> DeviceModel {
        unreachable!()
    }

    fn read(&self, addr: u16) -> u8 {
        (addr as u8).wrapping_add(self.last)
    }

    fn write(&mut self, _addr: u16, value: u8) {
        self.last = value;
    }
}

#[test]
fn unmapped_address_reads_zero() {
    let mut bus: Bus = Bus::default();
    bus.write(0x1234, 0x55);
    assert_eq!(bus.read(0x1234), 0);
}

#[test]
fn unmapped_address_beside_a_binding_reads_zero() {
    let mut bus: Bus = Bus::default();
    bus.register(0x1000..=0x1FFF, Box::new(Mem::default()));
    bus.write(0x0FFF, 0x11);
    bus.write(0x1000, 0x22);
    bus.write(0x1FFF, 0x33);
    bus.write(0x2000, 0x44);
    assert_eq!(bus.read(0x0FFF), 0);
    assert_eq!(bus.read(0x1000), 0x22);
    assert_eq!(bus.read(0x1FFF), 0x33);
    assert_eq!(bus.read(0x2000), 0);
}

#[test]
fn device_sees_offset_from_range_start() {
    let mut bus: Bus = Bus::default();
    bus.register(0x4000..=0x40FF, Box::new(Echo { last: 0 }));
    assert_eq!(bus.read(0x4000), 0x00);
    assert_eq!(bus.read(0x4005), 0x05);
    assert_eq!(bus.read(0x40FF), 0xFF);
    assert_eq!(bus.read(0x4100), 0x00);
}

#[test]
fn first_registered_binding_wins() {
    let mut bus: Bus = Bus::default();
    bus.register(0x1000..=0x1FFF, Box::new(Echo { last: 7 }));
    bus.register(0x0000..=0xFFFF, Box::new(Mem::default()));
    bus.write(0x1800, 0x40);
    bus.write(0x2000, 0x43);
    assert_eq!(bus.read(0x1002), 0x42);
    assert_eq!(bus.read(0x2000), 0x43);
    assert_eq!(bus.read(0x2001), 0x00);
}

#[test]
fn later_binding_does_not_shadow_earlier() {
    let mut bus: Bus = Bus::default();
    bus.register(0x0000..=0xFFFF, Box::new(Mem::default()));
    bus.register(0x1000..=0x1FFF, Box::new(Echo { last: 7 }));
    bus.write(0x1800, 0x40);
    assert_eq!(bus.read(0x1800), 0x40);
    assert_eq!(bus.read(0x1002), 0x00);
}

#[test]
fn bus_of_one_kind_of_device() {
    let mut bus: Bus<Mem> = Bus::default();
    bus.register(0x0000..=0x00FF, Box::new(Mem::default()));
    bus.write(0x0010, 0x99);
    assert_eq!(bus.read(0x0010), 0x99);
    assert_eq!(bus.read(0x0100), 0x00);
}

#[test]
fn empty_range_binds_nothing() {
    let mut bus: Bus = Bus::default();
    bus.register(0x2000..=0x1000, Box::new(Echo { last: 9 }));
    bus.register(0x0000..=0xFFFF, Box::new(Mem::default()));
    bus.write(0x1800, 0x40);
    assert_eq!(bus.read(0x1800), 0x40);
}
