use emulate6502::bus::{Bus, Device};
use emulate6502::devices::mem::Mem;
use emulate6502::devices::BBCMicro::paged_rom::{PagedRom, Rom};
use emulate6502::devices::BBCMicro::video_system::{colour, VideoSystem};
use emulate6502::platform::framebuffer::{Fb, HEIGHT, WIDTH};
use emulate6502::platform::logging::{Logger, NoLog, Stdout};

fn bank(fill: u8) -> [u8; 16383] {
    let mut data = [fill; 16383];
    data[0] = 0xAA;
    data[16382] = 0x55;
    data
}

#[test]
fn mem_is_64k_of_zeroes() {
    let mem = Mem::default();
    assert_eq!(mem.len(), 65536);
    assert_eq!(mem.read(0x0000), 0);
    assert_eq!(mem.read(0x8000), 0);
    assert_eq!(mem.read(0xFFFF), 0);
}

#[test]
fn mem_keeps_what_is_written() {
    let mut mem = Mem::default();
    mem.write(0x0000, 0x11);
    mem.write(0xFFFF, 0x22);
    mem.write(0x1234, 0x33);
    mem.write(0x1234, 0x44);
    assert_eq!(mem.read(0x0000), 0x11);
    assert_eq!(mem.read(0xFFFF), 0x22);
    assert_eq!(mem.read(0x1234), 0x44);
    assert_eq!(mem.read(0x1235), 0x00);
    assert_eq!(mem.len(), 65536);
}

#[test]
fn rom_reads_its_bytes() {
    let rom = Rom::default(bank(0x07));
    assert_eq!(rom.read(0), 0xAA);
    assert_eq!(rom.read(1), 0x07);
    assert_eq!(rom.read(16382), 0x55);
}

#[test]
fn paged_rom_selects_below_the_last_bank() {
    let mut paged = PagedRom::default();
    paged.add_rom(bank(0x01));
    // with one bank, none can be selected
    assert!(!paged.select_rom(0));
    paged.add_rom(bank(0x02));
    paged.add_rom(bank(0x03));
    assert!(paged.select_rom(0));
    assert!(paged.select_rom(1));
    assert!(!paged.select_rom(2));
    assert!(!paged.select_rom(3));
    assert!(!paged.select_rom(255));
}

#[test]
fn paged_rom_reads_the_selected_bank_from_0x8000() {
    let mut paged = PagedRom::default();
    paged.add_rom(bank(0x01));
    paged.add_rom(bank(0x02));
    paged.add_rom(bank(0x03));
    assert!(paged.select_rom(1));
    assert_eq!(paged.read(0x8000), 0xAA);
    assert_eq!(paged.read(0x8001), 0x02);
    assert_eq!(paged.read(0x8000 + 16382), 0x55);
    assert!(paged.select_rom(0));
    assert_eq!(paged.read(0x8001), 0x01);
    // a refused selection keeps the bank
    assert!(!paged.select_rom(2));
    assert_eq!(paged.read(0x8001), 0x01);
}

#[test]
fn paged_rom_ignores_writes() {
    let mut paged = PagedRom::default();
    paged.add_rom(bank(0x01));
    paged.add_rom(bank(0x02));
    assert!(paged.select_rom(0));
    paged.write(0x8001, 0xFF);
    assert_eq!(paged.read(0x8001), 0x01);
}

#[test]
fn frame_buffer_starts_black() {
    let fb = Fb::default();
    assert_eq!(fb.pixels().len(), WIDTH * HEIGHT);
    assert_eq!(WIDTH, 640);
    assert_eq!(HEIGHT, 360);
    assert!(fb.pixels().iter().all(|p| *p == 0));
}

#[test]
fn set_pixel_writes_row_major() {
    let mut fb = Fb::default();
    fb.set_pixel(0, 0, 0x111111);
    fb.set_pixel(639, 0, 0x222222);
    fb.set_pixel(0, 1, 0x333333);
    fb.set_pixel(639, 359, 0x444444);
    assert_eq!(fb.pixels()[0], 0x111111);
    assert_eq!(fb.pixels()[639], 0x222222);
    assert_eq!(fb.pixels()[640], 0x333333);
    assert_eq!(fb.pixels()[640 * 360 - 1], 0x444444);
    assert_eq!(fb.pixels().iter().filter(|p| **p != 0).count(), 4);
}

#[test]
fn set_pixel_off_screen_does_nothing() {
    let mut fb = Fb::default();
    fb.set_pixel(640, 0, 0xFFFFFF);
    fb.set_pixel(0, 360, 0xFFFFFF);
    fb.set_pixel(usize::MAX, usize::MAX, 0xFFFFFF);
    assert!(fb.pixels().iter().all(|p| *p == 0));
}

#[test]
fn palette_colours() {
    assert_eq!(colour(0), 0x000000);
    assert_eq!(colour(1), 0xFF0000);
    assert_eq!(colour(2), 0x00FF00);
    assert_eq!(colour(3), 0xFFFF00);
    assert_eq!(colour(4), 0x0000FF);
    assert_eq!(colour(5), 0xFF00FF);
    assert_eq!(colour(6), 0x00FFFF);
    assert_eq!(colour(7), 0xFFFFFF);
    assert_eq!(colour(8), 0x555555);
    assert_eq!(colour(9), 0xAA0000);
    assert_eq!(colour(10), 0x00AA00);
    assert_eq!(colour(11), 0xAAAA00);
    assert_eq!(colour(12), 0x0000AA);
    assert_eq!(colour(13), 0xAA00AA);
    assert_eq!(colour(14), 0x00AAAA);
    assert_eq!(colour(15), 0xAAAAAA);
}

#[test]
fn video_registers_read_as_zero() {
    let mut video = VideoSystem::default();
    video.write(0xFE00, 0x12);
    video.write(0xFE01, 0x34);
    video.write(0xFE20, 0x02);
    assert_eq!(video.read(0xFE00), 0);
    assert_eq!(video.read(0xFE01), 0);
    assert_eq!(video.read(0xFE20), 0);
    assert_eq!(video.read(0x0000), 0);
}

#[test]
fn video_renders_nothing_outside_mode_two() {
    let mut video = VideoSystem::default();
    let mut mem = Mem::default();
    let mut fb = Fb::default();
    mem.write(0x0000, 0x12);
    video.render_scanline(&mem, &mut fb);
    assert!(fb.pixels().iter().all(|p| *p == 0));
    video.write(0xFE20, 0x01);
    video.render_scanline(&mem, &mut fb);
    assert!(fb.pixels().iter().all(|p| *p == 0));
}

#[test]
fn video_renders_first_scanline_in_mode_two() {
    let mut video = VideoSystem::default();
    let mut mem = Mem::default();
    let mut fb = Fb::default();
    // base address 0x3000
    video.write(0xFE00, 0x00);
    video.write(0xFE01, 0x30);
    video.write(0xFE20, 0x02);
    mem.write(0x3000, 0x12);
    mem.write(0x3001, 0x7F);
    mem.write(0x3000 + 79, 0xE9);
    mem.write(0x3000 + 80, 0x11);
    video.render_scanline(&mem, &mut fb);
    assert_eq!(fb.pixels()[0], 0xFF0000);
    assert_eq!(fb.pixels()[1], 0x00FF00);
    assert_eq!(fb.pixels()[2], 0xFFFFFF);
    assert_eq!(fb.pixels()[3], 0xAAAAAA);
    assert_eq!(fb.pixels()[4], 0x000000);
    assert_eq!(fb.pixels()[158], 0x00AAAA);
    assert_eq!(fb.pixels()[159], 0xAA0000);
    // the byte after the row is not drawn, and nothing lands on the next row
    assert_eq!(fb.pixels()[160], 0x000000);
    assert_eq!(fb.pixels()[640], 0x000000);
    // the scanline starts over: the same row is drawn again
    mem.write(0x3000, 0x34);
    video.render_scanline(&mem, &mut fb);
    assert_eq!(fb.pixels()[0], 0xFFFF00);
    assert_eq!(fb.pixels()[1], 0x0000FF);
    assert_eq!(fb.pixels()[640], 0x000000);
}

#[test]
fn video_base_address_bytes_are_set_apart() {
    let mut video = VideoSystem::default();
    let mut mem = Mem::default();
    let mut fb = Fb::default();
    video.write(0xFE20, 0x02);
    video.write(0xFE01, 0x40);
    video.write(0xFE00, 0x10);
    video.write(0xFE01, 0x20);
    // an address that is no register changes nothing
    video.write(0xFE02, 0xFF);
    mem.write(0x2010, 0x50);
    mem.write(0x4010, 0x60);
    video.render_scanline(&mem, &mut fb);
    assert_eq!(fb.pixels()[0], 0xFF00FF);
    assert_eq!(fb.pixels()[1], 0x000000);
}

#[test]
fn video_memory_address_wraps() {
    let mut video = VideoSystem::default();
    let mut mem = Mem::default();
    let mut fb = Fb::default();
    video.write(0xFE20, 0x02);
    video.write(0xFE00, 0xFF);
    video.write(0xFE01, 0xFF);
    mem.write(0xFFFF, 0x10);
    mem.write(0x0000, 0x02);
    video.render_scanline(&mem, &mut fb);
    assert_eq!(fb.pixels()[0], 0xFF0000);
    assert_eq!(fb.pixels()[1], 0x000000);
    assert_eq!(fb.pixels()[2], 0x000000);
    assert_eq!(fb.pixels()[3], 0x00FF00);
}

#[test]
fn video_system_on_the_bus() {
    let mut bus: Bus = Bus::default();
    bus.register(0x0000..=0xFFFF, Box::new(VideoSystem::default()));
    bus.write(0xFE20, 0x02);
    assert_eq!(bus.read(0xFE20), 0);
}

#[test]
fn loggers_take_messages() {
    let mut quiet = NoLog {};
    quiet.log(String::from("dropped"));
    let mut loud = Stdout {};
    loud.log(String::from("a line on standard output"));
}
