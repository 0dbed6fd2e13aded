//! The video system: control registers on the bus, and the rendering of video
//! memory into the frame buffer, one scanline at a time.

use crate::bus::{Device, DeviceModel};
use crate::devices::mem::Mem;
use crate::platform::framebuffer::{Fb, WIDTH};
use vstd::prelude::*;

verus! {

/// The register that takes the low byte of the video memory's address.
pub const BASE_LOW: u16 = 0xFE00;

/// The register that takes the high byte of the video memory's address.
pub const BASE_HIGH: u16 = 0xFE01;

/// The register that takes the video mode.
pub const MODE: u16 = 0xFE20;

/// Bytes of video memory in a scanline of mode 2: 160 pixels, two in a byte.
pub const BYTES_PER_ROW: usize = 80;

/// Scanlines in a frame of mode 2.
pub const LINES: u8 = 120;

/// The sixteen colours, as 0xRRGGBB.
pub open spec fn palette(index: u8) -> u32 {
    if index == 0 {
        0x000000
    } else if index == 1 {
        0xFF0000
    } else if index == 2 {
        0x00FF00
    } else if index == 3 {
        0xFFFF00
    } else if index == 4 {
        0x0000FF
    } else if index == 5 {
        0xFF00FF
    } else if index == 6 {
        0x00FFFF
    } else if index == 7 {
        0xFFFFFF
    } else if index == 8 {
        0x555555
    } else if index == 9 {
        0xAA0000
    } else if index == 10 {
        0x00AA00
    } else if index == 11 {
        0xAAAA00
    } else if index == 12 {
        0x0000AA
    } else if index == 13 {
        0xAA00AA
    } else if index == 14 {
        0x00AAAA
    } else {
        0xAAAAAA
    }
}

/// The colour with the given number.
pub fn colour(index: u8) -> (rgb: u32)
    requires
        index < 16,
    ensures
        rgb == palette(index),
{
    match index {
        0 => 0x000000,
        1 => 0xFF0000,
        2 => 0x00FF00,
        3 => 0xFFFF00,
        4 => 0x0000FF,
        5 => 0xFF00FF,
        6 => 0x00FFFF,
        7 => 0xFFFFFF,
        8 => 0x555555,
        9 => 0xAA0000,
        10 => 0x00AA00,
        11 => 0xAAAA00,
        12 => 0x0000AA,
        13 => 0xAA00AA,
        14 => 0x00AAAA,
        _ => 0xAAAAAA,
    }
}

/// The registers of the video system.
pub struct VideoView {
    pub base: u16,
    pub mode: u8,
    pub line: u8,
}

impl VideoView {
    /// The registers after `value` was written at `addr`: the low or the high
    /// byte of the base address is replaced, or the mode; any other address
    /// changes nothing.
    pub open spec fn written(self, addr: u16, value: u8) -> VideoView {
        if addr == BASE_LOW {
            VideoView { base: ((self.base / 256) * 256 + value) as u16, ..self }
        } else if addr == BASE_HIGH {
            VideoView { base: (self.base % 256 + value * 256) as u16, ..self }
        } else if addr == MODE {
            VideoView { mode: value, ..self }
        } else {
            self
        }
    }

    /// The registers as the bytes of a device: base low, base high, mode, line.
    pub open spec fn cells(self) -> Seq<u8> {
        seq![(self.base % 256) as u8, (self.base / 256) as u8, self.mode, self.line]
    }

    /// The registers that the bytes of a device stand for.
    pub open spec fn of(cells: Seq<u8>) -> VideoView {
        VideoView { base: (cells[1] * 256 + cells[0]) as u16, mode: cells[2], line: cells[3] }
    }
}

/// The model of the video system on the bus: every read returns 0, a write lands
/// in the registers.
pub open spec fn latches(cells: Seq<u8>) -> DeviceModel {
    DeviceModel {
        cells,
        serves: |addr: u16| true,
        read: |c: Seq<u8>, addr: u16| 0u8,
        write: |c: Seq<u8>, addr: u16, value: u8| VideoView::of(c).written(addr, value).cells(),
    }
}

/// The colour of the pixel at column `col` of scanline `line` in mode 2: the
/// byte of video memory for that pixel pair holds the left pixel in its high
/// half and the right pixel in its low half. Addresses wrap at the end of
/// memory.
pub open spec fn mode2_pixel(mem: Seq<u8>, base: u16, line: u8, col: int) -> u32 {
    let byte = mem[(base + line * BYTES_PER_ROW + col / 2) % 65536];
    palette(
        if col % 2 == 0 {
            byte / 16
        } else {
            byte % 16
        },
    )
}

/// The frame buffer after the first `count` pixel pairs of scanline `line` were
/// drawn in mode 2.
pub open spec fn mode2_drawn(
    buffer: Seq<u32>,
    mem: Seq<u8>,
    base: u16,
    line: u8,
    count: int,
) -> Seq<u32> {
    Seq::new(
        buffer.len(),
        |i: int|
            if i / (WIDTH as int) == line && i % (WIDTH as int) < 2 * count {
                mode2_pixel(mem, base, line, i % (WIDTH as int))
            } else {
                buffer[i]
            },
    )
}

/// The registers of the video system and the scanline it draws next.
pub struct VideoSystem {
    base_adress: u16,
    mode: u8,
    cur_sl: u8,
}

impl View for VideoSystem {
    type V = VideoView;

    closed spec fn view(&self) -> VideoView {
        VideoView { base: self.base_adress, mode: self.mode, line: self.cur_sl }
    }
}

impl VideoSystem {
    #[verifier::type_invariant]
    spec fn on_screen(&self) -> bool {
        self.cur_sl < LINES
    }

    /// Base address 0, mode 0, at the first scanline.
    pub fn default() -> (video: Self)
        ensures
            video@ == (VideoView { base: 0, mode: 0, line: 0 }),
    {
        Self { base_adress: 0, mode: 0, cur_sl: 0 }
    }

    /// In mode 2, draws the current scanline, 160 pixels, from video memory
    /// into the frame buffer, and goes back to the first scanline. In any other
    /// mode it does nothing.
    pub fn render_scanline(&mut self, mem: &Mem, fb: &mut Fb)
        ensures
            final(self)@ == (if old(self)@.mode == 2 {
                VideoView { line: 0, ..old(self)@ }
            } else {
                old(self)@
            }),
            final(fb)@ == (if old(self)@.mode == 2 {
                mode2_drawn(
                    old(fb)@,
                    mem@,
                    old(self)@.base,
                    old(self)@.line,
                    BYTES_PER_ROW as int,
                )
            } else {
                old(fb)@
            }),
    {
        proof {
            use_type_invariant(&*self);
        }
        if self.mode == 0x02 {
            let row_base: usize = self.base_adress as usize + self.cur_sl as usize * BYTES_PER_ROW;
            let line: usize = self.cur_sl as usize;
            let ghost start = fb@;
            let mut x: usize = 0;
            while x < BYTES_PER_ROW
                invariant
                    x <= BYTES_PER_ROW,
                    line == self.cur_sl,
                    line < LINES,
                    row_base == self.base_adress + self.cur_sl * BYTES_PER_ROW,
                    fb@.len() == start.len(),
                    fb@ == mode2_drawn(start, mem@, self.base_adress, self.cur_sl, x as int),
                    *self == *old(self),
                decreases BYTES_PER_ROW - x,
            {
                let byte = mem.read(((row_base + x) % 65536) as u16);
                let pixel1 = byte / 16;
                let pixel2 = byte % 16;
                fb.set_pixel(x * 2, line, colour(pixel1));
                fb.set_pixel(x * 2 + 1, line, colour(pixel2));
                proof {
                    let w = WIDTH as int;
                    let i1 = line * w + 2 * x;
                    let i2 = i1 + 1;
                    assert(i1 / w == line as int && i1 % w == 2 * x) by (nonlinear_arith)
                        requires
                            i1 == line * w + 2 * x,
                            0 <= 2 * x < w,
                            w == 640,
                            0 <= line,
                    ;
                    assert(i2 / w == line as int && i2 % w == 2 * x + 1) by (nonlinear_arith)
                        requires
                            i2 == line * w + 2 * x + 1,
                            0 <= 2 * x + 1 < w,
                            w == 640,
                            0 <= line,
                    ;
                    assert forall|i: int| 0 <= i < fb@.len() implies fb@[i] == mode2_drawn(
                        start,
                        mem@,
                        self.base_adress,
                        self.cur_sl,
                        x as int + 1,
                    )[i] by {
                        if i / w == line as int && i % w < 2 * (x + 1) && !(i % w < 2 * x) {
                            assert(i == w * (i / w) + i % w) by (nonlinear_arith)
                                requires
                                    w == 640,
                            ;
                        }
                    }
                }
                x += 1;
            }
            let next: u8 = self.cur_sl + 1;
            self.cur_sl = if next <= 120 {
                0
            } else {
                next
            };
        }
    }
}

impl Device for VideoSystem {
    open spec fn model(&self) -> DeviceModel {
        latches(self@.cells())
    }

    /// Always 0: the registers cannot be read.
    fn read(&self, addr: u16) -> (value: u8) {
        0
    }

    fn write(&mut self, addr: u16, value: u8) {
        proof {
            use_type_invariant(&*self);
        }
        if addr == 0xFE00 {
            self.base_adress = (self.base_adress / 256) * 256 + value as u16;
        } else if addr == 0xFE01 {
            self.base_adress = (self.base_adress % 256) + value as u16 * 256;
        } else if addr == 0xFE20 {
            self.mode = value;
        }
    }
}

} // verus!
