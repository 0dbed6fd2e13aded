//! The frame buffer: the pixels of the screen, row by row.

use vstd::prelude::*;

verus! {

/// Pixels in a row.
pub const WIDTH: usize = 640;

/// Rows on the screen.
pub const HEIGHT: usize = 360;

/// The pixel buffer with the pixel at column `x` of row `y` set to `colour`; as
/// it was where `x` or `y` lies off the screen.
pub open spec fn with_pixel(buffer: Seq<u32>, x: int, y: int, colour: u32) -> Seq<u32> {
    if 0 <= x < WIDTH && 0 <= y < HEIGHT {
        buffer.update(y * WIDTH + x, colour)
    } else {
        buffer
    }
}

/// The pixels of the screen, as 0xRRGGBB, row by row.
pub struct Fb {
    buffer: Vec<u32>,
}

impl View for Fb {
    type V = Seq<u32>;

    closed spec fn view(&self) -> Seq<u32> {
        self.buffer@
    }
}

impl Fb {
    #[verifier::type_invariant]
    spec fn sized(&self) -> bool {
        self.buffer@.len() == WIDTH * HEIGHT
    }

    /// A buffer of `WIDTH` times `HEIGHT` pixels, all 0.
    pub fn default() -> (fb: Self)
        ensures
            fb@ == Seq::new((WIDTH * HEIGHT) as nat, |i: int| 0u32),
    {
        Self { buffer: vec![0; WIDTH * HEIGHT] }
    }

    /// Sets the pixel at column `x` of row `y`; does nothing where that lies off
    /// the screen.
    pub fn set_pixel(&mut self, x: usize, y: usize, colour: u32)
        ensures
            final(self)@ == with_pixel(old(self)@, x as int, y as int, colour),
            final(self)@.len() == old(self)@.len(),
            final(self)@.len() == WIDTH * HEIGHT,
    {
        proof {
            use_type_invariant(&*self);
        }
        if x < WIDTH && y < HEIGHT {
            assert(y * WIDTH + x < WIDTH * HEIGHT) by (nonlinear_arith)
                requires
                    x < WIDTH,
                    y < HEIGHT,
            ;
            self.buffer[y * WIDTH + x] = colour;
        }
    }

    /// The pixels, row by row.
    pub fn pixels(&self) -> (pixels: &Vec<u32>)
        ensures
            pixels@ == self@,
            pixels@.len() == WIDTH * HEIGHT,
    {
        proof {
            use_type_invariant(self);
        }
        &self.buffer
    }
}

} // verus!
