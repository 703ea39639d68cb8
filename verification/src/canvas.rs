//! Fixed-size pixel canvas: a 128 x 128 addressable colour buffer with
//! bounds-checked writes and an explicit little-endian serialization of its
//! 16-bit pixels, used both as a virtual mirror of the physical display and
//! as the target for frame recording.

use vstd::prelude::*;
use vstd::pervasive::VecAdditionalExecFns;

verus! {

/// Side length of the square canvas, in pixels.
pub const CANVAS_SIDE: usize = 128;

/// Number of pixels in the canvas.
pub const PIXEL_COUNT: usize = 128 * 128;

/// Foreground colour (red in the 5-6-5 channel layout).
pub const FG_COLOR: u16 = 0xF800;

/// Background colour (black).
pub const BG_COLOR: u16 = 0x0000;

/// A fixed 128 x 128 colour buffer; each pixel is one 16-bit 5-6-5 sample.
/// Writes outside the canvas are silently dropped, never an error.
#[derive(Debug, Clone)]
pub struct Framebuffer {
    pixels: Vec<u16>,
}

impl View for Framebuffer {
    type V = Seq<u16>;

    closed spec fn view(&self) -> Seq<u16> {
        self.pixels@
    }
}

impl Framebuffer {
    /// Well-formedness: the buffer holds exactly one sample per pixel.
    pub open spec fn wf(&self) -> bool {
        self@.len() == PIXEL_COUNT
    }

    /// A canvas with every pixel set to the background colour.
    pub fn new() -> (r: Framebuffer)
        ensures
            r.wf(),
            forall|i: int| 0 <= i < r@.len() ==> r@[i] == BG_COLOR,
    {
        let mut pixels: Vec<u16> = Vec::new();
        let mut i: usize = 0;
        while i < PIXEL_COUNT
            invariant
                i <= PIXEL_COUNT,
                pixels@.len() == i,
                forall|j: int| 0 <= j < i ==> pixels@[j] == BG_COLOR,
            decreases PIXEL_COUNT - i,
        {
            pixels.push(BG_COLOR);
            i = i + 1;
        }
        Framebuffer { pixels }
    }

    /// The canvas dimensions, width then height.
    pub fn size(&self) -> (r: (u32, u32))
        ensures
            r == (128u32, 128u32),
    {
        (128, 128)
    }

    /// Sets every pixel to the given colour.
    pub fn clear(&mut self, color: u16)
        requires
            old(self).wf(),
        ensures
            final(self).wf(),
            forall|i: int| 0 <= i < final(self)@.len() ==> final(self)@[i] == color,
    {
        let mut i: usize = 0;
        while i < PIXEL_COUNT
            invariant
                i <= PIXEL_COUNT,
                self.wf(),
                forall|j: int| 0 <= j < i ==> self@[j] == color,
            decreases PIXEL_COUNT - i,
        {
            self.pixels.set(i, color);
            i = i + 1;
        }
    }

    /// Bounds-checked pixel write: a coordinate outside the canvas leaves
    /// the buffer unchanged.
    pub fn set_pixel(&mut self, x: i32, y: i32, color: u16)
        requires
            old(self).wf(),
        ensures
            final(self).wf(),
            0 <= x < 128 && 0 <= y < 128 ==> final(self)@ == old(self)@.update(
                y as int * 128 + x as int,
                color,
            ),
            !(0 <= x < 128 && 0 <= y < 128) ==> final(self)@ == old(self)@,
    {
        if 0 <= x && x < 128 && 0 <= y && y < 128 {
            let index: usize = (y as usize) * 128 + (x as usize);
            self.pixels.set(index, color);
        }
    }

    /// The pixel at the given coordinate.
    pub fn get_pixel(&self, x: i32, y: i32) -> (r: u16)
        requires
            self.wf(),
            0 <= x < 128,
            0 <= y < 128,
        ensures
            r == self@[y as int * 128 + x as int],
    {
        let index: usize = (y as usize) * 128 + (x as usize);
        self.pixels[index]
    }

    /// Serializes the canvas row-major as little-endian 16-bit samples:
    /// each pixel becomes its low byte followed by its high byte.
    pub fn as_bytes(&self) -> (r: Vec<u8>)
        ensures
            r@.len() == 2 * self@.len(),
            forall|i: int|
                0 <= i < self@.len() ==> r@[2 * i] == (self@[i] % 256) as u8 && r@[2 * i + 1] == (
                self@[i] / 256) as u8,
    {
        let mut bytes: Vec<u8> = Vec::new();
        let mut i: usize = 0;
        let n = self.pixels.len();
        while i < n
            invariant
                i <= n,
                n == self@.len(),
                bytes@.len() == 2 * i,
                forall|j: int|
                    0 <= j < i ==> bytes@[2 * j] == (self@[j] % 256) as u8 && bytes@[2 * j + 1]
                        == (self@[j] / 256) as u8,
            decreases n - i,
        {
            let p = self.pixels[i];
            bytes.push((p % 256) as u8);
            bytes.push((p / 256) as u8);
            i = i + 1;
        }
        bytes
    }
}

} // verus!
