//! The render target.
//!
//! The tracer writes one RGBA texel per pixel into a fixed-resolution buffer;
//! once a frame is complete the buffer is flattened to raw bytes for the
//! display surface, which presents it scaled up by an integer factor.

use crate::grid::Rgba;
use vstd::prelude::*;

verus! {

/// Width of the rendered image, in pixels.
pub const W: i32 = 320;

/// Height of the rendered image, in pixels.
pub const H: i32 = 180;

/// Integer factor the display surface scales the image up by.
pub const SCALE: i32 = 4;

/// A width by height grid of RGBA pixels, stored row-major, that the
/// renderer fills one pixel at a time.
pub struct Framebuffer {
    pub width: i32,
    pub height: i32,
    pub pixels: Vec<Rgba>,
}

/// An opaque black pixel, the colour the buffer starts from.
pub open spec fn black_pixel() -> Rgba {
    Rgba { r: 0, g: 0, b: 0, a: 255 }
}

impl Framebuffer {
    /// Both dimensions are positive and the store holds exactly one pixel
    /// per grid cell.
    pub open spec fn wf(&self) -> bool {
        &&& 0 < self.width
        &&& 0 < self.height
        &&& self.pixels@.len() == self.width * self.height
    }

    /// The row-major index of the pixel at `(x, y)`.
    pub open spec fn index_of(&self, x: int, y: int) -> int {
        y * self.width + x
    }

    /// A buffer of the given dimensions with every pixel opaque black.
    pub fn new(width: i32, height: i32) -> (r: Framebuffer)
        requires
            0 < width,
            0 < height,
            width * height <= usize::MAX,
        ensures
            r.wf(),
            r.width == width,
            r.height == height,
            forall|i: int| 0 <= i < r.pixels@.len() ==> r.pixels@[i] == black_pixel(),
    {
        proof {
            assert((width as int) * (height as int) < 0x4000_0000_0000_0000) by (nonlinear_arith)
                requires
                    0 < width < 0x8000_0000,
                    0 < height < 0x8000_0000,
            ;
        }
        let cells: u64 = (width as u64) * (height as u64);
        let mut pixels: Vec<Rgba> = Vec::new();
        let mut i: u64 = 0;
        while i < cells
            invariant
                i <= cells,
                cells == width * height,
                cells <= usize::MAX,
                pixels@.len() == i,
                forall|j: int| 0 <= j < pixels@.len() ==> pixels@[j] == black_pixel(),
            decreases cells - i,
        {
            pixels.push(Rgba { r: 0, g: 0, b: 0, a: 255 });
            i = i + 1;
        }
        Framebuffer { width, height, pixels }
    }

    /// Store `c` as the pixel at `(x, y)`, leaving every other pixel as it
    /// was.
    pub fn set_pixel(&mut self, x: i32, y: i32, c: Rgba)
        requires
            old(self).wf(),
            0 <= x < old(self).width,
            0 <= y < old(self).height,
        ensures
            final(self).wf(),
            final(self).width == old(self).width,
            final(self).height == old(self).height,
            final(self).pixels@ == old(self).pixels@.update(
                old(self).index_of(x as int, y as int),
                c,
            ),
    {
        // Binding the length gives the prover that the pixel count fits in
        // usize, which bounds the index arithmetic below.
        let _n: usize = self.pixels.len();
        proof {
            assert(0 <= y * self.width && y * self.width + x < self.width * self.height)
                by (nonlinear_arith)
                requires
                    0 <= x < self.width,
                    0 <= y < self.height,
            ;
        }
        let idx: usize = (y as usize) * (self.width as usize) + (x as usize);
        self.pixels.set(idx, c);
    }

    /// Read the pixel at `(x, y)` back.
    pub fn pixel(&self, x: i32, y: i32) -> (r: Rgba)
        requires
            self.wf(),
            0 <= x < self.width,
            0 <= y < self.height,
        ensures
            r == self.pixels@[self.index_of(x as int, y as int)],
    {
        // Binding the length gives the prover that the pixel count fits in
        // usize, which bounds the index arithmetic below.
        let _n: usize = self.pixels.len();
        proof {
            assert(0 <= y * self.width && y * self.width + x < self.width * self.height)
                by (nonlinear_arith)
                requires
                    0 <= x < self.width,
                    0 <= y < self.height,
            ;
        }
        let idx: usize = (y as usize) * (self.width as usize) + (x as usize);
        self.pixels[idx]
    }

    /// Flatten the buffer into raw bytes for the display surface: four
    /// bytes per pixel, in pixel order, each pixel contributing its red,
    /// green, blue and alpha channels in that order.
    pub fn to_rgba_bytes(&self) -> (r: Vec<u8>)
        requires
            4 * self.pixels@.len() <= usize::MAX,
        ensures
            r@.len() == 4 * self.pixels@.len(),
            forall|i: int|
                0 <= i < self.pixels@.len() ==> {
                    &&& r@[4 * i] == self.pixels@[i].r
                    &&& r@[4 * i + 1] == self.pixels@[i].g
                    &&& r@[4 * i + 2] == self.pixels@[i].b
                    &&& r@[4 * i + 3] == self.pixels@[i].a
                },
    {
        let n: usize = self.pixels.len();
        let mut bytes: Vec<u8> = Vec::new();
        let mut i: usize = 0;
        while i < n
            invariant
                i <= n,
                n == self.pixels@.len(),
                4 * n <= usize::MAX,
                bytes@.len() == 4 * i,
                forall|j: int|
                    0 <= j < i ==> {
                        &&& bytes@[4 * j] == self.pixels@[j].r
                        &&& bytes@[4 * j + 1] == self.pixels@[j].g
                        &&& bytes@[4 * j + 2] == self.pixels@[j].b
                        &&& bytes@[4 * j + 3] == self.pixels@[j].a
                    },
            decreases n - i,
        {
            let c = self.pixels[i];
            bytes.push(c.r);
            bytes.push(c.g);
            bytes.push(c.b);
            bytes.push(c.a);
            i = i + 1;
        }
        bytes
    }
}

} // verus!
