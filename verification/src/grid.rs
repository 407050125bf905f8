//! Decoded pixel grids and texel addressing.
//!
//! Image textures and the equirectangular environment map both keep a decoded
//! width by height grid of 8-bit RGBA texels in row-major order.  The sampler
//! converts a surface or direction lookup into integer texel coordinates; the
//! grid then wraps the column around the width and clamps the row into range
//! (defensive against rounding at the texel edge) before indexing.

use vstd::prelude::*;

verus! {

/// One 8-bit RGBA texel.
#[derive(Clone, Copy, PartialEq, Eq, Structural, Debug)]
pub struct Rgba {
    pub r: u8,
    pub g: u8,
    pub b: u8,
    pub a: u8,
}

/// The column a texel lookup at `x` lands on: `x` wrapped into
/// `[0, width)` by the Euclidean remainder.
pub open spec fn wrapped_column(x: int, width: int) -> int {
    x % width
}

/// The row a texel lookup at `y` lands on: `y` clamped into `[0, height)`.
pub open spec fn clamped_row(y: int, height: int) -> int {
    if y < 0 {
        0
    } else if y > height - 1 {
        height - 1
    } else {
        y
    }
}

/// A decoded width by height grid of RGBA texels, stored row-major.
#[derive(Clone, Debug)]
pub struct PixelGrid {
    pub width: i32,
    pub height: i32,
    pub pixels: Vec<Rgba>,
}

impl PixelGrid {
    /// Both dimensions are positive and the texel store holds exactly one
    /// texel per grid cell.
    pub open spec fn wf(&self) -> bool {
        &&& 0 < self.width
        &&& 0 < self.height
        &&& self.pixels@.len() == self.width * self.height
    }

    /// The texel a lookup at `(x, y)` resolves to, after wrapping the
    /// column and clamping the row.
    pub open spec fn texel_at(&self, x: int, y: int) -> Rgba {
        self.pixels@[clamped_row(y, self.height as int) * self.width
            + wrapped_column(x, self.width as int)]
    }

    /// Build a grid from decoded image data.  Returns the grid exactly when
    /// the dimensions are positive and `pixels` holds one texel per cell.
    pub fn new(width: i32, height: i32, pixels: Vec<Rgba>) -> (r: Option<PixelGrid>)
        ensures
            match r {
                Some(g) => {
                    &&& g.wf()
                    &&& g.width == width
                    &&& g.height == height
                    &&& g.pixels@ == pixels@
                    &&& 0 < width
                    &&& 0 < height
                    &&& pixels@.len() == width * height
                },
                None => !(0 < width && 0 < height && pixels@.len() == width * height),
            },
    {
        if width <= 0 || height <= 0 {
            return None;
        }
        proof {
            assert((width as int) * (height as int) < 0x4000_0000_0000_0000) by (nonlinear_arith)
                requires
                    0 < width < 0x8000_0000,
                    0 < height < 0x8000_0000,
            ;
        }
        let cells: u64 = (width as u64) * (height as u64);
        if (pixels.len() as u64) != cells {
            return None;
        }
        Some(PixelGrid { width, height, pixels })
    }

    /// Look a texel up by integer coordinates: the column wraps around the
    /// width, the row is clamped into range.
    pub fn texel(&self, x: i32, y: i32) -> (r: Rgba)
        requires
            self.wf(),
        ensures
            r == self.texel_at(x as int, y as int),
    {
        let xi: i32 = x.checked_rem_euclid(self.width).unwrap();
        let yi: i32 = if y < 0 {
            0
        } else if y > self.height - 1 {
            self.height - 1
        } else {
            y
        };
        // Binding the length gives the prover that the pixel count fits in
        // usize, which bounds the index arithmetic below.
        let _n: usize = self.pixels.len();
        proof {
            assert(0 <= yi * self.width && yi * self.width + xi < self.width * self.height)
                by (nonlinear_arith)
                requires
                    0 <= xi < self.width,
                    0 <= yi < self.height,
            ;
        }
        let idx: usize = (yi as usize) * (self.width as usize) + (xi as usize);
        self.pixels[idx]
    }
}

} // verus!
