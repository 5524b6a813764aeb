//! A video frame normalized to three 8-bit channels per pixel.
//!
//! Pixels are stored row-major: the pixel at column `x` of row `y` sits at
//! index `y * width + x`. A frame is well-formed when the pixel count equals
//! `width * height`.

use vstd::prelude::*;
use crate::color::Color;

verus! {

/// A frame of `width * height` pixels in row-major order.
#[derive(Debug, Clone, PartialEq, Eq)]
pub struct Frame {
    pub width: usize,
    pub height: usize,
    pub pixels: Vec<Color>,
}

impl Frame {
    /// The pixel count matches the dimensions.
    pub open spec fn wf(self) -> bool {
        self.pixels@.len() == self.width * self.height
    }

    /// The index of the pixel at column `x` of row `y`.
    pub open spec fn index_of(self, x: int, y: int) -> int {
        y * self.width + x
    }

    /// The pixel at column `x` of row `y`.
    pub open spec fn pixel(self, x: int, y: int) -> Color {
        self.pixels@[self.index_of(x, y)]
    }

    /// Whether column `x` of row `y` lies inside the frame.
    pub open spec fn contains(self, x: int, y: int) -> bool {
        0 <= x < self.width && 0 <= y < self.height
    }

    /// Builds a frame filled with one color.
    pub fn filled(width: usize, height: usize, fill: Color) -> (frame: Frame)
        requires
            width * height <= usize::MAX,
        ensures
            frame.wf(),
            frame.width == width,
            frame.height == height,
            forall|i: int| 0 <= i < frame.pixels@.len() ==> frame.pixels@[i] == fill,
    {
        let n: usize = width * height;
        let mut pixels: Vec<Color> = Vec::new();
        let mut i: usize = 0;
        while i < n
            invariant
                i <= n,
                pixels@.len() == i,
                forall|j: int| 0 <= j < i ==> pixels@[j] == fill,
            decreases n - i,
        {
            pixels.push(fill);
            i = i + 1;
        }
        Frame { width, height, pixels }
    }

    /// Builds a frame from row-major pixel data of the right length.
    pub fn from_pixels(width: usize, height: usize, pixels: Vec<Color>) -> (frame: Frame)
        requires
            pixels@.len() == width * height,
        ensures
            frame.wf(),
            frame.width == width,
            frame.height == height,
            frame.pixels@ == pixels@,
    {
        Frame { width, height, pixels }
    }

    /// Reads the pixel at column `x` of row `y`.
    pub fn pixel_at(&self, x: usize, y: usize) -> (c: Color)
        requires
            self.wf(),
            x < self.width,
            y < self.height,
        ensures
            c == self.pixel(x as int, y as int),
    {
        let n: usize = self.pixels.len();
        proof {
            lemma_row_major_index_in_bounds(
                self.width as int,
                self.height as int,
                x as int,
                y as int,
            );
        }
        assert(y * self.width + x < n);
        self.pixels[y * self.width + x]
    }
}

/// Inside a `width * height` grid, the row-major index of an in-bounds
/// coordinate is below the pixel count.
proof fn lemma_row_major_index_in_bounds(width: int, height: int, x: int, y: int)
    requires
        0 <= x < width,
        0 <= y < height,
    ensures
        0 <= y * width + x < width * height,
{
    assert(0 <= y * width + x < width * height) by (nonlinear_arith)
        requires
            0 <= x < width,
            0 <= y < height,
    ;
}

} // verus!
