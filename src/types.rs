use vstd::prelude::*;

verus! {

/// Width and height of a raster, in pixels.
#[derive(Clone, Copy, Debug, PartialEq, Eq, Structural)]
pub struct Dimensions {
    pub width: u32,
    pub height: u32,
}

/// An oriented 8-bit RGB raster, row-major, three bytes per pixel.
#[derive(Clone, Debug)]
pub struct DecodedImage {
    pub dimensions: Dimensions,
    pub rgb: Vec<u8>,
}

impl DecodedImage {
    pub open spec fn width(&self) -> int {
        self.dimensions.width as int
    }

    pub open spec fn height(&self) -> int {
        self.dimensions.height as int
    }

    /// The buffer holds exactly three bytes for every pixel.
    pub open spec fn wf(&self) -> bool {
        self.rgb@.len() == self.width() * self.height() * 3
    }

    /// Index of channel `c` of pixel `(x, y)` in the buffer.
    pub open spec fn offset(&self, x: int, y: int, c: int) -> int {
        (y * self.width() + x) * 3 + c
    }

    /// Channel `c` (0 red, 1 green, 2 blue) of the pixel in column `x`, row `y`.
    pub open spec fn channel(&self, x: int, y: int, c: int) -> u8 {
        self.rgb@[self.offset(x, y, c)]
    }
}

} // verus!
