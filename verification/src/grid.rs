//! Decoded rasters: rows of RGBA samples, and their mathematical model.

use vstd::prelude::*;

verus! {

/// The largest width or height of a raster: what a JPEG frame header can carry.
pub const MAX_DIMENSION: u32 = 65535;

/// Whether `d` can be the width or the height of a raster.
pub open spec fn valid_dimension(d: u32) -> bool {
    1 <= d <= MAX_DIMENSION
}

/// Whether a buffer of `bytes` bytes can be allocated at all: no allocation
/// exceeds `isize::MAX` bytes.
pub open spec fn allocatable(bytes: int) -> bool {
    bytes <= isize::MAX
}

/// One colour sample: red, green, blue and alpha, eight bits each.
#[derive(Clone, Copy, Debug, PartialEq, Eq, Structural)]
pub struct Rgba {
    pub r: u8,
    pub g: u8,
    pub b: u8,
    pub a: u8,
}

/// The model of a raster: its dimensions and its samples, row by row from the
/// top, four samples (red, green, blue, alpha) per pixel.
pub struct Raster {
    pub width: nat,
    pub height: nat,
    pub samples: Seq<u8>,
}

impl Raster {
    /// Both dimensions are positive and within `MAX_DIMENSION`, and every pixel
    /// has its four samples.
    pub open spec fn wf(self) -> bool {
        &&& 1 <= self.width <= MAX_DIMENSION
        &&& 1 <= self.height <= MAX_DIMENSION
        &&& self.samples.len() == 4 * self.width * self.height
    }

    /// Where channel `c` of the pixel at column `x`, row `y` lies in `samples`.
    pub open spec fn index_of(self, x: int, y: int, c: int) -> int {
        4 * (y * self.width + x) + c
    }

    /// Channel `c` (0 red, 1 green, 2 blue, 3 alpha) of the pixel at (`x`, `y`).
    pub open spec fn sample(self, x: int, y: int, c: int) -> u8
        recommends
            0 <= x < self.width,
            0 <= y < self.height,
            0 <= c < 4,
    {
        self.samples[self.index_of(x, y, c)]
    }

    /// The pixel at column `x`, row `y`.
    pub open spec fn pixel(self, x: int, y: int) -> Rgba
        recommends
            0 <= x < self.width,
            0 <= y < self.height,
    {
        Rgba {
            r: self.sample(x, y, 0),
            g: self.sample(x, y, 1),
            b: self.sample(x, y, 2),
            a: self.sample(x, y, 3),
        }
    }
}

/// Every sample of a pixel of a well-formed raster lies inside its buffer.
pub proof fn lemma_index_in_bounds(r: Raster, x: int, y: int, c: int)
    requires
        r.wf(),
        0 <= x < r.width,
        0 <= y < r.height,
        0 <= c < 4,
    ensures
        0 <= r.index_of(x, y, c) < r.samples.len(),
        0 <= y * r.width + x < r.width * r.height,
{
    let w = r.width as int;
    let h = r.height as int;
    assert(y * w + x < w * h && 0 <= y * w) by (nonlinear_arith)
        requires
            0 <= x < w,
            0 <= y < h,
    ;
    assert(4 * (w * h) == 4 * w * h) by (nonlinear_arith);
}

/// A decoded image: `width` by `height` pixels of RGBA samples.
#[derive(Debug, PartialEq, Eq)]
pub struct PixelGrid {
    width: u32,
    height: u32,
    samples: Vec<u8>,
}

impl View for PixelGrid {
    type V = Raster;

    closed spec fn view(&self) -> Raster {
        Raster { width: self.width as nat, height: self.height as nat, samples: self.samples@ }
    }
}

impl PixelGrid {
    /// The invariant of a grid: that of its model.
    pub open spec fn wf(&self) -> bool {
        self@.wf()
    }

    /// Makes a grid of `width` by `height` pixels out of `samples`, if the
    /// dimensions are valid and `samples` holds exactly four bytes per pixel.
    pub fn new(width: u32, height: u32, samples: Vec<u8>) -> (out: Option<PixelGrid>)
        ensures
            out is Some <==> (Raster {
                width: width as nat,
                height: height as nat,
                samples: samples@,
            }).wf(),
            out matches Some(g) ==> g.wf() && g@ == (Raster {
                width: width as nat,
                height: height as nat,
                samples: samples@,
            }),
    {
        if width == 0 || width > MAX_DIMENSION || height == 0 || height > MAX_DIMENSION {
            return None;
        }
        assert(4 * width * height <= 4 * 65535 * 65535) by (nonlinear_arith)
            requires
                width <= 65535,
                height <= 65535,
        ;
        let expected: u64 = 4 * (width as u64) * (height as u64);
        if samples.len() as u64 != expected {
            return None;
        }
        Some(PixelGrid { width, height, samples })
    }

    /// Makes a grid out of parts that are known to fit together.
    pub(crate) fn from_parts(width: u32, height: u32, samples: Vec<u8>) -> (out: PixelGrid)
        requires
            (Raster { width: width as nat, height: height as nat, samples: samples@ }).wf(),
        ensures
            out.wf(),
            out@ == (Raster { width: width as nat, height: height as nat, samples: samples@ }),
    {
        PixelGrid { width, height, samples }
    }

    /// The number of pixels in a row.
    pub fn width(&self) -> (w: u32)
        ensures
            w == self@.width,
    {
        self.width
    }

    /// The number of rows.
    pub fn height(&self) -> (h: u32)
        ensures
            h == self@.height,
    {
        self.height
    }

    /// The samples, row by row, four per pixel.
    pub fn samples(&self) -> (s: &Vec<u8>)
        ensures
            s@ == self@.samples,
    {
        &self.samples
    }

    /// The pixel at column `x`, row `y`.
    pub fn pixel(&self, x: u32, y: u32) -> (p: Rgba)
        requires
            self.wf(),
            x < self@.width,
            y < self@.height,
        ensures
            p == self@.pixel(x as int, y as int),
    {
        proof {
            lemma_index_in_bounds(self@, x as int, y as int, 3);
            assert(0 <= y * self.width) by (nonlinear_arith);
            assert(self.samples.len() == self@.samples.len());
        }
        let base: usize = 4 * ((y as usize) * (self.width as usize) + (x as usize));
        Rgba {
            r: self.samples[base],
            g: self.samples[base + 1],
            b: self.samples[base + 2],
            a: self.samples[base + 3],
        }
    }
}

} // verus!
