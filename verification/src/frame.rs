//! The raster the renderer fills: a fixed-size grid of 8-bit RGB pixels,
//! stored row-major with row 0 at the top, as the image sink expects it.

use vstd::prelude::*;

verus! {

/// An 8-bit RGB pixel, the quantized form of a color.
#[derive(Clone, Copy, Debug, PartialEq, Eq, Structural)]
pub struct Rgb {
    pub r: u8,
    pub g: u8,
    pub b: u8,
}

/// A `width x height` grid of pixels, row-major, row 0 at the top.
///
/// The renderer writes one pixel per grid cell and the image sink then
/// reads the finished grid out; the grid itself never leaves this shape.
pub struct Frame {
    width: usize,
    height: usize,
    pixels: Vec<Rgb>,
}

impl Frame {
    /// The grid holds exactly one pixel per cell.
    pub closed spec fn wf(self) -> bool {
        self.pixels@.len() == self.width * self.height
    }

    /// Number of pixel columns.
    pub closed spec fn width_spec(self) -> int {
        self.width as int
    }

    /// Number of pixel rows.
    pub closed spec fn height_spec(self) -> int {
        self.height as int
    }

    /// The pixel of column `x` of row `y`, row 0 at the top.
    pub closed spec fn at(self, x: int, y: int) -> Rgb {
        self.pixels@[y * self.width + x]
    }

    /// A fresh all-black frame of the given dimensions.
    pub fn new(width: usize, height: usize) -> (f: Frame)
        requires
            width * height <= usize::MAX,
        ensures
            f.wf(),
            f.width_spec() == width,
            f.height_spec() == height,
            forall|x: int, y: int|
                0 <= x < width && 0 <= y < height ==> f.at(x, y) == (Rgb { r: 0, g: 0, b: 0 }),
    {
        let total = width * height;
        let mut pixels: Vec<Rgb> = Vec::new();
        let mut i: usize = 0;
        while i < total
            invariant
                i <= total,
                pixels@.len() == i,
                forall|k: int| 0 <= k < i ==> pixels@[k] == (Rgb { r: 0, g: 0, b: 0 }),
            decreases total - i,
        {
            pixels.push(Rgb { r: 0, g: 0, b: 0 });
            i = i + 1;
        }
        let f = Frame { width, height, pixels };
        proof {
            assert forall|x: int, y: int|
                0 <= x < width && 0 <= y < height implies f.at(x, y) == (Rgb {
                r: 0,
                g: 0,
                b: 0,
            }) by {
                lemma_cell_index(width as int, height as int, x, y);
            }
        }
        f
    }

    /// Write the pixel of column `x` of row `y`; every other cell is kept.
    pub fn set(&mut self, x: usize, y: usize, p: Rgb)
        requires
            old(self).wf(),
            x < old(self).width_spec(),
            y < old(self).height_spec(),
        ensures
            final(self).wf(),
            final(self).width_spec() == old(self).width_spec(),
            final(self).height_spec() == old(self).height_spec(),
            final(self).at(x as int, y as int) == p,
            forall|i: int, j: int|
                0 <= i < old(self).width_spec() && 0 <= j < old(self).height_spec() && (i != x || j
                    != y) ==> final(self).at(i, j) == old(self).at(i, j),
    {
        let n = self.pixels.len();
        proof {
            lemma_cell_index(self.width as int, self.height as int, x as int, y as int);
            assert(n == self.width * self.height);
        }
        let idx = y * self.width + x;
        self.pixels.set(idx, p);
        proof {
            assert forall|i: int, j: int|
                0 <= i < old(self).width_spec() && 0 <= j < old(self).height_spec() && (i != x || j
                    != y) implies final(self).at(i, j) == old(self).at(i, j) by {
                lemma_cell_index(self.width as int, self.height as int, i, j);
                lemma_cell_index_injective(self.width as int, i, j, x as int, y as int);
            }
        }
    }

    /// Read the pixel of column `x` of row `y`.
    pub fn get(&self, x: usize, y: usize) -> (p: Rgb)
        requires
            self.wf(),
            x < self.width_spec(),
            y < self.height_spec(),
        ensures
            p == self.at(x as int, y as int),
    {
        let n = self.pixels.len();
        proof {
            lemma_cell_index(self.width as int, self.height as int, x as int, y as int);
            assert(n == self.width * self.height);
        }
        let idx = y * self.width + x;
        self.pixels[idx]
    }

    /// Number of pixel columns.
    pub fn width(&self) -> (w: usize)
        ensures
            w == self.width_spec(),
    {
        self.width
    }

    /// Number of pixel rows.
    pub fn height(&self) -> (h: usize)
        ensures
            h == self.height_spec(),
    {
        self.height
    }
}

/// The row-major cell index of column `x` of row `y` stays inside the grid.
proof fn lemma_cell_index(w: int, h: int, x: int, y: int)
    requires
        0 <= x < w,
        0 <= y < h,
    ensures
        0 <= y * w + x < w * h,
{
    assert(0 <= y * w + x < w * h) by (nonlinear_arith)
        requires
            0 <= x < w,
            0 <= y < h,
    ;
}

/// Distinct grid cells have distinct row-major indices.
proof fn lemma_cell_index_injective(w: int, x1: int, y1: int, x2: int, y2: int)
    requires
        0 <= x1 < w,
        0 <= x2 < w,
        x1 != x2 || y1 != y2,
    ensures
        y1 * w + x1 != y2 * w + x2,
{
    assert(y1 * w + x1 != y2 * w + x2) by (nonlinear_arith)
        requires
            0 <= x1 < w,
            0 <= x2 < w,
            x1 != x2 || y1 != y2,
    ;
}

} // verus!
