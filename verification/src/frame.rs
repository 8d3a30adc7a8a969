//! Pixel frames and the size of the character grid that a frame is scaled to.

use vstd::prelude::*;
use crate::tone::round_div;

verus! {

/// One pixel: red, green, blue and alpha.
#[derive(Clone, Copy, Debug, PartialEq, Eq)]
pub struct Pixel {
    pub r: u8,
    pub g: u8,
    pub b: u8,
    pub a: u8,
}

/// A rectangular grid of pixels, row by row from the top left.
pub struct Grid {
    pub width: nat,
    pub height: nat,
    pub pixels: Seq<Pixel>,
}

impl Grid {
    /// There is one pixel for every cell of the rectangle.
    pub open spec fn wf(self) -> bool {
        self.pixels.len() == self.width * self.height
    }

    /// The pixel in column `x` of row `y`.
    pub open spec fn pixel(self, x: int, y: int) -> Pixel
        recommends
            0 <= x < self.width,
            0 <= y < self.height,
    {
        self.pixels[y * self.width + x]
    }
}

/// One channel of a pixel by its position in the pixel: 0 is red, 1 green,
/// 2 blue and 3 alpha.
pub open spec fn channel(p: Pixel, index: int) -> u8 {
    if index == 0 {
        p.r
    } else if index == 1 {
        p.g
    } else if index == 2 {
        p.b
    } else {
        p.a
    }
}

/// Whether a channel is zero in every pixel of a grid.
pub open spec fn channel_is_zero(grid: Grid, index: int) -> bool {
    forall|i: int| 0 <= i < grid.pixels.len() ==> channel(#[trigger] grid.pixels[i], index) == 0
}

/// Whether a grid is black throughout: red, green and blue are zero in
/// every pixel, whatever the alpha.
pub open spec fn is_black(grid: Grid) -> bool {
    &&& channel_is_zero(grid, 0)
    &&& channel_is_zero(grid, 1)
    &&& channel_is_zero(grid, 2)
}

/// A frame of 8-bit RGBA pixels: four bytes per pixel, row by row.
#[derive(Debug)]
pub struct Frame {
    pub width: u32,
    pub height: u32,
    pub data: Vec<u8>,
}

impl View for Frame {
    type V = Grid;

    open spec fn view(&self) -> Grid {
        Grid {
            width: self.width as nat,
            height: self.height as nat,
            pixels: Seq::new(
                (self.data@.len() / 4) as nat,
                |i: int|
                    Pixel {
                        r: self.data@[4 * i],
                        g: self.data@[4 * i + 1],
                        b: self.data@[4 * i + 2],
                        a: self.data@[4 * i + 3],
                    },
            ),
        }
    }
}

impl Frame {
    /// The buffer holds exactly four bytes for every pixel of the rectangle.
    pub open spec fn wf(&self) -> bool {
        self.data@.len() == 4 * (self.width * self.height)
    }

    /// A frame over `data`, or `None` when `data` is not `4 * width * height` bytes long.
    pub fn new(width: u32, height: u32, data: Vec<u8>) -> (made: Option<Frame>)
        ensures
            data@.len() != 4 * (width * height) ==> made is None,
            data@.len() == 4 * (width * height) ==> made == Some(Frame { width, height, data }),
            made matches Some(frame) ==> frame.wf() && frame@.wf(),
    {
        assert(width * height <= 0xffff_ffff * 0xffff_ffff) by (nonlinear_arith)
            requires
                width <= 0xffff_ffff,
                height <= 0xffff_ffff,
        ;
        let cells: u128 = width as u128 * height as u128;
        let needed: u128 = 4 * cells;
        if data.len() as u128 == needed {
            let frame = Frame { width, height, data };
            proof {
                frame.lemma_view_wf();
            }
            Some(frame)
        } else {
            None
        }
    }

    /// A well-formed frame has a well-formed grid as its view.
    pub proof fn lemma_view_wf(&self)
        requires
            self.wf(),
        ensures
            self@.wf(),
            self@.pixels.len() == self.width * self.height,
    {
    }

    /// The pixel in column `x` of row `y`.
    pub fn pixel(&self, x: u32, y: u32) -> (p: Pixel)
        requires
            self.wf(),
            x < self.width,
            y < self.height,
        ensures
            p == self@.pixel(x as int, y as int),
    {
        let bytes: usize = self.data.len();
        proof {
            lemma_cell_in_grid(x as int, y as int, self.width as int, self.height as int);
            assert(4 * (y * self.width + x) + 3 < bytes);
        }
        let cell: usize = y as usize * self.width as usize + x as usize;
        let at: usize = 4 * cell;
        Pixel { r: self.data[at], g: self.data[at + 1], b: self.data[at + 2], a: self.data[at + 3] }
    }
}

/// A cell of a `width` by `height` rectangle has an index below `width * height`.
pub proof fn lemma_cell_in_grid(x: int, y: int, width: int, height: int)
    requires
        0 <= x < width,
        0 <= y < height,
    ensures
        0 <= y * width <= y * width + x < width * height,
{
    assert(0 <= y * width && (y + 1) * width <= height * width) by (nonlinear_arith)
        requires
            0 <= y,
            y + 1 <= height,
            0 < width,
    ;
    assert((y + 1) * width == y * width + width) by (nonlinear_arith);
    assert(height * width == width * height) by (nonlinear_arith);
}

/// Numerator of the correction for character cells being taller than wide.
pub const ASPECT_NUMER: u32 = 11;

/// Denominator of the correction for character cells being taller than wide.
pub const ASPECT_DENOM: u32 = 20;

/// The number of character rows for a source of `src_width` by `src_height`
/// pixels shown `width` characters wide: `src_height * width * 11/20 / src_width`
/// rounded to the nearest whole number, at least 1 and at most `u32::MAX`.
pub open spec fn grid_height(src_width: int, src_height: int, width: int) -> int {
    let nearest = round_div(src_height * width * ASPECT_NUMER, src_width * ASPECT_DENOM);
    if nearest < 1 {
        1
    } else if nearest > u32::MAX {
        u32::MAX as int
    } else {
        nearest
    }
}

/// Whatever the sizes, the number of character rows is at least one, and
/// it fits the type that holds it.
pub proof fn lemma_grid_height_in_range(src_width: int, src_height: int, width: int)
    ensures
        1 <= grid_height(src_width, src_height, width) <= u32::MAX,
{
}

/// Computes the number of character rows for a source shown `width` characters wide.
pub fn target_height(src_width: u32, src_height: u32, width: u32) -> (rows: u32)
    requires
        src_width > 0,
    ensures
        rows == grid_height(src_width as int, src_height as int, width as int),
        rows >= 1,
{
    assert(src_height * width <= 0xffff_ffff * 0xffff_ffff) by (nonlinear_arith)
        requires
            src_height <= 0xffff_ffff,
            width <= 0xffff_ffff,
    ;
    let area: u128 = src_height as u128 * width as u128;
    let num: u128 = area * 11;
    let den: u128 = src_width as u128 * 20;
    let nearest: u128 = (2 * num + den) / (2 * den);
    if nearest < 1 {
        1
    } else if nearest > 0xffff_ffff {
        0xffff_ffff
    } else {
        nearest as u32
    }
}

} // verus!
