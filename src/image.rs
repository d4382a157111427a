//! A raster of RGBA pixels, stored row by row.

use vstd::prelude::*;

use crate::strategy::color::Rgba;

verus! {

/// The value of a pixel that was never written: transparent black.
pub open spec fn background() -> Rgba {
    Rgba { red: 0, green: 0, blue: 0, alpha: 0 }
}

/// A `width` by `height` grid of pixels; pixel `(x, y)` is at `y * width + x`.
pub struct RgbaImage {
    width: u32,
    height: u32,
    pixels: Vec<Rgba>,
}

impl RgbaImage {
    pub closed spec fn spec_width(&self) -> nat {
        self.width as nat
    }

    pub closed spec fn spec_height(&self) -> nat {
        self.height as nat
    }

    /// The pixels, row by row.
    pub closed spec fn spec_pixels(&self) -> Seq<Rgba> {
        self.pixels@
    }

    /// One pixel for each cell of the grid.
    pub open spec fn well_formed(&self) -> bool {
        self.spec_pixels().len() == self.spec_width() * self.spec_height()
    }

    /// The pixel at column `x` of row `y`.
    pub open spec fn spec_pixel(&self, x: int, y: int) -> Rgba {
        self.spec_pixels()[y * self.spec_width() + x]
    }

    /// An image whose pixels are all the background.
    pub fn new(width: u32, height: u32) -> (r: Self)
        requires
            width * height <= usize::MAX,
        ensures
            r.well_formed(),
            r.spec_width() == width,
            r.spec_height() == height,
            r.spec_pixels() == Seq::new((width * height) as nat, |i: int| background()),
    {
        let n = (width as usize) * (height as usize);
        let mut pixels: Vec<Rgba> = Vec::with_capacity(n);
        let mut i: usize = 0;
        while i < n
            invariant
                i <= n,
                pixels@ == Seq::new(i as nat, |j: int| background()),
            decreases n - i,
        {
            pixels.push(Rgba { red: 0, green: 0, blue: 0, alpha: 0 });
            i = i + 1;
            assert(pixels@ =~= Seq::new(i as nat, |j: int| background()));
        }
        RgbaImage { width, height, pixels }
    }

    /// An image of the given pixels, row by row; `None` when their number is
    /// not `width * height`.
    pub fn from_pixels(width: u32, height: u32, pixels: Vec<Rgba>) -> (r: Option<Self>)
        ensures
            r.is_some() <==> pixels@.len() == width * height,
            r matches Some(img) ==> img.well_formed() && img.spec_width() == width
                && img.spec_height() == height && img.spec_pixels() == pixels@,
    {
        assert((width as u64) * (height as u64) <= u64::MAX) by (nonlinear_arith)
            requires width <= u32::MAX, height <= u32::MAX;
        if (width as u64) * (height as u64) == pixels.len() as u64 {
            Some(RgbaImage { width, height, pixels })
        } else {
            None
        }
    }

    pub fn width(&self) -> (r: u32)
        ensures
            r == self.spec_width(),
    {
        self.width
    }

    pub fn height(&self) -> (r: u32)
        ensures
            r == self.spec_height(),
    {
        self.height
    }

    /// The pixels, row by row.
    pub fn pixels(&self) -> (r: &Vec<Rgba>)
        ensures
            r@ == self.spec_pixels(),
    {
        &self.pixels
    }

    /// The pixel at column `x` of row `y`.
    pub fn get_pixel(&self, x: u32, y: u32) -> (r: Rgba)
        requires
            self.well_formed(),
            x < self.spec_width(),
            y < self.spec_height(),
        ensures
            r == self.spec_pixel(x as int, y as int),
    {
        let n = self.pixels.len();
        proof {
            lemma_cell_in_grid(x as int, y as int, self.width as int, self.height as int);
        }
        self.pixels[(y as usize) * (self.width as usize) + (x as usize)]
    }

    /// Write the pixel at column `x` of row `y`.
    pub fn put_pixel(&mut self, x: u32, y: u32, color: Rgba)
        requires
            old(self).well_formed(),
            x < old(self).spec_width(),
            y < old(self).spec_height(),
        ensures
            final(self).well_formed(),
            final(self).spec_width() == old(self).spec_width(),
            final(self).spec_height() == old(self).spec_height(),
            final(self).spec_pixels() == old(self).spec_pixels().update(
                y * old(self).spec_width() + x,
                color,
            ),
    {
        let n = self.pixels.len();
        proof {
            lemma_cell_in_grid(x as int, y as int, self.width as int, self.height as int);
        }
        let i = (y as usize) * (self.width as usize) + (x as usize);
        self.pixels.set(i, color);
    }
}

/// A cell inside a grid lies before the grid's end.
pub proof fn lemma_cell_in_grid(x: int, y: int, width: int, height: int)
    requires
        0 <= x < width,
        0 <= y < height,
    ensures
        0 <= y * width <= y * width + x < width * height,
{
    assert(y * width + x < width * height) by (nonlinear_arith)
        requires 0 <= x < width, 0 <= y < height;
    assert(0 <= y * width) by (nonlinear_arith)
        requires 0 <= y, 0 <= width;
}

} // verus!
