//! Pixel grids: rectangular, row-major arrays of 8-bit pixels.

use vstd::prelude::*;
use crate::pixel::{Layout, Pixel};

verus! {

/// Mathematical model of a pixel grid: its dimensions, its layout and its
/// samples in row-major order, the channels of one pixel next to each other.
#[verifier::ext_equal]
pub struct GridView {
    pub width: nat,
    pub height: nat,
    pub layout: Layout,
    pub samples: Seq<u8>,
}

impl GridView {
    /// Number of pixels of the grid.
    pub open spec fn pixel_count(self) -> nat {
        self.width * self.height
    }

    /// Number of samples that the pixels of the grid occupy: the pixel
    /// count times the channel count of the layout.
    pub open spec fn sample_count(self) -> nat {
        match self.layout {
            Layout::Luma => self.pixel_count(),
            Layout::LumaAlpha => 2 * self.pixel_count(),
        }
    }

    /// The samples are exactly those of `width * height` pixels.
    pub open spec fn wf(self) -> bool {
        self.samples.len() == self.sample_count()
    }

    /// Whether `(x, y)` names a pixel of the grid.
    pub open spec fn in_bounds(self, x: int, y: int) -> bool {
        0 <= x < self.width && 0 <= y < self.height
    }

    /// Position of pixel `(x, y)` in row-major order.
    pub open spec fn index_of(self, x: int, y: int) -> int {
        y * self.width + x
    }

    /// The pixel at row-major position `i`. Without an alpha channel the
    /// pixel is fully opaque.
    pub open spec fn pixel_at(self, i: int) -> Pixel {
        match self.layout {
            Layout::Luma => Pixel { luminance: self.samples[i], alpha: 255 },
            Layout::LumaAlpha => Pixel {
                luminance: self.samples[2 * i],
                alpha: self.samples[2 * i + 1],
            },
        }
    }

    /// The pixel in column `x` of row `y`.
    pub open spec fn pixel(self, x: int, y: int) -> Pixel {
        self.pixel_at(self.index_of(x, y))
    }

    /// The grid without alpha channel whose pixel at row-major position `i`
    /// has the luminance `luminance(i)`.
    pub open spec fn luma(width: nat, height: nat, luminance: spec_fn(int) -> u8) -> GridView {
        GridView {
            width,
            height,
            layout: Layout::Luma,
            samples: Seq::new(width * height, luminance),
        }
    }

    /// The grid with alpha channel whose pixel at row-major position `i` is
    /// `pixel(i)`.
    pub open spec fn luma_alpha(width: nat, height: nat, pixel: spec_fn(int) -> Pixel) -> GridView {
        GridView {
            width,
            height,
            layout: Layout::LumaAlpha,
            samples: Seq::new(
                2 * (width * height),
                |k: int|
                    if k % 2 == 0 {
                        pixel(k / 2).luminance
                    } else {
                        pixel(k / 2).alpha
                    },
            ),
        }
    }
}

/// The pixels of a grid made by `GridView::luma` are those it was made from,
/// fully opaque.
pub proof fn lemma_luma_pixel_at(width: nat, height: nat, luminance: spec_fn(int) -> u8, i: int)
    requires
        0 <= i < width * height,
    ensures
        GridView::luma(width, height, luminance).wf(),
        GridView::luma(width, height, luminance).pixel_at(i) == (Pixel {
            luminance: luminance(i),
            alpha: 255,
        }),
{
}

/// The pixels of a grid made by `GridView::luma_alpha` are those it was made
/// from.
pub proof fn lemma_luma_alpha_pixel_at(
    width: nat,
    height: nat,
    pixel: spec_fn(int) -> Pixel,
    i: int,
)
    requires
        0 <= i < width * height,
    ensures
        GridView::luma_alpha(width, height, pixel).wf(),
        GridView::luma_alpha(width, height, pixel).pixel_at(i) == pixel(i),
{
}

/// Row-major positions of in-bounds pixels are below the pixel count.
pub proof fn lemma_index_in_range(width: nat, height: nat, x: int, y: int)
    requires
        0 <= x < width,
        0 <= y < height,
    ensures
        0 <= y * width + x < width * height,
{
    assert(y * width + x < width * height) by (nonlinear_arith)
        requires
            0 <= x < width,
            0 <= y < height,
    ;
    assert(0 <= y * width) by (nonlinear_arith)
        requires
            0 <= y,
            0 <= width,
    ;
}

/// An image held in memory: `width * height` pixels of one layout, stored
/// row by row. Its dimensions and its samples are fixed when it is made.
#[derive(Debug, PartialEq, Eq)]
pub struct PixelGrid {
    width: u32,
    height: u32,
    layout: Layout,
    data: Vec<u8>,
}

impl View for PixelGrid {
    type V = GridView;

    closed spec fn view(&self) -> GridView {
        GridView {
            width: self.width as nat,
            height: self.height as nat,
            layout: self.layout,
            samples: self.data@,
        }
    }
}

impl Clone for PixelGrid {
    fn clone(&self) -> (copy: Self)
        ensures
            copy@ == self@,
    {
        proof {
            use_type_invariant(self);
        }
        PixelGrid {
            width: self.width,
            height: self.height,
            layout: self.layout,
            data: self.data.clone(),
        }
    }
}

impl PixelGrid {
    /// Holds of every grid: its samples are exactly those of its pixels.
    #[verifier::type_invariant]
    pub open spec fn well_formed(&self) -> bool {
        self@.wf()
    }

    /// Makes a grid of the given dimensions and layout from its samples.
    /// The samples must be exactly those of `width * height` pixels.
    pub fn from_raw(width: u32, height: u32, layout: Layout, data: Vec<u8>) -> (grid: Option<PixelGrid>)
        ensures
            grid is Some <==> data@.len() == width * height * layout.channel_count(),
            grid matches Some(g) ==> g@ == (GridView {
                width: width as nat,
                height: height as nat,
                layout,
                samples: data@,
            }),
    {
        assert(width * height <= 0xffff_ffff * 0xffff_ffff) by (nonlinear_arith)
            requires
                width <= 0xffff_ffff,
                height <= 0xffff_ffff,
        ;
        let pixels: u64 = (width as u64) * (height as u64);
        let expected: u128 = (pixels as u128) * (layout.channels() as u128);
        if data.len() as u128 == expected {
            Some(PixelGrid { width, height, layout, data })
        } else {
            None
        }
    }

    /// Width in pixels.
    pub fn width(&self) -> (w: u32)
        ensures
            w == self@.width,
    {
        self.width
    }

    /// Height in pixels.
    pub fn height(&self) -> (h: u32)
        ensures
            h == self@.height,
    {
        self.height
    }

    /// Width and height in pixels.
    pub fn dimensions(&self) -> (d: (u32, u32))
        ensures
            d.0 == self@.width,
            d.1 == self@.height,
    {
        (self.width, self.height)
    }

    /// Layout of the pixels.
    pub fn layout(&self) -> (l: Layout)
        ensures
            l == self@.layout,
    {
        self.layout
    }

    /// Whether the pixels store an alpha channel.
    pub fn has_alpha(&self) -> (b: bool)
        ensures
            b == self@.layout.has_alpha(),
    {
        self.layout.has_alpha()
    }

    /// Number of pixels.
    pub fn pixel_count(&self) -> (n: usize)
        ensures
            n == self@.pixel_count(),
    {
        proof {
            use_type_invariant(self);
        }
        match self.layout {
            Layout::Luma => self.data.len(),
            Layout::LumaAlpha => self.data.len() / 2,
        }
    }

    /// The pixel at row-major position `i`.
    pub(crate) fn pixel_at(&self, i: usize) -> (pixel: Pixel)
        requires
            i < self@.pixel_count(),
        ensures
            pixel == self@.pixel_at(i as int),
    {
        proof {
            use_type_invariant(self);
            assert(self.data@.len() == self.data.len());
        }
        match self.layout {
            Layout::Luma => Pixel { luminance: self.data[i], alpha: 255 },
            Layout::LumaAlpha => Pixel { luminance: self.data[2 * i], alpha: self.data[2 * i + 1] },
        }
    }

    /// The pixel in column `x` of row `y`, if the grid has one there.
    pub fn get_pixel(&self, x: u32, y: u32) -> (pixel: Option<Pixel>)
        ensures
            pixel is Some <==> self@.in_bounds(x as int, y as int),
            pixel matches Some(p) ==> p == self@.pixel(x as int, y as int),
    {
        if x >= self.width || y >= self.height {
            return None;
        }
        proof {
            use_type_invariant(self);
            lemma_index_in_range(self.width as nat, self.height as nat, x as int, y as int);
            assert(self.data@.len() == self.data.len());
        }
        Some(self.pixel_at((y as usize) * (self.width as usize) + (x as usize)))
    }

    /// The samples, row by row.
    pub fn as_raw(&self) -> (raw: &Vec<u8>)
        ensures
            raw@ == self@.samples,
    {
        &self.data
    }

    /// Gives up the grid for its samples.
    pub fn into_raw(self) -> (raw: Vec<u8>)
        ensures
            raw@ == self@.samples,
    {
        self.data
    }
}

} // verus!
