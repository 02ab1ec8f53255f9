//! Pixel buffers of rendered pages.

use vstd::prelude::*;

verus! {

/// What a [`Raster`] stands for: its size in pixels and its samples, three
/// to a pixel (red, green, blue), pixel after pixel along a row, row after
/// row from the top.
pub struct RasterView {
    pub width: nat,
    pub height: nat,
    pub samples: Seq<u8>,
}

impl RasterView {
    /// There are exactly three samples for every pixel.
    pub open spec fn wf(self) -> bool {
        self.samples.len() == 3 * self.width * self.height
    }

    /// Where channel `c` of the pixel in column `x` of row `y` lies.
    pub open spec fn index_of(self, x: int, y: int, c: int) -> int {
        3 * (y * self.width + x) + c
    }

    /// Channel `c` of the pixel in column `x` of row `y`.
    pub open spec fn sample(self, x: int, y: int, c: int) -> u8 {
        self.samples[self.index_of(x, y, c)]
    }

    /// `(x, y, c)` names a sample of this image.
    pub open spec fn holds(self, x: int, y: int, c: int) -> bool {
        0 <= x < self.width && 0 <= y < self.height && 0 <= c < 3
    }

    /// The column of the pixel whose sample lies at place `i`.
    pub open spec fn column_of(self, i: int) -> int {
        (i / 3) % (self.width as int)
    }

    /// The row of the pixel whose sample lies at place `i`.
    pub open spec fn row_of(self, i: int) -> int {
        (i / 3) / (self.width as int)
    }

    /// The channel of the sample at place `i`.
    pub open spec fn channel_of(self, i: int) -> int {
        i % 3
    }
}

/// An image of 8-bit RGB samples.
#[derive(Debug)]
pub struct Raster {
    pub(crate) width: u32,
    pub(crate) height: u32,
    pub(crate) pixels: Vec<u8>,
}

impl View for Raster {
    type V = RasterView;

    closed spec fn view(&self) -> RasterView {
        RasterView {
            width: self.width as nat,
            height: self.height as nat,
            samples: self.pixels@,
        }
    }
}

/// Every sample of a well-formed image lies inside its buffer, and every
/// place in the buffer is the sample of one pixel.
pub proof fn lemma_sample_index(v: RasterView, x: int, y: int, c: int)
    requires
        v.wf(),
        v.holds(x, y, c),
    ensures
        0 <= v.index_of(x, y, c) < v.samples.len(),
{
    let w = v.width as int;
    let h = v.height as int;
    assert(y * w >= 0) by (nonlinear_arith)
        requires
            y >= 0,
            w >= 0,
    ;
    assert((y + 1) * w <= h * w) by (nonlinear_arith)
        requires
            y + 1 <= h,
            w >= 0,
    ;
    assert((y + 1) * w == y * w + w) by (nonlinear_arith);
    assert(3 * (h * w) == 3 * w * h) by (nonlinear_arith);
}

/// Two different samples never share a place in the buffer.
pub proof fn lemma_sample_index_injective(
    v: RasterView,
    x1: int,
    y1: int,
    c1: int,
    x2: int,
    y2: int,
    c2: int,
)
    requires
        v.holds(x1, y1, c1),
        v.holds(x2, y2, c2),
        v.index_of(x1, y1, c1) == v.index_of(x2, y2, c2),
    ensures
        x1 == x2,
        y1 == y2,
        c1 == c2,
{
    let w = v.width as int;
    let p1 = y1 * w + x1;
    let p2 = y2 * w + x2;
    assert(p1 == p2);
    if y1 < y2 {
        assert((y1 + 1) * w <= y2 * w) by (nonlinear_arith)
            requires
                y1 + 1 <= y2,
                w >= 0,
        ;
        assert((y1 + 1) * w == y1 * w + w) by (nonlinear_arith);
    }
    if y2 < y1 {
        assert((y2 + 1) * w <= y1 * w) by (nonlinear_arith)
            requires
                y2 + 1 <= y1,
                w >= 0,
        ;
        assert((y2 + 1) * w == y2 * w + w) by (nonlinear_arith);
    }
}

/// Every place in the buffer of a well-formed image is the sample of one
/// pixel: of the one in its column and row, in its channel.
pub proof fn lemma_index_is_sample(v: RasterView, i: int)
    requires
        v.wf(),
        0 <= i < v.samples.len(),
    ensures
        v.holds(v.column_of(i), v.row_of(i), v.channel_of(i)),
        v.index_of(v.column_of(i), v.row_of(i), v.channel_of(i)) == i,
{
    let w = v.width as int;
    let h = v.height as int;
    assert(w > 0 && h > 0) by (nonlinear_arith)
        requires
            0 <= i < 3 * w * h,
            w >= 0,
            h >= 0,
    ;
    let p = i / 3;
    let y = p / w;
    let x = p % w;
    vstd::arithmetic::div_mod::lemma_fundamental_div_mod(p, w);
    vstd::arithmetic::div_mod::lemma_mod_bound(p, w);
    assert(p == w * y + x);
    assert(w * y == y * w) by (nonlinear_arith);
    assert(0 <= p < w * h) by (nonlinear_arith)
        requires
            p == i / 3,
            0 <= i < 3 * w * h,
    ;
    assert(0 <= y) by (nonlinear_arith)
        requires
            y == p / w,
            p >= 0,
            w > 0,
    ;
    assert(y < h) by (nonlinear_arith)
        requires
            p == w * y + x,
            0 <= x,
            p < w * h,
            w > 0,
    ;
}

impl Raster {
    /// The invariant of the type: the buffer holds three samples a pixel.
    #[verifier::type_invariant]
    pub open spec fn inv(self) -> bool {
        self@.wf()
    }

    /// An image of the given size over the given samples, or nothing where
    /// their number is not three for every pixel.
    pub fn new(width: u32, height: u32, pixels: Vec<u8>) -> (made: Option<Raster>)
        ensures
            made is Some <==> pixels@.len() == 3 * (width as nat) * (height as nat),
            made matches Some(r) ==> r@ == (RasterView {
                width: width as nat,
                height: height as nat,
                samples: pixels@,
            }),
    {
        let len = pixels.len();
        match sample_count(width, height) {
            Some(n) => {
                if len == n {
                    Some(Raster { width, height, pixels })
                } else {
                    None
                }
            },
            None => None,
        }
    }

    /// An image of the given size whose samples are all zero.
    pub fn blank(width: u32, height: u32) -> (made: Raster)
        requires
            3 * (width as nat) * (height as nat) <= usize::MAX,
        ensures
            made@.wf(),
            made@.width == width,
            made@.height == height,
            forall|i: int| 0 <= i < made@.samples.len() ==> made@.samples[i] == 0,
    {
        let n = match sample_count(width, height) {
            Some(n) => n,
            None => 0,
        };
        let pixels = vec![0u8; n];
        Raster { width, height, pixels }
    }

    /// The number of pixels in a row.
    pub fn width(&self) -> (w: u32)
        ensures
            w == self@.width,
    {
        self.width
    }

    /// The number of rows.
    pub fn height(&self) -> (h: u32)
        ensures
            h == self@.height,
    {
        self.height
    }

    /// The samples, three to a pixel, row after row.
    pub fn samples(&self) -> (s: &Vec<u8>)
        ensures
            s@ == self@.samples,
            self@.wf(),
    {
        proof {
            use_type_invariant(self);
        }
        &self.pixels
    }

    /// Gives up the image for its samples.
    pub fn into_samples(self) -> (s: Vec<u8>)
        ensures
            s@ == self@.samples,
            self@.wf(),
    {
        proof {
            use_type_invariant(&self);
        }
        self.pixels
    }
}

/// The number of samples of an image of the given size, where a `usize`
/// can hold it.
pub fn sample_count(width: u32, height: u32) -> (n: Option<usize>)
    ensures
        n is Some <==> 3 * (width as nat) * (height as nat) <= usize::MAX,
        n matches Some(k) ==> k == 3 * (width as nat) * (height as nat),
{
    let row = match 3usize.checked_mul(width as usize) {
        Some(row) => row,
        None => {
            if height == 0 {
                assert(3 * (width as nat) * (height as nat) == 0) by (nonlinear_arith)
                    requires
                        height == 0,
                ;
                return Some(0);
            }
            assert(3 * (width as nat) * (height as nat) >= 3 * (width as nat))
                by (nonlinear_arith)
                requires
                    height >= 1,
            ;
            return None;
        },
    };
    match row.checked_mul(height as usize) {
        Some(n) => Some(n),
        None => None,
    }
}

} // verus!
