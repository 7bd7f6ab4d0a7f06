//! Raster images: owned RGBA8 pixel buffers in native pixel space.
//!
//! A [`RasterImage`] stores its pixels row-major, four bytes per pixel
//! (red, green, blue, alpha).  All pixel access is specified through
//! [`RasterImage::spec_pixel`], so contracts elsewhere can speak of whole
//! pixels rather than raw byte offsets.

use vstd::prelude::*;

verus! {

/// An opaque colour, used to tint an overlay.
#[derive(Clone, Copy, Debug, PartialEq, Eq, Structural)]
pub struct Rgb {
    pub r: u8,
    pub g: u8,
    pub b: u8,
}

/// One pixel of a raster: colour plus alpha.
#[derive(Clone, Copy, Debug, PartialEq, Eq, Structural)]
pub struct Rgba {
    pub r: u8,
    pub g: u8,
    pub b: u8,
    pub a: u8,
}

/// An owned RGBA8 image at some native resolution.
#[derive(Clone, Debug)]
pub struct RasterImage {
    pub width: u32,
    pub height: u32,
    pub pixels: Vec<u8>,
}

/// The pixel stored at `(x, y)` of a row-major RGBA8 byte sequence whose
/// rows are `w` pixels wide.
pub open spec fn pixel_of(p: Seq<u8>, w: int, x: int, y: int) -> Rgba {
    Rgba {
        r: p[4 * (y * w + x)],
        g: p[4 * (y * w + x) + 1],
        b: p[4 * (y * w + x) + 2],
        a: p[4 * (y * w + x) + 3],
    }
}

/// Tinting paints every pixel that is not fully transparent with a solid
/// colour, keeping its alpha; fully transparent pixels are left alone.
pub open spec fn tint_pixel(p: Rgba, c: Rgb) -> Rgba {
    if p.a > 0 {
        Rgba { r: c.r, g: c.g, b: c.b, a: p.a }
    } else {
        p
    }
}

impl RasterImage {
    /// The buffer holds exactly four bytes for every pixel.
    pub open spec fn wf(self) -> bool {
        self.pixels@.len() == 4 * ((self.width as int) * (self.height as int))
    }

    /// Byte offset of the pixel at `(x, y)`.
    pub open spec fn spec_idx(self, x: int, y: int) -> int {
        4 * (y * self.width + x)
    }

    pub open spec fn in_bounds(self, x: int, y: int) -> bool {
        0 <= x < self.width && 0 <= y < self.height
    }

    /// The pixel stored at `(x, y)`.
    pub open spec fn spec_pixel(self, x: int, y: int) -> Rgba {
        pixel_of(self.pixels@, self.width as int, x, y)
    }

    pub open spec fn same_dims(self, other: RasterImage) -> bool {
        self.width == other.width && self.height == other.height
    }

    /// In a well-formed image every in-bounds pixel's bytes lie inside the buffer.
    pub proof fn lemma_idx_bounds(self, x: int, y: int)
        requires
            self.wf(),
            self.in_bounds(x, y),
        ensures
            0 <= self.spec_idx(x, y),
            self.spec_idx(x, y) + 4 <= self.pixels@.len(),
    {
        let w = self.width as int;
        let h = self.height as int;
        assert(0 <= y * w + x && y * w + x < w * h) by (nonlinear_arith)
            requires
                0 <= x < w,
                0 <= y < h,
        ;
    }

    /// Distinct pixel coordinates use disjoint byte ranges.
    pub proof fn lemma_idx_disjoint(self, x1: int, y1: int, x2: int, y2: int)
        requires
            self.wf(),
            self.in_bounds(x1, y1),
            self.in_bounds(x2, y2),
            x1 != x2 || y1 != y2,
        ensures
            self.spec_idx(x1, y1) + 4 <= self.spec_idx(x2, y2) || self.spec_idx(x2, y2) + 4
                <= self.spec_idx(x1, y1),
    {
        let w = self.width as int;
        assert(y1 * w + x1 + 1 <= y2 * w + x2 || y2 * w + x2 + 1 <= y1 * w + x1)
            by (nonlinear_arith)
            requires
                0 <= x1 < w,
                0 <= x2 < w,
                x1 != x2 || y1 != y2,
        ;
    }

    /// Builds an image from raw parts; the buffer must hold exactly
    /// `4 * width * height` bytes.
    pub fn from_parts(width: u32, height: u32, pixels: Vec<u8>) -> (r: Option<RasterImage>)
        ensures
            r is Some <==> pixels@.len() == 4 * ((width as int) * (height as int)),
            r is Some ==> r->0 == (RasterImage { width, height, pixels }) && r->0.wf(),
    {
        proof {
            lemma_u32_mul_fits(width as int, height as int);
        }
        let wh: u64 = (width as u64) * (height as u64);
        let n: usize = pixels.len();
        if wh <= u64::MAX / 4 && (n as u64) == 4 * wh {
            Some(RasterImage { width, height, pixels })
        } else {
            None
        }
    }

    /// A solid image of one colour; `None` when the buffer would not fit
    /// in memory on this machine.
    pub fn fill(width: u32, height: u32, p: Rgba) -> (r: Option<RasterImage>)
        ensures
            r is Some <==> 4 * ((width as int) * (height as int)) <= usize::MAX,
            r is Some ==> {
                &&& r->0.wf()
                &&& r->0.width == width
                &&& r->0.height == height
                &&& forall|x: int, y: int|
                    r->0.in_bounds(x, y) ==> r->0.spec_pixel(x, y) == p
            },
    {
        proof {
            lemma_u32_mul_fits(width as int, height as int);
        }
        let wh: u64 = (width as u64) * (height as u64);
        if !(wh <= (usize::MAX as u64) / 4) {
            return None;
        }
        let n: usize = 4 * (wh as usize);
        let pixels: Vec<u8> = vec![0u8; n];
        let mut img = RasterImage { width, height, pixels };
        let mut y: u32 = 0;
        while y < height
            invariant
                img.wf(),
                img.width == width,
                img.height == height,
                0 <= y <= height,
                forall|i: int, j: int|
                    img.in_bounds(i, j) && j < y ==> img.spec_pixel(i, j) == p,
            decreases height - y,
        {
            let mut x: u32 = 0;
            while x < width
                invariant
                    img.wf(),
                    img.width == width,
                    img.height == height,
                    0 <= y < height,
                    0 <= x <= width,
                    forall|i: int, j: int|
                        img.in_bounds(i, j) && (j < y || (j == y && i < x)) ==> img.spec_pixel(
                            i,
                            j,
                        ) == p,
                decreases width - x,
            {
                img.set_pixel(x, y, p);
                x = x + 1;
            }
            y = y + 1;
        }
        Some(img)
    }

    /// Reads the pixel at `(x, y)`.
    pub fn get_pixel(&self, x: u32, y: u32) -> (p: Rgba)
        requires
            self.wf(),
            self.in_bounds(x as int, y as int),
        ensures
            p == self.spec_pixel(x as int, y as int),
    {
        proof {
            self.lemma_idx_bounds(x as int, y as int);
        }
        let _buf_len: usize = self.pixels.len();
        let i: usize = 4 * ((y as usize) * (self.width as usize) + (x as usize));
        Rgba { r: self.pixels[i], g: self.pixels[i + 1], b: self.pixels[i + 2], a: self.pixels[i + 3] }
    }

    /// Overwrites the pixel at `(x, y)`; every other pixel is untouched.
    pub fn set_pixel(&mut self, x: u32, y: u32, p: Rgba)
        requires
            old(self).wf(),
            old(self).in_bounds(x as int, y as int),
        ensures
            final(self).wf(),
            final(self).width == old(self).width,
            final(self).height == old(self).height,
            final(self).spec_pixel(x as int, y as int) == p,
            forall|i: int, j: int|
                old(self).in_bounds(i, j) && (i != x || j != y) ==> final(self).spec_pixel(i, j)
                    == old(self).spec_pixel(i, j),
    {
        proof {
            self.lemma_idx_bounds(x as int, y as int);
        }
        let _buf_len: usize = self.pixels.len();
        let i: usize = 4 * ((y as usize) * (self.width as usize) + (x as usize));
        self.pixels.set(i, p.r);
        self.pixels.set(i + 1, p.g);
        self.pixels.set(i + 2, p.b);
        self.pixels.set(i + 3, p.a);
        proof {
            assert forall|i2: int, j2: int|
                old(self).in_bounds(i2, j2) && (i2 != x || j2 != y) implies final(self).spec_pixel(
                i2,
                j2,
            ) == old(self).spec_pixel(i2, j2) by {
                old(self).lemma_idx_bounds(i2, j2);
                old(self).lemma_idx_disjoint(i2, j2, x as int, y as int);
            }
        }
    }

    /// A verified copy: same dimensions, same bytes.
    pub fn duplicate(&self) -> (r: RasterImage)
        ensures
            r.width == self.width,
            r.height == self.height,
            r.pixels@ == self.pixels@,
    {
        RasterImage { width: self.width, height: self.height, pixels: clone_bytes(&self.pixels) }
    }

    /// A copy of the image with every non-transparent pixel painted `color`
    /// while its alpha is kept; used to pre-bake an overlay tint.
    pub fn tinted(&self, color: Rgb) -> (r: RasterImage)
        requires
            self.wf(),
        ensures
            r.wf(),
            r.same_dims(*self),
            forall|x: int, y: int|
                self.in_bounds(x, y) ==> r.spec_pixel(x, y) == tint_pixel(
                    self.spec_pixel(x, y),
                    color,
                ),
    {
        let mut out = RasterImage {
            width: self.width,
            height: self.height,
            pixels: clone_bytes(&self.pixels),
        };
        let mut y: u32 = 0;
        while y < self.height
            invariant
                self.wf(),
                out.wf(),
                out.width == self.width,
                out.height == self.height,
                0 <= y <= self.height,
                forall|i: int, j: int|
                    self.in_bounds(i, j) && j < y ==> out.spec_pixel(i, j) == tint_pixel(
                        self.spec_pixel(i, j),
                        color,
                    ),
                forall|i: int, j: int|
                    self.in_bounds(i, j) && j >= y ==> out.spec_pixel(i, j) == self.spec_pixel(
                        i,
                        j,
                    ),
            decreases self.height - y,
        {
            let mut x: u32 = 0;
            while x < self.width
                invariant
                    self.wf(),
                    out.wf(),
                    out.width == self.width,
                    out.height == self.height,
                    0 <= y < self.height,
                    0 <= x <= self.width,
                    forall|i: int, j: int|
                        self.in_bounds(i, j) && (j < y || (j == y && i < x)) ==> out.spec_pixel(
                            i,
                            j,
                        ) == tint_pixel(self.spec_pixel(i, j), color),
                    forall|i: int, j: int|
                        self.in_bounds(i, j) && (j > y || (j == y && i >= x)) ==> out.spec_pixel(
                            i,
                            j,
                        ) == self.spec_pixel(i, j),
                decreases self.width - x,
            {
                let p = self.get_pixel(x, y);
                if p.a > 0 {
                    out.set_pixel(x, y, Rgba { r: color.r, g: color.g, b: color.b, a: p.a });
                }
                x = x + 1;
            }
            y = y + 1;
        }
        out
    }
}

/// The product of two `u32`-sized values fits in 64 bits.
proof fn lemma_u32_mul_fits(a: int, b: int)
    requires
        0 <= a < 0x1_0000_0000,
        0 <= b < 0x1_0000_0000,
    ensures
        0 <= a * b,
        a * b <= 0xFFFF_FFFE_0000_0001,
{
    assert(0 <= a * b && a * b <= 0xFFFF_FFFE_0000_0001) by (nonlinear_arith)
        requires
            0 <= a < 0x1_0000_0000,
            0 <= b < 0x1_0000_0000,
    ;
}

/// A verified byte-for-byte copy of a pixel buffer.
fn clone_bytes(v: &Vec<u8>) -> (r: Vec<u8>)
    ensures
        r@ == v@,
{
    let r = v.clone();
    proof {
        assert(r@ =~= v@);
    }
    r
}

} // verus!
