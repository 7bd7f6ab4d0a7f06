//! Layout-space geometry: fractions, rectangles and container constraints.
//!
//! Layout space is the coordinate system the container is laid out in
//! (logical pixels); it is distinct from the native pixel space of a
//! captured raster.  All layout quantities are integers bounded by
//! [`MAX_COORD`], which keeps every product used by the resolver and the
//! compositor comfortably inside `i64`.

use vstd::prelude::*;

verus! {

/// Largest magnitude a layout coordinate or size may have.
pub const MAX_COORD: i64 = 1_000_000;

/// Largest magnitude a resolved rectangle coordinate may have; resolver
/// output may bleed outside the container, but only boundedly so.
pub const MAX_RECT: i64 = 8_000_000;

/// Largest denominator a layout fraction may have.
pub const MAX_DEN: u32 = 1_000_000;

/// A fraction in `[0, 1]`, used for relative sizes and anchor points.
#[derive(Clone, Copy, Debug, PartialEq, Eq, Structural)]
pub struct Frac {
    pub num: u32,
    pub den: u32,
}

impl Frac {
    /// The fraction is a genuine ratio in `[0, 1]` with a bounded denominator.
    pub open spec fn wf(self) -> bool {
        1 <= self.den <= MAX_DEN && self.num <= self.den
    }

    /// What `apply` computes: `v * num / den`, rounded toward zero.
    pub open spec fn spec_apply(self, v: int) -> int {
        v * (self.num as int) / (self.den as int)
    }

    /// Builds `num / den`; rejects ratios above one or zero denominators.
    pub fn new(num: u32, den: u32) -> (r: Option<Frac>)
        ensures
            r is Some <==> (1 <= den <= MAX_DEN && num <= den),
            r is Some ==> r->0 == (Frac { num, den }) && r->0.wf(),
    {
        if 1 <= den && den <= MAX_DEN && num <= den {
            Some(Frac { num, den })
        } else {
            None
        }
    }

    /// Scales a non-negative length by the fraction, rounding down.
    pub fn apply(self, v: i64) -> (r: i64)
        requires
            self.wf(),
            0 <= v <= 2 * MAX_COORD,
        ensures
            r == self.spec_apply(v as int),
            0 <= r <= v,
    {
        proof {
            lemma_frac_bounds(v as int, self.num as int, self.den as int);
            assert((v as int) * (self.num as int) <= 2_000_000 * 1_000_000) by (nonlinear_arith)
                requires
                    0 <= v <= 2_000_000,
                    0 <= self.num <= 1_000_000,
            ;
        }
        let prod: u64 = (v as u64) * (self.num as u64);
        let q: u64 = prod / (self.den as u64);
        q as i64
    }

    /// What `apply_signed` computes: the scaled value, rounded toward zero.
    pub open spec fn spec_apply_signed(self, v: int) -> int {
        if v >= 0 {
            self.spec_apply(v)
        } else {
            -self.spec_apply(-v)
        }
    }

    /// Scales a possibly negative length by the fraction, rounding toward
    /// zero, as when an anchor is resolved against negative remaining space.
    pub fn apply_signed(self, v: i64) -> (r: i64)
        requires
            self.wf(),
            -2 * MAX_COORD <= v <= 2 * MAX_COORD,
        ensures
            r == self.spec_apply_signed(v as int),
            -2 * MAX_COORD <= r <= 2 * MAX_COORD,
    {
        if v >= 0 {
            self.apply(v)
        } else {
            let m = self.apply(-v);
            -m
        }
    }
}

/// `0 <= v*num/den <= v` whenever `0 <= num <= den` and `1 <= den`.
proof fn lemma_frac_bounds(v: int, num: int, den: int)
    requires
        0 <= v,
        0 <= num <= den,
        1 <= den,
    ensures
        0 <= v * num / den <= v,
        v * num <= v * den,
{
    assert(v * num >= 0) by (nonlinear_arith)
        requires
            0 <= v,
            0 <= num,
    ;
    assert(v * num <= v * den) by (nonlinear_arith)
        requires
            0 <= v,
            num <= den,
    ;
    assert(v * num / den <= v * den / den) by (nonlinear_arith)
        requires
            v * num <= v * den,
            1 <= den,
    ;
    assert(v * den / den == v) by (nonlinear_arith)
        requires
            1 <= den,
    ;
    assert(v * num / den >= 0) by (nonlinear_arith)
        requires
            0 <= v * num,
            1 <= den,
    ;
}

/// An axis-aligned rectangle in layout space.
#[derive(Clone, Copy, Debug, PartialEq, Eq, Structural)]
pub struct LayoutRect {
    pub x0: i64,
    pub y0: i64,
    pub x1: i64,
    pub y1: i64,
}

impl LayoutRect {
    /// The extent is non-negative and all coordinates are bounded.
    pub open spec fn wf(self) -> bool {
        &&& -MAX_RECT <= self.x0 <= self.x1 <= MAX_RECT
        &&& -MAX_RECT <= self.y0 <= self.y1 <= MAX_RECT
    }

    pub open spec fn spec_width(self) -> int {
        self.x1 - self.x0
    }

    pub open spec fn spec_height(self) -> int {
        self.y1 - self.y0
    }

    /// The rectangle `other` lies entirely inside `self`.
    pub open spec fn contains_rect(self, other: LayoutRect) -> bool {
        self.x0 <= other.x0 && other.x1 <= self.x1 && self.y0 <= other.y0 && other.y1 <= self.y1
    }

    /// The rectangle's origin is the container origin.
    pub open spec fn at_origin(self) -> bool {
        self.x0 == 0 && self.y0 == 0
    }

    pub fn new(x0: i64, y0: i64, x1: i64, y1: i64) -> (r: Option<LayoutRect>)
        ensures
            r is Some <==> (LayoutRect { x0, y0, x1, y1 }).wf(),
            r is Some ==> r->0 == (LayoutRect { x0, y0, x1, y1 }),
    {
        let rect = LayoutRect { x0, y0, x1, y1 };
        if -MAX_RECT <= x0 && x0 <= x1 && x1 <= MAX_RECT && -MAX_RECT <= y0 && y0 <= y1
            && y1 <= MAX_RECT {
            Some(rect)
        } else {
            None
        }
    }

    pub fn width(&self) -> (r: i64)
        requires
            self.wf(),
        ensures
            r == self.spec_width(),
    {
        self.x1 - self.x0
    }

    pub fn height(&self) -> (r: i64)
        requires
            self.wf(),
        ensures
            r == self.spec_height(),
    {
        self.y1 - self.y0
    }
}

/// The loose constraints a container hands to layout: `[0, max]` on each axis.
#[derive(Clone, Copy, Debug, PartialEq, Eq, Structural)]
pub struct Constraints {
    pub max_w: i64,
    pub max_h: i64,
}

impl Constraints {
    pub open spec fn wf(self) -> bool {
        0 <= self.max_w <= MAX_COORD && 0 <= self.max_h <= MAX_COORD
    }

    pub fn new(max_w: i64, max_h: i64) -> (r: Option<Constraints>)
        ensures
            r is Some <==> (Constraints { max_w, max_h }).wf(),
            r is Some ==> r->0 == (Constraints { max_w, max_h }),
    {
        if 0 <= max_w && max_w <= MAX_COORD && 0 <= max_h && max_h <= MAX_COORD {
            Some(Constraints { max_w, max_h })
        } else {
            None
        }
    }
}

/// Componentwise minimum, used to clamp a content size to a constraint box.
pub fn min_i64(a: i64, b: i64) -> (r: i64)
    ensures
        r == if a <= b { a as int } else { b as int },
{
    if a <= b {
        a
    } else {
        b
    }
}

} // verus!
