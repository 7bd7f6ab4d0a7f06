//! The compositor: flattens a staged overlay into the base raster.
//!
//! Layout coordinates and native pixel coordinates differ by the ratio of
//! the base image's resolution to the base rectangle's extent.  The
//! overlay rectangle is mapped into pixel space rounding outward (floor
//! for the origin, ceiling for the extent) so the mapped region fully
//! covers the intended area, the overlay raster is resampled to exactly
//! that region, and each mapped pixel whose alpha exceeds the threshold
//! is copied opaquely over the base; no blending ever happens.

use vstd::prelude::*;

use vstd::arithmetic::div_mod::lemma_div_is_ordered;

use crate::errors::CompositorError;
use crate::geometry::LayoutRect;
use crate::geometry::MAX_RECT;
use crate::imaging::resample_of;
use crate::imaging::resample_rgba;
use crate::raster::RasterImage;
use crate::raster::Rgba;
use crate::raster::pixel_of;

verus! {

/// A layout coordinate scaled into pixel space, rounded down.
pub open spec fn spec_scale_floor(c: int, dim: int, extent: int) -> int {
    c * dim / extent
}

/// A layout coordinate scaled into pixel space, rounded up.
pub open spec fn spec_scale_ceil(c: int, dim: int, extent: int) -> int {
    (c * dim + extent - 1) / extent
}

/// Bounds of the outward-rounded scaling: a coordinate inside the layout
/// extent maps inside the pixel dimension, the origin maps to the origin,
/// and the full extent maps to the full dimension.
proof fn lemma_scale_bounds(c: int, dim: int, extent: int)
    requires
        0 <= c <= extent,
        1 <= extent,
        0 <= dim,
    ensures
        0 <= spec_scale_floor(c, dim, extent) <= dim,
        0 <= spec_scale_ceil(c, dim, extent) <= dim,
        spec_scale_floor(c, dim, extent) <= spec_scale_ceil(c, dim, extent),
        c == 0 ==> spec_scale_floor(c, dim, extent) == 0,
        c == extent ==> spec_scale_ceil(c, dim, extent) == dim,
{
    assert(0 <= c * dim && c * dim <= extent * dim) by (nonlinear_arith)
        requires
            0 <= c <= extent,
            0 <= dim,
    ;
    assert(c * dim / extent >= 0) by (nonlinear_arith)
        requires
            0 <= c * dim,
            1 <= extent,
    ;
    assert((c * dim + extent - 1) / extent >= 0) by (nonlinear_arith)
        requires
            0 <= c * dim,
            1 <= extent,
    ;
    assert((extent * dim + extent - 1) / extent == dim) by (nonlinear_arith)
        requires
            1 <= extent,
            0 <= dim,
    ;
    assert(extent * dim / extent == dim) by (nonlinear_arith)
        requires
            1 <= extent,
            0 <= dim,
    ;
    lemma_div_is_ordered(c * dim, extent * dim, extent);
    lemma_div_is_ordered(c * dim, c * dim + extent - 1, extent);
    lemma_div_is_ordered(c * dim + extent - 1, extent * dim + extent - 1, extent);
    if c == 0 {
        assert(0 * dim == 0);
    }
}

/// Scaling is monotone: an ordered pair of layout coordinates maps to an
/// ordered pair of pixel coordinates.
proof fn lemma_scale_order(c0: int, c1: int, dim: int, extent: int)
    requires
        0 <= c0 <= c1,
        1 <= extent,
        0 <= dim,
    ensures
        spec_scale_floor(c0, dim, extent) <= spec_scale_floor(c1, dim, extent),
        spec_scale_floor(c1, dim, extent) <= spec_scale_ceil(c1, dim, extent),
{
    assert(c0 * dim <= c1 * dim) by (nonlinear_arith)
        requires
            0 <= c0 <= c1,
            0 <= dim,
    ;
    lemma_div_is_ordered(c0 * dim, c1 * dim, extent);
    lemma_div_is_ordered(c1 * dim, c1 * dim + extent - 1, extent);
}

/// Maps a layout coordinate to pixel space, rounding down.
fn scale_floor_px(c: i64, dim: u32, extent: i64) -> (r: u32)
    requires
        0 <= c <= extent,
        1 <= extent <= MAX_RECT,
    ensures
        r == spec_scale_floor(c as int, dim as int, extent as int),
        r <= dim,
{
    proof {
        lemma_scale_bounds(c as int, dim as int, extent as int);
        assert((c as int) * (dim as int) <= 8_000_000 * 0xFFFF_FFFF) by (nonlinear_arith)
            requires
                0 <= c <= 8_000_000,
                0 <= dim <= 0xFFFF_FFFF,
        ;
    }
    let q: u64 = (c as u64) * (dim as u64) / (extent as u64);
    q as u32
}

/// Maps a layout coordinate to pixel space, rounding up.
fn scale_ceil_px(c: i64, dim: u32, extent: i64) -> (r: u32)
    requires
        0 <= c <= extent,
        1 <= extent <= MAX_RECT,
    ensures
        r == spec_scale_ceil(c as int, dim as int, extent as int),
        r <= dim,
{
    proof {
        lemma_scale_bounds(c as int, dim as int, extent as int);
        assert((c as int) * (dim as int) <= 8_000_000 * 0xFFFF_FFFF) by (nonlinear_arith)
            requires
                0 <= c <= 8_000_000,
                0 <= dim <= 0xFFFF_FFFF,
        ;
    }
    let q: u64 = ((c as u64) * (dim as u64) + (extent as u64) - 1) / (extent as u64);
    q as u32
}

/// The pixel the composition puts at `(x, y)`: the overlay's pixel where
/// the mapped overlay region covers `(x, y)` and the overlay's alpha
/// exceeds the threshold, the base's pixel everywhere else.
pub open spec fn composed_pixel(
    base: RasterImage,
    ov: RasterImage,
    px0: int,
    py0: int,
    threshold: u8,
    x: int,
    y: int,
) -> Rgba {
    if px0 <= x < px0 + ov.width && py0 <= y < py0 + ov.height && ov.spec_pixel(
        x - px0,
        y - py0,
    ).a > threshold {
        ov.spec_pixel(x - px0, y - py0)
    } else {
        base.spec_pixel(x, y)
    }
}

/// Copies every overlay pixel whose alpha exceeds the threshold into the
/// base copy `out`, opaquely; all other pixels keep the base's value.
fn compose_pixels(out: RasterImage, ov: &RasterImage, px0: u32, py0: u32, threshold: u8) -> (r:
    RasterImage)
    requires
        out.wf(),
        ov.wf(),
        px0 + ov.width <= out.width,
        py0 + ov.height <= out.height,
    ensures
        r.wf(),
        r.width == out.width,
        r.height == out.height,
        forall|x: int, y: int|
            r.in_bounds(x, y) ==> r.spec_pixel(x, y) == composed_pixel(
                out,
                *ov,
                px0 as int,
                py0 as int,
                threshold,
                x,
                y,
            ),
{
    let mut r = out;
    let ghost base = r;
    let mut j: u32 = 0;
    while j < ov.height
        invariant
            r.wf(),
            ov.wf(),
            r.width == base.width,
            r.height == base.height,
            r.pixels@.len() == base.pixels@.len(),
            px0 + ov.width <= r.width,
            py0 + ov.height <= r.height,
            0 <= j <= ov.height,
            forall|x: int, y: int|
                r.in_bounds(x, y) && y < py0 + j ==> r.spec_pixel(x, y) == composed_pixel(
                    base,
                    *ov,
                    px0 as int,
                    py0 as int,
                    threshold,
                    x,
                    y,
                ),
            forall|x: int, y: int|
                r.in_bounds(x, y) && y >= py0 + j ==> r.spec_pixel(x, y) == base.spec_pixel(x, y),
        decreases ov.height - j,
    {
        let mut i: u32 = 0;
        while i < ov.width
            invariant
                r.wf(),
                ov.wf(),
                r.width == base.width,
                r.height == base.height,
                r.pixels@.len() == base.pixels@.len(),
                px0 + ov.width <= r.width,
                py0 + ov.height <= r.height,
                0 <= j < ov.height,
                0 <= i <= ov.width,
                forall|x: int, y: int|
                    r.in_bounds(x, y) && (y < py0 + j || (y == py0 + j && x < px0 + i))
                        ==> r.spec_pixel(x, y) == composed_pixel(
                        base,
                        *ov,
                        px0 as int,
                        py0 as int,
                        threshold,
                        x,
                        y,
                    ),
                forall|x: int, y: int|
                    r.in_bounds(x, y) && (y > py0 + j || (y == py0 + j && x >= px0 + i))
                        ==> r.spec_pixel(x, y) == base.spec_pixel(x, y),
            decreases ov.width - i,
        {
            let p = ov.get_pixel(i, j);
            if p.a > threshold {
                r.set_pixel(px0 + i, py0 + j, p);
            }
            i = i + 1;
        }
        j = j + 1;
    }
    r
}

/// The horizontal pixel-space bounds of the mapped overlay region.
pub open spec fn spec_mapped_x0(base: RasterImage, brect: LayoutRect, orect: LayoutRect) -> int {
    spec_scale_floor(orect.x0 as int, base.width as int, brect.spec_width())
}

pub open spec fn spec_mapped_x1(base: RasterImage, brect: LayoutRect, orect: LayoutRect) -> int {
    spec_scale_ceil(orect.x1 as int, base.width as int, brect.spec_width())
}

pub open spec fn spec_mapped_y0(base: RasterImage, brect: LayoutRect, orect: LayoutRect) -> int {
    spec_scale_floor(orect.y0 as int, base.height as int, brect.spec_height())
}

pub open spec fn spec_mapped_y1(base: RasterImage, brect: LayoutRect, orect: LayoutRect) -> int {
    spec_scale_ceil(orect.y1 as int, base.height as int, brect.spec_height())
}

/// The overlay's pixel at `(i, j)` once the overlay has been resampled to
/// `pw x ph`; when the overlay already has those dimensions it is used as
/// it stands.
pub open spec fn spec_scaled_pixel(ov: RasterImage, pw: u32, ph: u32, i: int, j: int) -> Rgba {
    if pw == ov.width && ph == ov.height {
        ov.spec_pixel(i, j)
    } else {
        pixel_of(resample_of(ov.pixels@, ov.width, ov.height, pw, ph), pw as int, i, j)
    }
}

/// What flattening puts at `(x, y)` of the output: the scaled overlay's
/// pixel where the mapped region covers `(x, y)` and its alpha exceeds
/// the threshold, the base image's pixel everywhere else.
pub open spec fn spec_flatten_pixel(
    base: RasterImage,
    ov: RasterImage,
    brect: LayoutRect,
    orect: LayoutRect,
    threshold: u8,
    x: int,
    y: int,
) -> Rgba {
    let px0 = spec_mapped_x0(base, brect, orect);
    let px1 = spec_mapped_x1(base, brect, orect);
    let py0 = spec_mapped_y0(base, brect, orect);
    let py1 = spec_mapped_y1(base, brect, orect);
    let pw = (px1 - px0) as u32;
    let ph = (py1 - py0) as u32;
    if px0 <= x < px1 && py0 <= y < py1 && spec_scaled_pixel(ov, pw, ph, x - px0, y - py0).a
        > threshold {
        spec_scaled_pixel(ov, pw, ph, x - px0, y - py0)
    } else {
        base.spec_pixel(x, y)
    }
}

/// The geometric preconditions under which flattening succeeds: the base
/// rectangle fixes the container origin and is non-empty, an overlay
/// raster comes with an overlay rectangle and vice versa, and the overlay
/// rectangle lies fully inside the base rectangle.
pub open spec fn spec_flatten_ok(
    overlay: Option<&RasterImage>,
    brect: LayoutRect,
    orect: Option<LayoutRect>,
) -> bool {
    &&& brect.at_origin()
    &&& brect.spec_width() >= 1
    &&& brect.spec_height() >= 1
    &&& (overlay is Some <==> orect is Some)
    &&& (orect is Some ==> brect.contains_rect(orect->0))
}

/// Flattens the staged overlay into the base image.
///
/// With no overlay staged the base image is returned unchanged.  With an
/// overlay, the overlay rectangle is mapped to native pixel space
/// (rounding outward), the overlay raster is resampled to exactly that
/// region, and every mapped pixel whose alpha exceeds `threshold` is
/// copied over the base.  The output always has the base image's
/// dimensions.  A violated geometric precondition is reported as
/// `PreconditionViolation`; nothing is ever panicked over.
pub fn flatten(
    base: &RasterImage,
    overlay: Option<&RasterImage>,
    base_rect: LayoutRect,
    overlay_rect: Option<LayoutRect>,
    threshold: u8,
) -> (r: Result<RasterImage, CompositorError>)
    requires
        base.wf(),
        base_rect.wf(),
        overlay is Some ==> overlay->0.wf(),
        overlay_rect is Some ==> overlay_rect->0.wf(),
    ensures
        r is Ok <==> spec_flatten_ok(overlay, base_rect, overlay_rect),
        r is Err ==> r == Result::<RasterImage, CompositorError>::Err(
            CompositorError::PreconditionViolation,
        ),
        r is Ok ==> {
            &&& r->Ok_0.wf()
            &&& r->Ok_0.width == base.width
            &&& r->Ok_0.height == base.height
        },
        r is Ok && overlay is None ==> r->Ok_0.pixels@ == base.pixels@,
        r is Ok && overlay is Some ==> forall|x: int, y: int|
            r->Ok_0.in_bounds(x, y) ==> r->Ok_0.spec_pixel(x, y) == spec_flatten_pixel(
                *base,
                *overlay->0,
                base_rect,
                overlay_rect->0,
                threshold,
                x,
                y,
            ),
{
    let rw = base_rect.width();
    let rh = base_rect.height();
    if !(base_rect.x0 == 0 && base_rect.y0 == 0 && rw >= 1 && rh >= 1) {
        return Err(CompositorError::PreconditionViolation);
    }
    match (overlay, overlay_rect) {
        (None, None) => Ok(base.duplicate()),
        (Some(ov), Some(orect)) => {
            if !(base_rect.x0 <= orect.x0 && orect.x1 <= base_rect.x1 && base_rect.y0 <= orect.y0
                && orect.y1 <= base_rect.y1) {
                return Err(CompositorError::PreconditionViolation);
            }
            let px0 = scale_floor_px(orect.x0, base.width, rw);
            let px1 = scale_ceil_px(orect.x1, base.width, rw);
            let py0 = scale_floor_px(orect.y0, base.height, rh);
            let py1 = scale_ceil_px(orect.y1, base.height, rh);
            proof {
                lemma_scale_order(orect.x0 as int, orect.x1 as int, base.width as int, rw as int);
                lemma_scale_order(orect.y0 as int, orect.y1 as int, base.height as int, rh as int);
            }
            let pw = px1 - px0;
            let ph = py1 - py0;
            let scaled = if pw == ov.width && ph == ov.height {
                ov.duplicate()
            } else {
                resample_rgba(ov, pw, ph)
            };
            let out = compose_pixels(base.duplicate(), &scaled, px0, py0, threshold);
            proof {
                assert forall|x: int, y: int| out.in_bounds(x, y) implies out.spec_pixel(x, y)
                    == spec_flatten_pixel(*base, *ov, base_rect, orect, threshold, x, y) by {
                    assert(out.spec_pixel(x, y) == composed_pixel(
                        *base,
                        scaled,
                        px0 as int,
                        py0 as int,
                        threshold,
                        x,
                        y,
                    ));
                }
            }
            Ok(out)
        },
        (None, Some(_)) => Err(CompositorError::PreconditionViolation),
        (Some(_), None) => Err(CompositorError::PreconditionViolation),
    }
}

/// Law: flattening never blends.  Every output pixel is either the base
/// image's pixel at that position or the scaled overlay's corresponding
/// pixel; no third value is ever produced.
pub proof fn lemma_flatten_no_third_value(
    base: RasterImage,
    ov: RasterImage,
    brect: LayoutRect,
    orect: LayoutRect,
    threshold: u8,
    x: int,
    y: int,
)
    ensures
        spec_flatten_pixel(base, ov, brect, orect, threshold, x, y) == base.spec_pixel(x, y)
            || spec_flatten_pixel(base, ov, brect, orect, threshold, x, y) == spec_scaled_pixel(
            ov,
            (spec_mapped_x1(base, brect, orect) - spec_mapped_x0(base, brect, orect)) as u32,
            (spec_mapped_y1(base, brect, orect) - spec_mapped_y0(base, brect, orect)) as u32,
            x - spec_mapped_x0(base, brect, orect),
            y - spec_mapped_y0(base, brect, orect),
        ),
{
}

/// Law: an overlay rectangle exactly equal to the base rectangle maps
/// onto the whole output, so wherever the scaled overlay's alpha exceeds
/// the threshold, the output pixel's source is the overlay.
pub proof fn lemma_full_cover_overlay_wins(
    base: RasterImage,
    ov: RasterImage,
    brect: LayoutRect,
    threshold: u8,
    x: int,
    y: int,
)
    requires
        brect.wf(),
        brect.at_origin(),
        brect.spec_width() >= 1,
        brect.spec_height() >= 1,
        base.in_bounds(x, y),
        spec_scaled_pixel(ov, base.width, base.height, x, y).a > threshold,
    ensures
        spec_flatten_pixel(base, ov, brect, brect, threshold, x, y) == spec_scaled_pixel(
            ov,
            base.width,
            base.height,
            x,
            y,
        ),
{
    lemma_scale_bounds(0, base.width as int, brect.spec_width());
    lemma_scale_bounds(brect.x1 as int, base.width as int, brect.spec_width());
    lemma_scale_bounds(0, base.height as int, brect.spec_height());
    lemma_scale_bounds(brect.y1 as int, base.height as int, brect.spec_height());
}

} // verus!
