use layercomp::compose::flatten;
use layercomp::errors::CompositorError;
use layercomp::geometry::LayoutRect;
use layercomp::raster::RasterImage;
use layercomp::raster::Rgba;

fn rect(x0: i64, y0: i64, x1: i64, y1: i64) -> LayoutRect {
    LayoutRect { x0, y0, x1, y1 }
}

fn solid(w: u32, h: u32, p: Rgba) -> RasterImage {
    RasterImage::fill(w, h, p).unwrap()
}

const RED: Rgba = Rgba { r: 255, g: 0, b: 0, a: 255 };
const BLUE: Rgba = Rgba { r: 0, g: 0, b: 255, a: 255 };

#[test]
fn flatten_with_no_overlay_is_identity() {
    let pixels: Vec<u8> = (0..36).map(|i| (i * 7 % 256) as u8).collect();
    let base = RasterImage::from_parts(3, 3, pixels.clone()).unwrap();
    let out = flatten(&base, None, rect(0, 0, 3, 3), None, 50).unwrap();
    assert_eq!(out.width, 3);
    assert_eq!(out.height, 3);
    assert_eq!(out.pixels, pixels);
}

#[test]
fn flatten_rejects_mismatched_arguments() {
    let base = solid(2, 2, BLUE);
    let r = flatten(&base, None, rect(0, 0, 2, 2), Some(rect(0, 0, 1, 1)), 50);
    assert_eq!(r.unwrap_err(), CompositorError::PreconditionViolation);

    let overlay = solid(1, 1, RED);
    let r = flatten(&base, Some(&overlay), rect(0, 0, 2, 2), None, 50);
    assert_eq!(r.unwrap_err(), CompositorError::PreconditionViolation);
}

#[test]
fn flatten_rejects_overlay_outside_base() {
    let base = solid(4, 4, BLUE);
    let overlay = solid(2, 2, RED);
    let r = flatten(&base, Some(&overlay), rect(0, 0, 4, 4), Some(rect(3, 3, 5, 5)), 50);
    assert_eq!(r.unwrap_err(), CompositorError::PreconditionViolation);
}

#[test]
fn flatten_rejects_empty_base_rect() {
    let base = solid(4, 4, BLUE);
    let r = flatten(&base, None, rect(0, 0, 0, 4), None, 50);
    assert_eq!(r.unwrap_err(), CompositorError::PreconditionViolation);
}

#[test]
fn flatten_output_pixels_come_from_base_or_overlay_only() {
    let base = solid(4, 4, BLUE);
    // One pixel per alpha case: opaque, fully transparent, at the
    // threshold, just above the threshold.
    let mut overlay = solid(2, 2, RED);
    overlay.set_pixel(1, 0, Rgba { r: 0, g: 255, b: 0, a: 0 });
    overlay.set_pixel(0, 1, Rgba { r: 255, g: 255, b: 255, a: 50 });
    overlay.set_pixel(1, 1, Rgba { r: 1, g: 2, b: 3, a: 51 });

    let out = flatten(&base, Some(&overlay), rect(0, 0, 4, 4), Some(rect(1, 1, 3, 3)), 50)
        .unwrap();
    assert_eq!(out.width, 4);
    assert_eq!(out.height, 4);
    for y in 0..4u32 {
        for x in 0..4u32 {
            let p = out.get_pixel(x, y);
            let from_base = p == base.get_pixel(x, y);
            let from_overlay = x >= 1 && x < 3 && y >= 1 && y < 3 && p == overlay.get_pixel(
                x - 1,
                y - 1,
            );
            assert!(from_base || from_overlay, "blended pixel at ({x},{y})");
        }
    }
    assert_eq!(out.get_pixel(1, 1), RED);
    assert_eq!(out.get_pixel(2, 1), BLUE);
    assert_eq!(out.get_pixel(1, 2), BLUE);
    assert_eq!(out.get_pixel(2, 2), Rgba { r: 1, g: 2, b: 3, a: 51 });
    assert_eq!(out.get_pixel(0, 0), BLUE);
    assert_eq!(out.get_pixel(3, 3), BLUE);
}

#[test]
fn flatten_full_cover_takes_every_opaque_overlay_pixel() {
    let base = solid(4, 4, BLUE);
    let mut overlay = solid(4, 4, RED);
    overlay.set_pixel(2, 3, Rgba { r: 9, g: 9, b: 9, a: 0 });
    let out = flatten(&base, Some(&overlay), rect(0, 0, 4, 4), Some(rect(0, 0, 4, 4)), 50)
        .unwrap();
    for y in 0..4u32 {
        for x in 0..4u32 {
            if x == 2 && y == 3 {
                assert_eq!(out.get_pixel(x, y), BLUE);
            } else {
                assert_eq!(out.get_pixel(x, y), RED);
            }
        }
    }
}

#[test]
fn flatten_resamples_overlay_to_the_mapped_region() {
    // Layout space is half the native resolution, so the overlay raster
    // must be scaled up to twice its size before composition.
    let base = solid(8, 8, BLUE);
    let overlay = solid(2, 2, RED);
    let out = flatten(&base, Some(&overlay), rect(0, 0, 4, 4), Some(rect(1, 1, 3, 3)), 50)
        .unwrap();
    assert_eq!(out.width, 8);
    assert_eq!(out.height, 8);
    for y in 0..8u32 {
        for x in 0..8u32 {
            let inside = x >= 2 && x < 6 && y >= 2 && y < 6;
            let expect = if inside { RED } else { BLUE };
            assert_eq!(out.get_pixel(x, y), expect, "at ({x},{y})");
        }
    }
}

#[test]
fn flatten_rounds_the_mapped_region_outward() {
    // Scale 5/3: origin 1 maps to floor(5/3) = 1, extent 2 maps to
    // ceil(10/3) = 4, so a one-pixel overlay covers three native pixels.
    let base = solid(5, 5, BLUE);
    let overlay = solid(1, 1, RED);
    let out = flatten(&base, Some(&overlay), rect(0, 0, 3, 3), Some(rect(1, 1, 2, 2)), 50)
        .unwrap();
    for y in 0..5u32 {
        for x in 0..5u32 {
            let inside = x >= 1 && x < 4 && y >= 1 && y < 4;
            let expect = if inside { RED } else { BLUE };
            assert_eq!(out.get_pixel(x, y), expect, "at ({x},{y})");
        }
    }
}

#[test]
fn flatten_bottom_right_overlay_scenario() {
    let base = solid(500, 500, BLUE);
    let overlay = solid(50, 50, RED);
    let out = flatten(
        &base,
        Some(&overlay),
        rect(0, 0, 500, 500),
        Some(rect(400, 400, 450, 450)),
        50,
    )
    .unwrap();
    assert_eq!(out.width, 500);
    assert_eq!(out.height, 500);
    for y in 0..500u32 {
        for x in 0..500u32 {
            let inside = x >= 400 && x < 450 && y >= 400 && y < 450;
            let expect = if inside { RED } else { BLUE };
            assert_eq!(out.get_pixel(x, y), expect, "at ({x},{y})");
        }
    }
}

#[test]
fn tinting_paints_only_non_transparent_pixels() {
    let mut img = solid(2, 1, Rgba { r: 10, g: 20, b: 30, a: 128 });
    img.set_pixel(1, 0, Rgba { r: 10, g: 20, b: 30, a: 0 });
    let tinted = img.tinted(layercomp::raster::Rgb { r: 1, g: 2, b: 3 });
    assert_eq!(tinted.get_pixel(0, 0), Rgba { r: 1, g: 2, b: 3, a: 128 });
    assert_eq!(tinted.get_pixel(1, 0), Rgba { r: 10, g: 20, b: 30, a: 0 });
}

#[test]
fn from_parts_checks_the_buffer_length() {
    assert!(RasterImage::from_parts(2, 2, vec![0u8; 16]).is_some());
    assert!(RasterImage::from_parts(2, 2, vec![0u8; 15]).is_none());
    assert!(RasterImage::from_parts(2, 2, vec![0u8; 17]).is_none());
}
