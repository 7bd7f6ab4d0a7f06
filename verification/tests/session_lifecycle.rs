use layercomp::errors::CompositorError;
use layercomp::formats::format_from_extension;
use layercomp::formats::OutputFormat;
use layercomp::geometry::Constraints;
use layercomp::geometry::Frac;
use layercomp::imaging::decode_image;
use layercomp::layers::LayerPlacement;
use layercomp::layers::BASE_LAYER_ID;
use layercomp::layers::OVERLAY_LAYER_ID;
use layercomp::layout::resolve;
use layercomp::raster::RasterImage;
use layercomp::raster::Rgb;
use layercomp::raster::Rgba;
use layercomp::session::Session;

const RED: Rgba = Rgba { r: 255, g: 0, b: 0, a: 255 };
const BLUE: Rgba = Rgba { r: 0, g: 0, b: 255, a: 255 };

fn solid(w: u32, h: u32, p: Rgba) -> RasterImage {
    RasterImage::fill(w, h, p).unwrap()
}

fn frac(num: u32, den: u32) -> Frac {
    Frac::new(num, den).unwrap()
}

/// A placement that parks an overlay `inset` pixels up and left from the
/// container's bottom-right corner: the anchor resolves to the remaining
/// space, which already puts the box flush with that corner.
fn bottom_right(inset: i64) -> LayerPlacement {
    LayerPlacement::new(
        frac(1, 1),
        frac(1, 1),
        0,
        0,
        frac(1, 1),
        frac(1, 1),
        -inset,
        -inset,
    )
    .unwrap()
}

#[test]
fn resolver_gives_the_base_layer_the_container_rect() {
    let base = solid(10, 10, BLUE);
    let mut session = Session::new(base, 500, 500);
    let bc = Constraints::new(800, 400).unwrap();

    let lay = resolve(&session.stack, bc);
    assert_eq!(lay.size_w, 500);
    assert_eq!(lay.size_h, 400);
    let last = lay.rects[lay.rects.len() - 1];
    assert_eq!(last.id, BASE_LAYER_ID);
    assert_eq!((last.rect.x0, last.rect.y0), (0, 0));
    assert_eq!((last.rect.x1, last.rect.y1), (500, 400));

    session.show_overlay(solid(5, 5, RED), 50, 50, bottom_right(0));
    let lay = resolve(&session.stack, bc);
    assert_eq!(lay.rects.len(), 2);
    assert_eq!(lay.rects[0].id, OVERLAY_LAYER_ID);
    let over = lay.rects[0].rect;
    assert_eq!((over.x0, over.y0, over.x1, over.y1), (450, 350, 500, 400));
    let last = lay.rects[1];
    assert_eq!(last.id, BASE_LAYER_ID);
    assert_eq!((last.rect.x0, last.rect.y0), (0, 0));
    assert_eq!((last.rect.x1, last.rect.y1), (500, 400));

    // The overlay stays inside the base, so the paint bounds are the
    // container itself.
    let paint = lay.paint_rect;
    assert_eq!((paint.x0, paint.y0, paint.x1, paint.y1), (0, 0, 500, 400));
}

#[test]
fn bottom_right_overlay_scenario_through_the_session() {
    let base = solid(500, 500, BLUE);
    let mut session = Session::new(base, 500, 500);
    let bc = Constraints::new(500, 500).unwrap();

    // 50 x 50 overlay, anchored bottom-right, nudged 50 px back inside:
    // it must resolve to (400, 400, 450, 450).
    session.show_overlay(solid(50, 50, RED), 50, 50, bottom_right(50));
    let lay = resolve(&session.stack, bc);
    let over = lay.rects[0].rect;
    assert_eq!((over.x0, over.y0, over.x1, over.y1), (400, 400, 450, 450));

    let bytes = session.commit_save(bc, "png").unwrap();
    assert!(!bytes.is_empty());
    assert!(session.overlay_image.is_none());

    let flat = &session.back_image;
    assert_eq!(flat.width, 500);
    assert_eq!(flat.height, 500);
    for y in 0..500u32 {
        for x in 0..500u32 {
            let inside = x >= 400 && x < 450 && y >= 400 && y < 450;
            let expect = if inside { RED } else { BLUE };
            assert_eq!(flat.get_pixel(x, y), expect, "at ({x},{y})");
        }
    }
}

#[test]
fn staging_a_second_overlay_replaces_the_first() {
    let mut session = Session::new(solid(8, 8, BLUE), 8, 8);
    let first = solid(2, 2, RED);
    let second = solid(2, 2, Rgba { r: 0, g: 255, b: 0, a: 255 });

    session.show_overlay(first, 2, 2, bottom_right(0));
    session.show_overlay(second, 2, 2, bottom_right(1));

    assert_eq!(session.stack.layers.len(), 2);
    let staged = session.overlay_image.as_ref().unwrap();
    assert_eq!(staged.get_pixel(0, 0), Rgba { r: 0, g: 255, b: 0, a: 255 });
    assert_eq!(session.stack.layers[0].placement.offset_x, -1);
}

#[test]
fn unknown_extension_is_refused_without_touching_the_session() {
    let mut session = Session::new(solid(4, 4, BLUE), 4, 4);
    session.show_overlay(solid(2, 2, RED), 2, 2, bottom_right(0));
    let before = session.back_image.pixels.clone();

    let bc = Constraints::new(4, 4).unwrap();
    let r = session.commit_save(bc, "bmp");
    assert_eq!(r.unwrap_err(), CompositorError::UnsupportedFormat);
    assert_eq!(session.back_image.pixels, before);
    assert!(session.overlay_image.is_some());
}

#[test]
fn png_save_round_trips_pixel_identically() {
    let pixels: Vec<u8> = (0..64).map(|i| (i * 5 % 251) as u8).collect();
    let base = RasterImage::from_parts(4, 4, pixels).unwrap();
    let mut session = Session::new(base, 4, 4);
    let bc = Constraints::new(4, 4).unwrap();

    let bytes = session.commit_save(bc, "png").unwrap();
    let reloaded = decode_image(&bytes).unwrap();
    assert_eq!(reloaded.width, 4);
    assert_eq!(reloaded.height, 4);
    assert_eq!(reloaded.pixels, session.back_image.pixels);
}

#[test]
fn jpeg_save_is_visually_close_on_a_solid_image() {
    let mut session = Session::new(solid(16, 16, Rgba { r: 200, g: 40, b: 40, a: 255 }), 16, 16);
    let bc = Constraints::new(16, 16).unwrap();
    let bytes = session.commit_save(bc, "jpg").unwrap();
    let reloaded = decode_image(&bytes).unwrap();
    assert_eq!(reloaded.width, 16);
    assert_eq!(reloaded.height, 16);
    let p = reloaded.get_pixel(8, 8);
    assert!((p.r as i32 - 200).abs() <= 12, "r drifted: {}", p.r);
    assert!((p.g as i32 - 40).abs() <= 12, "g drifted: {}", p.g);
    assert!((p.b as i32 - 40).abs() <= 12, "b drifted: {}", p.b);
}

#[test]
fn gif_save_keeps_a_solid_colour() {
    let mut session = Session::new(solid(8, 8, RED), 8, 8);
    let bc = Constraints::new(8, 8).unwrap();
    let bytes = session.commit_save(bc, "gif").unwrap();
    let reloaded = decode_image(&bytes).unwrap();
    assert_eq!(reloaded.width, 8);
    assert_eq!(reloaded.height, 8);
    let p = reloaded.get_pixel(3, 3);
    assert_eq!((p.r, p.g, p.b), (255, 0, 0));
}

#[test]
fn saving_commits_the_flattened_image_as_the_new_base() {
    let mut session = Session::new(solid(8, 8, BLUE), 8, 8);
    let bc = Constraints::new(8, 8).unwrap();
    session.show_overlay(solid(2, 2, RED), 2, 2, bottom_right(0));
    session.commit_save(bc, "png").unwrap();

    // The overlay is gone and the base now carries its pixels, so the
    // next save composites on the already-flattened result.
    assert!(session.overlay_image.is_none());
    assert_eq!(session.stack.layers.len(), 1);
    assert_eq!(session.back_image.get_pixel(7, 7), RED);
    assert_eq!(session.back_image.get_pixel(0, 0), BLUE);

    let before = session.back_image.pixels.clone();
    let bytes = session.commit_save(bc, "png").unwrap();
    assert_eq!(session.back_image.pixels, before);
    let reloaded = decode_image(&bytes).unwrap();
    assert_eq!(reloaded.pixels, before);
}

#[test]
fn changing_the_tint_discards_the_staged_overlay() {
    let mut session = Session::new(solid(8, 8, BLUE), 8, 8);
    session.show_overlay(solid(2, 2, RED), 2, 2, bottom_right(0));
    session.set_overlay_color(Some(Rgb { r: 0, g: 9, b: 0 }));
    assert!(session.overlay_image.is_none());
    assert_eq!(session.stack.layers.len(), 1);

    // Staged again, the overlay picks up the tint, pre-baked per pixel.
    let mut source = solid(2, 1, Rgba { r: 7, g: 7, b: 7, a: 77 });
    source.set_pixel(1, 0, Rgba { r: 7, g: 7, b: 7, a: 0 });
    session.show_overlay(source, 2, 1, bottom_right(0));
    let staged = session.overlay_image.as_ref().unwrap();
    assert_eq!(staged.get_pixel(0, 0), Rgba { r: 0, g: 9, b: 0, a: 77 });
    assert_eq!(staged.get_pixel(1, 0), Rgba { r: 7, g: 7, b: 7, a: 0 });
}

#[test]
fn removing_with_no_overlay_reports_an_empty_stack() {
    let mut session = Session::new(solid(4, 4, BLUE), 4, 4);
    assert_eq!(session.remove_overlay().unwrap_err(), CompositorError::EmptyStack);

    session.show_overlay(solid(2, 2, RED), 2, 2, bottom_right(0));
    assert!(session.remove_overlay().is_ok());
    assert!(session.overlay_image.is_none());
    assert_eq!(session.remove_overlay().unwrap_err(), CompositorError::EmptyStack);
}

#[test]
fn an_overlay_resolved_outside_the_base_is_a_precondition_violation() {
    let mut session = Session::new(solid(8, 8, BLUE), 8, 8);
    let bc = Constraints::new(8, 8).unwrap();
    // Anchored at the bottom-right corner and nudged further out.
    let placement = LayerPlacement::new(
        frac(1, 1),
        frac(1, 1),
        0,
        0,
        frac(1, 1),
        frac(1, 1),
        5,
        5,
    )
    .unwrap();
    session.show_overlay(solid(2, 2, RED), 2, 2, placement);
    let before = session.back_image.pixels.clone();
    let r = session.commit_save(bc, "png");
    assert_eq!(r.unwrap_err(), CompositorError::PreconditionViolation);
    assert_eq!(session.back_image.pixels, before);
    assert!(session.overlay_image.is_some());
}

#[test]
fn extensions_map_to_their_encoders() {
    assert_eq!(format_from_extension("png").unwrap(), OutputFormat::Png);
    assert_eq!(format_from_extension("jpg").unwrap(), OutputFormat::Jpeg);
    assert_eq!(format_from_extension("jpeg").unwrap(), OutputFormat::Jpeg);
    assert_eq!(format_from_extension("gif").unwrap(), OutputFormat::Gif);
    assert_eq!(format_from_extension("bmp").unwrap_err(), CompositorError::UnsupportedFormat);
    assert_eq!(format_from_extension("").unwrap_err(), CompositorError::UnsupportedFormat);
    assert_eq!(format_from_extension("PNG").unwrap_err(), CompositorError::UnsupportedFormat);
}

#[test]
fn garbage_bytes_are_a_decode_error() {
    let r = decode_image(&vec![1u8, 2, 3, 4, 5]);
    assert_eq!(r.unwrap_err(), CompositorError::Decode);
}
