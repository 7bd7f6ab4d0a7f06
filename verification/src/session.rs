//! The layer lifecycle manager: one screenshot session.
//!
//! A session owns the captured base raster, the layer stack and the
//! staged overlay raster.  Staging replaces any previously staged
//! overlay; changing the tint colour discards the staged overlay so it
//! must be staged again with the tint pre-baked; saving flattens the
//! stack, and committing a save replaces the base raster with the
//! flattened result and clears the overlay, so later overlays composite
//! on top of the already-flattened image.  A save is all-or-nothing: on
//! any error the session is left unchanged.

use vstd::prelude::*;
use vstd::string::StringSliceAdditionalSpecFns;

use crate::compose::flatten;
use crate::compose::spec_flatten_pixel;
use crate::errors::CompositorError;
use crate::formats::OutputFormat;
use crate::formats::encoder_accepts;
use crate::formats::format_from_extension;
use crate::formats::spec_format_from_extension;
use crate::geometry::Constraints;
use crate::geometry::LayoutRect;
use crate::geometry::MAX_COORD;
use crate::imaging::encode_gif;
use crate::imaging::encode_jpeg;
use crate::imaging::encode_png;
use crate::imaging::gif_encoding_of;
use crate::imaging::jpeg_encoding_of;
use crate::imaging::png_encoding_of;
use crate::layers::Layer;
use crate::layers::LayerPlacement;
use crate::layers::LayerStack;
use crate::layers::OVERLAY_LAYER_ID;
use crate::layout::resolve;
use crate::layout::spec_layer_rect;
use crate::layout::spec_min;
use crate::raster::RasterImage;
use crate::raster::Rgb;
use crate::raster::tint_pixel;

verus! {

/// The default alpha cutoff: an overlay pixel is copied only when its
/// alpha strictly exceeds this value.
pub const DEFAULT_ALPHA_THRESHOLD: u8 = 50;

/// The bytes a format's encoder produces for a raster.
pub open spec fn spec_encoding_of(fmt: OutputFormat, pixels: Seq<u8>, w: u32, h: u32) -> Seq<u8> {
    match fmt {
        OutputFormat::Png => png_encoding_of(pixels, w, h),
        OutputFormat::Jpeg => jpeg_encoding_of(pixels, w, h),
        OutputFormat::Gif => gif_encoding_of(pixels, w, h),
    }
}

/// What a prepared save hands back: the flattened raster and its encoding.
pub struct SavePayload {
    pub image: RasterImage,
    pub bytes: Vec<u8>,
}

/// One screenshot session: base raster, layer stack, staged overlay.
pub struct Session {
    pub stack: LayerStack,
    pub back_image: RasterImage,
    pub overlay_image: Option<RasterImage>,
    pub overlay_color: Option<Rgb>,
    pub threshold: u8,
}

impl Session {
    /// The stack and the rasters are well formed, and an overlay raster is
    /// staged exactly when the stack holds an overlay layer.
    pub open spec fn wf(self) -> bool {
        &&& self.stack.wf()
        &&& self.back_image.wf()
        &&& (self.overlay_image is Some <==> self.stack.overlay_count() == 1)
        &&& (self.overlay_image is Some ==> self.overlay_image->0.wf())
    }

    /// The container width the session resolves to under `bc`.
    pub open spec fn spec_view_w(self, bc: Constraints) -> int {
        spec_min(self.stack.spec_base().natural_w as int, bc.max_w as int)
    }

    /// The container height the session resolves to under `bc`.
    pub open spec fn spec_view_h(self, bc: Constraints) -> int {
        spec_min(self.stack.spec_base().natural_h as int, bc.max_h as int)
    }

    /// The base layer's resolved rectangle: the container at the origin.
    pub open spec fn spec_base_rect(self, bc: Constraints) -> LayoutRect {
        LayoutRect {
            x0: 0,
            y0: 0,
            x1: self.spec_view_w(bc) as i64,
            y1: self.spec_view_h(bc) as i64,
        }
    }

    /// The staged overlay's resolved rectangle.
    pub open spec fn spec_overlay_rect(self, bc: Constraints) -> LayoutRect {
        spec_layer_rect(self.stack.spec_overlay(), self.spec_view_w(bc), self.spec_view_h(bc))
    }

    /// The geometric conditions under which a save succeeds: a non-empty
    /// container, and the staged overlay (if any) resolved fully inside
    /// the base rectangle.
    pub open spec fn spec_save_ok(self, bc: Constraints) -> bool {
        &&& self.spec_view_w(bc) >= 1
        &&& self.spec_view_h(bc) >= 1
        &&& (self.overlay_image is Some ==> self.spec_base_rect(bc).contains_rect(
            self.spec_overlay_rect(bc),
        ))
    }

    /// Opens a session around a captured base raster; `view_w` and
    /// `view_h` are the base content's natural size in layout space.
    pub fn new(back_image: RasterImage, view_w: i64, view_h: i64) -> (r: Session)
        requires
            back_image.wf(),
            0 <= view_w <= MAX_COORD,
            0 <= view_h <= MAX_COORD,
        ensures
            r.wf(),
            r.back_image == back_image,
            r.overlay_image is None,
            r.overlay_color is None,
            r.threshold == DEFAULT_ALPHA_THRESHOLD,
            r.stack.overlay_count() == 0,
            r.stack.spec_base().natural_w == view_w,
            r.stack.spec_base().natural_h == view_h,
            r.stack.spec_base().placement == LayerPlacement::spec_base(),
    {
        Session {
            stack: LayerStack::new(view_w, view_h),
            back_image,
            overlay_image: None,
            overlay_color: None,
            threshold: DEFAULT_ALPHA_THRESHOLD,
        }
    }

    /// Stages an overlay.  If a tint colour is set, the tint is pre-baked
    /// into the staged raster; a previously staged overlay is replaced, so
    /// afterwards the new overlay is the only one.
    pub fn show_overlay(
        &mut self,
        source: RasterImage,
        natural_w: i64,
        natural_h: i64,
        placement: LayerPlacement,
    )
        requires
            old(self).wf(),
            source.wf(),
            0 <= natural_w <= MAX_COORD,
            0 <= natural_h <= MAX_COORD,
            placement.wf(),
        ensures
            final(self).wf(),
            final(self).stack.overlay_count() == 1,
            final(self).stack.spec_overlay() == (Layer {
                id: OVERLAY_LAYER_ID,
                natural_w,
                natural_h,
                placement,
            }),
            final(self).stack.spec_base() == old(self).stack.spec_base(),
            final(self).back_image == old(self).back_image,
            final(self).overlay_color == old(self).overlay_color,
            final(self).threshold == old(self).threshold,
            final(self).overlay_image is Some,
            old(self).overlay_color is None ==> final(self).overlay_image->0 == source,
            old(self).overlay_color is Some ==> {
                let staged = final(self).overlay_image->0;
                &&& staged.wf()
                &&& staged.same_dims(source)
                &&& forall|x: int, y: int|
                    source.in_bounds(x, y) ==> staged.spec_pixel(x, y) == tint_pixel(
                        source.spec_pixel(x, y),
                        old(self).overlay_color->0,
                    )
            },
    {
        let staged = match &self.overlay_color {
            Some(c) => source.tinted(*c),
            None => source,
        };
        self.stack.push_overlay(natural_w, natural_h, placement);
        self.overlay_image = Some(staged);
    }

    /// Unstages the overlay; refused when none is staged.
    pub fn remove_overlay(&mut self) -> (r: Result<(), CompositorError>)
        requires
            old(self).wf(),
        ensures
            final(self).wf(),
            old(self).overlay_image is None ==> r == Result::<(), CompositorError>::Err(
                CompositorError::EmptyStack,
            ) && *final(self) == *old(self),
            old(self).overlay_image is Some ==> r == Result::<(), CompositorError>::Ok(()),
            final(self).overlay_image is None,
            final(self).stack.spec_base() == old(self).stack.spec_base(),
            final(self).back_image == old(self).back_image,
            final(self).overlay_color == old(self).overlay_color,
            final(self).threshold == old(self).threshold,
    {
        match self.stack.remove_top_overlay() {
            Ok(_) => {
                self.overlay_image = None;
                Ok(())
            },
            Err(e) => Err(e),
        }
    }

    /// Sets the tint colour for overlays staged from now on.  A staged
    /// overlay is discarded, because its tint is baked in at staging time;
    /// it has to be staged again to pick up the new colour.
    pub fn set_overlay_color(&mut self, color: Option<Rgb>)
        requires
            old(self).wf(),
        ensures
            final(self).wf(),
            final(self).overlay_color == color,
            final(self).overlay_image is None,
            final(self).stack.overlay_count() == 0,
            final(self).stack.spec_base() == old(self).stack.spec_base(),
            final(self).back_image == old(self).back_image,
            final(self).threshold == old(self).threshold,
    {
        self.overlay_color = color;
        if self.overlay_image.is_some() {
            let _discarded = self.stack.remove_top_overlay();
            self.overlay_image = None;
        }
    }

    /// Resolves the layout and flattens the stack, encoding the result in
    /// the format the extension selects, without touching the session.
    ///
    /// An unknown extension is refused before any pixel work; a staged
    /// overlay resolved outside the base rectangle is a precondition
    /// violation; an encoder failure is reported as an I/O error.
    pub fn prepare_save(&self, bc: Constraints, ext: &str) -> (r: Result<
        SavePayload,
        CompositorError,
    >)
        requires
            self.wf(),
            bc.wf(),
        ensures
            spec_format_from_extension(ext.spec_bytes()) is None ==> (r matches Err(e) && e
                == CompositorError::UnsupportedFormat),
            spec_format_from_extension(ext.spec_bytes()) is Some && !self.spec_save_ok(bc)
                ==> (r matches Err(e) && e == CompositorError::PreconditionViolation),
            spec_format_from_extension(ext.spec_bytes()) is Some && self.spec_save_ok(bc) ==> (
            r is Ok || r == Result::<SavePayload, CompositorError>::Err(CompositorError::Io)),
            spec_format_from_extension(ext.spec_bytes()) is Some && self.spec_save_ok(bc)
                && encoder_accepts(
                spec_format_from_extension(ext.spec_bytes())->0,
                self.back_image.width,
                self.back_image.height,
            ) ==> r is Ok,
            r matches Ok(payload) ==> {
                &&& payload.image.wf()
                &&& payload.image.width == self.back_image.width
                &&& payload.image.height == self.back_image.height
                &&& (self.overlay_image is None ==> payload.image.pixels@
                    == self.back_image.pixels@)
                &&& (self.overlay_image is Some ==> forall|x: int, y: int|
                    payload.image.in_bounds(x, y) ==> payload.image.spec_pixel(x, y)
                        == spec_flatten_pixel(
                        self.back_image,
                        self.overlay_image->0,
                        self.spec_base_rect(bc),
                        self.spec_overlay_rect(bc),
                        self.threshold,
                        x,
                        y,
                    ))
                &&& payload.bytes@ == spec_encoding_of(
                    spec_format_from_extension(ext.spec_bytes())->0,
                    payload.image.pixels@,
                    payload.image.width,
                    payload.image.height,
                )
            },
    {
        let fmt = match format_from_extension(ext) {
            Ok(f) => f,
            Err(e) => {
                return Err(e);
            },
        };
        let lay = resolve(&self.stack, bc);
        let n: usize = lay.rects.len();
        let base_rect = lay.rects[n - 1].rect;
        let overlay_rect = if n > 1 {
            Some(lay.rects[0].rect)
        } else {
            None
        };
        let img = match flatten(
            &self.back_image,
            self.overlay_image.as_ref(),
            base_rect,
            overlay_rect,
            self.threshold,
        ) {
            Ok(img) => img,
            Err(e) => {
                return Err(e);
            },
        };
        let encoded = match fmt {
            OutputFormat::Png => encode_png(&img),
            OutputFormat::Jpeg => encode_jpeg(&img),
            OutputFormat::Gif => encode_gif(&img),
        };
        match encoded {
            Some(bytes) => Ok(SavePayload { image: img, bytes }),
            None => Err(CompositorError::Io),
        }
    }

    /// Installs a flattened raster as the new base content and clears the
    /// overlay state, finishing a save whose output has been written.
    pub fn apply_save(&mut self, image: RasterImage)
        requires
            old(self).wf(),
            image.wf(),
        ensures
            final(self).wf(),
            final(self).back_image == image,
            final(self).overlay_image is None,
            final(self).stack.overlay_count() == 0,
            final(self).stack.spec_base() == old(self).stack.spec_base(),
            final(self).overlay_color == old(self).overlay_color,
            final(self).threshold == old(self).threshold,
    {
        if self.overlay_image.is_some() {
            let _discarded = self.stack.remove_top_overlay();
            self.overlay_image = None;
        }
        self.back_image = image;
    }

    /// Flattens, encodes and commits in one step, handing back the encoded
    /// bytes.  On any error the session is unchanged; on success the
    /// flattened raster becomes the base content and the overlay is gone.
    pub fn commit_save(&mut self, bc: Constraints, ext: &str) -> (r: Result<
        Vec<u8>,
        CompositorError,
    >)
        requires
            old(self).wf(),
            bc.wf(),
        ensures
            final(self).wf(),
            r is Err ==> *final(self) == *old(self),
            spec_format_from_extension(ext.spec_bytes()) is None ==> (r matches Err(e) && e
                == CompositorError::UnsupportedFormat),
            spec_format_from_extension(ext.spec_bytes()) is Some && !old(self).spec_save_ok(bc)
                ==> (r matches Err(e) && e == CompositorError::PreconditionViolation),
            spec_format_from_extension(ext.spec_bytes()) is Some && old(self).spec_save_ok(bc)
                ==> (r is Ok || r == Result::<Vec<u8>, CompositorError>::Err(CompositorError::Io)),
            spec_format_from_extension(ext.spec_bytes()) is Some && old(self).spec_save_ok(bc)
                && encoder_accepts(
                spec_format_from_extension(ext.spec_bytes())->0,
                old(self).back_image.width,
                old(self).back_image.height,
            ) ==> r is Ok,
            r matches Ok(bytes) ==> {
                let flat = final(self).back_image;
                &&& final(self).overlay_image is None
                &&& final(self).stack.overlay_count() == 0
                &&& final(self).stack.spec_base() == old(self).stack.spec_base()
                &&& final(self).overlay_color == old(self).overlay_color
                &&& final(self).threshold == old(self).threshold
                &&& flat.wf()
                &&& flat.width == old(self).back_image.width
                &&& flat.height == old(self).back_image.height
                &&& (old(self).overlay_image is None ==> flat.pixels@ == old(self).back_image.pixels@)
                &&& (old(self).overlay_image is Some ==> forall|x: int, y: int|
                    flat.in_bounds(x, y) ==> flat.spec_pixel(x, y) == spec_flatten_pixel(
                        old(self).back_image,
                        old(self).overlay_image->0,
                        old(self).spec_base_rect(bc),
                        old(self).spec_overlay_rect(bc),
                        old(self).threshold,
                        x,
                        y,
                    ))
                &&& bytes@ == spec_encoding_of(
                    spec_format_from_extension(ext.spec_bytes())->0,
                    flat.pixels@,
                    flat.width,
                    flat.height,
                )
            },
    {
        let payload = match self.prepare_save(bc, ext) {
            Ok(p) => p,
            Err(e) => {
                return Err(e);
            },
        };
        self.apply_save(payload.image);
        Ok(payload.bytes)
    }
}

} // verus!
