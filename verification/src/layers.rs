//! The layer model: an ordered stack of visual layers above a base layer.
//!
//! The base layer fixes the container's overall size and is kept at the
//! end of the backing sequence; overlays are inserted directly above it
//! and paint order is the reverse of the sequence order, so index `0` is
//! the topmost layer.  The stack enforces the single-overlay policy: at
//! most one overlay is staged at a time, and pushing while one is staged
//! replaces it.

use vstd::prelude::*;

use crate::errors::CompositorError;
use crate::geometry::Frac;
use crate::geometry::MAX_COORD;
use crate::geometry::MAX_DEN;

verus! {

/// How a layer is sized and anchored inside its container.
///
/// The layer may occupy `relative` of the container's base size plus
/// `absolute` layout pixels; the anchor picks a point in the remaining
/// space and `offset` nudges it by a fixed amount.
#[derive(Clone, Copy, Debug, PartialEq, Eq, Structural)]
pub struct LayerPlacement {
    pub relative_w: Frac,
    pub relative_h: Frac,
    pub absolute_w: i64,
    pub absolute_h: i64,
    pub anchor_x: Frac,
    pub anchor_y: Frac,
    pub offset_x: i64,
    pub offset_y: i64,
}

impl LayerPlacement {
    pub open spec fn wf(self) -> bool {
        &&& self.relative_w.wf()
        &&& self.relative_h.wf()
        &&& self.anchor_x.wf()
        &&& self.anchor_y.wf()
        &&& 0 <= self.absolute_w <= MAX_COORD
        &&& 0 <= self.absolute_h <= MAX_COORD
        &&& -MAX_COORD <= self.offset_x <= MAX_COORD
        &&& -MAX_COORD <= self.offset_y <= MAX_COORD
    }

    /// The placement of a base layer: the whole container, nothing added,
    /// no nudge.  The anchor of a base layer has no effect on it.
    pub open spec fn spec_base() -> LayerPlacement {
        LayerPlacement {
            relative_w: Frac { num: 1, den: 1 },
            relative_h: Frac { num: 1, den: 1 },
            absolute_w: 0,
            absolute_h: 0,
            anchor_x: Frac { num: 1, den: 2 },
            anchor_y: Frac { num: 1, den: 2 },
            offset_x: 0,
            offset_y: 0,
        }
    }

    /// Builds the base-layer placement.
    pub fn base() -> (r: LayerPlacement)
        ensures
            r == LayerPlacement::spec_base(),
            r.wf(),
    {
        LayerPlacement {
            relative_w: Frac { num: 1, den: 1 },
            relative_h: Frac { num: 1, den: 1 },
            absolute_w: 0,
            absolute_h: 0,
            anchor_x: Frac { num: 1, den: 2 },
            anchor_y: Frac { num: 1, den: 2 },
            offset_x: 0,
            offset_y: 0,
        }
    }

    /// Builds a placement after checking every bound.
    pub fn new(
        relative_w: Frac,
        relative_h: Frac,
        absolute_w: i64,
        absolute_h: i64,
        anchor_x: Frac,
        anchor_y: Frac,
        offset_x: i64,
        offset_y: i64,
    ) -> (r: Option<LayerPlacement>)
        ensures
            r is Some <==> (LayerPlacement {
                relative_w,
                relative_h,
                absolute_w,
                absolute_h,
                anchor_x,
                anchor_y,
                offset_x,
                offset_y,
            }).wf(),
            r is Some ==> r->0 == (LayerPlacement {
                relative_w,
                relative_h,
                absolute_w,
                absolute_h,
                anchor_x,
                anchor_y,
                offset_x,
                offset_y,
            }),
    {
        let p = LayerPlacement {
            relative_w,
            relative_h,
            absolute_w,
            absolute_h,
            anchor_x,
            anchor_y,
            offset_x,
            offset_y,
        };
        let fracs_ok = frac_ok(relative_w) && frac_ok(relative_h) && frac_ok(anchor_x)
            && frac_ok(anchor_y);
        let bounds_ok = 0 <= absolute_w && absolute_w <= MAX_COORD && 0 <= absolute_h
            && absolute_h <= MAX_COORD && -MAX_COORD <= offset_x && offset_x <= MAX_COORD
            && -MAX_COORD <= offset_y && offset_y <= MAX_COORD;
        if fracs_ok && bounds_ok {
            Some(p)
        } else {
            None
        }
    }
}

/// Decides a fraction's well-formedness at run time.
fn frac_ok(f: Frac) -> (r: bool)
    ensures
        r == f.wf(),
{
    1 <= f.den && f.den <= MAX_DEN && f.num <= f.den
}

/// One visual layer: an identifier, the natural layout size its content
/// would take if unconstrained, and its placement rule.
#[derive(Clone, Copy, Debug, PartialEq, Eq, Structural)]
pub struct Layer {
    pub id: u64,
    pub natural_w: i64,
    pub natural_h: i64,
    pub placement: LayerPlacement,
}

impl Layer {
    pub open spec fn wf(self) -> bool {
        &&& 0 <= self.natural_w <= MAX_COORD
        &&& 0 <= self.natural_h <= MAX_COORD
        &&& self.placement.wf()
    }
}

/// Identifies the base layer in a resolved layout.
pub const BASE_LAYER_ID: u64 = 0;

/// Identifies the overlay slot in a resolved layout; under the
/// single-overlay policy the staged overlay always occupies this slot.
pub const OVERLAY_LAYER_ID: u64 = 1;

/// The ordered stack: overlays first, base layer always last.
pub struct LayerStack {
    pub layers: Vec<Layer>,
}

impl LayerStack {
    /// Exactly one base layer at the bottom, at most one overlay above it,
    /// every layer well formed, each in its fixed slot.
    pub open spec fn wf(self) -> bool {
        &&& 1 <= self.layers@.len() <= 2
        &&& forall|i: int| 0 <= i < self.layers@.len() ==> (#[trigger] self.layers@[i]).wf()
        &&& self.layers@.last().id == BASE_LAYER_ID
        &&& self.layers@.len() == 2 ==> self.layers@[0].id == OVERLAY_LAYER_ID
    }

    /// The base layer: the last element of the backing sequence.
    pub open spec fn spec_base(self) -> Layer {
        self.layers@.last()
    }

    /// How many overlays are staged above the base layer.
    pub open spec fn overlay_count(self) -> int {
        self.layers@.len() - 1
    }

    /// The staged overlay, meaningful when `overlay_count() == 1`.
    pub open spec fn spec_overlay(self) -> Layer {
        self.layers@[0]
    }

    /// A fresh stack holding only a base layer of the given natural size.
    pub fn new(natural_w: i64, natural_h: i64) -> (r: LayerStack)
        requires
            0 <= natural_w <= MAX_COORD,
            0 <= natural_h <= MAX_COORD,
        ensures
            r.wf(),
            r.overlay_count() == 0,
            r.spec_base() == (Layer {
                id: BASE_LAYER_ID,
                natural_w,
                natural_h,
                placement: LayerPlacement::spec_base(),
            }),
    {
        let base = Layer {
            id: BASE_LAYER_ID,
            natural_w,
            natural_h,
            placement: LayerPlacement::base(),
        };
        let mut layers: Vec<Layer> = Vec::new();
        layers.push(base);
        LayerStack { layers }
    }

    /// Reads the base layer.
    pub fn base_layer(&self) -> (r: Layer)
        requires
            self.wf(),
        ensures
            r == self.spec_base(),
    {
        let n: usize = self.layers.len();
        self.layers[n - 1]
    }

    /// Replaces the base layer's natural size, as when the base content
    /// is replaced by a flattened image.
    pub fn set_base_natural(&mut self, natural_w: i64, natural_h: i64)
        requires
            old(self).wf(),
            0 <= natural_w <= MAX_COORD,
            0 <= natural_h <= MAX_COORD,
        ensures
            final(self).wf(),
            final(self).overlay_count() == old(self).overlay_count(),
            final(self).spec_base() == (Layer {
                natural_w,
                natural_h,
                ..old(self).spec_base()
            }),
            final(self).overlay_count() == 1 ==> final(self).spec_overlay() == old(self).spec_overlay(),
    {
        let n: usize = self.layers.len();
        let old_base = self.layers[n - 1];
        let new_base = Layer { natural_w, natural_h, ..old_base };
        self.layers.set(n - 1, new_base);
    }

    /// Stages an overlay directly above the base layer and hands back the
    /// overlay slot's id.  Under the single-overlay policy a previously
    /// staged overlay is discarded first, so afterwards the new overlay is
    /// the only one.
    pub fn push_overlay(&mut self, natural_w: i64, natural_h: i64, placement: LayerPlacement) -> (r:
        u64)
        requires
            old(self).wf(),
            0 <= natural_w <= MAX_COORD,
            0 <= natural_h <= MAX_COORD,
            placement.wf(),
        ensures
            final(self).wf(),
            r == OVERLAY_LAYER_ID,
            final(self).overlay_count() == 1,
            final(self).spec_overlay() == (Layer { id: r, natural_w, natural_h, placement }),
            final(self).spec_base() == old(self).spec_base(),
    {
        let layer = Layer { id: OVERLAY_LAYER_ID, natural_w, natural_h, placement };
        if self.layers.len() > 1 {
            self.layers.remove(0);
        }
        self.layers.insert(0, layer);
        OVERLAY_LAYER_ID
    }

    /// Removes and returns the topmost overlay; refused when only the base
    /// layer remains.
    pub fn remove_top_overlay(&mut self) -> (r: Result<Layer, CompositorError>)
        requires
            old(self).wf(),
        ensures
            final(self).wf(),
            old(self).overlay_count() == 0 ==> r == Result::<Layer, CompositorError>::Err(
                CompositorError::EmptyStack,
            ) && *final(self) == *old(self),
            old(self).overlay_count() == 1 ==> r == Result::<Layer, CompositorError>::Ok(
                old(self).spec_overlay(),
            ) && final(self).overlay_count() == 0 && final(self).spec_base() == old(self).spec_base(),
    {
        if self.layers.len() > 1 {
            let layer = self.layers.remove(0);
            Ok(layer)
        } else {
            Err(CompositorError::EmptyStack)
        }
    }
}

} // verus!
