//! The layout resolver: computes each layer's bounding box in container
//! space.
//!
//! The base layer is laid out first against the incoming constraints; the
//! size it resolves to becomes the container size for the whole stack.
//! Every other layer may take `absolute + relative * base_size` at most,
//! its content never grows beyond that, and its origin is the anchor
//! resolved against the remaining space plus a fixed offset.

use vstd::prelude::*;

use crate::geometry::Constraints;
use crate::geometry::LayoutRect;
use crate::geometry::min_i64;
use crate::layers::Layer;
use crate::layers::LayerStack;

verus! {

/// A layer's resolved bounding box, keyed by the layer's id.
#[derive(Clone, Copy, Debug, PartialEq, Eq, Structural)]
pub struct LayerRect {
    pub id: u64,
    pub rect: LayoutRect,
}

/// The outcome of resolving a stack: the container's resolved size, one
/// rectangle per layer (stack order: overlays first, base last), and the
/// union of all painted rectangles for clip bookkeeping.
pub struct ResolvedLayout {
    pub size_w: i64,
    pub size_h: i64,
    pub rects: Vec<LayerRect>,
    pub paint_rect: LayoutRect,
}

pub open spec fn spec_min(a: int, b: int) -> int {
    if a <= b {
        a
    } else {
        b
    }
}

pub open spec fn spec_max(a: int, b: int) -> int {
    if a >= b {
        a
    } else {
        b
    }
}

/// The width a non-base layer resolves to inside a container of width
/// `base_w`: its content size, clamped to the allowed maximum.
pub open spec fn spec_resolved_w(layer: Layer, base_w: int) -> int {
    spec_min(
        layer.natural_w as int,
        layer.placement.absolute_w + layer.placement.relative_w.spec_apply(base_w),
    )
}

pub open spec fn spec_resolved_h(layer: Layer, base_h: int) -> int {
    spec_min(
        layer.natural_h as int,
        layer.placement.absolute_h + layer.placement.relative_h.spec_apply(base_h),
    )
}

/// The x origin of a non-base layer: the anchor resolved against the
/// remaining horizontal space, nudged by the fixed offset.
pub open spec fn spec_origin_x(layer: Layer, base_w: int) -> int {
    layer.placement.anchor_x.spec_apply_signed(base_w - spec_resolved_w(layer, base_w))
        + layer.placement.offset_x
}

pub open spec fn spec_origin_y(layer: Layer, base_h: int) -> int {
    layer.placement.anchor_y.spec_apply_signed(base_h - spec_resolved_h(layer, base_h))
        + layer.placement.offset_y
}

/// The bounding box a non-base layer resolves to.
pub open spec fn spec_layer_rect(layer: Layer, base_w: int, base_h: int) -> LayoutRect {
    LayoutRect {
        x0: spec_origin_x(layer, base_w) as i64,
        y0: spec_origin_y(layer, base_h) as i64,
        x1: (spec_origin_x(layer, base_w) + spec_resolved_w(layer, base_w)) as i64,
        y1: (spec_origin_y(layer, base_h) + spec_resolved_h(layer, base_h)) as i64,
    }
}

/// The smallest rectangle covering both arguments.
pub open spec fn spec_rect_union(a: LayoutRect, b: LayoutRect) -> LayoutRect {
    LayoutRect {
        x0: spec_min(a.x0 as int, b.x0 as int) as i64,
        y0: spec_min(a.y0 as int, b.y0 as int) as i64,
        x1: spec_max(a.x1 as int, b.x1 as int) as i64,
        y1: spec_max(a.y1 as int, b.y1 as int) as i64,
    }
}

/// Resolves every layer of the stack against the container constraints.
///
/// The base layer always resolves to a rectangle with origin `(0, 0)`
/// and the container's resolved size, which is its natural size clamped
/// to the constraints.
pub fn resolve(stack: &LayerStack, bc: Constraints) -> (r: ResolvedLayout)
    requires
        stack.wf(),
        bc.wf(),
    ensures
        r.size_w == spec_min(stack.spec_base().natural_w as int, bc.max_w as int),
        r.size_h == spec_min(stack.spec_base().natural_h as int, bc.max_h as int),
        r.rects@.len() == stack.layers@.len(),
        r.rects@.last().id == stack.spec_base().id,
        r.rects@.last().rect == (LayoutRect { x0: 0, y0: 0, x1: r.size_w, y1: r.size_h }),
        r.rects@.last().rect.wf() && r.rects@.last().rect.at_origin(),
        forall|i: int|
            0 <= i < r.rects@.len() - 1 ==> (#[trigger] r.rects@[i]).id == stack.layers@[i].id
                && r.rects@[i].rect == spec_layer_rect(
                stack.layers@[i],
                r.size_w as int,
                r.size_h as int,
            ),
        forall|i: int| 0 <= i < r.rects@.len() ==> (#[trigger] r.rects@[i]).rect.wf(),
        r.paint_rect == if stack.overlay_count() == 0 {
            r.rects@.last().rect
        } else {
            spec_rect_union(r.rects@[0].rect, r.rects@.last().rect)
        },
{
    let base = stack.base_layer();
    let size_w = min_i64(base.natural_w, bc.max_w);
    let size_h = min_i64(base.natural_h, bc.max_h);
    let base_rect = LayoutRect { x0: 0, y0: 0, x1: size_w, y1: size_h };

    let mut rects: Vec<LayerRect> = Vec::new();
    if stack.layers.len() > 1 {
        let over = stack.layers[0];
        let max_w = over.placement.absolute_w + over.placement.relative_w.apply(size_w);
        let max_h = over.placement.absolute_h + over.placement.relative_h.apply(size_h);
        let res_w = min_i64(over.natural_w, max_w);
        let res_h = min_i64(over.natural_h, max_h);
        let origin_x = over.placement.anchor_x.apply_signed(size_w - res_w)
            + over.placement.offset_x;
        let origin_y = over.placement.anchor_y.apply_signed(size_h - res_h)
            + over.placement.offset_y;
        let rect = LayoutRect {
            x0: origin_x,
            y0: origin_y,
            x1: origin_x + res_w,
            y1: origin_y + res_h,
        };
        rects.push(LayerRect { id: over.id, rect });
        rects.push(LayerRect { id: base.id, rect: base_rect });
        let paint_rect = LayoutRect {
            x0: min_i64(rect.x0, base_rect.x0),
            y0: min_i64(rect.y0, base_rect.y0),
            x1: max_i64(rect.x1, base_rect.x1),
            y1: max_i64(rect.y1, base_rect.y1),
        };
        ResolvedLayout { size_w, size_h, rects, paint_rect }
    } else {
        rects.push(LayerRect { id: base.id, rect: base_rect });
        ResolvedLayout { size_w, size_h, rects, paint_rect: base_rect }
    }
}

/// Componentwise maximum, the counterpart of [`min_i64`].
pub fn max_i64(a: i64, b: i64) -> (r: i64)
    ensures
        r == if a >= b { a as int } else { b as int },
{
    if a >= b {
        a
    } else {
        b
    }
}

} // verus!
