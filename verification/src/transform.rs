//! Exact coordinate transforms from unit space into normalized device space.

use vstd::prelude::*;
use crate::frame::Renderer;

verus! {

/// The fraction `num / den`. A denominator of zero marks a position that has
/// no image, as under a viewport without extent.
#[derive(Clone, Copy, Debug, PartialEq, Eq)]
pub struct Ratio {
    pub num: i128,
    pub den: u64,
}

/// The scale-and-translate transform of one glyph run: a glyph coordinate
/// `(gx, gy)`, in ems, lands at `(gx * scale_x + x, gy * scale_y + y)` in
/// normalized device space.
#[derive(Clone, Copy, Debug, PartialEq, Eq)]
pub struct GlyphTransform {
    pub scale_x: Ratio,
    pub scale_y: Ratio,
    pub x: Ratio,
    pub y: Ratio,
}

/// Numerator of the device coordinate of `local + offset` over a viewport of
/// the given extent: `((local + offset) / extent) * 2 - 1`, times `extent`.
pub open spec fn clip_num(local: int, offset: int, extent: int) -> int {
    2 * (local + offset) - extent
}

/// Numerator of the device coordinate of a baseline that sits half an em
/// above `anchor`: `((anchor - em / 2) / extent) * 2 - 1`, times `extent`.
pub open spec fn baseline_num(anchor: int, em: int, extent: int) -> int {
    2 * anchor - em - extent
}

/// The transform that puts the baseline origin of a glyph run at
/// `(px, py - em / 2)` under `renderer`'s viewport.
pub open spec fn glyph_transform_of(renderer: Renderer, px: i64, py: i64) -> GlyphTransform {
    GlyphTransform {
        scale_x: Ratio { num: (2 * renderer.em_pixels) as i128, den: renderer.width as u64 },
        scale_y: Ratio { num: (2 * renderer.em_pixels) as i128, den: renderer.height as u64 },
        x: Ratio { num: clip_num(px as int, 0, renderer.extent_x()) as i128, den: renderer.extent_x() as u64 },
        y: Ratio {
            num: baseline_num(py as int, renderer.em_units(), renderer.extent_y()) as i128,
            den: renderer.extent_y() as u64,
        },
    }
}

/// The product of two 32-bit lengths fits in 64 bits.
pub proof fn lemma_product_fits(a: u32, b: u32)
    ensures
        0 <= a * b <= u64::MAX,
{
    assert(0 <= a * b <= 0xffff_ffff * 0xffff_ffff) by (nonlinear_arith)
        requires
            0 <= a <= 0xffff_ffff,
            0 <= b <= 0xffff_ffff,
    ;
}

/// Device coordinate of `local + offset` along an axis of the given extent.
pub fn clip(local: i64, offset: i64, extent: u64) -> (r: Ratio)
    ensures
        r.num == clip_num(local as int, offset as int, extent as int),
        r.den == extent,
{
    let sum: i128 = local as i128 + offset as i128;
    Ratio { num: 2 * sum - extent as i128, den: extent }
}

/// Device position of a vertex at `local`, drawn with `offset`, under
/// `renderer`'s viewport.
pub fn clip_position(renderer: &Renderer, local: (i64, i64), offset: (i64, i64)) -> (r: (Ratio, Ratio))
    ensures
        r.0.num == clip_num(local.0 as int, offset.0 as int, renderer.extent_x()),
        r.0.den == renderer.extent_x(),
        r.1.num == clip_num(local.1 as int, offset.1 as int, renderer.extent_y()),
        r.1.den == renderer.extent_y(),
{
    (clip(local.0, offset.0, renderer.units_wide()), clip(local.1, offset.1, renderer.units_high()))
}

/// The transform of a glyph run anchored at `(px, py)`.
pub fn glyph_transform(renderer: &Renderer, px: i64, py: i64) -> (t: GlyphTransform)
    ensures
        t == glyph_transform_of(*renderer, px, py),
        t.scale_x.num == 2 * renderer.em_pixels,
        t.scale_x.den == renderer.width,
        t.scale_y.num == 2 * renderer.em_pixels,
        t.scale_y.den == renderer.height,
        t.x.num == clip_num(px as int, 0, renderer.extent_x()),
        t.x.den == renderer.extent_x(),
        t.y.num == baseline_num(py as int, renderer.em_units(), renderer.extent_y()),
        t.y.den == renderer.extent_y(),
{
    let wide: u64 = renderer.units_wide();
    let high: u64 = renderer.units_high();
    let em: u64 = renderer.units_per_em();
    let double_em: i128 = 2 * (renderer.em_pixels as i128);
    GlyphTransform {
        scale_x: Ratio { num: double_em, den: renderer.width as u64 },
        scale_y: Ratio { num: double_em, den: renderer.height as u64 },
        x: clip(px, 0, wide),
        y: Ratio { num: 2 * (py as i128) - em as i128 - high as i128, den: high },
    }
}

/// A point lies inside the viewport exactly when its device coordinate lies
/// in `[-1, 1]`.
pub proof fn lemma_clip_range(local: int, offset: int, extent: int)
    requires
        extent > 0,
    ensures
        0 <= local + offset <= extent <==> -extent <= clip_num(local, offset, extent) <= extent,
{
}

/// The baseline of a glyph run lies half an em above its anchor: in device
/// space, `em / extent` below the anchor's coordinate.
pub proof fn lemma_baseline_half_em(anchor: int, em: int, extent: int)
    ensures
        baseline_num(anchor, em, extent) == clip_num(anchor, 0, extent) - em,
        2 * baseline_num(anchor, em, extent) == clip_num(2 * anchor - em, 0, 2 * extent),
{
}

/// The scale of a glyph transform is the size of an em in device space: two
/// ems over the viewport's extent, whatever the number of units to a pixel.
pub proof fn lemma_scale_is_one_em(renderer: Renderer, px: i64, py: i64)
    ensures
        glyph_transform_of(renderer, px, py).scale_x.num * renderer.extent_x() == 2
            * renderer.em_units() * glyph_transform_of(renderer, px, py).scale_x.den,
        glyph_transform_of(renderer, px, py).scale_y.num * renderer.extent_y() == 2
            * renderer.em_units() * glyph_transform_of(renderer, px, py).scale_y.den,
{
    let e = renderer.em_pixels as int;
    let u = renderer.units_per_pixel as int;
    let w = renderer.width as int;
    let h = renderer.height as int;
    assert((2 * e) * (w * u) == 2 * (e * u) * w) by (nonlinear_arith);
    assert((2 * e) * (h * u) == 2 * (e * u) * h) by (nonlinear_arith);
}

/// The left and top edges map to -1, the right and bottom edges to 1.
pub proof fn lemma_clip_edges(extent: int)
    ensures
        clip_num(0, 0, extent) == -extent,
        clip_num(extent, 0, extent) == extent,
        clip_num(0, extent, extent) == extent,
{
}

} // verus!
