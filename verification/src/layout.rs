//! Glyph layout: the horizontal position of every character boundary of one
//! line, and the draw of its glyph run.

use vstd::prelude::*;
use crate::frame::{Color, DrawCall, Renderer, Target, CHANNEL_MAX};
use crate::transform::{glyph_transform, glyph_transform_of, lemma_product_fits};

verus! {

/// The layout of one line of text. `run` identifies the shaped glyph run;
/// `char_pos_x[i]` is the offset, in units, of the boundary before character
/// `i` from the left edge of the line.
#[derive(Debug, PartialEq, Eq)]
pub struct LineRenderer {
    pub run: u64,
    pub char_pos_x: Vec<u64>,
}

/// A line as the editor hands it over: the character index of the cursor, if
/// the line holds it, and the line's layout.
#[derive(Debug, PartialEq, Eq)]
pub struct Line {
    pub cursor: Option<usize>,
    pub renderer: LineRenderer,
}

/// The colour of text: opaque black.
pub open spec fn ink() -> Color {
    Color { red: 0, green: 0, blue: 0, alpha: CHANNEL_MAX }
}

/// Boundary offsets in metric units, each scaled by the pixels per em.
pub open spec fn scaled(boundaries: Seq<u32>, em_pixels: u32) -> Seq<u64> {
    Seq::new(boundaries.len(), |i: int| (boundaries[i] * em_pixels) as u64)
}

/// The draw call of glyph run `run` anchored at `(px, py)`.
pub open spec fn glyph_call(renderer: Renderer, run: u64, px: i64, py: i64) -> DrawCall {
    DrawCall::Glyphs {
        run,
        anchor: (px, py),
        transform: glyph_transform_of(renderer, px, py),
        color: ink(),
    }
}

/// Scaling keeps the order of the boundaries: where the shaper reports
/// offsets that never decrease, the positions never decrease either.
pub proof fn lemma_scaled_monotone(boundaries: Seq<u32>, em_pixels: u32)
    requires
        forall|i: int, j: int| 0 <= i <= j < boundaries.len() ==> boundaries[i] <= boundaries[j],
    ensures
        scaled(boundaries, em_pixels).len() == boundaries.len(),
        forall|i: int, j: int|
            0 <= i <= j < boundaries.len() ==> scaled(boundaries, em_pixels)[i] <= scaled(
                boundaries,
                em_pixels,
            )[j],
{
    assert forall|i: int, j: int| 0 <= i <= j < boundaries.len() implies scaled(
        boundaries,
        em_pixels,
    )[i] <= scaled(boundaries, em_pixels)[j] by {
        lemma_product_fits(boundaries[i], em_pixels);
        lemma_product_fits(boundaries[j], em_pixels);
        assert(boundaries[i] * em_pixels <= boundaries[j] * em_pixels) by (nonlinear_arith)
            requires
                boundaries[i] <= boundaries[j],
                0 <= em_pixels,
        ;
    }
}

/// Characters of one fixed width are spaced evenly: where boundary `i` lies
/// at `i` advances, position `i` is `i` times position 1.
pub proof fn lemma_uniform_spacing(boundaries: Seq<u32>, em_pixels: u32)
    requires
        boundaries.len() >= 2,
        forall|i: int| 0 <= i < boundaries.len() ==> #[trigger] boundaries[i] == i * boundaries[1],
    ensures
        forall|i: int|
            0 <= i < boundaries.len() ==> #[trigger] scaled(boundaries, em_pixels)[i] == i * scaled(
                boundaries,
                em_pixels,
            )[1],
{
    let advance = boundaries[1];
    lemma_product_fits(advance, em_pixels);
    assert forall|i: int| 0 <= i < boundaries.len() implies #[trigger] scaled(
        boundaries,
        em_pixels,
    )[i] == i * scaled(boundaries, em_pixels)[1] by {
        assert(boundaries[i] == i * advance);
        lemma_product_fits(boundaries[i], em_pixels);
        assert((i * advance) * em_pixels == i * (advance * em_pixels)) by (nonlinear_arith);
    }
}

impl LineRenderer {
    /// Lays out a line from the boundary offsets that shaping reported, in
    /// metric units: each is scaled by the font's pixels per em.
    pub fn new(renderer: &Renderer, run: u64, boundaries: &Vec<u32>) -> (layout: LineRenderer)
        ensures
            layout.run == run,
            layout.char_pos_x@ == scaled(boundaries@, renderer.em_pixels),
            layout.char_pos_x@.len() == boundaries@.len(),
            forall|i: int|
                0 <= i < boundaries@.len() ==> layout.char_pos_x@[i] == boundaries@[i]
                    * renderer.em_pixels,
            (forall|i: int, j: int|
                0 <= i <= j < boundaries@.len() ==> boundaries@[i] <= boundaries@[j]) ==> (forall|
                i: int,
                j: int,
            |
                0 <= i <= j < layout.char_pos_x@.len() ==> layout.char_pos_x@[i]
                    <= layout.char_pos_x@[j]),
    {
        let em: u64 = renderer.em_pixels as u64;
        let mut char_pos_x: Vec<u64> = Vec::new();
        let mut i: usize = 0;
        while i < boundaries.len()
            invariant
                i <= boundaries@.len(),
                em == renderer.em_pixels,
                char_pos_x@.len() == i,
                forall|k: int|
                    0 <= k < i ==> char_pos_x@[k] == boundaries@[k] * renderer.em_pixels,
            decreases boundaries@.len() - i,
        {
            proof {
                lemma_product_fits(boundaries@[i as int], renderer.em_pixels);
            }
            char_pos_x.push(boundaries[i] as u64 * em);
            i += 1;
        }
        assert(char_pos_x@ =~= scaled(boundaries@, renderer.em_pixels));
        proof {
            if forall|i: int, j: int|
                0 <= i <= j < boundaries@.len() ==> boundaries@[i] <= boundaries@[j] {
                lemma_scaled_monotone(boundaries@, renderer.em_pixels);
            }
        }
        LineRenderer { run, char_pos_x }
    }

    /// Records the draw of the glyph run anchored at `(px, py)`, with the
    /// transform that the viewport and the font size give.
    pub fn draw(&self, target: &mut Target, px: i64, py: i64)
        ensures
            final(target).calls@ == old(target).calls@.push(
                glyph_call(*old(target).renderer, self.run, px, py),
            ),
            final(target).renderer == old(target).renderer,
            final(target).clear == old(target).clear,
    {
        let transform = glyph_transform(target.renderer, px, py);
        target.calls.push(
            DrawCall::Glyphs {
                run: self.run,
                anchor: (px, py),
                transform,
                color: Color { red: 0, green: 0, blue: 0, alpha: CHANNEL_MAX },
            },
        );
    }
}

impl Line {
    /// Whether the cursor, if the line holds it, stands at a boundary of the
    /// line's layout.
    pub open spec fn cursor_in_range(&self) -> bool {
        self.cursor is Some ==> self.cursor.unwrap() < self.renderer.char_pos_x@.len()
    }

    /// Tells whether the line and its layout agree: a line whose cursor has
    /// no boundary must not be drawn.
    pub fn has_cursor_in_range(&self) -> (b: bool)
        ensures
            b == self.cursor_in_range(),
    {
        match self.cursor {
            Some(pos) => pos < self.renderer.char_pos_x.len(),
            None => true,
        }
    }
}

} // verus!
