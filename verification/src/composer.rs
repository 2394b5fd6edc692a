//! The line composer: highlight, cursor and glyphs of each line, in order.

use vstd::prelude::*;
use crate::frame::{Blend, Color, DrawCall, DrawError, Renderer, Target, CHANNEL_MAX};
use crate::layout::{glyph_call, Line};
use crate::primitive::{shape_call, Primitive};

verus! {

/// Half the height of a row, in pixels: the cursor bar and the highlight
/// reach this far above and below a line's anchor.
pub const HALF_ROW: u32 = 10;

/// Width of the highlight rectangle, in pixels.
pub const HIGHLIGHT_WIDTH: u32 = 2000;

/// The colour of the cursor bar: opaque black.
pub open spec fn cursor_color() -> Color {
    Color { red: 0, green: 0, blue: 0, alpha: CHANNEL_MAX }
}

/// The colour of the highlighted row: a pale yellow.
pub open spec fn highlight_color() -> Color {
    Color { red: CHANNEL_MAX, green: CHANNEL_MAX, blue: 700, alpha: CHANNEL_MAX }
}

/// Draws lines of text with the cursor bar and the highlight of the line that
/// owns the cursor.
#[derive(Clone, Copy, Debug, PartialEq, Eq)]
pub struct TextRenderer {
    pub cursor: Primitive,
    pub line_bg: Primitive,
    pub left_margin: i64,
}

impl TextRenderer {
    /// The composer for `renderer`'s resolution: a vertical cursor bar centred
    /// on the origin and a wide highlight rectangle of the same height.
    pub fn new(renderer: &Renderer, left_margin: i64) -> (composer: TextRenderer)
        ensures
            composer.left_margin == left_margin,
            composer.cursor == (Primitive::Stroked {
                p1: (0i64, (-(HALF_ROW * renderer.units_per_pixel)) as i64),
                p2: (0i64, (HALF_ROW * renderer.units_per_pixel) as i64),
                color: cursor_color(),
            }),
            composer.line_bg == (Primitive::Filled {
                p1: (0i64, (-(HALF_ROW * renderer.units_per_pixel)) as i64),
                p2: (
                    (HIGHLIGHT_WIDTH * renderer.units_per_pixel) as i64,
                    (HALF_ROW * renderer.units_per_pixel) as i64,
                ),
                color: highlight_color(),
            }),
    {
        let unit: i64 = renderer.units_per_pixel as i64;
        let half: i64 = HALF_ROW as i64 * unit;
        let wide: i64 = HIGHLIGHT_WIDTH as i64 * unit;
        let cursor = Primitive::new_line(
            (0, -half),
            (0, half),
            Color { red: 0, green: 0, blue: 0, alpha: CHANNEL_MAX },
        );
        let line_bg = Primitive::new_rect(
            (0, -half),
            (wide, half),
            Color { red: CHANNEL_MAX, green: CHANNEL_MAX, blue: 700, alpha: CHANNEL_MAX },
        );
        TextRenderer { cursor, line_bg, left_margin }
    }

    /// The draw calls of a line: with a cursor, the highlight, then the
    /// cursor bar at the cursor's boundary, then the glyphs; without one, the
    /// glyphs alone.
    pub open spec fn line_calls(&self, renderer: Renderer, line: Line, anchor: (i64, i64)) -> Seq<
        DrawCall,
    > {
        let glyphs = glyph_call(renderer, line.renderer.run, anchor.0, anchor.1);
        match line.cursor {
            Some(pos) => seq![
                shape_call(self.line_bg, (anchor.0 as i128, anchor.1 as i128)),
                shape_call(
                    self.cursor,
                    (
                        (line.renderer.char_pos_x@[pos as int] + anchor.0) as i128,
                        anchor.1 as i128,
                    ),
                ),
                glyphs,
            ],
            None => seq![glyphs],
        }
    }

    /// Draws one line at `anchor`. A cursor must stand at a boundary of the
    /// line's layout: line and layout are kept in step by the caller.
    pub fn draw_line(&self, target: &mut Target, line: &Line, anchor: (i64, i64)) -> (r: Result<
        (),
        DrawError,
    >)
        requires
            line.cursor_in_range(),
        ensures
            r == Ok::<(), DrawError>(()),
            final(target).calls@ == old(target).calls@ + self.line_calls(
                *old(target).renderer,
                *line,
                anchor,
            ),
            final(target).renderer == old(target).renderer,
            final(target).clear == old(target).clear,
    {
        if let Some(pos) = line.cursor {
            let offset: u64 = line.renderer.char_pos_x[pos];
            let px: i128 = anchor.0 as i128;
            let py: i128 = anchor.1 as i128;
            self.line_bg.draw(target, (px, py)).unwrap();
            self.cursor.draw(target, (offset as i128 + px, py)).unwrap();
        }
        line.renderer.draw(target, anchor.0, anchor.1);
        assert(target.calls@ =~= old(target).calls@ + self.line_calls(
            *old(target).renderer,
            *line,
            anchor,
        ));
        Ok(())
    }

    /// The draw calls of the first `n` lines of a page, each line anchored at
    /// the left margin and its own height, in the order of the list.
    pub open spec fn page_calls(&self, renderer: Renderer, lines: Seq<(i64, &Line)>, n: nat) -> Seq<
        DrawCall,
    >
        decreases n,
    {
        if n == 0 || n > lines.len() {
            Seq::<DrawCall>::empty()
        } else {
            self.page_calls(renderer, lines, (n - 1) as nat) + self.line_calls(
                renderer,
                *lines[n - 1].1,
                (self.left_margin, lines[n - 1].0),
            )
        }
    }

    /// What drawing a page does to a frame that held `before`: the frame
    /// gains the calls of every line, in the order of the list.
    pub open spec fn draws(
        &self,
        renderer: Renderer,
        lines: Seq<(i64, &Line)>,
        before: Seq<DrawCall>,
        after: Seq<DrawCall>,
    ) -> bool {
        after == before + self.page_calls(renderer, lines, lines.len())
    }

    /// Draws a page: the lines in the order given, each at the left margin
    /// and its own height. Every cursor must stand at a boundary of its
    /// line's layout.
    pub fn draw(&self, target: &mut Target, lines: &[(i64, &Line)])
        requires
            forall|i: int| 0 <= i < lines@.len() ==> (#[trigger] lines@[i]).1.cursor_in_range(),
        ensures
            self.draws(*old(target).renderer, lines@, old(target).calls@, final(target).calls@),
            final(target).renderer == old(target).renderer,
            final(target).clear == old(target).clear,
    {
        let ghost renderer = *target.renderer;
        let ghost before = target.calls@;
        let mut i: usize = 0;
        assert(target.calls@ =~= before + self.page_calls(renderer, lines@, 0));
        while i < lines.len()
            invariant
                i <= lines@.len(),
                forall|k: int| 0 <= k < lines@.len() ==> (#[trigger] lines@[k]).1.cursor_in_range(),
                target.renderer == old(target).renderer,
                target.clear == old(target).clear,
                renderer == *old(target).renderer,
                before == old(target).calls@,
                target.calls@ == before + self.page_calls(renderer, lines@, i as nat),
            decreases lines@.len() - i,
        {
            let y: i64 = lines[i].0;
            let line: &Line = lines[i].1;
            self.draw_line(target, line, (self.left_margin, y)).unwrap();
            assert(target.calls@ =~= before + self.page_calls(renderer, lines@, (i + 1) as nat));
            i += 1;
        }
    }
}

/// The cursor bar of a line stands at the line's left edge plus the position
/// of the cursor's boundary: a line whose cursor is at index `k` is drawn as
/// the highlight at the anchor, then the bar at `char_pos_x[k] + left_margin`,
/// then the glyphs at the anchor.
pub proof fn lemma_cursor_anchor(composer: TextRenderer, renderer: Renderer, line: Line, y: i64)
    requires
        line.cursor is Some,
        line.cursor_in_range(),
    ensures
        composer.line_calls(renderer, line, (composer.left_margin, y)).len() == 3,
        composer.line_calls(renderer, line, (composer.left_margin, y))[0] == shape_call(
            composer.line_bg,
            (composer.left_margin as i128, y as i128),
        ),
        composer.line_calls(renderer, line, (composer.left_margin, y))[1] matches DrawCall::Shape {
            primitive,
            offset,
            polygon_mode,
            blend,
        } && primitive == composer.cursor && offset.0
            == line.renderer.char_pos_x@[line.cursor.unwrap() as int] + composer.left_margin
            && offset.1 == y && polygon_mode == composer.cursor.polygon_mode_of() && blend
            == Blend::AlphaBlending,
        composer.line_calls(renderer, line, (composer.left_margin, y))[2] == glyph_call(
            renderer,
            line.renderer.run,
            composer.left_margin,
            y,
        ),
{
}

/// A line without the cursor is drawn as its glyphs alone.
pub proof fn lemma_plain_line(composer: TextRenderer, renderer: Renderer, line: Line, y: i64)
    requires
        line.cursor is None,
    ensures
        line.cursor_in_range(),
        composer.line_calls(renderer, line, (composer.left_margin, y)) == seq![
            glyph_call(renderer, line.renderer.run, composer.left_margin, y),
        ],
{
}

/// The calls of the first `n` lines of a page open the calls of the first
/// `m`, for `n <= m`: a later line changes nothing of what was drawn before.
pub proof fn lemma_page_prefix(
    composer: TextRenderer,
    renderer: Renderer,
    lines: Seq<(i64, &Line)>,
    n: nat,
    m: nat,
)
    requires
        n <= m <= lines.len(),
    ensures
        composer.page_calls(renderer, lines, n).len() <= composer.page_calls(
            renderer,
            lines,
            m,
        ).len(),
        composer.page_calls(renderer, lines, m).subrange(
            0,
            composer.page_calls(renderer, lines, n).len() as int,
        ) == composer.page_calls(renderer, lines, n),
    decreases m,
{
    let head = composer.page_calls(renderer, lines, n);
    let all = composer.page_calls(renderer, lines, m);
    if n < m {
        lemma_page_prefix(composer, renderer, lines, n, (m - 1) as nat);
        assert(all.subrange(0, head.len() as int) =~= composer.page_calls(
            renderer,
            lines,
            (m - 1) as nat,
        ).subrange(0, head.len() as int));
    } else {
        assert(all.subrange(0, head.len() as int) =~= head);
    }
}

/// Every line of a page has its own calls, in its place: call `j` of line
/// `n` is the call of the page that follows the calls of the lines before
/// it and the first `j` calls of the line itself.
pub proof fn lemma_page_line(
    composer: TextRenderer,
    renderer: Renderer,
    lines: Seq<(i64, &Line)>,
    n: nat,
    j: int,
)
    requires
        n < lines.len(),
        0 <= j < composer.line_calls(
            renderer,
            *lines[n as int].1,
            (composer.left_margin, lines[n as int].0),
        ).len(),
    ensures
        composer.page_calls(renderer, lines, n).len() + j < composer.page_calls(
            renderer,
            lines,
            lines.len(),
        ).len(),
        composer.page_calls(renderer, lines, lines.len())[composer.page_calls(
            renderer,
            lines,
            n,
        ).len() + j] == composer.line_calls(
            renderer,
            *lines[n as int].1,
            (composer.left_margin, lines[n as int].0),
        )[j],
{
    let before = composer.page_calls(renderer, lines, n);
    let upto = composer.page_calls(renderer, lines, n + 1);
    let all = composer.page_calls(renderer, lines, lines.len());
    lemma_page_prefix(composer, renderer, lines, n + 1, lines.len());
    assert(upto[before.len() + j] == composer.line_calls(
        renderer,
        *lines[n as int].1,
        (composer.left_margin, lines[n as int].0),
    )[j]);
    assert(all.subrange(0, upto.len() as int)[before.len() + j] == all[before.len() + j]);
}

/// Drawing holds no hidden state: the same page drawn into two frames that
/// start out alike leaves the two frames alike.
pub proof fn lemma_draw_repeatable(
    composer: TextRenderer,
    renderer: Renderer,
    lines: Seq<(i64, &Line)>,
    before: Seq<DrawCall>,
    first: Seq<DrawCall>,
    second: Seq<DrawCall>,
)
    requires
        composer.draws(renderer, lines, before, first),
        composer.draws(renderer, lines, before, second),
    ensures
        first == second,
{
}

} // verus!
