use text_frame::frame::{Color, DrawCall, Renderer};
use text_frame::layout::LineRenderer;
use text_frame::transform::{GlyphTransform, Ratio};

fn context() -> Renderer {
    Renderer::new(800, 600, 15, 64)
}

#[test]
fn positions_are_boundaries_times_em() {
    let layout = LineRenderer::new(&context(), 1, &vec![0, 38, 76]);
    assert_eq!(layout.run, 1);
    assert_eq!(layout.char_pos_x, vec![0, 570, 1140]);
}

#[test]
fn empty_line_has_no_positions() {
    let layout = LineRenderer::new(&context(), 2, &vec![]);
    assert_eq!(layout.char_pos_x, Vec::<u64>::new());
}

#[test]
fn positions_never_decrease() {
    let layout = LineRenderer::new(&context(), 3, &vec![0, 12, 12, 40, 41, 90]);
    assert_eq!(layout.char_pos_x.len(), 6);
    for i in 1..layout.char_pos_x.len() {
        assert!(layout.char_pos_x[i - 1] <= layout.char_pos_x[i]);
    }
}

#[test]
fn fixed_width_characters_are_evenly_spaced() {
    let boundaries: Vec<u32> = (0..9u32).map(|i| i * 39).collect();
    let layout = LineRenderer::new(&context(), 4, &boundaries);
    assert_eq!(layout.char_pos_x[1], 585);
    for i in 0..layout.char_pos_x.len() {
        assert_eq!(layout.char_pos_x[i], i as u64 * layout.char_pos_x[1]);
    }
}

#[test]
fn largest_boundary_and_em_do_not_overflow() {
    let huge = Renderer::new(1, 1, u32::MAX, 1);
    let layout = LineRenderer::new(&huge, 5, &vec![u32::MAX]);
    assert_eq!(layout.char_pos_x, vec![18446744065119617025u64]);
}

#[test]
fn zero_em_collapses_the_line() {
    let flat = Renderer::new(800, 600, 0, 64);
    let layout = LineRenderer::new(&flat, 6, &vec![0, 38, 76]);
    assert_eq!(layout.char_pos_x, vec![0, 0, 0]);
}

#[test]
fn glyph_draw_records_run_anchor_and_transform() {
    let renderer = context();
    let layout = LineRenderer::new(&renderer, 9, &vec![0, 38]);
    let mut target = renderer.draw();
    layout.draw(&mut target, 1280, 3200);
    let expected = DrawCall::Glyphs {
        run: 9,
        anchor: (1280, 3200),
        transform: GlyphTransform {
            scale_x: Ratio { num: 30, den: 800 },
            scale_y: Ratio { num: 30, den: 600 },
            x: Ratio { num: 2 * 1280 - 800 * 64, den: 800 * 64 },
            y: Ratio { num: 2 * 3200 - 15 * 64 - 600 * 64, den: 600 * 64 },
        },
        color: Color { red: 0, green: 0, blue: 0, alpha: 1000 },
    };
    assert_eq!(target.calls, vec![expected]);
}

#[test]
fn glyph_draw_under_empty_viewport_is_recorded() {
    let renderer = Renderer::new(800, 0, 15, 64);
    let layout = LineRenderer::new(&renderer, 9, &vec![0, 38]);
    let mut target = renderer.draw();
    layout.draw(&mut target, 0, 0);
    let expected = DrawCall::Glyphs {
        run: 9,
        anchor: (0, 0),
        transform: GlyphTransform {
            scale_x: Ratio { num: 30, den: 800 },
            scale_y: Ratio { num: 30, den: 0 },
            x: Ratio { num: -51200, den: 51200 },
            y: Ratio { num: -960, den: 0 },
        },
        color: Color { red: 0, green: 0, blue: 0, alpha: 1000 },
    };
    assert_eq!(target.calls, vec![expected]);
}
