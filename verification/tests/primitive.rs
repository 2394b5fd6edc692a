use text_frame::frame::{Blend, Color, DrawCall, Renderer};
use text_frame::primitive::{PolygonMode, Primitive, Topology, Vertex};
use text_frame::transform::{clip, clip_position, glyph_transform, Ratio};

const RED: Color = Color { red: 1000, green: 0, blue: 0, alpha: 500 };

#[test]
fn rectangle_is_a_four_vertex_strip() {
    let rect = Primitive::new_rect((1, 2), (30, 40), RED);
    assert_eq!(rect, Primitive::Filled { p1: (1, 2), p2: (30, 40), color: RED });
    assert_eq!(
        rect.vertices(),
        vec![
            Vertex { position: (1, 2), color: RED },
            Vertex { position: (30, 2), color: RED },
            Vertex { position: (1, 40), color: RED },
            Vertex { position: (30, 40), color: RED },
        ]
    );
    assert_eq!(rect.topology(), Topology::TriangleStrip);
    assert_eq!(rect.polygon_mode(), PolygonMode::Fill);
}

#[test]
fn segment_is_a_two_vertex_line() {
    let line = Primitive::new_line((0, -10), (0, 10), RED);
    assert_eq!(line, Primitive::Stroked { p1: (0, -10), p2: (0, 10), color: RED });
    assert_eq!(
        line.vertices(),
        vec![Vertex { position: (0, -10), color: RED }, Vertex { position: (0, 10), color: RED }]
    );
    assert_eq!(line.topology(), Topology::LinesList);
    assert_eq!(line.polygon_mode(), PolygonMode::Line);
}

#[test]
fn shape_draw_appends_one_call() {
    let renderer = Renderer::new(640, 480, 15, 1);
    let rect = Primitive::new_rect((0, 0), (5, 5), RED);
    let line = Primitive::new_line((0, 0), (5, 5), RED);
    let mut target = renderer.draw();
    assert_eq!(rect.draw(&mut target, (7, -3)), Ok(()));
    assert_eq!(line.draw(&mut target, (8, 9)), Ok(()));
    assert_eq!(
        target.calls,
        vec![
            DrawCall::Shape {
                primitive: rect,
                offset: (7, -3),
                polygon_mode: PolygonMode::Fill,
                blend: Blend::AlphaBlending,
            },
            DrawCall::Shape {
                primitive: line,
                offset: (8, 9),
                polygon_mode: PolygonMode::Line,
                blend: Blend::AlphaBlending,
            },
        ]
    );
}

#[test]
fn shape_draw_is_recorded_whatever_the_viewport() {
    let rect = Primitive::new_rect((0, 0), (5, 5), RED);
    for renderer in [
        Renderer::new(0, 480, 15, 1),
        Renderer::new(640, 0, 15, 1),
        Renderer::new(640, 480, 15, 0),
    ] {
        let mut target = renderer.draw();
        assert_eq!(rect.draw(&mut target, (3, 4)), Ok(()));
        assert_eq!(
            target.calls,
            vec![DrawCall::Shape {
                primitive: rect,
                offset: (3, 4),
                polygon_mode: PolygonMode::Fill,
                blend: Blend::AlphaBlending,
            }]
        );
    }
}

#[test]
fn shape_draw_holds_the_widest_offsets() {
    let renderer = Renderer::new(640, 480, 15, 1);
    let line = Primitive::new_line((0, 0), (5, 5), RED);
    let mut target = renderer.draw();
    assert_eq!(line.draw(&mut target, (i128::MAX, i128::MIN)), Ok(()));
    assert_eq!(
        target.calls,
        vec![DrawCall::Shape {
            primitive: line,
            offset: (i128::MAX, i128::MIN),
            polygon_mode: PolygonMode::Line,
            blend: Blend::AlphaBlending,
        }]
    );
}

#[test]
fn clip_maps_the_viewport_onto_minus_one_to_one() {
    assert_eq!(clip(0, 0, 800), Ratio { num: -800, den: 800 });
    assert_eq!(clip(400, 0, 800), Ratio { num: 0, den: 800 });
    assert_eq!(clip(300, 500, 800), Ratio { num: 800, den: 800 });
    assert_eq!(clip(-100, 0, 800), Ratio { num: -1000, den: 800 });
}

#[test]
fn clip_holds_the_extremes() {
    assert_eq!(
        clip(i64::MAX, i64::MAX, u64::MAX),
        Ratio { num: 4 * (i64::MAX as i128) - u64::MAX as i128, den: u64::MAX }
    );
    assert_eq!(
        clip(i64::MIN, i64::MIN, u64::MAX),
        Ratio { num: 4 * (i64::MIN as i128) - u64::MAX as i128, den: u64::MAX }
    );
}

#[test]
fn clip_position_uses_the_viewport_in_units() {
    let renderer = Renderer::new(800, 600, 15, 4);
    let (x, y) = clip_position(&renderer, (100, 200), (20, -50));
    assert_eq!(x, Ratio { num: 240 - 3200, den: 3200 });
    assert_eq!(y, Ratio { num: 300 - 2400, den: 2400 });
}

#[test]
fn glyph_transform_centres_the_run_on_its_anchor() {
    let renderer = Renderer::new(800, 600, 15, 1);
    let t = glyph_transform(&renderer, 20, 50);
    assert_eq!(t.scale_x, Ratio { num: 30, den: 800 });
    assert_eq!(t.scale_y, Ratio { num: 30, den: 600 });
    assert_eq!(t.x, Ratio { num: -760, den: 800 });
    assert_eq!(t.y, Ratio { num: 100 - 15 - 600, den: 600 });
}

#[test]
fn context_lengths_in_units() {
    let renderer = Renderer::new(800, 600, 15, 64);
    assert_eq!(renderer.units_wide(), 51200);
    assert_eq!(renderer.units_high(), 38400);
    assert_eq!(renderer.units_per_em(), 960);
    assert_eq!(Renderer::new(800, 600, 15, 0).units_wide(), 0);
    let full = Renderer::new(u32::MAX, u32::MAX, u32::MAX, u32::MAX);
    assert_eq!(full.units_wide(), 18446744065119617025u64);
}

#[test]
fn frame_starts_white_and_empty_and_finishes_with_its_calls() {
    let renderer = Renderer::new(640, 480, 15, 1);
    let mut target = renderer.draw();
    assert_eq!(*target.renderer, renderer);
    assert_eq!(target.clear, Color { red: 1000, green: 1000, blue: 1000, alpha: 1000 });
    assert!(target.calls.is_empty());
    let rect = Primitive::new_rect((0, 0), (5, 5), RED);
    rect.draw(&mut target, (1, 2)).unwrap();
    let frame = target.finish();
    assert_eq!(frame.clear, Color { red: 1000, green: 1000, blue: 1000, alpha: 1000 });
    assert_eq!(
        frame.calls,
        vec![DrawCall::Shape {
            primitive: rect,
            offset: (1, 2),
            polygon_mode: PolygonMode::Fill,
            blend: Blend::AlphaBlending,
        }]
    );
}
