//! Fixed geometry drawn with a per-call offset: rectangles and segments.

use vstd::prelude::*;
use crate::frame::{Blend, Color, DrawCall, DrawError, Target};

verus! {

/// One vertex: a local position in units and a colour.
#[derive(Clone, Copy, Debug, PartialEq, Eq)]
pub struct Vertex {
    pub position: (i64, i64),
    pub color: Color,
}

/// How consecutive vertices are assembled.
#[derive(Clone, Copy, Debug, PartialEq, Eq)]
pub enum Topology {
    TriangleStrip,
    LinesList,
}

/// Whether polygons are filled or only outlined.
#[derive(Clone, Copy, Debug, PartialEq, Eq)]
pub enum PolygonMode {
    Fill,
    Line,
}

/// An immutable shape of one colour, given by two points.
#[derive(Clone, Copy, Debug, PartialEq, Eq)]
pub enum Primitive {
    /// The axis-aligned rectangle with opposite corners `p1` and `p2`.
    Filled { p1: (i64, i64), p2: (i64, i64), color: Color },
    /// The open segment from `p1` to `p2`.
    Stroked { p1: (i64, i64), p2: (i64, i64), color: Color },
}

/// The draw call of `primitive` translated by `offset`: alpha-blended, filled
/// or outlined as the primitive was made.
pub open spec fn shape_call(primitive: Primitive, offset: (i128, i128)) -> DrawCall {
    DrawCall::Shape {
        primitive,
        offset,
        polygon_mode: primitive.polygon_mode_of(),
        blend: Blend::AlphaBlending,
    }
}

impl Primitive {
    /// The vertex set: four corners in strip order for a rectangle, the two
    /// end points for a segment.
    pub open spec fn vertex_seq(&self) -> Seq<Vertex> {
        match *self {
            Primitive::Filled { p1, p2, color } => seq![
                Vertex { position: (p1.0, p1.1), color },
                Vertex { position: (p2.0, p1.1), color },
                Vertex { position: (p1.0, p2.1), color },
                Vertex { position: (p2.0, p2.1), color },
            ],
            Primitive::Stroked { p1, p2, color } => seq![
                Vertex { position: p1, color },
                Vertex { position: p2, color },
            ],
        }
    }

    pub open spec fn topology_of(&self) -> Topology {
        match *self {
            Primitive::Filled { .. } => Topology::TriangleStrip,
            Primitive::Stroked { .. } => Topology::LinesList,
        }
    }

    pub open spec fn polygon_mode_of(&self) -> PolygonMode {
        match *self {
            Primitive::Filled { .. } => PolygonMode::Fill,
            Primitive::Stroked { .. } => PolygonMode::Line,
        }
    }

    /// A solid rectangle from two opposite corners.
    pub fn new_rect(p1: (i64, i64), p2: (i64, i64), color: Color) -> (p: Primitive)
        ensures
            p == (Primitive::Filled { p1, p2, color }),
    {
        Primitive::Filled { p1, p2, color }
    }

    /// An open segment between two points.
    pub fn new_line(p1: (i64, i64), p2: (i64, i64), color: Color) -> (p: Primitive)
        ensures
            p == (Primitive::Stroked { p1, p2, color }),
    {
        Primitive::Stroked { p1, p2, color }
    }

    /// The vertices, in the order in which they are submitted.
    pub fn vertices(&self) -> (v: Vec<Vertex>)
        ensures
            v@ == self.vertex_seq(),
    {
        let mut v: Vec<Vertex> = Vec::new();
        match *self {
            Primitive::Filled { p1, p2, color } => {
                v.push(Vertex { position: (p1.0, p1.1), color });
                v.push(Vertex { position: (p2.0, p1.1), color });
                v.push(Vertex { position: (p1.0, p2.1), color });
                v.push(Vertex { position: (p2.0, p2.1), color });
            },
            Primitive::Stroked { p1, p2, color } => {
                v.push(Vertex { position: p1, color });
                v.push(Vertex { position: p2, color });
            },
        }
        assert(v@ =~= self.vertex_seq());
        v
    }

    /// A strip of triangles for a rectangle, a list of segments for a line.
    pub fn topology(&self) -> (t: Topology)
        ensures
            t == self.topology_of(),
    {
        match *self {
            Primitive::Filled { .. } => Topology::TriangleStrip,
            Primitive::Stroked { .. } => Topology::LinesList,
        }
    }

    /// Filled for a rectangle, outlined for a line.
    pub fn polygon_mode(&self) -> (m: PolygonMode)
        ensures
            m == self.polygon_mode_of(),
    {
        match *self {
            Primitive::Filled { .. } => PolygonMode::Fill,
            Primitive::Stroked { .. } => PolygonMode::Line,
        }
    }

    /// Records one draw of this shape, each vertex translated by `offset`,
    /// alpha-blended, filled or outlined as the shape was made. Recording
    /// never fails, whatever the size of the viewport.
    pub fn draw(&self, target: &mut Target, offset: (i128, i128)) -> (r: Result<(), DrawError>)
        ensures
            r == Ok::<(), DrawError>(()),
            final(target).calls@ == old(target).calls@.push(shape_call(*self, offset)),
            final(target).renderer == old(target).renderer,
            final(target).clear == old(target).clear,
    {
        let polygon_mode = self.polygon_mode();
        target.calls.push(
            DrawCall::Shape { primitive: *self, offset, polygon_mode, blend: Blend::AlphaBlending },
        );
        Ok(())
    }
}

} // verus!
