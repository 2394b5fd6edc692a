//! The rendering context, the frame under construction and its draw calls.

use vstd::prelude::*;
use crate::primitive::{PolygonMode, Primitive};
use crate::transform::{lemma_product_fits, GlyphTransform};

verus! {

/// Full intensity of a colour channel; channels are in thousandths.
pub const CHANNEL_MAX: u16 = 1000;

/// A colour with straight alpha, each channel in thousandths of full
/// intensity.
#[derive(Clone, Copy, Debug, PartialEq, Eq)]
pub struct Color {
    pub red: u16,
    pub green: u16,
    pub blue: u16,
    pub alpha: u16,
}

/// The colour every frame is cleared to: opaque white.
pub open spec fn background() -> Color {
    Color { red: CHANNEL_MAX, green: CHANNEL_MAX, blue: CHANNEL_MAX, alpha: CHANNEL_MAX }
}

/// Why a draw call was refused. Recording a draw never fails: the value is
/// for whoever submits the calls and learns that the device refused one.
#[derive(Clone, Copy, Debug, PartialEq, Eq)]
pub enum DrawError {
    /// The device rejected the call.
    Rejected,
}

/// How a fragment is combined with what the frame already holds.
#[derive(Clone, Copy, Debug, PartialEq, Eq)]
pub enum Blend {
    /// Straight alpha, source over destination.
    AlphaBlending,
}

/// One recorded draw call.
#[derive(Clone, Copy, Debug, PartialEq, Eq)]
pub enum DrawCall {
    /// A primitive, each vertex translated by `offset`, with the parameters
    /// of the draw. An offset is wide enough for any anchor plus any
    /// position of a layout.
    Shape { primitive: Primitive, offset: (i128, i128), polygon_mode: PolygonMode, blend: Blend },
    /// The glyph run `run`, anchored at `anchor` and placed by `transform`.
    Glyphs { run: u64, anchor: (i64, i64), transform: GlyphTransform, color: Color },
}

/// The shared rendering context: viewport size and font size in whole pixels,
/// and the number of coordinate units to a pixel.
#[derive(Clone, Copy, Debug, PartialEq, Eq)]
pub struct Renderer {
    pub width: u32,
    pub height: u32,
    pub em_pixels: u32,
    pub units_per_pixel: u32,
}

/// One frame under construction. It is made by `Renderer::draw` and consumed
/// by `finish`.
#[derive(Debug)]
pub struct Target<'a> {
    pub renderer: &'a Renderer,
    pub clear: Color,
    pub calls: Vec<DrawCall>,
}

/// A finished frame: the clear colour and the draw calls in submission order.
#[derive(Debug)]
pub struct Frame {
    pub clear: Color,
    pub calls: Vec<DrawCall>,
}

impl Renderer {
    /// Viewport width in units.
    pub open spec fn extent_x(&self) -> int {
        self.width * self.units_per_pixel
    }

    /// Viewport height in units.
    pub open spec fn extent_y(&self) -> int {
        self.height * self.units_per_pixel
    }

    /// Size of an em in units.
    pub open spec fn em_units(&self) -> int {
        self.em_pixels * self.units_per_pixel
    }

    /// The context of a viewport of `width` by `height` pixels, a font of
    /// `em_pixels` pixels per em, and `units_per_pixel` units to a pixel.
    pub fn new(width: u32, height: u32, em_pixels: u32, units_per_pixel: u32) -> (r: Renderer)
        ensures
            r == (Renderer { width, height, em_pixels, units_per_pixel }),
    {
        Renderer { width, height, em_pixels, units_per_pixel }
    }

    /// Begins a frame: cleared to the background, with no draw call yet.
    pub fn draw(&self) -> (target: Target<'_>)
        ensures
            *target.renderer == *self,
            target.clear == background(),
            target.calls@ == Seq::<DrawCall>::empty(),
    {
        Target {
            renderer: self,
            clear: Color { red: CHANNEL_MAX, green: CHANNEL_MAX, blue: CHANNEL_MAX, alpha: CHANNEL_MAX },
            calls: Vec::new(),
        }
    }

    /// Viewport width in units.
    pub fn units_wide(&self) -> (n: u64)
        ensures
            n == self.extent_x(),
    {
        proof {
            lemma_product_fits(self.width, self.units_per_pixel);
        }
        self.width as u64 * self.units_per_pixel as u64
    }

    /// Viewport height in units.
    pub fn units_high(&self) -> (n: u64)
        ensures
            n == self.extent_y(),
    {
        proof {
            lemma_product_fits(self.height, self.units_per_pixel);
        }
        self.height as u64 * self.units_per_pixel as u64
    }

    /// Size of an em in units.
    pub fn units_per_em(&self) -> (n: u64)
        ensures
            n == self.em_units(),
    {
        proof {
            lemma_product_fits(self.em_pixels, self.units_per_pixel);
        }
        self.em_pixels as u64 * self.units_per_pixel as u64
    }

}

impl<'a> Target<'a> {
    /// Ends the frame and hands over what was recorded, ready to present.
    pub fn finish(self) -> (frame: Frame)
        ensures
            frame.clear == self.clear,
            frame.calls@ == self.calls@,
    {
        Frame { clear: self.clear, calls: self.calls }
    }
}

} // verus!
