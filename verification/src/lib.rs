//! Layout and frame composition for the text view of an editor.
//!
//! The crate turns lines of text, a cursor index and a left margin into the
//! ordered list of draw calls of one frame. Every length is an exact integer:
//! a pixel is divided into `units_per_pixel` units, an em into the same number
//! of metric units, and positions in normalized device space are fractions.

pub mod transform;
pub mod frame;
pub mod primitive;
pub mod layout;
pub mod composer;
