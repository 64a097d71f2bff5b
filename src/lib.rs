//! Renders a line of 8-bit character codes into a monochrome pixel canvas,
//! using a fixed-height bitmap font.
//!
//! - `grid`: the mathematical picture of a pixel surface.
//! - `canvas`: a growable pixel surface that glyphs are composited onto.
//! - `glyph`: one character's picture, packed into an integer.
//! - `font`: the table from character code to glyph.
//! - `render`: lays the glyphs of a line out left to right.
pub mod canvas;
pub mod font;
pub mod glyph;
pub mod grid;
pub mod render;

pub use canvas::Canvas;
pub use font::{arrow, lookup, square, ARROW, FONT, SQUARE, UNPRINTABLE};
pub use glyph::{Glyph, GLYPH_ROWS, MAX_GLYPH_COLS};
pub use render::{render, render_text};
