//! Geometry, colour and text-style values, and the ghost model of a frame.
//!
//! A frame is modelled as a background colour plus the sequence of text draw
//! commands issued since the last clear. Backends keep two frames: the one
//! being built (buffered) and the one last pushed to the device (shown).

use vstd::prelude::*;

verus! {

/// A point on the draw surface, in pixels.
#[derive(Clone, Copy, PartialEq, Eq, Structural, Debug)]
pub struct Point {
    pub x: i32,
    pub y: i32,
}

/// The two-colour (on/off) model of the display.
#[derive(Clone, Copy, PartialEq, Eq, Structural, Debug)]
pub enum Color {
    Off,
    On,
}

/// Horizontal alignment of a text draw relative to its anchor point.
#[derive(Clone, Copy, PartialEq, Eq, Structural, Debug)]
pub enum Align {
    Left,
    Center,
    Right,
}

/// A monospace text style, described by its glyph cell in pixels.
#[derive(Clone, Copy, PartialEq, Eq, Structural, Debug)]
pub struct TextStyle {
    pub glyph_width: u32,
    pub glyph_height: u32,
}

/// Ghost record of one text draw: which characters were drawn, where, in
/// which style and alignment.
pub ghost struct TextSpec {
    pub chars: Seq<char>,
    pub pos: Point,
    pub style: TextStyle,
    pub align: Align,
}

} // verus!
