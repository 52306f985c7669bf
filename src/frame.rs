use vstd::prelude::*;
use crate::sprite::AssetId;

verus! {

/// An opaque colour, one byte per channel.
#[derive(Clone, Copy, Debug, PartialEq, Eq, Structural)]
pub struct Color {
    pub r: u8,
    pub g: u8,
    pub b: u8,
    pub a: u8,
}

/// Opaque black, the background.
pub open spec fn background() -> Color {
    Color { r: 0, g: 0, b: 0, a: 255 }
}

/// Opaque white, the colour of a star.
pub open spec fn star_color() -> Color {
    Color { r: 255, g: 255, b: 255, a: 255 }
}

/// One drawing primitive for the graphics host, in micropixels.
#[derive(Clone, Copy, Debug, PartialEq, Eq, Structural)]
pub enum DrawCmd {
    /// Fill the whole viewport.
    Clear { color: Color },
    /// An axis-aligned square with its top-left corner at (x, y).
    Rect { color: Color, x: i64, y: i64, side: i64 },
    /// An image, drawn after translating by (x, y) and then by (dx, dy).
    Image { asset: AssetId, x: i64, y: i64, dx: i64, dy: i64 },
}

} // verus!
