//! RGBA colours.

use vstd::prelude::*;

verus! {

/// An RGBA colour. Every channel, alpha included, is an integer from 0 to 255;
/// an alpha of 0 is fully transparent and 255 fully opaque. A channel outside
/// that range cannot be written down, so a colour never needs checking later.
#[derive(Clone, Copy, Debug, PartialEq, Eq, Structural)]
pub struct Color {
    pub r: u8,
    pub g: u8,
    pub b: u8,
    pub a: u8,
}

impl Color {
    /// The colour of a canvas on which none has been chosen yet: all four
    /// channels zero, that is transparent black.
    pub open spec fn unset() -> Color {
        Color { r: 0, g: 0, b: 0, a: 0 }
    }
}

impl Default for Color {
    fn default() -> (color: Color)
        ensures
            color == Color::unset(),
    {
        Color { r: 0, g: 0, b: 0, a: 0 }
    }
}

/// Builds the colour with the given channels. Nothing else is read or changed.
pub fn create_color(r: u8, g: u8, b: u8, a: u8) -> (color: Color)
    ensures
        color == (Color { r, g, b, a }),
{
    Color { r, g, b, a }
}

} // verus!
