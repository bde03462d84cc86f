//! Color values shared by the widgets, as plain RGBA bytes.

use vstd::prelude::*;

verus! {

/// An RGBA color with 8-bit channels.
#[derive(Clone, Copy, Debug, PartialEq, Eq, Structural)]
pub struct Color {
    /// Red channel.
    pub r: u8,
    /// Green channel.
    pub g: u8,
    /// Blue channel.
    pub b: u8,
    /// Alpha channel.
    pub a: u8,
}

/// Opaque white.
pub open spec fn spec_white() -> Color {
    Color { r: 255, g: 255, b: 255, a: 255 }
}

/// Opaque black.
pub open spec fn spec_black() -> Color {
    Color { r: 0, g: 0, b: 0, a: 255 }
}

/// The green marking an "on" or healthy state.
pub open spec fn spec_success_color() -> Color {
    Color { r: 0, g: 255, b: 0, a: 255 }
}

/// The orange marking an "off" or warning state.
pub open spec fn spec_warn_color() -> Color {
    Color { r: 255, g: 165, b: 0, a: 255 }
}

/// The dark gray used for labels on a light background.
pub open spec fn spec_gray_dark() -> Color {
    Color { r: 47, g: 47, b: 47, a: 255 }
}

/// The light gray used for labels on a dark background.
pub open spec fn spec_gray() -> Color {
    Color { r: 169, g: 169, b: 169, a: 255 }
}

impl Color {
    /// An opaque color from its three channels.
    pub fn rgb(r: u8, g: u8, b: u8) -> (c: Color)
        ensures
            c == (Color { r, g, b, a: 255u8 }),
    {
        Color { r, g, b, a: 255 }
    }

    /// Opaque white.
    pub fn white() -> (c: Color)
        ensures
            c == spec_white(),
    {
        Color { r: 255, g: 255, b: 255, a: 255 }
    }

    /// Opaque black.
    pub fn black() -> (c: Color)
        ensures
            c == spec_black(),
    {
        Color { r: 0, g: 0, b: 0, a: 255 }
    }

    /// An opaque gray with all three channels equal.
    pub fn from_gray(l: u8) -> (c: Color)
        ensures
            c == (Color { r: l, g: l, b: l, a: 255u8 }),
    {
        Color { r: l, g: l, b: l, a: 255 }
    }
}

/// The color marking an "on" or healthy state: green.
pub fn success_color() -> (c: Color)
    ensures
        c == spec_success_color(),
{
    Color { r: 0, g: 255, b: 0, a: 255 }
}

/// The color marking an "off" or warning state: orange.
pub fn warn_color() -> (c: Color)
    ensures
        c == spec_warn_color(),
{
    Color { r: 255, g: 165, b: 0, a: 255 }
}

/// The dark gray used for labels on a light background.
pub fn gray_dark() -> (c: Color)
    ensures
        c == spec_gray_dark(),
{
    Color::from_gray(47)
}

/// The light gray used for labels on a dark background.
pub fn gray() -> (c: Color)
    ensures
        c == spec_gray(),
{
    Color::from_gray(169)
}

/// The text color that contrasts with the host theme: white in dark mode,
/// black otherwise.
pub fn get_text_color(dark_mode: bool) -> (c: Color)
    ensures
        c == (if dark_mode {
            spec_white()
        } else {
            spec_black()
        }),
{
    if dark_mode {
        Color::white()
    } else {
        Color::black()
    }
}

} // verus!
