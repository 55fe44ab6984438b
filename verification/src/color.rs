//! Colors, and the one thing every color can do: resolve to a driver-level color.

use vstd::prelude::*;

verus! {

/// A color as the terminal driver takes it.
#[derive(Clone, Copy, Debug, PartialEq, Eq, Structural)]
pub enum Color {
    /// The terminal's default color.
    Reset,
    Black,
    DarkGrey,
    Red,
    DarkRed,
    Green,
    DarkGreen,
    Yellow,
    DarkYellow,
    Blue,
    DarkBlue,
    Magenta,
    DarkMagenta,
    Cyan,
    DarkCyan,
    White,
    Grey,
    /// A color given by its red, green and blue channels.
    Rgb { r: u8, g: u8, b: u8 },
    /// An entry of the 256-color palette.
    AnsiValue(u8),
}

/// Three 8-bit channels: red, green, blue.
#[derive(Clone, Copy, Debug, PartialEq, Eq, Structural)]
pub struct Rgb(pub u8, pub u8, pub u8);

/// Anything that resolves to a driver-level color.
pub trait NopColor {
    /// The driver-level color that `self` stands for.
    spec fn color(&self) -> Color;

    /// Resolves `self`. Every value resolves; none is refused.
    fn nop(&self) -> (c: Color)
        ensures
            c == self.color(),
    ;
}

impl NopColor for Color {
    /// A driver-level color stands for itself.
    open spec fn color(&self) -> Color {
        *self
    }

    fn nop(&self) -> (c: Color) {
        *self
    }
}

impl NopColor for Rgb {
    /// The three channels, unchanged and in order.
    open spec fn color(&self) -> Color {
        Color::Rgb { r: self.0, g: self.1, b: self.2 }
    }

    fn nop(&self) -> (c: Color) {
        Color::Rgb { r: self.0, g: self.1, b: self.2 }
    }
}

/// Every driver-level color resolves to itself, and every triple of channels
/// to the RGB color with those channels.
pub proof fn lemma_every_color_resolves(c: Color, r: u8, g: u8, b: u8)
    ensures
        c.color() == c,
        Rgb(r, g, b).color() == (Color::Rgb { r, g, b }),
{
}

/// Resolving loses nothing: two triples that resolve to the same color are
/// the same triple.
pub proof fn lemma_rgb_resolves_one_to_one(a: Rgb, b: Rgb)
    requires
        a.color() == b.color(),
    ensures
        a == b,
{
}

} // verus!
