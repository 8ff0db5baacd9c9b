//! RGBA colours, as the application names them and as the overlay takes them.

use vstd::prelude::*;
use vstd::std_specs::convert::FromSpec;

verus! {

/// A colour of four 8-bit channels.
#[derive(Clone, Copy, Debug, PartialEq, Eq, Structural)]
pub struct Color {
    pub r: u8,
    pub g: u8,
    pub b: u8,
    pub a: u8,
}

/// The overlay's own colour structure.
#[derive(Clone, Copy, Debug, PartialEq, Eq, Structural)]
pub struct NMColor {
    pub r: u8,
    pub g: u8,
    pub b: u8,
    pub a: u8,
}

/// The alpha channel of a colour that is `percent` percent opaque; more than
/// a hundred counts as a hundred.
pub open spec fn alpha_of_percent(percent: u8) -> u8 {
    if percent >= 100 {
        255u8
    } else {
        (percent * 255 / 100) as u8
    }
}

impl Color {
    pub open spec fn spec_rgba(r: u8, g: u8, b: u8, a: u8) -> Color {
        Color { r, g, b, a }
    }

    #[verifier::when_used_as_spec(spec_rgba)]
    pub fn rgba(r: u8, g: u8, b: u8, a: u8) -> (c: Color)
        ensures
            c == Self::spec_rgba(r, g, b, a),
    {
        Color { r, g, b, a }
    }

    pub open spec fn spec_rgb(r: u8, g: u8, b: u8) -> Color {
        Color { r, g, b, a: 255 }
    }

    /// A fully opaque colour.
    #[verifier::when_used_as_spec(spec_rgb)]
    pub fn rgb(r: u8, g: u8, b: u8) -> (c: Color)
        ensures
            c == Self::spec_rgb(r, g, b),
    {
        Color { r, g, b, a: 255 }
    }

    pub open spec fn spec_white() -> Color {
        Color { r: 255, g: 255, b: 255, a: 255 }
    }

    #[verifier::when_used_as_spec(spec_white)]
    pub fn white() -> (c: Color)
        ensures
            c == Self::spec_white(),
    {
        Color::rgb(255, 255, 255)
    }

    pub open spec fn spec_black() -> Color {
        Color { r: 0, g: 0, b: 0, a: 255 }
    }

    #[verifier::when_used_as_spec(spec_black)]
    pub fn black() -> (c: Color)
        ensures
            c == Self::spec_black(),
    {
        Color::rgb(0, 0, 0)
    }

    pub open spec fn spec_red() -> Color {
        Color { r: 255, g: 0, b: 0, a: 255 }
    }

    /// Solid red.
    #[verifier::when_used_as_spec(spec_red)]
    pub fn red() -> (c: Color)
        ensures
            c == Self::spec_red(),
    {
        Color::rgb(255, 0, 0)
    }

    pub open spec fn spec_opacity(self, percent: u8) -> Color {
        Color { a: alpha_of_percent(percent), ..self }
    }

    /// The same colour, `percent` percent opaque.
    #[verifier::when_used_as_spec(spec_opacity)]
    pub fn opacity(self, percent: u8) -> (c: Color)
        ensures
            c == self.spec_opacity(percent),
    {
        let a: u8 = if percent >= 100 {
            255
        } else {
            let scaled: u16 = (percent as u16) * 255 / 100;
            scaled as u8
        };
        Color { r: self.r, g: self.g, b: self.b, a }
    }
}

impl NMColor {
    /// The overlay's structure for a colour: the same four channels.
    pub open spec fn of(color: Color) -> NMColor {
        NMColor { r: color.r, g: color.g, b: color.b, a: color.a }
    }
}

impl Color {
    /// The colour that the overlay's structure holds: the same four channels.
    pub open spec fn of(color: NMColor) -> Color {
        Color { r: color.r, g: color.g, b: color.b, a: color.a }
    }
}

impl From<Color> for NMColor {
    fn from(value: Color) -> (c: NMColor)
        ensures
            c == NMColor::of(value),
    {
        NMColor { r: value.r, g: value.g, b: value.b, a: value.a }
    }
}

impl vstd::std_specs::convert::FromSpecImpl<Color> for NMColor {
    open spec fn obeys_from_spec() -> bool {
        true
    }

    open spec fn from_spec(value: Color) -> NMColor {
        NMColor::of(value)
    }
}

impl From<NMColor> for Color {
    fn from(value: NMColor) -> (c: Color)
        ensures
            c == Color::of(value),
    {
        Color { r: value.r, g: value.g, b: value.b, a: value.a }
    }
}

impl vstd::std_specs::convert::FromSpecImpl<NMColor> for Color {
    open spec fn obeys_from_spec() -> bool {
        true
    }

    open spec fn from_spec(value: NMColor) -> Color {
        Color::of(value)
    }
}

/// Turning a colour into the overlay's structure and back changes nothing, in
/// either direction.
pub proof fn lemma_color_round_trip(c: Color, n: NMColor)
    ensures
        Color::of(NMColor::of(c)) == c,
        NMColor::of(Color::of(n)) == n,
        Color::from_spec(NMColor::from_spec(c)) == c,
        NMColor::from_spec(Color::from_spec(n)) == n,
{
}

} // verus!
