//! 16-bit RGB 5-6-5 colours and the styles that shapes and texts are drawn with.
use vstd::prelude::*;

verus! {

/// A colour in the 5-6-5 RGB format, held as its raw 16-bit value.
#[derive(Clone, Copy, Debug, PartialEq, Eq, Structural)]
pub struct Color {
    pub raw: u16,
}

/// The raw value of the 5-6-5 colour with the given channels: red in the top
/// five bits, green in the middle six, blue in the low five; the unused high bits
/// of each channel are dropped.
pub open spec fn rgb565_bits(r: u8, g: u8, b: u8) -> u16 {
    ((((r & 31u8) as u16) << 11u16) | (((g & 63u8) as u16) << 5u16) | ((b & 31u8) as u16)) as u16
}

/// The raw value of `Rgb565::new(r, g, b)` of embedded-graphics.
///
/// Trusted: in embedded-graphics, `Rgb565::new` masks each channel to its
/// width (5, 6 and 5 bits) and shifts red by 11 and green by 5 bits;
/// `into_storage` gives that raw value back.
#[verifier::external_body]
fn rgb565_raw(r: u8, g: u8, b: u8) -> (raw: u16)
    ensures
        raw == rgb565_bits(r, g, b),
{
    embedded_graphics::pixelcolor::IntoStorage::into_storage(
        embedded_graphics::pixelcolor::Rgb565::new(r, g, b),
    )
}

impl Color {
    /// The colour with the given raw value.
    pub fn from_raw(raw: u16) -> (c: Color)
        ensures
            c.raw == raw,
    {
        Color { raw }
    }

    /// The colour with the given red, green and blue channels.
    pub fn rgb(r: u8, g: u8, b: u8) -> (c: Color)
        ensures
            c == rgb_color(r, g, b),
    {
        Color { raw: rgb565_raw(r, g, b) }
    }

    /// Black: every channel at zero.
    pub fn black() -> (c: Color)
        ensures
            c == rgb_color(0, 0, 0),
    {
        Color::rgb(0, 0, 0)
    }

    /// White: every channel at its maximum.
    pub fn white() -> (c: Color)
        ensures
            c == rgb_color(31, 63, 31),
    {
        Color::rgb(31, 63, 31)
    }

    /// Green: the green channel at its maximum, the others at zero.
    pub fn green() -> (c: Color)
        ensures
            c == rgb_color(0, 63, 0),
    {
        Color::rgb(0, 63, 0)
    }
}

/// How a shape is drawn: its fill, its outline and the outline's width.
#[derive(Clone, Copy, Debug, PartialEq, Eq, Structural)]
pub struct Style {
    pub fill_color: Option<Color>,
    pub stroke_color: Option<Color>,
    pub stroke_width: u32,
}

/// An outline of the given colour and width, with no fill.
pub open spec fn stroke_style(color: Color, width: u32) -> Style {
    Style { fill_color: None, stroke_color: Some(color), stroke_width: width }
}

/// A fill of the given colour, with no outline.
pub open spec fn fill_style(color: Color) -> Style {
    Style { fill_color: Some(color), stroke_color: None, stroke_width: 0 }
}

/// A fill and an outline of the given colours.
pub open spec fn filled_outline_style(fill: Color, stroke: Color, width: u32) -> Style {
    Style { fill_color: Some(fill), stroke_color: Some(stroke), stroke_width: width }
}

/// The colour with the given channels.
pub open spec fn rgb_color(r: u8, g: u8, b: u8) -> Color {
    Color { raw: rgb565_bits(r, g, b) }
}

impl Style {
    /// An outline of the given colour and width, with no fill.
    pub fn stroke(color: Color, width: u32) -> (s: Style)
        ensures
            s == stroke_style(color, width),
    {
        Style { fill_color: None, stroke_color: Some(color), stroke_width: width }
    }

    /// A fill of the given colour, with no outline.
    pub fn fill(color: Color) -> (s: Style)
        ensures
            s == fill_style(color),
    {
        Style { fill_color: Some(color), stroke_color: None, stroke_width: 0 }
    }

    /// A fill and an outline, each of the given colour.
    pub fn filled_outline(fill: Color, stroke: Color, width: u32) -> (s: Style)
        ensures
            s == filled_outline_style(fill, stroke, width),
    {
        Style { fill_color: Some(fill), stroke_color: Some(stroke), stroke_width: width }
    }
}

/// The monospaced fonts that texts are set in.
#[derive(Clone, Copy, Debug, PartialEq, Eq, Structural)]
pub enum Font {
    /// Eight pixels wide, thirteen high.
    Font8x13,
    /// Ten pixels wide, twenty high.
    Font10x20,
}

/// How a text is drawn: its colour and font.
#[derive(Clone, Copy, Debug, PartialEq, Eq, Structural)]
pub struct TextStyle {
    pub color: Color,
    pub font: Font,
}

} // verus!
