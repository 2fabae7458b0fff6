use vstd::prelude::*;

verus! {

/// The engine's own color: three channel bytes and an alpha byte.
#[derive(Clone, Copy, Debug, PartialEq, Eq, Structural)]
pub struct Color {
    pub r: u8,
    pub g: u8,
    pub b: u8,
    pub a: u8,
}

/// The color as the widget layer's C interface lays it out.
#[derive(Clone, Copy, Debug, PartialEq, Eq, Structural)]
pub struct FfiColor {
    pub r: u8,
    pub g: u8,
    pub b: u8,
    pub a: u8,
}

impl Color {
    pub fn new(r: u8, g: u8, b: u8, a: u8) -> (c: Color)
        ensures
            c == (Color { r, g, b, a }),
    {
        Color { r, g, b, a }
    }
}

/// Converts the engine's color to the widget form, byte for byte.
pub fn into_ffi_color(color: Color) -> (f: FfiColor)
    ensures
        f == (FfiColor { r: color.r, g: color.g, b: color.b, a: color.a }),
{
    FfiColor { r: color.r, g: color.g, b: color.b, a: color.a }
}

/// Converts a widget color back to the engine's color, byte for byte.
pub fn into_core_color(color: FfiColor) -> (c: Color)
    ensures
        c == (Color { r: color.r, g: color.g, b: color.b, a: color.a }),
{
    Color { r: color.r, g: color.g, b: color.b, a: color.a }
}

pub open spec fn spec_into_ffi(c: Color) -> FfiColor {
    FfiColor { r: c.r, g: c.g, b: c.b, a: c.a }
}

pub open spec fn spec_into_core(f: FfiColor) -> Color {
    Color { r: f.r, g: f.g, b: f.b, a: f.a }
}

/// The bridge is lossless both ways: every channel byte and the alpha byte
/// come back unchanged, whatever their value.
pub proof fn lemma_color_round_trip(c: Color, f: FfiColor)
    ensures
        spec_into_core(spec_into_ffi(c)) == c,
        spec_into_ffi(spec_into_core(f)) == f,
{
}

} // verus!
