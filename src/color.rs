//! Conversions between the color of the layout's style system, the four
//! bytes that a glyph run carries as its brush, and the rasterizer's color.
use vstd::prelude::*;

verus! {

/// peniko's `Color`: four public `u8` fields, red, green, blue and alpha.
/// Declared with its fields visible so that they can be read here.
#[verifier::external_type_specification]
pub struct ExPenikoColor(peniko::Color);

/// tiny-skia's `Color`: four normalized floating-point channels, opaque here.
#[verifier::external_type_specification]
#[verifier::external_body]
pub struct ExSkiaColor(tiny_skia::Color);

/// The rasterizer's color built from red, green, blue and alpha bytes.
pub uninterp spec fn skia_color_of(r: u8, g: u8, b: u8, a: u8) -> tiny_skia::Color;

/// Relies on tiny-skia's `Color::from_rgba8`, which divides each channel by
/// 255: the result depends on the four bytes alone.
pub assume_specification[ tiny_skia::Color::from_rgba8 ](r: u8, g: u8, b: u8, a: u8) -> (c: tiny_skia::Color)
    ensures
        c == skia_color_of(r, g, b, a),
;

/// The brush bytes of a color: red, green, blue, alpha.
pub open spec fn brush_of(c: peniko::Color) -> Seq<u8> {
    seq![c.r, c.g, c.b, c.a]
}

/// The color that four brush bytes stand for: red, green, blue, alpha.
pub open spec fn color_of_brush(rgba: [u8; 4]) -> peniko::Color {
    peniko::Color { r: rgba@[0], g: rgba@[1], b: rgba@[2], a: rgba@[3] }
}

/// The brush bytes that a styled run carries for a color.
pub fn to_rgba8(t: peniko::Color) -> (r: [u8; 4])
    ensures
        r@ == brush_of(t),
{
    [t.r, t.g, t.b, t.a]
}

/// The rasterizer's color for a color of the style system, channel by
/// channel.
pub fn to_tscolor(t: peniko::Color) -> (r: tiny_skia::Color)
    ensures
        r == skia_color_of(t.r, t.g, t.b, t.a),
{
    tiny_skia::Color::from_rgba8(t.r, t.g, t.b, t.a)
}

/// A color turned into brush bytes and back is the same color.
pub proof fn lemma_color_brush_round_trip(c: peniko::Color)
    ensures
        forall|b: [u8; 4]| b@ == brush_of(c) ==> color_of_brush(b) == c,
{
}

/// Brush bytes turned into a color and back are the same bytes.
pub proof fn lemma_brush_color_round_trip(b: [u8; 4])
    ensures
        brush_of(color_of_brush(b)) == b@,
{
    assert(brush_of(color_of_brush(b)) =~= b@);
}

} // verus!
