//! The bitmap that glyph outlines are filled into: created once at the
//! measured size of the laid-out text, cleared to white, and encoded as PNG.
use vstd::prelude::*;
use crate::color::{skia_color_of, to_tscolor};

verus! {

/// tiny-skia's `Pixmap`: an owned buffer of premultiplied RGBA pixels,
/// opaque here but for the names below.
#[verifier::external_type_specification]
#[verifier::external_body]
pub struct ExPixmap(tiny_skia::Pixmap);

/// A pixmap's width in pixels.
pub uninterp spec fn pixmap_width(p: tiny_skia::Pixmap) -> u32;

/// A pixmap's height in pixels.
pub uninterp spec fn pixmap_height(p: tiny_skia::Pixmap) -> u32;

/// The bytes of a pixmap's buffer: premultiplied red, green, blue, alpha
/// for each pixel, row by row.
pub uninterp spec fn pixmap_bytes(p: tiny_skia::Pixmap) -> Seq<u8>;

/// The PNG file that tiny-skia writes for an image of `width` by `height`
/// pixels holding `bytes`.
pub uninterp spec fn png_of(width: u32, height: u32, bytes: Seq<u8>) -> Seq<u8>;

/// Bytes per pixel in a pixmap's buffer.
pub const BYTES_PER_PIXEL: u32 = 4;

/// The eight bytes that every PNG file starts with.
pub open spec fn png_signature() -> Seq<u8> {
    seq![137u8, 80, 78, 71, 13, 10, 26, 10]
}

/// Whether a pixmap of `width` by `height` pixels can be made: both sides
/// are positive, one row's bytes fit in an `i32`, and the whole buffer's
/// length fits in a `usize`.
pub open spec fn pixmap_size_ok(width: u32, height: u32) -> bool {
    &&& 0 < width
    &&& 0 < height
    &&& BYTES_PER_PIXEL * width <= i32::MAX
    &&& BYTES_PER_PIXEL * width * height <= usize::MAX
}

/// The buffer of a `width` by `height` pixmap whose every byte is `v`.
pub open spec fn uniform_bytes(width: u32, height: u32, v: u8) -> Seq<u8> {
    Seq::new((BYTES_PER_PIXEL * width * height) as nat, |i: int| v)
}

/// Whether `p` is a `width` by `height` pixmap whose every byte is `v`.
pub open spec fn is_uniform(p: tiny_skia::Pixmap, width: u32, height: u32, v: u8) -> bool {
    &&& pixmap_width(p) == width
    &&& pixmap_height(p) == height
    &&& pixmap_bytes(p) == uniform_bytes(width, height, v)
}

/// Relies on tiny-skia's `Pixmap::new`: it returns `None` exactly when a
/// side is zero, when `4 * width` overflows an `i32`, or when the buffer's
/// length `(height - 1) * 4 * width + 4 * width` overflows a `usize`; else a
/// pixmap of that size whose buffer is all zero bytes.
pub assume_specification[ tiny_skia::Pixmap::new ](width: u32, height: u32) -> (r: Option<tiny_skia::Pixmap>)
    ensures
        r.is_some() <==> pixmap_size_ok(width, height),
        r.is_some() ==> is_uniform(r.unwrap(), width, height, 0),
;

/// Relies on tiny-skia's `Pixmap::fill`, which sets every pixel to the
/// color premultiplied and rounded to bytes, and keeps the size. Opaque
/// white, whose channels are all 1.0, becomes four bytes of 255.
pub assume_specification[ tiny_skia::Pixmap::fill ](pixmap: &mut tiny_skia::Pixmap, color: tiny_skia::Color)
    ensures
        pixmap_width(*final(pixmap)) == pixmap_width(*old(pixmap)),
        pixmap_height(*final(pixmap)) == pixmap_height(*old(pixmap)),
        pixmap_bytes(*final(pixmap)).len() == pixmap_bytes(*old(pixmap)).len(),
        color == skia_color_of(255, 255, 255, 255) ==> pixmap_bytes(*final(pixmap)) == Seq::new(
            pixmap_bytes(*old(pixmap)).len(),
            |i: int| 255u8,
        ),
;

/// Relies on tiny-skia's `Pixmap::encode_png`: its bytes depend on the
/// pixmap's size and buffer alone and start with the PNG signature. Its PNG
/// writer fails only on a zero side, a bad color type and depth, or a buffer
/// of the wrong length, none of which a pixmap has, and a `Vec` takes every
/// write; so it does not fail.
#[verifier::external_body]
fn pixmap_png(pixmap: &tiny_skia::Pixmap) -> (r: Option<Vec<u8>>)
    ensures
        r.is_some(),
        r.unwrap()@ == png_of(pixmap_width(*pixmap), pixmap_height(*pixmap), pixmap_bytes(*pixmap)),
        r.unwrap()@.len() >= 8,
        r.unwrap()@.subrange(0, 8) == png_signature(),
{
    pixmap.encode_png().ok()
}

/// A white canvas of `width` by `height` pixels, or `None` where no pixmap
/// of that size can be made.
pub fn blank_canvas(width: u32, height: u32) -> (r: Option<tiny_skia::Pixmap>)
    ensures
        r.is_some() <==> pixmap_size_ok(width, height),
        r.is_some() ==> is_uniform(r.unwrap(), width, height, 255),
{
    match tiny_skia::Pixmap::new(width, height) {
        Some(mut pixmap) => {
            let white = peniko::Color { r: 255, g: 255, b: 255, a: 255 };
            pixmap.fill(to_tscolor(white));
            assert(pixmap_bytes(pixmap) =~= uniform_bytes(width, height, 255));
            Some(pixmap)
        },
        None => None,
    }
}

/// The canvas encoded as a PNG file's bytes: a file that starts with the PNG
/// signature and stands for the canvas's size and pixels alone.
pub fn encode_canvas(canvas: &tiny_skia::Pixmap) -> (r: Vec<u8>)
    ensures
        r@ == png_of(pixmap_width(*canvas), pixmap_height(*canvas), pixmap_bytes(*canvas)),
        r@.len() >= 8,
        r@.subrange(0, 8) == png_signature(),
{
    match pixmap_png(canvas) {
        Some(bytes) => bytes,
        None => Vec::new(),
    }
}

/// Encoding a white canvas gives a PNG file of the canvas's size; two canvases
/// made with the same size encode to the same bytes.
pub proof fn lemma_blank_canvas_png(a: tiny_skia::Pixmap, b: tiny_skia::Pixmap, width: u32, height: u32)
    requires
        is_uniform(a, width, height, 255),
        is_uniform(b, width, height, 255),
    ensures
        png_of(pixmap_width(a), pixmap_height(a), pixmap_bytes(a)) == png_of(width, height, uniform_bytes(width, height, 255)),
        png_of(pixmap_width(a), pixmap_height(a), pixmap_bytes(a)) == png_of(pixmap_width(b), pixmap_height(b), pixmap_bytes(b)),
{
}

} // verus!
