//! Filling one glyph's outline into the canvas in the run's color.
use vstd::prelude::*;
use parley::swash::zeno::{Command, Transform};
use tiny_skia::{FillRule, Path, Pixmap};
use crate::canvas::{pixmap_bytes, pixmap_height, pixmap_width};
use crate::color::{skia_color_of, to_tscolor};
use crate::outline::{build_path, built, finishes, path_points, path_verbs, Verb};

verus! {

/// tiny-skia's `FillRule`, with its variants visible: winding or even-odd.
#[verifier::external_type_specification]
pub struct ExFillRule(tiny_skia::FillRule);

/// The buffer of a `width` by `height` pixmap holding `bytes` after the path
/// with these verbs and points is filled with a solid color under `rule`.
pub uninterp spec fn filled(
    bytes: Seq<u8>,
    width: u32,
    height: u32,
    verbs: Seq<Verb>,
    points: Seq<tiny_skia::Point>,
    color: tiny_skia::Color,
    rule: tiny_skia::FillRule,
) -> Seq<u8>;

/// Relies on tiny-skia's `Pixmap::fill_path` with a solid-color paint that
/// is otherwise the default, no transform and no mask: it keeps the size,
/// and the new pixels depend on the old ones, the size, the path's verbs
/// and points, the color and the rule alone.
#[verifier::external_body]
fn fill_solid(canvas: &mut Pixmap, path: &Path, color: tiny_skia::Color, rule: FillRule)
    ensures
        pixmap_width(*final(canvas)) == pixmap_width(*old(canvas)),
        pixmap_height(*final(canvas)) == pixmap_height(*old(canvas)),
        pixmap_bytes(*final(canvas)) == filled(
            pixmap_bytes(*old(canvas)),
            pixmap_width(*old(canvas)),
            pixmap_height(*old(canvas)),
            path_verbs(*path),
            path_points(*path),
            color,
            rule,
        ),
{
    let paint = tiny_skia::Paint { shader: tiny_skia::Shader::SolidColor(color), ..Default::default() };
    canvas.fill_path(path, &paint, rule, tiny_skia::Transform::identity(), None)
}

/// Fills a glyph's outline, placed by `placement`, into the canvas in
/// `color` under the winding rule. Where the outline makes no path, the
/// canvas is left as it was.
pub fn render_glyph(canvas: &mut Pixmap, outline: &[Command], color: peniko::Color, placement: &Transform)
    ensures
        pixmap_width(*final(canvas)) == pixmap_width(*old(canvas)),
        pixmap_height(*final(canvas)) == pixmap_height(*old(canvas)),
        !finishes(built(outline@, *placement).0, built(outline@, *placement).1) ==> pixmap_bytes(
            *final(canvas),
        ) == pixmap_bytes(*old(canvas)),
        finishes(built(outline@, *placement).0, built(outline@, *placement).1) ==> pixmap_bytes(
            *final(canvas),
        ) == filled(
            pixmap_bytes(*old(canvas)),
            pixmap_width(*old(canvas)),
            pixmap_height(*old(canvas)),
            built(outline@, *placement).0,
            built(outline@, *placement).1,
            skia_color_of(color.r, color.g, color.b, color.a),
            FillRule::Winding,
        ),
{
    match build_path(outline, placement) {
        Some(path) => fill_solid(canvas, &path, to_tscolor(color), FillRule::Winding),
        None => {},
    }
}

} // verus!
