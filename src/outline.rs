//! Turning a glyph outline's path commands into a path for the rasterizer,
//! each point placed at the glyph's position with the y axis flipped.
use vstd::prelude::*;
use parley::swash::zeno::{Command, Point, Transform};
use tiny_skia::{Path, PathBuilder};

verus! {

/// zeno's `Vector` (its `Point`): two floating-point coordinates, opaque here.
#[verifier::external_type_specification]
#[verifier::external_body]
pub struct ExZenoVector(parley::swash::zeno::Vector);

/// zeno's `Command`, with its variants visible: move, line, cubic curve,
/// quadratic curve and close, carrying their points.
#[verifier::external_type_specification]
pub struct ExZenoCommand(parley::swash::zeno::Command);

/// zeno's `Transform`: an affine map of points, opaque here.
#[verifier::external_type_specification]
#[verifier::external_body]
pub struct ExZenoTransform(parley::swash::zeno::Transform);

/// tiny-skia's `PathBuilder`, opaque here but for the names below.
#[verifier::external_type_specification]
#[verifier::external_body]
pub struct ExPathBuilder(tiny_skia::PathBuilder);

/// tiny-skia's `Path`, opaque here but for the name below.
#[verifier::external_type_specification]
#[verifier::external_body]
pub struct ExPath(tiny_skia::Path);

/// The verbs of a rasterizer path.
#[derive(Clone, Copy, Debug, PartialEq, Eq)]
pub enum Verb {
    Move,
    Line,
    Quad,
    Cubic,
    Close,
}

/// tiny-skia's `Point`: two floating-point coordinates, opaque here.
#[verifier::external_type_specification]
#[verifier::external_body]
pub struct ExSkiaPoint(tiny_skia::Point);

/// The verbs that a path builder holds so far.
pub uninterp spec fn builder_verbs(b: tiny_skia::PathBuilder) -> Seq<Verb>;

/// The points that a path builder holds so far.
pub uninterp spec fn builder_points(b: tiny_skia::PathBuilder) -> Seq<tiny_skia::Point>;

/// The index in a builder's points of its last subpath's start.
pub uninterp spec fn builder_last_move(b: tiny_skia::PathBuilder) -> usize;

/// Whether a path builder starts a new subpath before the next segment.
pub uninterp spec fn builder_needs_move(b: tiny_skia::PathBuilder) -> bool;

/// The verbs of a finished path.
pub uninterp spec fn path_verbs(p: tiny_skia::Path) -> Seq<Verb>;

/// The points of a finished path.
pub uninterp spec fn path_points(p: tiny_skia::Path) -> Seq<tiny_skia::Point>;

/// The rasterizer point with the coordinates of a zeno point.
pub uninterp spec fn skia_point_of(v: parley::swash::zeno::Vector) -> tiny_skia::Point;

/// The rasterizer point whose coordinates have the given `f32` bit patterns.
pub uninterp spec fn skia_point_bits(x: u32, y: u32) -> tiny_skia::Point;

/// A zeno point mapped by a zeno transform.
pub uninterp spec fn placed(t: parley::swash::zeno::Transform, v: parley::swash::zeno::Vector) -> parley::swash::zeno::Vector;

/// Whether the points have a bounding rectangle of finite size.
pub uninterp spec fn bounds_finite(points: Seq<tiny_skia::Point>) -> bool;

/// Whether a builder with these verbs and points finishes into a path: it
/// has two verbs or more, and its points have finite bounds.
pub open spec fn finishes(verbs: Seq<Verb>, points: Seq<tiny_skia::Point>) -> bool {
    verbs.len() > 1 && bounds_finite(points)
}

/// A builder's verbs, its points, the start of its last subpath, and
/// whether it needs a move before the next segment.
pub open spec fn builder_state(b: tiny_skia::PathBuilder) -> (Seq<Verb>, Seq<tiny_skia::Point>, int, bool) {
    (builder_verbs(b), builder_points(b), builder_last_move(b) as int, builder_needs_move(b))
}

/// The state of a fresh builder.
pub open spec fn fresh_state() -> (Seq<Verb>, Seq<tiny_skia::Point>, int, bool) {
    (Seq::empty(), Seq::empty(), 0, true)
}

pub open spec fn ends_with(v: Seq<Verb>, k: Verb) -> bool {
    v.len() > 0 && v.last() == k
}

/// A move after a move replaces the earlier one's point; otherwise a new
/// subpath starts at `p`.
pub open spec fn after_move(
    s: (Seq<Verb>, Seq<tiny_skia::Point>, int, bool),
    p: tiny_skia::Point,
) -> (Seq<Verb>, Seq<tiny_skia::Point>, int, bool) {
    if ends_with(s.0, Verb::Move) {
        (s.0, s.1.update(s.1.len() - 1, p), s.2, s.3)
    } else {
        (s.0.push(Verb::Move), s.1.push(p), s.1.len() as int, false)
    }
}

/// Where a subpath is needed, a move to the last subpath's start, or to the
/// origin where there is none.
pub open spec fn moved_if_needed(
    s: (Seq<Verb>, Seq<tiny_skia::Point>, int, bool),
) -> (Seq<Verb>, Seq<tiny_skia::Point>, int, bool) {
    if s.3 {
        after_move(s, if 0 <= s.2 < s.1.len() { s.1[s.2] } else { skia_point_bits(0, 0) })
    } else {
        s
    }
}

/// A segment of kind `k` through `pts`, after a move where one is needed.
pub open spec fn after_segment(
    s: (Seq<Verb>, Seq<tiny_skia::Point>, int, bool),
    k: Verb,
    pts: Seq<tiny_skia::Point>,
) -> (Seq<Verb>, Seq<tiny_skia::Point>, int, bool) {
    let m = moved_if_needed(s);
    (m.0.push(k), m.1 + pts, m.2, m.3)
}

/// A close is dropped at the start or after another close; a segment after
/// it needs a new subpath.
pub open spec fn after_close(
    s: (Seq<Verb>, Seq<tiny_skia::Point>, int, bool),
) -> (Seq<Verb>, Seq<tiny_skia::Point>, int, bool) {
    if s.0.len() > 0 && s.0.last() != Verb::Close {
        (s.0.push(Verb::Close), s.1, s.2, true)
    } else {
        (s.0, s.1, s.2, true)
    }
}

/// The builder state after one outline command, its points mapped by `t`.
pub open spec fn after_command(
    s: (Seq<Verb>, Seq<tiny_skia::Point>, int, bool),
    c: Command,
    t: Transform,
) -> (Seq<Verb>, Seq<tiny_skia::Point>, int, bool) {
    match c {
        Command::MoveTo(p) => after_move(s, skia_point_of(placed(t, p))),
        Command::LineTo(p) => after_segment(s, Verb::Line, seq![skia_point_of(placed(t, p))]),
        Command::CurveTo(p1, p2, p) => after_segment(
            s,
            Verb::Cubic,
            seq![skia_point_of(placed(t, p1)), skia_point_of(placed(t, p2)), skia_point_of(placed(t, p))],
        ),
        Command::QuadTo(p1, p) => after_segment(
            s,
            Verb::Quad,
            seq![skia_point_of(placed(t, p1)), skia_point_of(placed(t, p))],
        ),
        Command::Close => after_close(s),
    }
}

/// The builder state after a fresh builder takes the commands in order.
pub open spec fn built(cmds: Seq<Command>, t: Transform) -> (Seq<Verb>, Seq<tiny_skia::Point>, int, bool)
    decreases cmds.len(),
{
    if cmds.len() == 0 {
        fresh_state()
    } else {
        after_command(built(cmds.drop_last(), t), cmds.last(), t)
    }
}

/// Relies on tiny-skia's `PathBuilder::new`: no verbs or points, and the
/// first segment starts a subpath.
pub assume_specification[ tiny_skia::PathBuilder::new ]() -> (b: tiny_skia::PathBuilder)
    ensures
        builder_verbs(b) == Seq::<Verb>::empty(),
        builder_points(b) == Seq::<tiny_skia::Point>::empty(),
        builder_last_move(b) == 0,
        builder_needs_move(b),
;

/// Relies on tiny-skia's `PathBuilder::close`: it adds `Close` unless the
/// builder is empty or already ends with one, and asks for a new subpath.
pub assume_specification[ tiny_skia::PathBuilder::close ](b: &mut tiny_skia::PathBuilder)
    ensures
        builder_state(*final(b)) == after_close(builder_state(*old(b))),
;

/// Relies on tiny-skia's `PathBuilder::finish`: a path holding the
/// builder's verbs and points, unless it has at most one verb or its points
/// have no finite bounds (`Rect::from_points`).
pub assume_specification[ tiny_skia::PathBuilder::finish ](b: tiny_skia::PathBuilder) -> (r: Option<tiny_skia::Path>)
    ensures
        r.is_some() <==> finishes(builder_verbs(b), builder_points(b)),
        r.is_some() ==> bounds_finite(builder_points(b)),
        r.is_some() ==> path_verbs(r.unwrap()) == builder_verbs(b),
        r.is_some() ==> path_points(r.unwrap()) == builder_points(b),
;

/// Relies on zeno's `Transform::transform_point`, which maps a point by the
/// transform and depends on the two alone.
pub assume_specification[ parley::swash::zeno::Transform::transform_point ](t: &parley::swash::zeno::Transform, point: parley::swash::zeno::Vector) -> (r: parley::swash::zeno::Vector)
    ensures
        r == placed(*t, point),
;

/// Relies on tiny-skia's `PathBuilder::move_to`: a move right after a move
/// replaces its point, else it starts a subpath at the point.
#[verifier::external_body]
fn builder_move_to(b: &mut PathBuilder, p: Point)
    ensures
        builder_state(*final(b)) == after_move(builder_state(*old(b)), skia_point_of(p)),
{
    b.move_to(p.x, p.y)
}

/// Relies on tiny-skia's `PathBuilder::line_to`: it starts a subpath where
/// one is needed, then adds `Line` and the point. On a builder with no
/// points the subpath starts at the origin, `(0.0, 0.0)`.
#[verifier::external_body]
fn builder_line_to(b: &mut PathBuilder, p: Point)
    ensures
        builder_state(*final(b)) == after_segment(builder_state(*old(b)), Verb::Line, seq![skia_point_of(p)]),
        builder_points(*old(b)).len() == 0 ==> builder_points(*final(b))[0] == skia_point_bits(0, 0),
{
    b.line_to(p.x, p.y)
}

/// Relies on tiny-skia's `PathBuilder::quad_to`: it starts a subpath where
/// one is needed, then adds `Quad` and the two points.
#[verifier::external_body]
fn builder_quad_to(b: &mut PathBuilder, p1: Point, p: Point)
    ensures
        builder_state(*final(b)) == after_segment(
            builder_state(*old(b)),
            Verb::Quad,
            seq![skia_point_of(p1), skia_point_of(p)],
        ),
{
    b.quad_to(p1.x, p1.y, p.x, p.y)
}

/// Relies on tiny-skia's `PathBuilder::cubic_to`: it starts a subpath where
/// one is needed, then adds `Cubic` and the three points.
#[verifier::external_body]
fn builder_cubic_to(b: &mut PathBuilder, p1: Point, p2: Point, p: Point)
    ensures
        builder_state(*final(b)) == after_segment(
            builder_state(*old(b)),
            Verb::Cubic,
            seq![skia_point_of(p1), skia_point_of(p2), skia_point_of(p)],
        ),
{
    b.cubic_to(p1.x, p1.y, p2.x, p2.y, p.x, p.y)
}

/// The rasterizer path for an outline's commands, every point mapped by
/// `placement`: each command becomes the builder call of the same kind, in
/// order. `None` exactly where the path would hold fewer than two verbs or
/// its points would have no finite bounds.
pub fn build_path(commands: &[Command], placement: &Transform) -> (r: Option<Path>)
    ensures
        r.is_some() <==> finishes(built(commands@, *placement).0, built(commands@, *placement).1),
        r.is_some() ==> path_verbs(r.unwrap()) == built(commands@, *placement).0,
        r.is_some() ==> path_points(r.unwrap()) == built(commands@, *placement).1,
{
    let mut pb = PathBuilder::new();
    let mut i: usize = 0;
    while i < commands.len()
        invariant
            i <= commands@.len(),
            builder_state(pb) == built(commands@.subrange(0, i as int), *placement),
        decreases commands.len() - i,
    {
        let cmd = commands[i];
        match cmd {
            Command::MoveTo(p) => builder_move_to(&mut pb, placement.transform_point(p)),
            Command::LineTo(p) => builder_line_to(&mut pb, placement.transform_point(p)),
            Command::CurveTo(p1, p2, p) => builder_cubic_to(
                &mut pb,
                placement.transform_point(p1),
                placement.transform_point(p2),
                placement.transform_point(p),
            ),
            Command::QuadTo(p1, p) => builder_quad_to(
                &mut pb,
                placement.transform_point(p1),
                placement.transform_point(p),
            ),
            Command::Close => pb.close(),
        }
        assert(commands@.subrange(0, i + 1).drop_last() =~= commands@.subrange(0, i as int));
        i += 1;
    }
    assert(commands@.subrange(0, commands@.len() as int) =~= commands@);
    pb.finish()
}

} // verus!
