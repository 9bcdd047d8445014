use glyph_raster::outline::build_path;
use parley::swash::zeno::{Command, Point, Transform};

fn pt(x: f32, y: f32) -> Point {
    Point::new(x, y)
}

fn verbs(commands: &[Command]) -> Option<String> {
    build_path(commands, &Transform::translation(0.0, 0.0)).map(|p| format!("{:?}", p.verbs()))
}

#[test]
fn triangle_keeps_command_kinds() {
    let cmds = [
        Command::MoveTo(pt(0.0, 0.0)),
        Command::LineTo(pt(4.0, 0.0)),
        Command::LineTo(pt(0.0, 4.0)),
        Command::Close,
    ];
    assert_eq!(verbs(&cmds).unwrap(), "[Move, Line, Line, Close]");
}

#[test]
fn curves_keep_their_kind() {
    let cmds = [
        Command::MoveTo(pt(0.0, 0.0)),
        Command::QuadTo(pt(1.0, 2.0), pt(3.0, 0.0)),
        Command::CurveTo(pt(4.0, 1.0), pt(5.0, 1.0), pt(6.0, 0.0)),
        Command::Close,
    ];
    assert_eq!(verbs(&cmds).unwrap(), "[Move, Quad, Cubic, Close]");
}

#[test]
fn empty_outline_has_no_path() {
    assert!(verbs(&[]).is_none());
}

#[test]
fn lone_move_has_no_path() {
    assert!(verbs(&[Command::MoveTo(pt(1.0, 1.0))]).is_none());
    assert!(verbs(&[Command::MoveTo(pt(1.0, 1.0)), Command::MoveTo(pt(2.0, 2.0))]).is_none());
}

#[test]
fn close_alone_has_no_path() {
    assert!(verbs(&[Command::Close, Command::Close]).is_none());
}

#[test]
fn segment_after_close_starts_subpath() {
    let cmds = [
        Command::MoveTo(pt(0.0, 0.0)),
        Command::LineTo(pt(2.0, 0.0)),
        Command::LineTo(pt(2.0, 2.0)),
        Command::Close,
        Command::Close,
        Command::LineTo(pt(5.0, 5.0)),
    ];
    assert_eq!(verbs(&cmds).unwrap(), "[Move, Line, Line, Close, Move, Line]");
}

#[test]
fn segment_without_move_starts_subpath() {
    let cmds = [Command::LineTo(pt(3.0, 3.0))];
    assert_eq!(verbs(&cmds).unwrap(), "[Move, Line]");
}

#[test]
fn points_are_placed_and_flipped() {
    let cmds = [
        Command::MoveTo(pt(1.0, 2.0)),
        Command::LineTo(pt(3.0, -4.0)),
        Command::QuadTo(pt(0.5, 0.25), pt(0.0, 0.0)),
    ];
    let placement = Transform::scale(1.0, -1.0).then_translate(10.0, 20.0);
    let path = build_path(&cmds, &placement).unwrap();
    let got: Vec<(f32, f32)> = path.points().iter().map(|p| (p.x, p.y)).collect();
    assert_eq!(got, vec![(11.0, 18.0), (13.0, 24.0), (10.5, 19.75), (10.0, 20.0)]);
}

#[test]
fn segment_without_move_starts_at_origin() {
    let cmds = [Command::LineTo(pt(3.0, 3.0))];
    let path = build_path(&cmds, &Transform::translation(0.0, 0.0)).unwrap();
    let got: Vec<(f32, f32)> = path.points().iter().map(|p| (p.x, p.y)).collect();
    assert_eq!(got, vec![(0.0, 0.0), (3.0, 3.0)]);
}

#[test]
fn segment_after_close_restarts_at_subpath_start() {
    let cmds = [
        Command::MoveTo(pt(1.0, 1.0)),
        Command::LineTo(pt(2.0, 1.0)),
        Command::Close,
        Command::LineTo(pt(5.0, 5.0)),
    ];
    let path = build_path(&cmds, &Transform::translation(0.0, 0.0)).unwrap();
    let got: Vec<(f32, f32)> = path.points().iter().map(|p| (p.x, p.y)).collect();
    assert_eq!(got, vec![(1.0, 1.0), (2.0, 1.0), (1.0, 1.0), (5.0, 5.0)]);
}

#[test]
fn repeated_move_keeps_last_point() {
    let cmds = [
        Command::MoveTo(pt(1.0, 1.0)),
        Command::MoveTo(pt(7.0, 8.0)),
        Command::LineTo(pt(9.0, 9.0)),
    ];
    let path = build_path(&cmds, &Transform::translation(0.0, 0.0)).unwrap();
    let got: Vec<(f32, f32)> = path.points().iter().map(|p| (p.x, p.y)).collect();
    assert_eq!(got, vec![(7.0, 8.0), (9.0, 9.0)]);
    assert_eq!(format!("{:?}", path.verbs()), "[Move, Line]");
}

#[test]
fn unbounded_points_have_no_path() {
    let cmds = [
        Command::MoveTo(pt(f32::INFINITY, 0.0)),
        Command::LineTo(pt(1.0, 1.0)),
    ];
    assert!(build_path(&cmds, &Transform::translation(0.0, 0.0)).is_none());
}
