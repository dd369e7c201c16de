use skie_draw::paint::Path2D;
use skie_draw::{vec2, Rect, Vec2};

#[test]
fn test_line_to_multiple_lines() {
    let mut path = Path2D::new();

    path.move_to(vec2(50.0, 50.0));
    path.line_to(vec2(100.0, 100.0));
    path.line_to(vec2(150.0, 150.0));
    path.line_to(vec2(200.0, 300.0));

    path.move_to(vec2(500.0, 500.0));
    path.line_to(vec2(100.0, 100.0));

    let expected = vec![
        vec2(50.0, 50.0),
        vec2(100.0, 100.0),
        vec2(150.0, 150.0),
        vec2(200.0, 300.0),
        vec2(500.0, 500.0),
        vec2(100.0, 100.0),
    ];
    assert_eq!(path.points, expected);
}

#[test]
fn line_without_subpath_adds_only_its_end() {
    let mut path: Path2D<Vec2<i32>> = Path2D::new();
    path.line_to(vec2(1, 2));
    path.line_to(vec2(3, 4));
    assert_eq!(path.points, vec![vec2(1, 2), vec2(3, 4)]);
}

#[test]
fn line_back_at_the_start_repeats_it() {
    let mut path: Path2D<Vec2<i32>> = Path2D::new();
    path.move_to(vec2(0, 0));
    path.line_to(vec2(5, 0));
    path.line_to(vec2(0, 0));
    // the cursor is at the start of the subpath again
    path.line_to(vec2(0, 5));
    assert_eq!(path.points, vec![vec2(0, 0), vec2(5, 0), vec2(0, 0), vec2(0, 0), vec2(0, 5)]);
}

#[test]
fn path_defaults_and_clear() {
    let mut path: Path2D<Vec2<i32>> = Path2D::default();
    assert!(path.is_empty());
    assert_eq!(path.segment_count(), 32);
    path.set_segment_count(16);
    assert_eq!(path.segment_count(), 16);
    path.move_to(vec2(1, 1));
    path.line_to(vec2(2, 2));
    path.close();
    assert!(!path.is_empty());
    path.clear();
    assert!(path.is_empty());
    // no subpath after a clear: a line adds only its end
    path.line_to(vec2(3, 3));
    assert_eq!(path.points, vec![vec2(3, 3)]);
}

#[test]
fn rect_corners_clockwise() {
    let mut path: Path2D<Vec2<i32>> = Path2D::new();
    path.rect(&Rect { x: 10, y: 20, width: 30, height: 40 });
    assert_eq!(
        path.points,
        vec![vec2(10, 20), vec2(40, 20), vec2(40, 60), vec2(10, 60)]
    );
    // the cursor is the last corner: a line from it adds only its end
    path.line_to(vec2(0, 0));
    assert_eq!(path.points.len(), 5);
}
