use unit_selection::geometry::Point;
use unit_selection::geometry::cursor_to_world;
use unit_selection::selection::Corners;
use unit_selection::selection::DisplayRect;
use unit_selection::selection::SelectionBox;

fn boxed(ax: i64, ay: i64, hx: i64, hy: i64) -> SelectionBox {
    SelectionBox {
        corners: Some(Corners {
            anchor: Point { x: ax, y: ay },
            head: Point { x: hx, y: hy },
        }),
    }
}

#[test]
fn within_strict_interior() {
    let b = boxed(0, 10, 10, 0);
    assert!(b.within_selection(Point { x: 5, y: 5 }));
    assert!(b.within_selection(Point { x: 1, y: 9 }));
    assert!(b.within_selection(Point { x: 9, y: 1 }));
}

#[test]
fn within_outside_each_side() {
    let b = boxed(0, 10, 10, 0);
    assert!(!b.within_selection(Point { x: -1, y: 5 }));
    assert!(!b.within_selection(Point { x: 11, y: 5 }));
    assert!(!b.within_selection(Point { x: 5, y: 11 }));
    assert!(!b.within_selection(Point { x: 5, y: -1 }));
}

#[test]
fn within_boundary_excluded() {
    let b = boxed(0, 10, 10, 0);
    assert!(!b.within_selection(Point { x: 0, y: 5 }));
    assert!(!b.within_selection(Point { x: 10, y: 5 }));
    assert!(!b.within_selection(Point { x: 5, y: 10 }));
    assert!(!b.within_selection(Point { x: 5, y: 0 }));
}

#[test]
fn within_absent_box_contains_nothing() {
    let b = SelectionBox { corners: None };
    assert!(!b.within_selection(Point { x: 0, y: 0 }));
}

#[test]
fn within_inverted_drag_is_empty() {
    // Head left of anchor in x: empty whatever the point.
    let b = boxed(10, 10, 0, 0);
    assert!(!b.within_selection(Point { x: 5, y: 5 }));
    // Head above anchor in y: empty too.
    let b = boxed(0, 0, 10, 10);
    assert!(!b.within_selection(Point { x: 5, y: 5 }));
    // Zero-area drag: empty.
    let b = boxed(5, 5, 5, 5);
    assert!(!b.within_selection(Point { x: 5, y: 5 }));
}

#[test]
fn default_has_no_corners() {
    assert_eq!(SelectionBox::default().corners, None);
}

#[test]
fn display_rect_center_and_scale() {
    let b = boxed(10, 20, 30, 60);
    let r = b.display_rect().unwrap();
    assert_eq!(r.center, Point { x: 20, y: 40 });
    assert_eq!(r.scale, Point { x: 20, y: 40 });
}

#[test]
fn display_rect_truncates_toward_zero() {
    let b = boxed(-5, -1, 0, 0);
    let r = b.display_rect().unwrap();
    assert_eq!(
        r,
        DisplayRect {
            center: Point { x: -2, y: 0 },
            scale: Point { x: 5, y: 1 },
        }
    );
}

#[test]
fn display_rect_hidden_without_drag() {
    let b = SelectionBox { corners: None };
    assert_eq!(b.display_rect(), None);
}

#[test]
fn cursor_to_world_centers_and_flips_y() {
    let w = cursor_to_world(Point { x: 100, y: 100 }, 800, 600);
    assert_eq!(w, Point { x: -300, y: 200 });
    // The window's centre maps to the origin.
    let w = cursor_to_world(Point { x: 400, y: 300 }, 800, 600);
    assert_eq!(w, Point { x: 0, y: 0 });
    // The top-left corner maps to (-width/2, height/2).
    let w = cursor_to_world(Point { x: 0, y: 0 }, 800, 600);
    assert_eq!(w, Point { x: -400, y: 300 });
}

#[test]
fn cursor_to_world_odd_sizes_truncate() {
    let w = cursor_to_world(Point { x: 0, y: 0 }, 801, 601);
    assert_eq!(w, Point { x: -400, y: 300 });
}
