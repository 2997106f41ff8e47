use launcher::geometry::{mouse_in_rect, Point, Rect, Size};

fn rect(x: i64, y: i64, width: i64, height: i64) -> Rect {
    Rect { origin: Point { x, y }, size: Size { width, height } }
}

#[test]
fn hit_inside() {
    let r = rect(10, 20, 100, 50);
    assert!(mouse_in_rect(Point { x: 50, y: 40 }, r));
}

#[test]
fn hit_x_edges() {
    // The minimum x edge belongs to the rectangle, the maximum does not.
    let r = rect(10, 20, 100, 50);
    assert!(mouse_in_rect(Point { x: 10, y: 40 }, r));
    assert!(!mouse_in_rect(Point { x: 110, y: 40 }, r));
}

#[test]
fn hit_y_edges() {
    // On the y axis it is the other way around: the maximum edge belongs to
    // the rectangle, the minimum does not.
    let r = rect(10, 20, 100, 50);
    assert!(!mouse_in_rect(Point { x: 50, y: 20 }, r));
    assert!(mouse_in_rect(Point { x: 50, y: 70 }, r));
}

#[test]
fn no_hit_in_empty_rect() {
    let r = rect(10, 20, 0, 0);
    assert!(!mouse_in_rect(Point { x: 10, y: 20 }, r));
}

#[test]
fn no_hit_outside() {
    let r = rect(10, 20, 100, 50);
    assert!(!mouse_in_rect(Point { x: 9, y: 40 }, r));
    assert!(!mouse_in_rect(Point { x: 50, y: 71 }, r));
}
