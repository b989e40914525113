use breakout::{Orientation, Rect};

fn rect(x: i32, y: i32, width: u32, height: u32) -> Rect {
    Rect { x, y, width, height, colors: 0x32 }
}

#[test]
fn collides_overlapping_pair_true() {
    let a = rect(0, 0, 10, 10);
    let b = rect(5, 5, 10, 10);
    assert!(a.collides(&b));
    assert!(b.collides(&a));
}

#[test]
fn collides_contained_pair_true() {
    let a = rect(0, 0, 10, 10);
    let b = rect(2, 2, 3, 3);
    assert!(a.collides(&b));
    assert!(b.collides(&a));
}

#[test]
fn collides_disjoint_pair_false() {
    let a = rect(0, 0, 4, 4);
    let b = rect(100, 100, 4, 4);
    assert!(!a.collides(&b));
    assert!(!b.collides(&a));
}

#[test]
fn collides_overlap_on_one_axis_only_false() {
    let a = rect(0, 0, 4, 4);
    let b = rect(2, 50, 4, 4);
    assert!(!a.collides(&b));
    assert!(!b.collides(&a));
}

#[test]
fn collides_edge_touching_false() {
    // Shares exactly the vertical boundary line x = 4.
    let a = rect(0, 0, 4, 4);
    let b = rect(4, 0, 4, 4);
    assert!(!a.collides(&b));
    assert!(!b.collides(&a));
    // Shares exactly the horizontal boundary line y = 4.
    let c = rect(0, 4, 4, 4);
    assert!(!a.collides(&c));
    assert!(!c.collides(&a));
}

#[test]
fn collides_at_extreme_coordinates() {
    // The overlap test is exact even where an edge coordinate leaves the
    // i32 range: a right edge of i32::MAX - 4 + u32::MAX.
    let a = rect(i32::MAX - 4, 0, u32::MAX, 4);
    let b = rect(i32::MAX - 1, 0, 4, 4);
    assert!(a.collides(&b));
}

#[test]
fn collision_none_when_apart() {
    let a = rect(0, 0, 4, 4);
    let b = rect(10, 10, 4, 4);
    assert!(a.collision(&b).is_none());
}

#[test]
fn collision_defined_when_colliding() {
    let a = rect(0, 0, 4, 4);
    let b = rect(3, 0, 4, 4);
    assert!(a.collides(&b));
    assert!(a.collision(&b).is_some());
}

#[test]
fn collision_vertical_classification() {
    // The receiver's right edge minus the 2-unit margin lies left of the
    // other's left edge: a hit on a vertical face.
    let a = rect(0, 0, 4, 4);
    let b = rect(3, 0, 4, 4);
    assert_eq!(a.collision(&b), Some(Orientation::Vertical));
}

#[test]
fn collision_horizontal_classification() {
    // Neither adjusted edge condition holds: a hit on a horizontal face.
    let a = rect(0, 0, 4, 4);
    let b = rect(1, 3, 4, 4);
    assert_eq!(a.collision(&b), Some(Orientation::Horizontal));
}

#[test]
fn shift_translates_position_only() {
    let mut r = rect(10, 20, 4, 6);
    r.shift(3, -5);
    assert_eq!(r.x, 13);
    assert_eq!(r.y, 15);
    assert_eq!(r.width, 4);
    assert_eq!(r.height, 6);
    assert_eq!(r.colors, 0x32);
}

#[test]
fn shift_round_trip_is_identity() {
    let mut r = rect(10, 20, 4, 6);
    r.shift(1, 0);
    r.shift(-1, 0);
    r.shift(0, 1);
    r.shift(0, -1);
    assert_eq!(r.x, 10);
    assert_eq!(r.y, 20);
}

#[test]
fn render_copies_rect_into_command() {
    let r = rect(7, 8, 9, 10);
    let c = r.render();
    assert_eq!(c.x, 7);
    assert_eq!(c.y, 8);
    assert_eq!(c.width, 9);
    assert_eq!(c.height, 10);
    assert_eq!(c.colors, 0x32);
}
