use card_table::geometry::HalfSize;
use card_table::geometry::Point;
use card_table::geometry::contains;
use card_table::geometry::sprite_contains;

fn center() -> Point {
    Point { x: 10, y: -20 }
}

fn half() -> HalfSize {
    HalfSize { x: 60, y: 84 }
}

#[test]
fn cursor_inside_rectangle_is_contained() {
    assert!(contains(Point { x: 10, y: -20 }, center(), half()));
    assert!(contains(Point { x: 50, y: 30 }, center(), half()));
}

#[test]
fn cursor_outside_rectangle_is_not_contained() {
    assert!(!contains(Point { x: 71, y: -20 }, center(), half()));
    assert!(!contains(Point { x: -51, y: -20 }, center(), half()));
    assert!(!contains(Point { x: 10, y: 65 }, center(), half()));
    assert!(!contains(Point { x: 10, y: -105 }, center(), half()));
}

#[test]
fn boundary_points_are_contained() {
    // All four corners of the closed rectangle lie inside.
    assert!(contains(Point { x: 10 - 60, y: -20 - 84 }, center(), half()));
    assert!(contains(Point { x: 10 - 60, y: -20 + 84 }, center(), half()));
    assert!(contains(Point { x: 10 + 60, y: -20 - 84 }, center(), half()));
    assert!(contains(Point { x: 10 + 60, y: -20 + 84 }, center(), half()));
    // Edge midpoints as well.
    assert!(contains(Point { x: 10 + 60, y: -20 }, center(), half()));
    assert!(contains(Point { x: 10, y: -20 - 84 }, center(), half()));
}

#[test]
fn sprite_without_size_is_never_hit() {
    assert!(!sprite_contains(Point { x: 10, y: -20 }, center(), &None));
    assert!(sprite_contains(Point { x: 10, y: -20 }, center(), &Some(half())));
}

#[test]
fn zero_size_sprite_is_hit_only_at_center() {
    let point = HalfSize { x: 0, y: 0 };
    assert!(contains(center(), center(), point));
    assert!(!contains(Point { x: 11, y: -20 }, center(), point));
}

#[test]
fn extreme_coordinates_do_not_wrap() {
    let c = Point { x: i64::MAX, y: i64::MIN };
    let h = HalfSize { x: i64::MAX, y: i64::MAX };
    // The rectangle around the far corner still contains the origin side
    // correctly even though the bounds overflow 64 bits.
    assert!(contains(Point { x: 1, y: -1 }, c, h));
    assert!(!contains(Point { x: -2, y: -1 }, c, h));
}
