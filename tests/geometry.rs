use catchit::physics::{clamp_axis, div_toward_zero, integrate_axis};
use catchit::geometry::{dist_sq, isqrt, speed_sq};
use catchit::{CollisionShape, Object, Vec2};

fn obj(x: i64, y: i64, half_size: i64, shape: CollisionShape) -> Object {
    Object { pos: Vec2::new(x, y), half_size, shape }
}

#[test]
fn object_bounds() {
    let o = obj(10_000, 20_000, 3_000, CollisionShape::Square);
    assert_eq!(o.left(), 7_000);
    assert_eq!(o.right(), 13_000);
    assert_eq!(o.top(), 17_000);
    assert_eq!(o.bottom(), 23_000);
}

#[test]
fn circles_intersect_by_distance() {
    let a = obj(0, 0, 5_000, CollisionShape::Circle);
    // distance 10_000 == 5_000 + 5_000: touching counts
    let b = obj(6_000, 8_000, 5_000, CollisionShape::Circle);
    assert!(a.intersects(&b));
    let c = obj(6_000, 8_001, 5_000, CollisionShape::Circle);
    assert!(!a.intersects(&c));
    // the boxes of a and c still overlap
    let c_box = obj(6_000, 8_001, 5_000, CollisionShape::Square);
    assert!(a.intersects(&c_box));
    assert!(c_box.intersects(&a));
}

#[test]
fn boxes_intersect_by_bounds() {
    let a = obj(0, 0, 5_000, CollisionShape::Square);
    let b = obj(10_000, 0, 5_000, CollisionShape::Circle);
    assert!(a.intersects(&b));
    let c = obj(10_001, 0, 5_000, CollisionShape::Circle);
    assert!(!a.intersects(&c));
    assert!(!c.intersects(&a));
}

#[test]
fn integer_square_root() {
    assert_eq!(isqrt(0), 0);
    assert_eq!(isqrt(1), 1);
    assert_eq!(isqrt(99), 9);
    assert_eq!(isqrt(100), 10);
    assert_eq!(isqrt(1_000_000_000_000), 1_000_000);
    assert_eq!(isqrt(8_000_000_000_000_000_000_000_000), 2_828_427_124_746);
}

#[test]
fn squared_lengths() {
    assert_eq!(dist_sq(Vec2::new(3, 4), Vec2::new(0, 0)), 25);
    assert_eq!(dist_sq(Vec2::new(-3, 0), Vec2::new(0, 4)), 25);
    assert_eq!(speed_sq(Vec2::new(-6, 8)), 100);
}

#[test]
fn division_rounds_toward_zero() {
    assert_eq!(div_toward_zero(7, 2), 3);
    assert_eq!(div_toward_zero(-7, 2), -3);
    assert_eq!(div_toward_zero(0, 5), 0);
}

#[test]
fn clamping_keeps_box_inside() {
    assert_eq!(clamp_axis(-50, 10, 1000), 10);
    assert_eq!(clamp_axis(995, 10, 1000), 990);
    assert_eq!(clamp_axis(500, 10, 1000), 500);
}

#[test]
fn reflection_at_right_edge() {
    // 900 + 200 * 1s = 1100 > 1000 - 10: flipped and clamped to the edge
    assert_eq!(integrate_axis(900, 200, 10, 1000, 1_000_000), (990, -200));
}

#[test]
fn reflection_at_left_edge() {
    assert_eq!(integrate_axis(100, -300, 10, 1000, 1_000_000), (10, 300));
}

#[test]
fn touching_an_edge_reflects() {
    // exactly reaching the edge flips the velocity too
    assert_eq!(integrate_axis(890, 100, 10, 1000, 1_000_000), (990, -100));
}

#[test]
fn free_motion_inside_field() {
    assert_eq!(integrate_axis(500, 100, 10, 1000, 500_000), (550, 100));
    assert_eq!(integrate_axis(500, -100, 10, 1000, 500_000), (450, -100));
}
