use std::collections::HashMap;
use swept_collision::fibonacci::fib;
use swept_collision::rect::Rect;
use swept_collision::vector::{Point, Vec2};

#[test]
fn rect_from_corners_orders_them() {
    let r = Rect::new((Point::new(10, 2), Point::new(4, 8)));
    assert_eq!(r.upper_left, Point::new(4, 2));
    assert_eq!(r.lower_right, Point::new(10, 8));
    assert_eq!(r.width, 6);
    assert_eq!(r.height, 6);
}

#[test]
fn rect_from_corner_and_size() {
    let r = Rect::new((Point::new(-3, 4), 5, 7));
    assert_eq!(r.lower_right, Point::new(2, 11));
    assert_eq!(r.area(), 35);
}

#[test]
fn area_of_flat_rect_is_zero() {
    let r = Rect::new((Point::new(1, 1), Point::new(1, 9)));
    assert_eq!(r.area(), 0);
}

#[test]
fn translate_moves_both_corners() {
    let mut r = Rect::new((Point::new(0, 0), 4, 3));
    r.translate(5, -2);
    assert_eq!(r.upper_left, Point::new(5, -2));
    assert_eq!(r.lower_right, Point::new(9, 1));
    assert_eq!((r.width, r.height), (4, 3));
}

#[test]
fn mutual_containment_means_equal_bounds() {
    let a = Rect::new((Point::new(0, 0), 4, 3));
    let b = Rect::new((Point::new(4, 3), Point::new(0, 0)));
    assert!(a.is_rect_inside(&b) && b.is_rect_inside(&a));
    assert_eq!(a, b);
    let c = Rect::new((Point::new(1, 0), 2, 3));
    assert!(a.is_rect_inside(&c));
    assert!(!c.is_rect_inside(&a));
}

#[test]
fn point_inside_includes_border() {
    let r = Rect::new((Point::new(0, 0), 10, 10));
    assert!(r.is_point_inside(&Point::new(0, 10)));
    assert!(r.is_point_inside(&Point::new(5, 5)));
    assert!(!r.is_point_inside(&Point::new(11, 5)));
    assert!(!r.is_point_inside(&Point::new(5, -1)));
}

#[test]
fn intersect_detects_a_corner_inside() {
    let r = Rect::new((Point::new(0, 0), 10, 10));
    assert!(r.is_rect_intersect(&Rect::new((Point::new(8, -5), 5, 6))));
    assert!(r.is_rect_intersect(&Rect::new((Point::new(-5, 8), 6, 6))));
    assert!(!r.is_rect_intersect(&Rect::new((Point::new(20, 20), 6, 6))));
}

#[test]
fn intersect_misses_a_crossing_without_corner_inside() {
    // a thin bar straddling the box has no corner in it
    let r = Rect::new((Point::new(0, 0), 10, 10));
    let bar = Rect::new((Point::new(-5, 4), 20, 2));
    assert!(!r.is_rect_intersect(&bar));
}

#[test]
fn vector_algebra() {
    let a = Vec2::new(3, -4);
    let b = Vec2::new(2, 5);
    assert_eq!(a.add(&b), Vec2::new(5, 1));
    assert_eq!(a.sub(&b), Vec2::new(1, -9));
    assert_eq!(a.mul(&b), Vec2::new(6, -20));
    assert_eq!(a.scale(3), Vec2::new(9, -12));
    assert_eq!(a.dot(&b), -14);
    assert_eq!(a.perp_dot(&b), 23);
    assert_eq!(a.perp(), Vec2::new(4, 3));
    assert_eq!(a.length_squared(), 25);
    assert_eq!(a.distance_squared(&b), 82);
    assert_eq!(a.abs(), Vec2::new(3, 4));
    assert_eq!(a.cmpeq(&Vec2::new(3, 0)), (true, false));
    assert_eq!(a.cmpne(&Vec2::new(3, 0)), (false, true));
    assert_eq!(a.cmpge(&b), (true, false));
    assert_eq!(a.cmpgt(&b), (true, false));
    assert_eq!(a.cmple(&b), (false, true));
    assert_eq!(a.cmplt(&b), (false, true));
    assert_eq!(Vec2::zero(), Vec2::new(0, 0));
}

#[test]
fn point_accessors_and_update() {
    let mut p = Point::new(7, -2);
    assert_eq!(p.x(), 7);
    assert_eq!(p.y(), -2);
    assert_eq!(p.get(), (7, -2));
    assert_eq!(p.get_vec2(), Vec2::new(7, -2));
    p.update(1, 2);
    assert_eq!(p, Point::new(1, 2));
    assert_eq!(p.offset(&Vec2::new(3, 3)), Point::new(4, 5));
    assert_eq!(Point::new(4, 5).diff(&p), Vec2::new(3, 3));
}

#[test]
fn fibonacci_small_values() {
    let mut d = HashMap::new();
    assert_eq!(fib(0, &mut d), 0);
    assert_eq!(fib(1, &mut d), 1);
    assert_eq!(fib(10, &mut d), 55);
    assert_eq!(d.get(&10), Some(&55));
    assert_eq!(fib(20, &mut d), 6765);
}

#[test]
fn fibonacci_largest_in_i32() {
    let mut d = HashMap::new();
    assert_eq!(fib(46, &mut d), 1836311903);
}
