use swept_collision::frame::new_contact_sides;
use swept_collision::rect::{IntoRect, Ray, Rect};
use swept_collision::ratio::{RatVec2, Ratio};
use swept_collision::side::{
    rect_collision_side_to_u32, rect_collision_side_to_vec2, resolve_collision_reflect,
    resolve_collision_stop, u32_to_rect_collision_side, RectCollisionSide,
};
use swept_collision::vector::{Point, Vec2};

fn rect(x: i16, y: i16, w: i32, h: i32) -> Rect {
    Rect::new((Point::new(x, y), w, h))
}

fn ray(sx: i16, sy: i16, ex: i16, ey: i16) -> Ray {
    Ray { start: Point::new(sx, sy), end: Point::new(ex, ey) }
}

fn same(a: Ratio, num: i64, den: i64) -> bool {
    (a.num as i128) * (den as i128) == (num as i128) * (a.den as i128)
}

fn same_point(p: RatVec2, x: i128, y: i128, den: i128) -> bool {
    p.x * den == x * p.den && p.y * den == y * p.den
}

fn is_miss(r: &(bool, Option<RatVec2>, Option<RectCollisionSide>, Option<Ratio>)) -> bool {
    !r.0 && r.1.is_none() && r.2.is_none() && r.3.is_none()
}

#[test]
fn ray_through_box_hits_left_face_at_a_quarter() {
    let r = rect(0, 0, 10, 10);
    let out = r.is_ray_intersect(&ray(-5, 5, 15, 5));
    assert!(out.0);
    assert_eq!(out.2, Some(RectCollisionSide::Left));
    assert!(same(out.3.unwrap(), 1, 4));
    // start + end * t = (-5 + 15/4, 5 + 5/4)
    assert!(same_point(out.1.unwrap(), -5, 25, 4));
}

#[test]
fn ray_moving_left_hits_right_face() {
    let r = rect(0, 0, 10, 10);
    let out = r.is_ray_intersect(&ray(20, 5, 0, 5));
    assert!(out.0);
    assert_eq!(out.2, Some(RectCollisionSide::Right));
    assert!(same(out.3.unwrap(), 1, 2));
}

#[test]
fn ray_moving_down_hits_top_face() {
    let r = rect(0, 0, 10, 10);
    let out = r.is_ray_intersect(&ray(5, -10, 5, 10));
    assert!(out.0);
    assert_eq!(out.2, Some(RectCollisionSide::Top));
    assert!(same(out.3.unwrap(), 1, 2));
}

#[test]
fn ray_moving_up_hits_bottom_face() {
    let r = rect(0, 0, 10, 10);
    let out = r.is_ray_intersect(&ray(3, 30, 6, 10));
    assert!(out.0);
    assert_eq!(out.2, Some(RectCollisionSide::Bottom));
    assert!(same(out.3.unwrap(), 1, 1));
}

#[test]
fn time_of_impact_is_not_limited_to_the_segment() {
    let r = rect(0, 0, 10, 10);
    let out = r.is_ray_intersect(&ray(-20, 5, -10, 5));
    assert!(out.0);
    assert!(same(out.3.unwrap(), 2, 1));
}

#[test]
fn box_behind_the_ray_is_missed() {
    let r = rect(0, 0, 10, 10);
    assert!(is_miss(&r.is_ray_intersect(&ray(20, 20, 30, 31))));
}

#[test]
fn still_axis_inside_puts_no_bound_on_the_exit() {
    // the still axis exits at infinity, so a box behind the start is reported
    let r = rect(0, 0, 10, 10);
    let out = r.is_ray_intersect(&ray(20, 5, 30, 5));
    assert!(out.0);
    assert_eq!(out.2, Some(RectCollisionSide::Left));
    assert!(same(out.3.unwrap(), -2, 1));
}

#[test]
fn diagonal_entry_through_both_slabs_hits_top_left_corner() {
    let r = rect(0, 0, 10, 10);
    let out = r.is_ray_intersect(&ray(-5, -5, 5, 5));
    assert!(out.0);
    assert_eq!(out.2, Some(RectCollisionSide::TopLeft));
    assert!(same(out.3.unwrap(), 1, 2));
}

#[test]
fn diagonal_entries_give_the_other_corners() {
    let r = rect(0, 0, 10, 10);
    assert_eq!(r.is_ray_intersect(&ray(15, 15, 5, 5)).2, Some(RectCollisionSide::BottomRight));
    assert_eq!(r.is_ray_intersect(&ray(-5, 15, 5, 5)).2, Some(RectCollisionSide::BottomLeft));
    assert_eq!(r.is_ray_intersect(&ray(15, -5, 5, 5)).2, Some(RectCollisionSide::TopRight));
}

#[test]
fn ray_with_apart_slab_intervals_misses() {
    let r = rect(0, 0, 10, 10);
    // x interval [1/6, 1/2], y interval [-15, -5]
    let out = r.is_ray_intersect(&ray(-5, 15, 25, 16));
    assert!(is_miss(&out));
}

#[test]
fn still_axis_outside_the_box_misses() {
    let r = rect(0, 0, 10, 10);
    assert!(is_miss(&r.is_ray_intersect(&ray(-5, 20, 15, 20))));
    assert!(is_miss(&r.is_ray_intersect(&ray(20, -5, 20, 15))));
}

#[test]
fn still_axis_on_the_border_misses() {
    let r = rect(0, 0, 10, 10);
    assert!(is_miss(&r.is_ray_intersect(&ray(-5, 10, 15, 10))));
    assert!(is_miss(&r.is_ray_intersect(&ray(0, -5, 0, 15))));
}

#[test]
fn zero_length_ray_misses() {
    let r = rect(0, 0, 10, 10);
    assert!(is_miss(&r.is_ray_intersect(&ray(5, 5, 5, 5))));
}

#[test]
fn sweep_far_wall_not_reached_in_one_tick() {
    let wall = rect(30, 0, 20, 20);
    let mover = rect(0, 0, 20, 20);
    let out = wall.is_rect_collide(&mover, &Vec2::new(1, 0), &Vec2::new(100, 100), Ratio::new(1, 60));
    assert!(is_miss(&out));
}

#[test]
fn sweep_reaches_wall_once_the_gap_closes() {
    let wall = rect(30, 0, 20, 20);
    let mut mover = rect(0, 0, 20, 20);
    let mut ticks = 0;
    loop {
        let out =
            wall.is_rect_collide(&mover, &Vec2::new(1, 0), &Vec2::new(100, 100), Ratio::new(1, 60));
        if out.0 {
            assert_eq!(out.2, Some(RectCollisionSide::Left));
            let t = out.3.unwrap();
            assert!(t.num >= 0 && t.num <= t.den);
            break;
        }
        mover.translate(1, 0);
        ticks += 1;
        assert!(ticks < 20);
    }
    // contact once the gap is below 100 / 60
    assert_eq!(ticks, 9);
    let out = wall.is_rect_collide(&mover, &Vec2::new(1, 0), &Vec2::new(100, 100), Ratio::new(1, 60));
    // gap 1 over a step of 5/3
    assert!(same(out.3.unwrap(), 3, 5));
    // centre (19, 10) plus (19 + 5/3, 10) * 3/5
    assert!(same_point(out.1.unwrap(), 157, 80, 5));
}

#[test]
fn sweep_with_time_of_impact_one_counts() {
    let wall = rect(30, 0, 20, 20);
    let mover = rect(5, 0, 20, 20);
    // gap 5, step 5
    let out = wall.is_rect_collide(&mover, &Vec2::new(1, 0), &Vec2::new(5, 0), Ratio::new(1, 1));
    assert!(out.0);
    assert!(same(out.3.unwrap(), 1, 1));
    let out = wall.is_rect_collide(&mover, &Vec2::new(1, 0), &Vec2::new(4, 0), Ratio::new(1, 1));
    assert!(is_miss(&out));
}

#[test]
fn sweep_without_direction_reports_nothing() {
    let wall = rect(0, 0, 20, 20);
    let mover = rect(5, 5, 20, 20);
    let out = wall.is_rect_collide(&mover, &Vec2::new(0, 0), &Vec2::new(100, 100), Ratio::new(1, 60));
    assert!(is_miss(&out));
}

#[test]
fn sweep_twice_gives_the_same_report() {
    let wall = rect(30, 0, 20, 20);
    let mover = rect(9, 3, 20, 20);
    let a = wall.is_rect_collide(&mover, &Vec2::new(1, 0), &Vec2::new(100, 100), Ratio::new(1, 60));
    let b = wall.is_rect_collide(&mover, &Vec2::new(1, 0), &Vec2::new(100, 100), Ratio::new(1, 60));
    assert_eq!(a, b);
    assert!(a.0);
}

#[test]
fn sweep_downwards_meets_top_face() {
    let floor = rect(0, 40, 100, 10);
    let mover = rect(10, 0, 10, 10);
    // centre y 5, grown floor from y 35: distance 30 over a step of 40
    let out = floor.is_rect_collide(&mover, &Vec2::new(0, 1), &Vec2::new(0, 40), Ratio::new(1, 1));
    assert!(out.0);
    assert_eq!(out.2, Some(RectCollisionSide::Top));
    assert!(same(out.3.unwrap(), 3, 4));
}

#[test]
fn resolve_stop_right_scales_remaining_motion() {
    let v = resolve_collision_stop(RectCollisionSide::Right, &Vec2::new(100, 100), Ratio::new(1, 2), Ratio::new(1, 60));
    // 100 * 0.5 / 60 to the right, nothing vertically
    assert!(same_point(v, 5, 0, 6));
}

#[test]
fn resolve_stop_corner_uses_both_components() {
    let v = resolve_collision_stop(RectCollisionSide::TopLeft, &Vec2::new(30, 60), Ratio::new(1, 4), Ratio::new(1, 1));
    assert!(same_point(v, -90, -180, 4));
}

#[test]
fn resolve_stop_without_side_is_zero() {
    let v = resolve_collision_stop(RectCollisionSide::NoSide, &Vec2::new(30, 60), Ratio::new(1, 4), Ratio::new(1, 1));
    assert_eq!(v.x, 0);
    assert_eq!(v.y, 0);
}

#[test]
fn resolve_reflect_adds_rebound() {
    let v = resolve_collision_reflect(
        RectCollisionSide::Left,
        &Vec2::new(100, 100),
        Ratio::new(1, 2),
        Ratio::new(1, 60),
        Ratio::new(1, 2),
    );
    // -(100 * 0.5 / 60) * 1.5
    assert!(same_point(v, -5, 0, 4));
}

#[test]
fn side_codes_round_trip() {
    let all = [
        RectCollisionSide::NoSide,
        RectCollisionSide::Left,
        RectCollisionSide::Right,
        RectCollisionSide::Top,
        RectCollisionSide::Bottom,
        RectCollisionSide::TopLeft,
        RectCollisionSide::TopRight,
        RectCollisionSide::BottomLeft,
        RectCollisionSide::BottomRight,
    ];
    for s in all {
        assert_eq!(u32_to_rect_collision_side(rect_collision_side_to_u32(s)), s);
    }
    assert_eq!(rect_collision_side_to_u32(RectCollisionSide::TopLeft), 5);
    assert_eq!(rect_collision_side_to_u32(RectCollisionSide::BottomRight), 10);
    assert_eq!(u32_to_rect_collision_side(1 | 4), RectCollisionSide::TopLeft);
    assert_eq!(u32_to_rect_collision_side(3), RectCollisionSide::NoSide);
    assert_eq!(u32_to_rect_collision_side(100), RectCollisionSide::NoSide);
}

#[test]
fn side_normals() {
    assert_eq!(rect_collision_side_to_vec2(RectCollisionSide::Left), Vec2::new(-1, 0));
    assert_eq!(rect_collision_side_to_vec2(RectCollisionSide::Top), Vec2::new(0, -1));
    assert_eq!(rect_collision_side_to_vec2(RectCollisionSide::BottomRight), Vec2::new(1, 1));
    assert_eq!(rect_collision_side_to_vec2(RectCollisionSide::NoSide), Vec2::new(0, 0));
}

#[test]
fn each_side_is_corrected_once_per_frame() {
    let contacts = vec![
        Some(RectCollisionSide::Left),
        Some(RectCollisionSide::Left),
        None,
        Some(RectCollisionSide::TopLeft),
        Some(RectCollisionSide::NoSide),
        Some(RectCollisionSide::Bottom),
        Some(RectCollisionSide::BottomRight),
    ];
    let sides = new_contact_sides(&contacts);
    assert_eq!(
        sides,
        vec![
            Some(RectCollisionSide::Left),
            None,
            None,
            Some(RectCollisionSide::Top),
            None,
            Some(RectCollisionSide::Bottom),
            Some(RectCollisionSide::Right),
        ]
    );
    assert!(new_contact_sides(&vec![]).is_empty());
}
