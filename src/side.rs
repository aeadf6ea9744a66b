use crate::ratio::{lemma_mul_bound, RatVec2, Ratio};
use crate::vector::Vec2;
use vstd::prelude::*;

verus! {

/// The face, or corner, of a rectangle at which contact occurs. The grid's
/// `y` grows downwards, so `Top` is the face of smaller `y`.
#[derive(Clone, Copy, Debug, PartialEq, Eq, Structural)]
pub enum RectCollisionSide {
    NoSide,
    Left,
    Right,
    Top,
    Bottom,
    TopLeft,
    TopRight,
    BottomLeft,
    BottomRight,
}

/// The side as a bit set: `Left = 1`, `Right = 2`, `Top = 4`, `Bottom = 8`,
/// and each corner the union of its two faces.
pub open spec fn side_bits(side: RectCollisionSide) -> u32 {
    match side {
        RectCollisionSide::NoSide => 0,
        RectCollisionSide::Left => 1,
        RectCollisionSide::Right => 2,
        RectCollisionSide::Top => 4,
        RectCollisionSide::Bottom => 8,
        RectCollisionSide::TopLeft => 5,
        RectCollisionSide::TopRight => 6,
        RectCollisionSide::BottomLeft => 9,
        RectCollisionSide::BottomRight => 10,
    }
}

/// The outward unit normal of a side (each component `-1`, `0` or `1`).
pub open spec fn side_unit(side: RectCollisionSide) -> (int, int) {
    match side {
        RectCollisionSide::NoSide => (0, 0),
        RectCollisionSide::Left => (-1, 0),
        RectCollisionSide::Right => (1, 0),
        RectCollisionSide::Top => (0, -1),
        RectCollisionSide::Bottom => (0, 1),
        RectCollisionSide::TopLeft => (-1, -1),
        RectCollisionSide::TopRight => (1, -1),
        RectCollisionSide::BottomLeft => (-1, 1),
        RectCollisionSide::BottomRight => (1, 1),
    }
}

/// The bit-set code of a side.
pub fn rect_collision_side_to_u32(side: RectCollisionSide) -> (r: u32)
    ensures
        r == side_bits(side),
{
    match side {
        RectCollisionSide::NoSide => 0,
        RectCollisionSide::Left => 1,
        RectCollisionSide::Right => 2,
        RectCollisionSide::Top => 4,
        RectCollisionSide::Bottom => 8,
        RectCollisionSide::TopLeft => 5,
        RectCollisionSide::TopRight => 6,
        RectCollisionSide::BottomLeft => 9,
        RectCollisionSide::BottomRight => 10,
    }
}

/// The side whose bit-set code is `num`; `NoSide` for a code of no side.
pub open spec fn side_of_code(num: u32) -> RectCollisionSide {
    if num == 1 {
        RectCollisionSide::Left
    } else if num == 2 {
        RectCollisionSide::Right
    } else if num == 4 {
        RectCollisionSide::Top
    } else if num == 8 {
        RectCollisionSide::Bottom
    } else if num == 5 {
        RectCollisionSide::TopLeft
    } else if num == 6 {
        RectCollisionSide::TopRight
    } else if num == 9 {
        RectCollisionSide::BottomLeft
    } else if num == 10 {
        RectCollisionSide::BottomRight
    } else {
        RectCollisionSide::NoSide
    }
}

/// Decoding the code of a side gives the side back.
pub proof fn lemma_side_code_round_trip(side: RectCollisionSide)
    ensures
        side_of_code(side_bits(side)) == side,
{
}

/// The side whose bit-set code is `num`; `NoSide` for a code of no side.
pub fn u32_to_rect_collision_side(num: u32) -> (r: RectCollisionSide)
    ensures
        r == side_of_code(num),
{
    match num {
        1 => RectCollisionSide::Left,
        2 => RectCollisionSide::Right,
        4 => RectCollisionSide::Top,
        8 => RectCollisionSide::Bottom,
        5 => RectCollisionSide::TopLeft,
        6 => RectCollisionSide::TopRight,
        9 => RectCollisionSide::BottomLeft,
        10 => RectCollisionSide::BottomRight,
        _ => RectCollisionSide::NoSide,
    }
}

/// The outward unit normal of a side.
pub fn rect_collision_side_to_vec2(side: RectCollisionSide) -> (r: Vec2)
    ensures
        (r.x as int, r.y as int) == side_unit(side),
{
    match side {
        RectCollisionSide::NoSide => Vec2 { x: 0, y: 0 },
        RectCollisionSide::Left => Vec2 { x: -1, y: 0 },
        RectCollisionSide::Right => Vec2 { x: 1, y: 0 },
        RectCollisionSide::Top => Vec2 { x: 0, y: -1 },
        RectCollisionSide::Bottom => Vec2 { x: 0, y: 1 },
        RectCollisionSide::TopLeft => Vec2 { x: -1, y: -1 },
        RectCollisionSide::TopRight => Vec2 { x: 1, y: -1 },
        RectCollisionSide::BottomLeft => Vec2 { x: -1, y: 1 },
        RectCollisionSide::BottomRight => Vec2 { x: 1, y: 1 },
    }
}

/// The correction that cancels the motion left after contact:
/// `unit(side) * speed * (1 - contact_time) * time_step`, as a fraction over
/// `contact_time.den * time_step.den`.
pub fn resolve_collision_stop(
    side: RectCollisionSide,
    speed: &Vec2,
    contact_time: Ratio,
    time_step: Ratio,
) -> (r: RatVec2)
    requires
        contact_time.wf(),
        time_step.is_small(),
    ensures
        r.wf(),
        r.den == contact_time.den * time_step.den,
        r.x == side_unit(side).0 * speed.x * (contact_time.den - contact_time.num) * time_step.num,
        r.y == side_unit(side).1 * speed.y * (contact_time.den - contact_time.num) * time_step.num,
{
    let u = rect_collision_side_to_vec2(side);
    let rest = (contact_time.den as i128) - (contact_time.num as i128);
    proof {
        lemma_mul_bound(u.x as int, speed.x as int, 1, 0x8000);
        lemma_mul_bound(u.y as int, speed.y as int, 1, 0x8000);
    }
    let ux = (u.x as i128) * (speed.x as i128);
    let uy = (u.y as i128) * (speed.y as i128);
    proof {
        lemma_mul_bound(ux as int, rest as int, 0x8000, 0x1_0000_0000_0000_0000);
        lemma_mul_bound(uy as int, rest as int, 0x8000, 0x1_0000_0000_0000_0000);
        lemma_mul_bound(ux * rest, time_step.num as int, (0x8000 * 0x1_0000_0000_0000_0000) as int, 0x7fff);
        lemma_mul_bound(uy * rest, time_step.num as int, (0x8000 * 0x1_0000_0000_0000_0000) as int, 0x7fff);
        lemma_mul_bound(contact_time.den as int, time_step.den as int, 0x8000_0000_0000_0000, 0x7fff);
        assert(contact_time.den * time_step.den > 0) by (nonlinear_arith)
            requires
                contact_time.den > 0,
                time_step.den > 0,
        ;
    }
    RatVec2 {
        x: ux * rest * (time_step.num as i128),
        y: uy * rest * (time_step.num as i128),
        den: (contact_time.den as i128) * (time_step.den as i128),
    }
}

/// The stop correction with a rebound added: the same remaining motion, scaled
/// by `1 + reflect_speed_ratio`, over `contact_time.den * time_step.den *
/// reflect_speed_ratio.den`.
pub fn resolve_collision_reflect(
    side: RectCollisionSide,
    speed: &Vec2,
    contact_time: Ratio,
    time_step: Ratio,
    reflect_speed_ratio: Ratio,
) -> (r: RatVec2)
    requires
        contact_time.wf(),
        time_step.is_small(),
        reflect_speed_ratio.is_small(),
    ensures
        r.wf(),
        r.den == contact_time.den * time_step.den * reflect_speed_ratio.den,
        r.x == side_unit(side).0 * speed.x * (contact_time.den - contact_time.num) * time_step.num
            * (reflect_speed_ratio.den + reflect_speed_ratio.num),
        r.y == side_unit(side).1 * speed.y * (contact_time.den - contact_time.num) * time_step.num
            * (reflect_speed_ratio.den + reflect_speed_ratio.num),
{
    let stop = resolve_collision_stop(side, speed, contact_time, time_step);
    let grow = (reflect_speed_ratio.den as i128) + (reflect_speed_ratio.num as i128);
    proof {
        let big: int = (0x8000 * 0x1_0000_0000_0000_0000 * 0x7fff) as int;
        lemma_mul_bound(side_unit(side).0, speed.x as int, 1, 0x8000);
        lemma_mul_bound(side_unit(side).1, speed.y as int, 1, 0x8000);
        let rest = contact_time.den - contact_time.num;
        lemma_mul_bound(side_unit(side).0 * speed.x, rest, 0x8000, 0x1_0000_0000_0000_0000);
        lemma_mul_bound(side_unit(side).1 * speed.y, rest, 0x8000, 0x1_0000_0000_0000_0000);
        lemma_mul_bound(side_unit(side).0 * speed.x * rest, time_step.num as int, (0x8000 * 0x1_0000_0000_0000_0000) as int, 0x7fff);
        lemma_mul_bound(side_unit(side).1 * speed.y * rest, time_step.num as int, (0x8000 * 0x1_0000_0000_0000_0000) as int, 0x7fff);
        lemma_mul_bound(stop.x as int, grow as int, big, 0x10000);
        lemma_mul_bound(stop.y as int, grow as int, big, 0x10000);
        lemma_mul_bound(contact_time.den as int, time_step.den as int, 0x8000_0000_0000_0000, 0x7fff);
        lemma_mul_bound(stop.den as int, reflect_speed_ratio.den as int, (0x8000_0000_0000_0000 * 0x7fff) as int, 0x7fff);
        assert(stop.den * reflect_speed_ratio.den > 0) by (nonlinear_arith)
            requires
                stop.den > 0,
                reflect_speed_ratio.den > 0,
        ;
    }
    RatVec2 {
        x: stop.x * grow,
        y: stop.y * grow,
        den: stop.den * (reflect_speed_ratio.den as i128),
    }
}

} // verus!
