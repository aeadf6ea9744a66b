use crate::ratio::{lemma_mul_bound, RatVec2, Ratio};
use crate::side::RectCollisionSide;
use vstd::prelude::*;

verus! {

/// What a ray test or a sweep reports: whether it hit, the contact point, the
/// side of contact and the time of impact. On a miss the last three are `None`.
pub type Contact = (bool, Option<RatVec2>, Option<RectCollisionSide>, Option<Ratio>);

/// Coordinates the slab cast accepts: within `±2^47`, so that every product
/// it forms is exact in 128-bit arithmetic.
pub open spec fn in_cast_range(v: int) -> bool {
    -0x8000_0000_0000 <= v <= 0x8000_0000_0000
}

pub open spec fn min_int(a: int, b: int) -> int {
    if a <= b {
        a
    } else {
        b
    }
}

pub open spec fn max_int(a: int, b: int) -> int {
    if a <= b {
        b
    } else {
        a
    }
}

pub open spec fn abs_of(v: int) -> int {
    if v < 0 {
        -v
    } else {
        v
    }
}

/// `v` lies strictly between the two bounds `a` and `b`, in either order.
pub open spec fn strictly_between(v: int, a: int, b: int) -> bool {
    min_int(a, b) < v < max_int(a, b)
}

/// For a ray starting at `s` with a nonzero step `d` along one axis, the
/// numerator, over `|d|`, of the parameter at which it enters the slab
/// between `lo` and `hi`.
pub open spec fn slab_entry(lo: int, hi: int, s: int, d: int) -> int {
    if d > 0 {
        min_int(lo, hi) - s
    } else {
        s - max_int(lo, hi)
    }
}

/// The numerator, over `|d|`, of the parameter at which the ray leaves the slab.
pub open spec fn slab_exit(lo: int, hi: int, s: int, d: int) -> int {
    if d > 0 {
        max_int(lo, hi) - s
    } else {
        s - min_int(lo, hi)
    }
}

/// The corner met when the ray enters both slabs at once.
pub open spec fn corner_side(dx: int, dy: int) -> RectCollisionSide {
    if dx > 0 && dy > 0 {
        RectCollisionSide::TopLeft
    } else if dx < 0 && dy < 0 {
        RectCollisionSide::BottomRight
    } else if dx > 0 && dy < 0 {
        RectCollisionSide::BottomLeft
    } else if dx < 0 && dy > 0 {
        RectCollisionSide::TopRight
    } else {
        RectCollisionSide::NoSide
    }
}

/// The slab method for the ray from `(sx, sy)` to `(ex, ey)` against the box
/// with corners `(lx, ly)` and `(hx, hy)`: whether it hits, the time of impact
/// as numerator and positive denominator, and the side of contact.
///
/// An axis along which the ray does not move puts no bound on the time when
/// the start lies strictly inside that slab, and rules out a hit otherwise
/// (outside the slab the quotients are infinite with the same sign; on its
/// border they are undefined). A ray of zero length never hits. Otherwise the
/// ray misses when the two slabs' intervals are apart or when both exits lie
/// before the start; the time of impact is the later entry, and the side is the
/// face of the later slab, or a corner when both entries coincide.
pub open spec fn cast(lx: int, ly: int, hx: int, hy: int, sx: int, sy: int, ex: int, ey: int) -> (
    bool,
    int,
    int,
    RectCollisionSide,
) {
    let dx = ex - sx;
    let dy = ey - sy;
    if dx == 0 && dy == 0 {
        (false, 0, 1, RectCollisionSide::NoSide)
    } else if dx == 0 {
        (
            strictly_between(sx, lx, hx),
            slab_entry(ly, hy, sy, dy),
            abs_of(dy),
            if dy < 0 {
                RectCollisionSide::Bottom
            } else {
                RectCollisionSide::Top
            },
        )
    } else if dy == 0 {
        (
            strictly_between(sy, ly, hy),
            slab_entry(lx, hx, sx, dx),
            abs_of(dx),
            if dx < 0 {
                RectCollisionSide::Right
            } else {
                RectCollisionSide::Left
            },
        )
    } else {
        let ax = slab_entry(lx, hx, sx, dx);
        let bx = slab_exit(lx, hx, sx, dx);
        let ay = slab_entry(ly, hy, sy, dy);
        let by = slab_exit(ly, hy, sy, dy);
        let px = abs_of(dx);
        let py = abs_of(dy);
        let apart = ax * py > by * px || ay * px > bx * py;
        let behind = bx < 0 && by < 0;
        if ax * py > ay * px {
            (
                !apart && !behind,
                ax,
                px,
                if dx < 0 {
                    RectCollisionSide::Right
                } else {
                    RectCollisionSide::Left
                },
            )
        } else if ax * py < ay * px {
            (
                !apart && !behind,
                ay,
                py,
                if dy < 0 {
                    RectCollisionSide::Bottom
                } else {
                    RectCollisionSide::Top
                },
            )
        } else {
            (!apart && !behind, ay, py, corner_side(dx, dy))
        }
    }
}

/// `r` reports a hit with the given contact point (as `x`, `y` numerators over a
/// common denominator), side and time (numerator over denominator), or, when
/// `hit` is false, a miss with nothing else.
pub open spec fn reports(
    r: Contact,
    hit: bool,
    point: (int, int, int),
    side: RectCollisionSide,
    time: (int, int),
) -> bool {
    if hit {
        &&& r.0
        &&& r.1 is Some
        &&& r.1->0.x == point.0
        &&& r.1->0.y == point.1
        &&& r.1->0.den == point.2
        &&& r.2 == Some(side)
        &&& r.3 is Some
        &&& r.3->0.num == time.0
        &&& r.3->0.den == time.1
    } else {
        r == (false, None::<RatVec2>, None::<RectCollisionSide>, None::<Ratio>)
    }
}

/// The contact point `start + end * t` with `t = tn / td`, over the denominator
/// `td * scale`.
pub open spec fn contact_point(sx: int, sy: int, ex: int, ey: int, tn: int, td: int, scale: int) -> (
    int,
    int,
    int,
) {
    (sx * td + ex * tn, sy * td + ey * tn, td * scale)
}

/// Two reports that meet the same description are the same value.
pub proof fn lemma_reports_unique(
    r1: Contact,
    r2: Contact,
    hit: bool,
    point: (int, int, int),
    side: RectCollisionSide,
    time: (int, int),
)
    requires
        reports(r1, hit, point, side, time),
        reports(r2, hit, point, side, time),
    ensures
        r1 == r2,
{
    if hit {
        assert(r1.1->0 == r2.1->0);
        assert(r1.3->0 == r2.3->0);
    }
}

fn entry(lo: i64, hi: i64, s: i64, d: i64) -> (r: i64)
    requires
        in_cast_range(lo as int),
        in_cast_range(hi as int),
        in_cast_range(s as int),
        d != 0,
    ensures
        r == slab_entry(lo as int, hi as int, s as int, d as int),
{
    if d > 0 {
        (if lo <= hi { lo } else { hi }) - s
    } else {
        s - (if lo <= hi { hi } else { lo })
    }
}

fn exit(lo: i64, hi: i64, s: i64, d: i64) -> (r: i64)
    requires
        in_cast_range(lo as int),
        in_cast_range(hi as int),
        in_cast_range(s as int),
        d != 0,
    ensures
        r == slab_exit(lo as int, hi as int, s as int, d as int),
{
    if d > 0 {
        (if lo <= hi { hi } else { lo }) - s
    } else {
        s - (if lo <= hi { lo } else { hi })
    }
}

fn miss() -> (r: Contact)
    ensures
        r == (false, None::<RatVec2>, None::<RectCollisionSide>, None::<Ratio>),
{
    (false, None, None, None)
}

/// The hit at time `tn / td`, with its contact point `start + end * t`.
fn hit_at(sx: i64, sy: i64, ex: i64, ey: i64, tn: i64, td: i64, side: RectCollisionSide) -> (r:
    Contact)
    requires
        in_cast_range(sx as int),
        in_cast_range(sy as int),
        in_cast_range(ex as int),
        in_cast_range(ey as int),
        -0x1_0000_0000_0000 <= tn <= 0x1_0000_0000_0000,
        0 < td <= 0x1_0000_0000_0000,
    ensures
        reports(
            r,
            true,
            contact_point(sx as int, sy as int, ex as int, ey as int, tn as int, td as int, 1),
            side,
            (tn as int, td as int),
        ),
{
    proof {
        lemma_mul_bound(sx as int, td as int, 0x8000_0000_0000, 0x1_0000_0000_0000);
        lemma_mul_bound(sy as int, td as int, 0x8000_0000_0000, 0x1_0000_0000_0000);
        lemma_mul_bound(ex as int, tn as int, 0x8000_0000_0000, 0x1_0000_0000_0000);
        lemma_mul_bound(ey as int, tn as int, 0x8000_0000_0000, 0x1_0000_0000_0000);
    }
    let x = (sx as i128) * (td as i128) + (ex as i128) * (tn as i128);
    let y = (sy as i128) * (td as i128) + (ey as i128) * (tn as i128);
    (true, Some(RatVec2 { x, y, den: td as i128 }), Some(side), Some(Ratio { num: tn, den: td }))
}

/// The slab method of `cast`, carried out exactly.
pub fn cast_ray(lx: i64, ly: i64, hx: i64, hy: i64, sx: i64, sy: i64, ex: i64, ey: i64) -> (r:
    Contact)
    requires
        in_cast_range(lx as int),
        in_cast_range(ly as int),
        in_cast_range(hx as int),
        in_cast_range(hy as int),
        in_cast_range(sx as int),
        in_cast_range(sy as int),
        in_cast_range(ex as int),
        in_cast_range(ey as int),
    ensures
        ({
            let c = cast(
                lx as int,
                ly as int,
                hx as int,
                hy as int,
                sx as int,
                sy as int,
                ex as int,
                ey as int,
            );
            reports(
                r,
                c.0,
                contact_point(sx as int, sy as int, ex as int, ey as int, c.1, c.2, 1),
                c.3,
                (c.1, c.2),
            )
        }),
{
    let dx = ex - sx;
    let dy = ey - sy;
    if dx == 0 && dy == 0 {
        return miss();
    }
    if dx == 0 {
        let inside = (lx < sx && sx < hx) || (hx < sx && sx < lx);
        if !inside {
            return miss();
        }
        let td = if dy < 0 { -dy } else { dy };
        let side = if dy < 0 { RectCollisionSide::Bottom } else { RectCollisionSide::Top };
        return hit_at(sx, sy, ex, ey, entry(ly, hy, sy, dy), td, side);
    }
    if dy == 0 {
        let inside = (ly < sy && sy < hy) || (hy < sy && sy < ly);
        if !inside {
            return miss();
        }
        let td = if dx < 0 { -dx } else { dx };
        let side = if dx < 0 { RectCollisionSide::Right } else { RectCollisionSide::Left };
        return hit_at(sx, sy, ex, ey, entry(lx, hx, sx, dx), td, side);
    }
    let ax = entry(lx, hx, sx, dx);
    let bx = exit(lx, hx, sx, dx);
    let ay = entry(ly, hy, sy, dy);
    let by = exit(ly, hy, sy, dy);
    let px = if dx < 0 { -dx } else { dx };
    let py = if dy < 0 { -dy } else { dy };
    proof {
        let b: int = 0x1_0000_0000_0000;
        lemma_mul_bound(ax as int, py as int, b, b);
        lemma_mul_bound(bx as int, py as int, b, b);
        lemma_mul_bound(ay as int, px as int, b, b);
        lemma_mul_bound(by as int, px as int, b, b);
    }
    let ax_py = (ax as i128) * (py as i128);
    let bx_py = (bx as i128) * (py as i128);
    let ay_px = (ay as i128) * (px as i128);
    let by_px = (by as i128) * (px as i128);
    if ax_py > by_px || ay_px > bx_py {
        return miss();
    }
    if bx < 0 && by < 0 {
        return miss();
    }
    if ax_py > ay_px {
        let side = if dx < 0 { RectCollisionSide::Right } else { RectCollisionSide::Left };
        hit_at(sx, sy, ex, ey, ax, px, side)
    } else if ax_py < ay_px {
        let side = if dy < 0 { RectCollisionSide::Bottom } else { RectCollisionSide::Top };
        hit_at(sx, sy, ex, ey, ay, py, side)
    } else {
        let side = if dx > 0 && dy > 0 {
            RectCollisionSide::TopLeft
        } else if dx < 0 && dy < 0 {
            RectCollisionSide::BottomRight
        } else if dx > 0 && dy < 0 {
            RectCollisionSide::BottomLeft
        } else {
            RectCollisionSide::TopRight
        };
        hit_at(sx, sy, ex, ey, ay, py, side)
    }
}

} // verus!
