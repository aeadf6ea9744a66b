use crate::ratio::Ratio;
use crate::rect::{contains_rect, ray_cast, sweep_reports, Ray, Rect};
use crate::side::RectCollisionSide;
use crate::slab::{abs_of, lemma_reports_unique, slab_entry, slab_exit, strictly_between, Contact};
use crate::vector::Vec2;
use vstd::prelude::*;

verus! {

/// Two well-formed rectangles that each contain the other are the same
/// rectangle.
pub proof fn lemma_mutual_containment_equal(a: Rect, b: Rect)
    requires
        a.wf(),
        b.wf(),
        contains_rect(a, b),
        contains_rect(b, a),
    ensures
        a == b,
{
    assert(a.upper_left.0 == b.upper_left.0);
    assert(a.lower_right.0 == b.lower_right.0);
}

/// A ray that moves along both axes, and whose interval inside one slab ends
/// before its interval inside the other begins, does not hit.
pub proof fn lemma_apart_slabs_miss(rect: Rect, ray: Ray)
    requires
        ({
            let (lx, ly) = (rect.upper_left.0.x as int, rect.upper_left.0.y as int);
            let (hx, hy) = (rect.lower_right.0.x as int, rect.lower_right.0.y as int);
            let (sx, sy) = (ray.start.0.x as int, ray.start.0.y as int);
            let dx = ray.end.0.x - sx;
            let dy = ray.end.0.y - sy;
            &&& dx != 0
            &&& dy != 0
            &&& slab_entry(lx, hx, sx, dx) * abs_of(dy) > slab_exit(ly, hy, sy, dy) * abs_of(dx)
                || slab_entry(ly, hy, sy, dy) * abs_of(dx) > slab_exit(lx, hx, sx, dx) * abs_of(
                dy,
            )
        }),
    ensures
        !ray_cast(rect, ray).0,
{
}

/// A ray that does not move along one axis, and whose start is not strictly
/// inside the rectangle's extent on that axis, does not hit.
pub proof fn lemma_still_axis_outside_miss(rect: Rect, ray: Ray)
    requires
        (ray.end.0.x == ray.start.0.x && !strictly_between(
            ray.start.0.x as int,
            rect.upper_left.0.x as int,
            rect.lower_right.0.x as int,
        )) || (ray.end.0.y == ray.start.0.y && !strictly_between(
            ray.start.0.y as int,
            rect.upper_left.0.y as int,
            rect.lower_right.0.y as int,
        )),
    ensures
        !ray_cast(rect, ray).0,
{
}

/// The swept test is a function of its inputs: two reports for the same inputs
/// are equal.
pub proof fn lemma_collide_deterministic(
    r1: Contact,
    r2: Contact,
    s: Rect,
    m: Rect,
    dir: Vec2,
    speed: Vec2,
    ts: Ratio,
)
    requires
        sweep_reports(r1, s, m, dir, speed, ts),
        sweep_reports(r2, s, m, dir, speed, ts),
    ensures
        r1 == r2,
{
    if dir.x == 0 && dir.y == 0 {
    } else {
        let g = crate::rect::sweep_geometry(s, m, dir, speed, ts);
        let c = crate::slab::cast(g.0, g.1, g.2, g.3, g.4, g.5, g.6, g.7);
        lemma_reports_unique(
            r1,
            r2,
            c.0 && 0 <= c.1 <= c.2,
            crate::slab::contact_point(g.4, g.5, g.6, g.7, c.1, c.2, 2 * ts.den),
            c.3,
            (c.1, c.2),
        );
    }
}

/// A ray moving right and down that enters both slabs at the same time and
/// hits, hits the top-left corner.
pub proof fn lemma_equal_entries_top_left(rect: Rect, ray: Ray)
    requires
        ({
            let (lx, ly) = (rect.upper_left.0.x as int, rect.upper_left.0.y as int);
            let (hx, hy) = (rect.lower_right.0.x as int, rect.lower_right.0.y as int);
            let (sx, sy) = (ray.start.0.x as int, ray.start.0.y as int);
            let dx = ray.end.0.x - sx;
            let dy = ray.end.0.y - sy;
            &&& dx > 0
            &&& dy > 0
            &&& slab_entry(lx, hx, sx, dx) * dy == slab_entry(ly, hy, sy, dy) * dx
        }),
        ray_cast(rect, ray).0,
    ensures
        ray_cast(rect, ray).3 == RectCollisionSide::TopLeft,
{
}

} // verus!
