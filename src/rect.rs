use crate::ratio::{lemma_mul_bound, RatVec2, Ratio};
use crate::side::RectCollisionSide;
use crate::slab::{cast, cast_ray, contact_point, reports, Contact};
use crate::vector::{in_i16, Point, Vec2};
use vstd::prelude::*;

verus! {

/// A directed segment from `start` to `end`.
#[derive(Clone, Copy, Debug, PartialEq, Eq, Structural)]
pub struct Ray {
    pub start: Point,
    pub end: Point,
}

/// An axis-aligned rectangle. The grid's `y` grows downwards: `upper_left`
/// holds the smaller coordinates and `lower_right` the larger ones.
#[derive(Clone, Copy, Debug, PartialEq, Eq, Structural)]
pub struct Rect {
    pub upper_left: Point,
    pub lower_right: Point,
    pub width: i32,
    pub height: i32,
}

/// The arguments a rectangle can be built from.
pub trait IntoRect: Sized {
    /// The arguments describe a rectangle that fits on the grid.
    spec fn into_ok(&self) -> bool;

    /// The rectangle the arguments describe.
    spec fn rect_of(&self) -> Rect;

    fn into(self) -> (r: Rect)
        requires
            self.into_ok(),
        ensures
            r == self.rect_of(),
            r.wf(),
    ;
}

/// Two opposite corners, in any order.
impl IntoRect for (Point, Point) {
    open spec fn into_ok(&self) -> bool {
        true
    }

    open spec fn rect_of(&self) -> Rect {
        let (a, b) = *self;
        let lx = if a.0.x <= b.0.x { a.0.x } else { b.0.x };
        let hx = if a.0.x <= b.0.x { b.0.x } else { a.0.x };
        let ly = if a.0.y <= b.0.y { a.0.y } else { b.0.y };
        let hy = if a.0.y <= b.0.y { b.0.y } else { a.0.y };
        Rect {
            upper_left: Point(Vec2 { x: lx, y: ly }),
            lower_right: Point(Vec2 { x: hx, y: hy }),
            width: (hx - lx) as i32,
            height: (hy - ly) as i32,
        }
    }

    fn into(self) -> (r: Rect) {
        let (a, b) = self;
        let lx = if a.0.x <= b.0.x { a.0.x } else { b.0.x };
        let hx = if a.0.x <= b.0.x { b.0.x } else { a.0.x };
        let ly = if a.0.y <= b.0.y { a.0.y } else { b.0.y };
        let hy = if a.0.y <= b.0.y { b.0.y } else { a.0.y };
        Rect {
            upper_left: Point(Vec2 { x: lx, y: ly }),
            lower_right: Point(Vec2 { x: hx, y: hy }),
            width: (hx as i32) - (lx as i32),
            height: (hy as i32) - (ly as i32),
        }
    }
}

/// The upper-left corner, the width and the height.
impl IntoRect for (Point, i32, i32) {
    open spec fn into_ok(&self) -> bool {
        let (ul, w, h) = *self;
        &&& w >= 0
        &&& h >= 0
        &&& in_i16(ul.0.x + w)
        &&& in_i16(ul.0.y + h)
    }

    open spec fn rect_of(&self) -> Rect {
        let (ul, w, h) = *self;
        Rect {
            upper_left: ul,
            lower_right: Point(Vec2 { x: (ul.0.x + w) as i16, y: (ul.0.y + h) as i16 }),
            width: w,
            height: h,
        }
    }

    fn into(self) -> (r: Rect) {
        let (ul, w, h) = self;
        let lr = Point(Vec2 { x: ((ul.0.x as i32) + w) as i16, y: ((ul.0.y as i32) + h) as i16 });
        Rect { upper_left: ul, lower_right: lr, width: w, height: h }
    }
}

/// The point `(x, y)` lies in `r`, borders included.
pub open spec fn point_in(r: Rect, x: int, y: int) -> bool {
    &&& r.upper_left.0.x <= x <= r.lower_right.0.x
    &&& r.upper_left.0.y <= y <= r.lower_right.0.y
}

/// `b` lies within `a`'s corner bounds, borders included.
pub open spec fn contains_rect(a: Rect, b: Rect) -> bool {
    &&& a.upper_left.0.x <= b.upper_left.0.x
    &&& a.upper_left.0.y <= b.upper_left.0.y
    &&& a.lower_right.0.x >= b.lower_right.0.x
    &&& a.lower_right.0.y >= b.lower_right.0.y
}

/// One of `b`'s four corners lies in `a`. This misses a `b` that crosses `a`
/// with no corner inside it.
pub open spec fn corner_inside(a: Rect, b: Rect) -> bool {
    let (x, y) = (b.upper_left.0.x as int, b.upper_left.0.y as int);
    ||| point_in(a, x, y)
    ||| point_in(a, b.lower_right.0.x as int, b.lower_right.0.y as int)
    ||| point_in(a, x + b.width, y)
    ||| point_in(a, x, y + b.height)
}

/// The slab cast of `ray` against `rect`.
pub open spec fn ray_cast(rect: Rect, ray: Ray) -> (bool, int, int, RectCollisionSide) {
    cast(
        rect.upper_left.0.x as int,
        rect.upper_left.0.y as int,
        rect.lower_right.0.x as int,
        rect.lower_right.0.y as int,
        ray.start.0.x as int,
        ray.start.0.y as int,
        ray.end.0.x as int,
        ray.end.0.y as int,
    )
}

/// `r` is what the ray test of `ray` against `rect` reports: the contact point
/// is `start + end * t`.
pub open spec fn ray_reports(r: Contact, rect: Rect, ray: Ray) -> bool {
    let c = ray_cast(rect, ray);
    reports(
        r,
        c.0,
        contact_point(
            ray.start.0.x as int,
            ray.start.0.y as int,
            ray.end.0.x as int,
            ray.end.0.y as int,
            c.1,
            c.2,
            1,
        ),
        c.3,
        (c.1, c.2),
    )
}

/// The sweep of `m` along `dir * speed * ts`, in coordinates scaled by
/// `2 * ts.den` so that every value involved is an integer: the box of `s`
/// grown by half of `m`'s extent on each side, and the ray from `m`'s centre
/// to the centre moved by the step. Returns the box corners `(lx, ly, hx, hy)`
/// and the ray `(ox, oy, ex, ey)`.
pub open spec fn sweep_geometry(s: Rect, m: Rect, dir: Vec2, speed: Vec2, ts: Ratio) -> (
    int,
    int,
    int,
    int,
    int,
    int,
    int,
    int,
) {
    let k = 2 * ts.den;
    let q = ts.den as int;
    let lx = k * s.upper_left.0.x - q * m.width;
    let ly = k * s.upper_left.0.y - q * m.height;
    let hx = lx + k * (s.width + m.width);
    let hy = ly + k * (s.height + m.height);
    let ox = k * m.upper_left.0.x + q * m.width;
    let oy = k * m.upper_left.0.y + q * m.height;
    let ex = ox + 2 * (dir.x * speed.x * ts.num);
    let ey = oy + 2 * (dir.y * speed.y * ts.num);
    (lx, ly, hx, hy, ox, oy, ex, ey)
}

/// `r` is what the swept test of `m` against `s` reports: nothing when `dir` is
/// zero; else the ray test of the sweep, kept only when its time of impact lies
/// in `[0, 1]`, with the contact point scaled back to grid units.
pub open spec fn sweep_reports(r: Contact, s: Rect, m: Rect, dir: Vec2, speed: Vec2, ts: Ratio) -> bool {
    if dir.x == 0 && dir.y == 0 {
        reports(r, false, (0, 0, 1), RectCollisionSide::NoSide, (0, 1))
    } else {
        let g = sweep_geometry(s, m, dir, speed, ts);
        let c = cast(g.0, g.1, g.2, g.3, g.4, g.5, g.6, g.7);
        reports(
            r,
            c.0 && 0 <= c.1 <= c.2,
            contact_point(g.4, g.5, g.6, g.7, c.1, c.2, 2 * ts.den),
            c.3,
            (c.1, c.2),
        )
    }
}

impl Rect {
    /// Corners ordered, and width and height their distances.
    pub open spec fn wf(&self) -> bool {
        &&& self.width == self.lower_right.0.x - self.upper_left.0.x
        &&& self.height == self.lower_right.0.y - self.upper_left.0.y
        &&& self.width >= 0
        &&& self.height >= 0
    }

    pub fn new<A: IntoRect>(args: A) -> (r: Rect)
        requires
            args.into_ok(),
        ensures
            r == args.rect_of(),
            r.wf(),
    {
        args.into()
    }

    /// `width * height`; never negative for a well-formed rectangle.
    pub fn area(&self) -> (r: i64)
        ensures
            r == self.width * self.height,
            self.wf() ==> r >= 0,
    {
        proof {
            lemma_mul_bound(self.width as int, self.height as int, 0x8000_0000, 0x8000_0000);
            if self.wf() {
                assert(self.width * self.height >= 0) by (nonlinear_arith)
                    requires
                        self.width >= 0,
                        self.height >= 0,
                ;
            }
        }
        (self.width as i64) * (self.height as i64)
    }

    /// Shifts both corners by `(delta_x, delta_y)`.
    pub fn translate(&mut self, delta_x: i16, delta_y: i16)
        requires
            in_i16(old(self).upper_left.0.x + delta_x),
            in_i16(old(self).upper_left.0.y + delta_y),
            in_i16(old(self).lower_right.0.x + delta_x),
            in_i16(old(self).lower_right.0.y + delta_y),
        ensures
            final(self).upper_left.0.x == old(self).upper_left.0.x + delta_x,
            final(self).upper_left.0.y == old(self).upper_left.0.y + delta_y,
            final(self).lower_right.0.x == old(self).lower_right.0.x + delta_x,
            final(self).lower_right.0.y == old(self).lower_right.0.y + delta_y,
            final(self).width == old(self).width,
            final(self).height == old(self).height,
            old(self).wf() ==> final(self).wf(),
    {
        let delta = Vec2 { x: delta_x, y: delta_y };
        self.upper_left = self.upper_left.offset(&delta);
        self.lower_right = self.lower_right.offset(&delta);
    }

    /// Whether `r2` lies within this rectangle, borders included.
    pub fn is_rect_inside(&self, r2: &Rect) -> (r: bool)
        ensures
            r == contains_rect(*self, *r2),
    {
        self.upper_left.0.x <= r2.upper_left.0.x && self.upper_left.0.y <= r2.upper_left.0.y
            && self.lower_right.0.x >= r2.lower_right.0.x && self.lower_right.0.y
            >= r2.lower_right.0.y
    }

    /// Whether `p` lies in this rectangle, borders included.
    pub fn is_point_inside(&self, p: &Point) -> (r: bool)
        ensures
            r == point_in(*self, p.0.x as int, p.0.y as int),
    {
        self.upper_left.0.x <= p.0.x && self.upper_left.0.y <= p.0.y && self.lower_right.0.x
            >= p.0.x && self.lower_right.0.y >= p.0.y
    }

    fn holds(&self, x: i32, y: i32) -> (r: bool)
        ensures
            r == point_in(*self, x as int, y as int),
    {
        (self.upper_left.0.x as i32) <= x && (self.upper_left.0.y as i32) <= y
            && (self.lower_right.0.x as i32) >= x && (self.lower_right.0.y as i32) >= y
    }

    /// Whether one of `r2`'s corners lies in this rectangle. A rectangle that
    /// crosses this one with no corner inside it is not detected.
    pub fn is_rect_intersect(&self, r2: &Rect) -> (r: bool)
        requires
            r2.wf(),
        ensures
            r == corner_inside(*self, *r2),
    {
        let x = r2.upper_left.0.x as i32;
        let y = r2.upper_left.0.y as i32;
        self.holds(x, y) || self.holds(r2.lower_right.0.x as i32, r2.lower_right.0.y as i32)
            || self.holds(x + r2.width, y) || self.holds(x, y + r2.height)
    }

    /// The slab test of `ray` against this rectangle: hit, contact point
    /// `start + end * t`, side of contact and time of impact `t`. The time is
    /// not limited to `[0, 1]`.
    pub fn is_ray_intersect(&self, ray: &Ray) -> (r: Contact)
        ensures
            ray_reports(r, *self, *ray),
    {
        cast_ray(
            self.upper_left.0.x as i64,
            self.upper_left.0.y as i64,
            self.lower_right.0.x as i64,
            self.lower_right.0.y as i64,
            ray.start.0.x as i64,
            ray.start.0.y as i64,
            ray.end.0.x as i64,
            ray.end.0.y as i64,
        )
    }

    /// The swept test of `r2`, moving by `r2_direction * r2_speed * time_step`,
    /// against this rectangle: `r2` shrinks to its centre and this rectangle
    /// grows by half of `r2`'s extent on each side; a contact counts when the
    /// time of impact lies in `[0, 1]`. No direction, no contact. The time
    /// step's numerator and denominator stay within the `i16` range, which
    /// keeps the scaled sweep within the slab cast's coordinate range.
    pub fn is_rect_collide(&self, r2: &Rect, r2_direction: &Vec2, r2_speed: &Vec2, time_step: Ratio) -> (r:
        Contact)
        requires
            self.wf(),
            r2.wf(),
            time_step.is_small(),
        ensures
            sweep_reports(r, *self, *r2, *r2_direction, *r2_speed, time_step),
            r2_direction.x == 0 && r2_direction.y == 0 ==> !r.0,
    {
        if r2_direction.x == 0 && r2_direction.y == 0 {
            return (false, None, None, None);
        }
        let ghost g = sweep_geometry(*self, *r2, *r2_direction, *r2_speed, time_step);
        let q = time_step.den;
        let k = 2 * q;
        proof {
            lemma_mul_bound(k as int, self.upper_left.0.x as int, 0x10000, 0x8000);
            lemma_mul_bound(k as int, self.upper_left.0.y as int, 0x10000, 0x8000);
            lemma_mul_bound(k as int, r2.upper_left.0.x as int, 0x10000, 0x8000);
            lemma_mul_bound(k as int, r2.upper_left.0.y as int, 0x10000, 0x8000);
            lemma_mul_bound(q as int, r2.width as int, 0x8000, 0x10000);
            lemma_mul_bound(q as int, r2.height as int, 0x8000, 0x10000);
            lemma_mul_bound(k as int, self.width + r2.width, 0x10000, 0x20000);
            lemma_mul_bound(k as int, self.height + r2.height, 0x10000, 0x20000);
            lemma_mul_bound(r2_direction.x as int, r2_speed.x as int, 0x8000, 0x8000);
            lemma_mul_bound(r2_direction.y as int, r2_speed.y as int, 0x8000, 0x8000);
            lemma_mul_bound(r2_direction.x * r2_speed.x, time_step.num as int, 0x4000_0000, 0x8000);
            lemma_mul_bound(r2_direction.y * r2_speed.y, time_step.num as int, 0x4000_0000, 0x8000);
        }
        let lx = k * (self.upper_left.0.x as i64) - q * (r2.width as i64);
        let ly = k * (self.upper_left.0.y as i64) - q * (r2.height as i64);
        let hx = lx + k * ((self.width as i64) + (r2.width as i64));
        let hy = ly + k * ((self.height as i64) + (r2.height as i64));
        let ox = k * (r2.upper_left.0.x as i64) + q * (r2.width as i64);
        let oy = k * (r2.upper_left.0.y as i64) + q * (r2.height as i64);
        let ex = ox + 2 * ((r2_direction.x as i64) * (r2_speed.x as i64) * time_step.num);
        let ey = oy + 2 * ((r2_direction.y as i64) * (r2_speed.y as i64) * time_step.num);
        assert(g == (lx as int, ly as int, hx as int, hy as int, ox as int, oy as int, ex as int, ey as int));
        let c = cast_ray(lx, ly, hx, hy, ox, oy, ex, ey);
        match c {
            (true, Some(p), Some(side), Some(t)) => {
                if t.in_unit_interval() {
                    proof {
                        lemma_mul_bound(p.den as int, k as int, 0x1_0000_0000_0000, 0x10000);
                    }
                    (true, Some(RatVec2 { x: p.x, y: p.y, den: p.den * (k as i128) }), Some(side), Some(t))
                } else {
                    (false, None, None, None)
                }
            },
            _ => (false, None, None, None),
        }
    }
}

} // verus!
