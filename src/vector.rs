use vstd::prelude::*;

verus! {

/// A displacement on the integer grid. Coordinates are `i16`, so that every
/// product the collision code forms stays exact in 128-bit arithmetic.
#[derive(Clone, Copy, Debug, PartialEq, Eq, Structural)]
pub struct Vec2 {
    pub x: i16,
    pub y: i16,
}

/// Whether a value fits in an `i16`.
pub open spec fn in_i16(v: int) -> bool {
    i16::MIN <= v <= i16::MAX
}

/// `|v|` over the integers.
pub open spec fn abs_int(v: int) -> int {
    if v < 0 {
        -v
    } else {
        v
    }
}

/// A product of two `i16` values lies within `±2^30`.
pub proof fn lemma_i16_product(a: int, b: int)
    requires
        in_i16(a),
        in_i16(b),
    ensures
        -0x4000_0000 <= a * b <= 0x4000_0000,
{
    assert(-0x4000_0000 <= a * b <= 0x4000_0000) by (nonlinear_arith)
        requires
            -0x8000 <= a <= 0x7fff,
            -0x8000 <= b <= 0x7fff,
    ;
}

/// A pair of per-component booleans, the result of the comparison methods.
pub type BoolPair = (bool, bool);

impl Vec2 {
    pub fn new(x: i16, y: i16) -> (r: Vec2)
        ensures
            r.x == x,
            r.y == y,
    {
        Vec2 { x, y }
    }

    /// The vector with both components zero.
    pub fn zero() -> (r: Vec2)
        ensures
            r.x == 0,
            r.y == 0,
    {
        Vec2 { x: 0, y: 0 }
    }

    pub fn add(&self, o: &Vec2) -> (r: Vec2)
        requires
            in_i16(self.x + o.x),
            in_i16(self.y + o.y),
        ensures
            r.x == self.x + o.x,
            r.y == self.y + o.y,
    {
        Vec2 { x: self.x + o.x, y: self.y + o.y }
    }

    pub fn sub(&self, o: &Vec2) -> (r: Vec2)
        requires
            in_i16(self.x - o.x),
            in_i16(self.y - o.y),
        ensures
            r.x == self.x - o.x,
            r.y == self.y - o.y,
    {
        Vec2 { x: self.x - o.x, y: self.y - o.y }
    }

    /// Component-wise product.
    pub fn mul(&self, o: &Vec2) -> (r: Vec2)
        requires
            in_i16(self.x * o.x),
            in_i16(self.y * o.y),
        ensures
            r.x == self.x * o.x,
            r.y == self.y * o.y,
    {
        Vec2 { x: self.x * o.x, y: self.y * o.y }
    }

    /// Both components multiplied by `k`.
    pub fn scale(&self, k: i16) -> (r: Vec2)
        requires
            in_i16(self.x * k),
            in_i16(self.y * k),
        ensures
            r.x == self.x * k,
            r.y == self.y * k,
    {
        Vec2 { x: self.x * k, y: self.y * k }
    }

    pub fn dot(&self, o: &Vec2) -> (r: i64)
        ensures
            r == self.x * o.x + self.y * o.y,
    {
        proof {
            lemma_i16_product(self.x as int, o.x as int);
            lemma_i16_product(self.y as int, o.y as int);
        }
        (self.x as i64) * (o.x as i64) + (self.y as i64) * (o.y as i64)
    }

    /// The vector turned a quarter turn: `(-y, x)`.
    pub fn perp(&self) -> (r: Vec2)
        requires
            self.y != i16::MIN,
        ensures
            r.x == -self.y,
            r.y == self.x,
    {
        Vec2 { x: -self.y, y: self.x }
    }

    /// The perpendicular dot product `x * o.y - y * o.x`.
    pub fn perp_dot(&self, o: &Vec2) -> (r: i64)
        ensures
            r == self.x * o.y - self.y * o.x,
    {
        proof {
            lemma_i16_product(self.x as int, o.y as int);
            lemma_i16_product(self.y as int, o.x as int);
        }
        (self.x as i64) * (o.y as i64) - (self.y as i64) * (o.x as i64)
    }

    pub fn length_squared(&self) -> (r: i64)
        ensures
            r == self.x * self.x + self.y * self.y,
    {
        self.dot(self)
    }

    pub fn distance_squared(&self, o: &Vec2) -> (r: i64)
        ensures
            r == (self.x - o.x) * (self.x - o.x) + (self.y - o.y) * (self.y - o.y),
    {
        let dx = (self.x as i64) - (o.x as i64);
        let dy = (self.y as i64) - (o.y as i64);
        assert(dx * dx <= 0x1_0000_0000) by (nonlinear_arith)
            requires
                -0x10000 <= dx <= 0x10000,
        ;
        assert(dy * dy <= 0x1_0000_0000) by (nonlinear_arith)
            requires
                -0x10000 <= dy <= 0x10000,
        ;
        assert(dx * dx >= 0 && dy * dy >= 0) by (nonlinear_arith);
        dx * dx + dy * dy
    }

    pub fn abs(&self) -> (r: Vec2)
        requires
            self.x != i16::MIN,
            self.y != i16::MIN,
        ensures
            r.x == abs_int(self.x as int),
            r.y == abs_int(self.y as int),
    {
        Vec2 {
            x: if self.x < 0 { -self.x } else { self.x },
            y: if self.y < 0 { -self.y } else { self.y },
        }
    }

    pub fn cmpeq(&self, o: &Vec2) -> (r: BoolPair)
        ensures
            r == (self.x == o.x, self.y == o.y),
    {
        (self.x == o.x, self.y == o.y)
    }

    pub fn cmpne(&self, o: &Vec2) -> (r: BoolPair)
        ensures
            r == (self.x != o.x, self.y != o.y),
    {
        (self.x != o.x, self.y != o.y)
    }

    pub fn cmpge(&self, o: &Vec2) -> (r: BoolPair)
        ensures
            r == (self.x >= o.x, self.y >= o.y),
    {
        (self.x >= o.x, self.y >= o.y)
    }

    pub fn cmpgt(&self, o: &Vec2) -> (r: BoolPair)
        ensures
            r == (self.x > o.x, self.y > o.y),
    {
        (self.x > o.x, self.y > o.y)
    }

    pub fn cmple(&self, o: &Vec2) -> (r: BoolPair)
        ensures
            r == (self.x <= o.x, self.y <= o.y),
    {
        (self.x <= o.x, self.y <= o.y)
    }

    pub fn cmplt(&self, o: &Vec2) -> (r: BoolPair)
        ensures
            r == (self.x < o.x, self.y < o.y),
    {
        (self.x < o.x, self.y < o.y)
    }
}

/// A location on the grid, as opposed to a displacement.
#[derive(Clone, Copy, Debug, PartialEq, Eq, Structural)]
pub struct Point(pub Vec2);

impl Point {
    pub fn new(x: i16, y: i16) -> (r: Point)
        ensures
            r.0.x == x,
            r.0.y == y,
    {
        Point(Vec2 { x, y })
    }

    pub fn x(&self) -> (r: i16)
        ensures
            r == self.0.x,
    {
        self.0.x
    }

    pub fn y(&self) -> (r: i16)
        ensures
            r == self.0.y,
    {
        self.0.y
    }

    pub fn get(&self) -> (r: (i16, i16))
        ensures
            r == (self.0.x, self.0.y),
    {
        (self.0.x, self.0.y)
    }

    pub fn get_vec2(&self) -> (r: Vec2)
        ensures
            r == self.0,
    {
        self.0
    }

    /// Moves the point to `(x, y)`.
    pub fn update(&mut self, x: i16, y: i16)
        ensures
            final(self).0.x == x,
            final(self).0.y == y,
    {
        self.0.x = x;
        self.0.y = y;
    }

    /// The point displaced by `v`.
    pub fn offset(&self, v: &Vec2) -> (r: Point)
        requires
            in_i16(self.0.x + v.x),
            in_i16(self.0.y + v.y),
        ensures
            r.0.x == self.0.x + v.x,
            r.0.y == self.0.y + v.y,
    {
        Point(self.0.add(v))
    }

    /// The displacement that leads from `o` to this point.
    pub fn diff(&self, o: &Point) -> (r: Vec2)
        requires
            in_i16(self.0.x - o.0.x),
            in_i16(self.0.y - o.0.y),
        ensures
            r.x == self.0.x - o.0.x,
            r.y == self.0.y - o.0.y,
    {
        self.0.sub(&o.0)
    }
}

} // verus!
