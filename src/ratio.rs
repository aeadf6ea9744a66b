use vstd::prelude::*;

verus! {

/// An exact fraction `num / den`. Well-formed when `den > 0`.
#[derive(Clone, Copy, Debug, PartialEq, Eq, Structural)]
pub struct Ratio {
    pub num: i64,
    pub den: i64,
}

/// A point or vector with rational coordinates `(x / den, y / den)`.
/// Well-formed when `den > 0`.
#[derive(Clone, Copy, Debug, PartialEq, Eq, Structural)]
pub struct RatVec2 {
    pub x: i128,
    pub y: i128,
    pub den: i128,
}

/// `|a * b| <= ba * bb` whenever `|a| <= ba` and `|b| <= bb`.
pub proof fn lemma_mul_bound(a: int, b: int, ba: int, bb: int)
    requires
        -ba <= a <= ba,
        -bb <= b <= bb,
    ensures
        -(ba * bb) <= a * b <= ba * bb,
{
    assert(-(ba * bb) <= a * b <= ba * bb) by (nonlinear_arith)
        requires
            -ba <= a <= ba,
            -bb <= b <= bb,
    ;
}

impl Ratio {
    pub open spec fn wf(&self) -> bool {
        self.den > 0
    }

    /// Numerator and denominator both within the `i16` range, the denominator
    /// positive: the size of fraction that time steps and ratios may have.
    pub open spec fn is_small(&self) -> bool {
        &&& 0 < self.den <= 0x7fff
        &&& -0x7fff <= self.num <= 0x7fff
    }

    pub fn new(num: i64, den: i64) -> (r: Ratio)
        requires
            den > 0,
        ensures
            r.num == num,
            r.den == den,
    {
        Ratio { num, den }
    }

    /// Whether the fraction lies in `[0, 1]`.
    pub fn in_unit_interval(&self) -> (r: bool)
        requires
            self.wf(),
        ensures
            r == (0 <= self.num <= self.den),
    {
        0 <= self.num && self.num <= self.den
    }
}

impl RatVec2 {
    pub open spec fn wf(&self) -> bool {
        self.den > 0
    }
}

} // verus!
