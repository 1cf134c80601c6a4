//! Saturating fixed-point numbers with six decimal places.
//!
//! Every length, coordinate and angle of the crate is a [`Scalar`]: an integer
//! count of millionths, kept inside `[-LIMIT, LIMIT]`. Arithmetic never wraps:
//! a result outside the range is pinned to the nearest bound, and the two
//! bounds play the part of the infinities.

use vstd::prelude::*;

verus! {

/// Largest magnitude a [`Scalar`] can hold, in millionths (2^40).
pub const LIMIT: i64 = 1_099_511_627_776;

/// The raw value of the number one.
pub const ONE: i64 = 1_000_000;

/// `v` pinned to `[-LIMIT, LIMIT]`.
pub open spec fn saturate(v: int) -> int {
    if v < -LIMIT {
        -LIMIT as int
    } else if v > LIMIT {
        LIMIT as int
    } else {
        v
    }
}

/// Quotient of `a` by a positive `b`, rounded toward zero.
pub open spec fn trunc_div(a: int, b: int) -> int
    recommends
        b > 0,
{
    if a >= 0 {
        a / b
    } else {
        -((-a) / b)
    }
}

/// Absolute value of an integer.
pub open spec fn magnitude(v: int) -> int {
    if v < 0 {
        -v
    } else {
        v
    }
}

/// Quotient of `a` by a non-zero `b`, rounded toward zero.
pub open spec fn signed_div(a: int, b: int) -> int
    recommends
        b != 0,
{
    if b > 0 {
        trunc_div(a, b)
    } else {
        trunc_div(-a, -b)
    }
}

/// The whole part of `v` millionths, and zero for a negative `v`.
pub open spec fn count_of(v: int) -> int {
    if v < 0 {
        0
    } else {
        v / (ONE as int)
    }
}

/// `trunc_div` never grows a magnitude, and keeps a value inside a symmetric bound.
pub proof fn lemma_trunc_div_bounds(a: int, b: int, bound: int)
    requires
        b > 0,
        -bound <= a <= bound,
    ensures
        -bound <= trunc_div(a, b) <= bound,
        a >= 0 ==> 0 <= trunc_div(a, b) <= a,
        a <= 0 ==> a <= trunc_div(a, b) <= 0,
{
    if a >= 0 {
        assert(0 <= a / b <= a) by (nonlinear_arith)
            requires
                a >= 0,
                b > 0,
        ;
    } else {
        assert(0 <= (-a) / b <= -a) by (nonlinear_arith)
            requires
                -a >= 0,
                b > 0,
        ;
    }
}

/// The product of two bounded integers is bounded by the product of the bounds.
pub proof fn lemma_mul_bounds(a: int, b: int, ba: int, bb: int)
    requires
        -ba <= a <= ba,
        -bb <= b <= bb,
    ensures
        -(ba * bb) <= a * b <= ba * bb,
{
    assert(-(ba * bb) <= a * b <= ba * bb) by (nonlinear_arith)
        requires
            -ba <= a <= ba,
            -bb <= b <= bb,
    ;
}

/// A fixed-point number: `raw` millionths, always within `[-LIMIT, LIMIT]`.
#[derive(Debug, Copy, Clone, PartialEq, Eq, Structural, PartialOrd, Ord, Hash)]
pub struct Scalar {
    raw: i64,
}

impl View for Scalar {
    type V = int;

    /// The number of millionths.
    closed spec fn view(&self) -> int {
        self.raw as int
    }
}

impl Scalar {
    #[verifier::type_invariant]
    closed spec fn in_range(self) -> bool {
        -LIMIT <= self.raw <= LIMIT
    }

    /// The scalar of `raw` millionths, pinned to the range.
    pub fn new(raw: i64) -> (s: Scalar)
        ensures
            s@ == saturate(raw as int),
            s == Scalar::of(raw as int),
    {
        let r: i64 = if raw < -LIMIT {
            -LIMIT
        } else if raw > LIMIT {
            LIMIT
        } else {
            raw
        };
        Scalar { raw: r }
    }

    /// The scalar of `wide` millionths, pinned to the range.
    pub fn from_wide(wide: i128) -> (s: Scalar)
        ensures
            s@ == saturate(wide as int),
            s == Scalar::of(wide as int),
    {
        let r: i64 = if wide < -(LIMIT as i128) {
            -LIMIT
        } else if wide > LIMIT as i128 {
            LIMIT
        } else {
            wide as i64
        };
        Scalar { raw: r }
    }

    /// The whole number `units`.
    pub fn from_units(units: i32) -> (s: Scalar)
        ensures
            s@ == saturate(units as int * ONE as int),
            s == Scalar::of(units as int * ONE as int),
    {
        proof {
            lemma_mul_bounds(units as int, ONE as int, 0x8000_0000, ONE as int);
        }
        Scalar::from_wide((units as i128) * (ONE as i128))
    }

    /// Zero.
    pub fn zero() -> (s: Scalar)
        ensures
            s@ == 0,
            s == Scalar::of(0),
    {
        Scalar { raw: 0 }
    }

    /// The upper bound of the range, which stands for plus infinity.
    pub fn max_value() -> (s: Scalar)
        ensures
            s@ == LIMIT,
            s == Scalar::of(LIMIT as int),
    {
        Scalar { raw: LIMIT }
    }

    /// The lower bound of the range, which stands for minus infinity.
    pub fn min_value() -> (s: Scalar)
        ensures
            s@ == -LIMIT,
            s == Scalar::of(-LIMIT as int),
    {
        Scalar { raw: -LIMIT }
    }

    /// The number of millionths.
    pub fn raw(&self) -> (r: i64)
        ensures
            r == self@,
            -LIMIT <= r <= LIMIT,
    {
        proof {
            use_type_invariant(self);
        }
        self.raw
    }

    /// Saturating sum.
    pub fn add(self, rhs: Scalar) -> (s: Scalar)
        ensures
            s@ == saturate(self@ + rhs@),
            s == Scalar::of(self@ + rhs@),
    {
        Scalar::new(self.raw() + rhs.raw())
    }

    /// Saturating difference.
    pub fn sub(self, rhs: Scalar) -> (s: Scalar)
        ensures
            s@ == saturate(self@ - rhs@),
            s == Scalar::of(self@ - rhs@),
    {
        Scalar::new(self.raw() - rhs.raw())
    }

    /// The opposite number; the range is symmetric, so this is exact.
    pub fn negate(self) -> (s: Scalar)
        ensures
            s@ == -self@,
            s == Scalar::of(-self@),
    {
        Scalar::new(-self.raw())
    }

    /// The absolute value.
    pub fn abs(self) -> (s: Scalar)
        ensures
            s@ == magnitude(self@),
            s == Scalar::of(magnitude(self@)),
    {
        if self.raw() < 0 {
            self.negate()
        } else {
            self
        }
    }

    /// Half of the number, rounded toward zero.
    pub fn half(self) -> (s: Scalar)
        ensures
            s@ == trunc_div(self@, 2),
            s == Scalar::of(trunc_div(self@, 2)),
    {
        let r: i64 = self.raw();
        proof {
            lemma_trunc_div_bounds(r as int, 2, LIMIT as int);
        }
        Scalar::new(r / 2)
    }

    /// Twice the number, saturating.
    pub fn double(self) -> (s: Scalar)
        ensures
            s@ == saturate(2 * self@),
            s == Scalar::of(2 * self@),
    {
        Scalar::new(self.raw() * 2)
    }

    /// The smaller of two numbers.
    pub fn min(self, rhs: Scalar) -> (s: Scalar)
        ensures
            s@ == (if rhs@ < self@ { rhs@ } else { self@ }),
            s == (if rhs@ < self@ { rhs } else { self }),
    {
        if rhs.raw() < self.raw() {
            rhs
        } else {
            self
        }
    }

    /// The larger of two numbers.
    pub fn max(self, rhs: Scalar) -> (s: Scalar)
        ensures
            s@ == (if rhs@ > self@ { rhs@ } else { self@ }),
            s == (if rhs@ > self@ { rhs } else { self }),
    {
        if rhs.raw() > self.raw() {
            rhs
        } else {
            self
        }
    }

    /// Fixed-point product: the exact product of the two numbers, rounded toward
    /// zero to six decimals and saturated.
    pub fn mul(self, rhs: Scalar) -> (s: Scalar)
        ensures
            s@ == saturate(trunc_div(self@ * rhs@, ONE as int)),
            s == Scalar::of(trunc_div(self@ * rhs@, ONE as int)),
    {
        let a: i128 = self.raw() as i128;
        let b: i128 = rhs.raw() as i128;
        proof {
            lemma_mul_bounds(a as int, b as int, LIMIT as int, LIMIT as int);
        }
        let p: i128 = a * b;
        Scalar::from_wide(p / (ONE as i128))
    }

    /// The number multiplied by a whole count, saturating.
    pub fn times(self, count: u32) -> (s: Scalar)
        ensures
            s@ == saturate(self@ * count as int),
            s == Scalar::of(self@ * count as int),
    {
        let a: i128 = self.raw() as i128;
        let c: i128 = count as i128;
        proof {
            lemma_mul_bounds(a as int, c as int, LIMIT as int, 0xffff_ffff);
        }
        Scalar::from_wide(a * c)
    }

    /// Fixed-point quotient, rounded toward zero to six decimals and saturated;
    /// `None` exactly when the divisor is zero.
    pub fn checked_div(self, rhs: Scalar) -> (q: Option<Scalar>)
        ensures
            rhs@ == 0 <==> q is None,
            q matches Some(s) ==> s@ == saturate(signed_div(self@ * ONE as int, rhs@)) && s == Scalar::of(
                signed_div(self@ * ONE as int, rhs@),
            ),
    {
        let b: i128 = rhs.raw() as i128;
        if b == 0 {
            return None;
        }
        let a: i128 = self.raw() as i128;
        proof {
            lemma_mul_bounds(a as int, ONE as int, LIMIT as int, ONE as int);
        }
        let n: i128 = a * (ONE as i128);
        let q: i128 = if b > 0 {
            n / b
        } else {
            (-n) / (-b)
        };
        Some(Scalar::from_wide(q))
    }

    /// The number multiplied by `numerator` and divided by `denominator`, with
    /// no rounding in between; `None` exactly when the denominator is zero.
    pub fn scaled(self, numerator: Scalar, denominator: Scalar) -> (q: Option<Scalar>)
        ensures
            denominator@ == 0 <==> q is None,
            q matches Some(s) ==> s == Scalar::of(signed_div(self@ * numerator@, denominator@)),
    {
        let d: i128 = denominator.raw() as i128;
        if d == 0 {
            return None;
        }
        let a: i128 = self.raw() as i128;
        let b: i128 = numerator.raw() as i128;
        proof {
            lemma_mul_bounds(a as int, b as int, LIMIT as int, LIMIT as int);
        }
        let n: i128 = a * b;
        let q: i128 = if d > 0 {
            n / d
        } else {
            (-n) / (-d)
        };
        Some(Scalar::from_wide(q))
    }

    /// The whole part of a number that is not negative, and zero for one that is.
    pub fn to_count(self) -> (n: u32)
        ensures
            n == count_of(self@),
    {
        let r: i64 = self.raw();
        if r < 0 {
            0
        } else {
            (r / ONE) as u32
        }
    }

    /// Whether the number is zero.
    pub fn is_zero(self) -> (b: bool)
        ensures
            b == (self@ == 0),
    {
        self.raw() == 0
    }

    /// Whether the two numbers are equal.
    pub fn equals(self, rhs: Scalar) -> (b: bool)
        ensures
            b == (self@ == rhs@),
            b == (self == rhs),
    {
        self.raw() == rhs.raw()
    }

    /// The scalar of value `v` pinned to the range, for use in specifications.
    pub closed spec fn of(v: int) -> Scalar {
        Scalar { raw: saturate(v) as i64 }
    }

    /// `Scalar::of(v)` has the value `v` pinned to the range.
    pub broadcast proof fn lemma_of(v: int)
        ensures
            #[trigger] Scalar::of(v)@ == saturate(v),
    {
    }

    /// Numbers with the same value are the same scalar.
    pub proof fn lemma_view_injective(a: Scalar, b: Scalar)
        ensures
            a@ == b@ <==> a == b,
    {
    }
}

impl std::ops::Neg for Scalar {
    type Output = Scalar;

    /// The opposite number.
    fn neg(self) -> (s: Scalar) {
        self.negate()
    }
}

impl vstd::std_specs::ops::NegSpecImpl for Scalar {
    open spec fn obeys_neg_spec() -> bool {
        true
    }

    open spec fn neg_req(self) -> bool {
        true
    }

    open spec fn neg_spec(self) -> Scalar {
        Scalar::of(-self@)
    }
}

pub broadcast group group_scalar {
    Scalar::lemma_of,
}

} // verus!
