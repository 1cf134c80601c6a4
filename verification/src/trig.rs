//! Integer trigonometry on fixed-point degrees.
//!
//! Angles are [`Scalar`]s in degrees, so one raw unit is a millionth of a
//! degree and every multiple of a quarter turn is exact. Sines and cosines are
//! integers scaled by [`TRIG_ONE`]. They are computed from the Taylor
//! polynomials of the first half quadrant; everything else is symmetry.

use vstd::prelude::*;
use crate::fixed::{lemma_mul_bounds, magnitude, saturate, trunc_div, Scalar, LIMIT};

verus! {

/// The value that stands for a sine or cosine of exactly one.
pub const TRIG_ONE: i64 = 1_000_000_000;

/// A full turn, in millionths of a degree.
pub const FULL_TURN: i64 = 360_000_000;

/// Half a turn, in millionths of a degree.
pub const HALF_TURN: i64 = 180_000_000;

/// A quarter turn, in millionths of a degree.
pub const QUARTER_TURN: i64 = 90_000_000;

/// An eighth of a turn, in millionths of a degree.
pub const EIGHTH_TURN: i64 = 45_000_000;

/// Internal scale of the polynomial evaluation (10^18).
pub const POLY_ONE: i128 = 1_000_000_000_000_000_000;

/// Radians per millionth of a degree, scaled by `POLY_ONE`.
pub const RADIANS_PER_UNIT: i128 = 17_453_292_520;

/// `POLY_ONE / TRIG_ONE`.
pub const POLY_PER_TRIG: i128 = 1_000_000_000;

/// One Horner step of an alternating Taylor series: `1 - x2 * t / k`.
pub open spec fn poly_step(x2: int, t: int, k: int) -> int {
    POLY_ONE - ((x2 * t) / (POLY_ONE as int)) / k
}

/// The angle of `d` millionths of a degree in radians, scaled by `POLY_ONE`.
pub open spec fn poly_radians(d: int) -> int {
    d * RADIANS_PER_UNIT
}

/// The square of `poly_radians(d)`, scaled by `POLY_ONE`.
pub open spec fn poly_radians_squared(d: int) -> int {
    (poly_radians(d) * poly_radians(d)) / (POLY_ONE as int)
}

/// A value of scale `POLY_ONE` rounded to the nearest value of scale `TRIG_ONE`.
pub open spec fn poly_round(v: int) -> int {
    (v + POLY_PER_TRIG / 2) / (POLY_PER_TRIG as int)
}

/// Sine of `d` millionths of a degree, `0 <= d <= EIGHTH_TURN`: the Taylor
/// polynomial of degree eleven, evaluated in fixed point.
#[verifier::opaque]
pub open spec fn octant_sin(d: int) -> int {
    let x2 = poly_radians_squared(d);
    let t5 = poly_step(x2, POLY_ONE as int, 110);
    let t4 = poly_step(x2, t5, 72);
    let t3 = poly_step(x2, t4, 42);
    let t2 = poly_step(x2, t3, 20);
    let t1 = poly_step(x2, t2, 6);
    poly_round((poly_radians(d) * t1) / (POLY_ONE as int))
}

/// Cosine of `d` millionths of a degree, `0 <= d <= EIGHTH_TURN`: the Taylor
/// polynomial of degree twelve, evaluated in fixed point.
#[verifier::opaque]
pub open spec fn octant_cos(d: int) -> int {
    let x2 = poly_radians_squared(d);
    let u6 = poly_step(x2, POLY_ONE as int, 132);
    let u5 = poly_step(x2, u6, 90);
    let u4 = poly_step(x2, u5, 56);
    let u3 = poly_step(x2, u4, 30);
    let u2 = poly_step(x2, u3, 12);
    let u1 = poly_step(x2, u2, 2);
    poly_round(u1)
}

/// An angle brought into `[0, FULL_TURN)`.
pub open spec fn wrap_turn(a: int) -> int {
    a % (FULL_TURN as int)
}

/// Sine of an angle of the first quadrant, `0 <= d < QUARTER_TURN`.
pub open spec fn quadrant_sin(d: int) -> int {
    if d <= EIGHTH_TURN {
        octant_sin(d)
    } else {
        octant_cos(QUARTER_TURN - d)
    }
}

/// Cosine of an angle of the first quadrant, `0 <= d < QUARTER_TURN`.
pub open spec fn quadrant_cos(d: int) -> int {
    if d <= EIGHTH_TURN {
        octant_cos(d)
    } else {
        octant_sin(QUARTER_TURN - d)
    }
}

/// Sine of `a` millionths of a degree, scaled by `TRIG_ONE`.
pub open spec fn sin_spec(a: int) -> int {
    let m = wrap_turn(a);
    let q = m / (QUARTER_TURN as int);
    let d = m % (QUARTER_TURN as int);
    if q == 0 {
        quadrant_sin(d)
    } else if q == 1 {
        quadrant_cos(d)
    } else if q == 2 {
        -quadrant_sin(d)
    } else {
        -quadrant_cos(d)
    }
}

/// Cosine of `a` millionths of a degree, scaled by `TRIG_ONE`.
pub open spec fn cos_spec(a: int) -> int {
    let m = wrap_turn(a);
    let q = m / (QUARTER_TURN as int);
    let d = m % (QUARTER_TURN as int);
    if q == 0 {
        quadrant_cos(d)
    } else if q == 1 {
        -quadrant_sin(d)
    } else if q == 2 {
        -quadrant_cos(d)
    } else {
        quadrant_sin(d)
    }
}

/// A Horner step keeps its value between zero and one.
pub proof fn lemma_poly_step_bounds(x2: int, t: int, k: int)
    requires
        0 <= x2 <= POLY_ONE,
        0 <= t <= POLY_ONE,
        k >= 1,
    ensures
        0 <= x2 * t <= POLY_ONE * POLY_ONE,
        0 <= poly_step(x2, t, k) <= POLY_ONE,
{
    assert(0 <= x2 * t <= POLY_ONE * POLY_ONE) by (nonlinear_arith)
        requires
            0 <= x2 <= POLY_ONE,
            0 <= t <= POLY_ONE,
    ;
    let p = x2 * t;
    assert(0 <= p / (POLY_ONE as int) <= POLY_ONE) by (nonlinear_arith)
        requires
            0 <= p <= POLY_ONE * POLY_ONE,
    ;
    let q = p / (POLY_ONE as int);
    assert(0 <= q / k <= q) by (nonlinear_arith)
        requires
            0 <= q,
            k >= 1,
    ;
}

/// The angle in radians and its square stay between zero and one on the octant.
pub proof fn lemma_poly_radians_bounds(d: int)
    requires
        0 <= d <= EIGHTH_TURN,
    ensures
        0 <= poly_radians(d) <= POLY_ONE,
        0 <= poly_radians(d) * poly_radians(d) <= POLY_ONE * POLY_ONE,
        0 <= poly_radians_squared(d) <= POLY_ONE,
{
    let x = poly_radians(d);
    assert(0 <= x <= POLY_ONE) by (nonlinear_arith)
        requires
            0 <= d <= 45_000_000,
            x == d * 17_453_292_520,
    ;
    assert(0 <= x * x <= POLY_ONE * POLY_ONE) by (nonlinear_arith)
        requires
            0 <= x <= POLY_ONE,
    ;
    let p = x * x;
    assert(0 <= p / (POLY_ONE as int) <= POLY_ONE) by (nonlinear_arith)
        requires
            0 <= p <= POLY_ONE * POLY_ONE,
    ;
}

/// On the octant, sine and cosine lie between zero and one.
pub proof fn lemma_octant_bounds(d: int)
    requires
        0 <= d <= EIGHTH_TURN,
    ensures
        0 <= octant_sin(d) <= TRIG_ONE,
        0 <= octant_cos(d) <= TRIG_ONE,
{
    reveal(octant_sin);
    reveal(octant_cos);
    lemma_poly_radians_bounds(d);
    let x = poly_radians(d);
    let x2 = poly_radians_squared(d);
    lemma_poly_step_bounds(x2, POLY_ONE as int, 110);
    let t5 = poly_step(x2, POLY_ONE as int, 110);
    lemma_poly_step_bounds(x2, t5, 72);
    let t4 = poly_step(x2, t5, 72);
    lemma_poly_step_bounds(x2, t4, 42);
    let t3 = poly_step(x2, t4, 42);
    lemma_poly_step_bounds(x2, t3, 20);
    let t2 = poly_step(x2, t3, 20);
    lemma_poly_step_bounds(x2, t2, 6);
    let t1 = poly_step(x2, t2, 6);
    lemma_poly_step_bounds(x, t1, 1);
    lemma_poly_step_bounds(x2, POLY_ONE as int, 132);
    let u6 = poly_step(x2, POLY_ONE as int, 132);
    lemma_poly_step_bounds(x2, u6, 90);
    let u5 = poly_step(x2, u6, 90);
    lemma_poly_step_bounds(x2, u5, 56);
    let u4 = poly_step(x2, u5, 56);
    lemma_poly_step_bounds(x2, u4, 30);
    let u3 = poly_step(x2, u4, 30);
    lemma_poly_step_bounds(x2, u3, 12);
    let u2 = poly_step(x2, u3, 12);
    lemma_poly_step_bounds(x2, u2, 2);
}

/// Sine and cosine never leave `[-TRIG_ONE, TRIG_ONE]`.
pub proof fn lemma_sin_cos_bounds(a: int)
    ensures
        -TRIG_ONE <= sin_spec(a) <= TRIG_ONE,
        -TRIG_ONE <= cos_spec(a) <= TRIG_ONE,
{
    let m = wrap_turn(a);
    let d = m % (QUARTER_TURN as int);
    if d <= EIGHTH_TURN {
        lemma_octant_bounds(d);
    } else {
        lemma_octant_bounds(QUARTER_TURN - d);
    }
}

/// At the four axis directions sine and cosine are exact.
pub proof fn lemma_sin_cos_axes()
    ensures
        sin_spec(0) == 0 && cos_spec(0) == TRIG_ONE,
        sin_spec(QUARTER_TURN as int) == TRIG_ONE && cos_spec(QUARTER_TURN as int) == 0,
        sin_spec(HALF_TURN as int) == 0 && cos_spec(HALF_TURN as int) == -TRIG_ONE,
        sin_spec(-QUARTER_TURN as int) == -TRIG_ONE && cos_spec(-QUARTER_TURN as int) == 0,
        sin_spec(FULL_TURN as int) == 0 && cos_spec(FULL_TURN as int) == TRIG_ONE,
{
    reveal(octant_sin);
    reveal(octant_cos);
    assert(octant_sin(0) == 0);
    assert(octant_cos(0) == TRIG_ONE);
}

/// Shifting an angle by whole turns changes neither sine nor cosine.
pub proof fn lemma_sin_cos_periodic(a: int, turns: int)
    ensures
        sin_spec(a + turns * FULL_TURN) == sin_spec(a),
        cos_spec(a + turns * FULL_TURN) == cos_spec(a),
{
    vstd::arithmetic::div_mod::lemma_mod_multiples_vanish(turns, a, FULL_TURN as int);
    assert(a + turns * FULL_TURN == FULL_TURN * turns + a) by (nonlinear_arith);
}

/// A quarter turn further, the sine is the cosine and the cosine is the
/// opposite of the sine.
pub proof fn lemma_sin_cos_quarter_turn(a: int)
    ensures
        sin_spec(a + QUARTER_TURN) == cos_spec(a),
        cos_spec(a + QUARTER_TURN) == -sin_spec(a),
{
    let f = FULL_TURN as int;
    let q = QUARTER_TURN as int;
    let m = wrap_turn(a);
    let n = wrap_turn(a + q);
    assert(0 <= m < f);
    assert(n == (if m + q < f { m + q } else { m + q - f })) by {
        vstd::arithmetic::div_mod::lemma_add_mod_noop(a, q, f);
        vstd::arithmetic::div_mod::lemma_small_mod(q as nat, f as nat);
        if m + q < f {
            vstd::arithmetic::div_mod::lemma_small_mod((m + q) as nat, f as nat);
        } else {
            vstd::arithmetic::div_mod::lemma_mod_multiples_vanish(-1, m + q, f);
            vstd::arithmetic::div_mod::lemma_small_mod((m + q - f) as nat, f as nat);
        }
    }
}

/// Half a turn further, sine and cosine change their signs.
pub proof fn lemma_sin_cos_half_turn(a: int)
    ensures
        sin_spec(a + HALF_TURN) == -sin_spec(a),
        cos_spec(a + HALF_TURN) == -cos_spec(a),
{
    lemma_sin_cos_quarter_turn(a);
    lemma_sin_cos_quarter_turn(a + QUARTER_TURN);
}

/// On the diagonal of the first quadrant sine and cosine are equal.
pub proof fn lemma_sin_cos_diagonal()
    ensures
        octant_sin(EIGHTH_TURN as int) == 707_106_781,
        octant_cos(EIGHTH_TURN as int) == 707_106_781,
        sin_spec(EIGHTH_TURN as int) == cos_spec(EIGHTH_TURN as int),
{
    reveal(octant_sin);
    reveal(octant_cos);
    let x = poly_radians(45_000_000);
    let x2 = poly_radians_squared(45_000_000);
    assert(x == 785398163400000000);
    assert(x * x == 616850275072093099560000000000000000) by (nonlinear_arith)
        requires
            x == 785398163400000000,
    ;
    assert(x2 == 616850275072093099);
    let t5 = poly_step(x2, POLY_ONE as int, 110);
    assert(x2 * POLY_ONE == 616850275072093099000000000000000000) by (nonlinear_arith)
        requires
            x2 == 616850275072093099,
    ;
    assert(t5 == 994392270226617336);
    let t4 = poly_step(x2, t5, 72);
    assert(x2 * t5 == 613391145418852036413649676039364264) by (nonlinear_arith)
        requires
            x2 == 616850275072093099,
            t5 == 994392270226617336,
    ;
    assert(t4 == 991480678535849278);
    let t3 = poly_step(x2, t4, 42);
    assert(x2 * t4 == 611595129283504139207123607047932522) by (nonlinear_arith)
        requires
            x2 == 616850275072093099,
            t4 == 991480678535849278,
    ;
    assert(t3 == 985438211207535616);
    let t2 = poly_step(x2, t3, 20);
    assert(x2 * t3 == 607867831649919721320862174710313984) by (nonlinear_arith)
        requires
            x2 == 616850275072093099,
            t3 == 985438211207535616,
    ;
    assert(t2 == 969606608417504014);
    let t1 = poly_step(x2, t2, 6);
    assert(x2 * t2 == 598102103114056611061201200214199386) by (nonlinear_arith)
        requires
            x2 == 616850275072093099,
            t2 == 969606608417504014,
    ;
    assert(t1 == 900316316147657232);
    assert(x * t1 == 707106781181423753225527708800000000) by (nonlinear_arith)
        requires
            x == 785398163400000000,
            t1 == 900316316147657232,
    ;
    assert(octant_sin(45_000_000) == 707106781);
    let u6 = poly_step(x2, POLY_ONE as int, 132);
    assert(u6 == 995326891855514447);
    let u5 = poly_step(x2, u6, 90);
    assert(x2 * u6 == 613967667027725547050324821723501253) by (nonlinear_arith)
        requires
            x2 == 616850275072093099,
            u6 == 995326891855514447,
    ;
    assert(u5 == 993178137033025272);
    let u4 = poly_step(x2, u5, 56);
    assert(x2 * u5 == 612642207024410612872907257203797928) by (nonlinear_arith)
        requires
            x2 == 616850275072093099,
            u5 == 993178137033025272,
    ;
    assert(u4 == 989059960588849811);
    let u3 = poly_step(x2, u4, 30);
    assert(x2 * u4 == 610101908752025565504716072720554289) by (nonlinear_arith)
        requires
            x2 == 616850275072093099,
            u4 == 989059960588849811,
    ;
    assert(u3 == 979663269708265815);
    let u2 = poly_step(x2, u3, 12);
    assert(x2 * u3 == 604305557397569898845590833519110685) by (nonlinear_arith)
        requires
            x2 == 616850275072093099,
            u3 == 979663269708265815,
    ;
    assert(u2 == 949641203550202509);
    let u1 = poly_step(x2, u2, 2);
    assert(x2 * u2 == 585786437629735971284363875951385391) by (nonlinear_arith)
        requires
            x2 == 616850275072093099,
            u2 == 949641203550202509,
    ;
    assert(u1 == 707106781185132015);
    assert(octant_cos(45_000_000) == 707106781);
}

/// Within the first quadrant, the sine of an angle is the cosine of the angle
/// that completes it to a quarter turn.
pub proof fn lemma_quadrant_complement(d: int)
    requires
        0 < d < QUARTER_TURN,
    ensures
        quadrant_sin(QUARTER_TURN - d) == quadrant_cos(d),
        quadrant_cos(QUARTER_TURN - d) == quadrant_sin(d),
{
    lemma_sin_cos_diagonal();
}

/// The sine of the opposite angle is the opposite sine, and its cosine is the
/// same cosine.
pub proof fn lemma_sin_cos_negate(a: int)
    ensures
        sin_spec(-a) == -sin_spec(a),
        cos_spec(-a) == cos_spec(a),
{
    let f = FULL_TURN as int;
    let m = wrap_turn(a);
    let n = wrap_turn(-a);
    assert(0 <= m < f);
    assert(n == (if m == 0 { 0 } else { f - m })) by {
        vstd::arithmetic::div_mod::lemma_fundamental_div_mod(a, f);
        let k = a / f;
        if m == 0 {
            vstd::arithmetic::div_mod::lemma_mod_multiples_vanish(-k, 0, f);
            assert(f * (-k) + 0 == -a) by (nonlinear_arith)
                requires
                    a == f * k + 0,
            ;
            vstd::arithmetic::div_mod::lemma_small_mod(0, f as nat);
        } else {
            vstd::arithmetic::div_mod::lemma_mod_multiples_vanish(-k - 1, f - m, f);
            assert(f * (-k - 1) + (f - m) == -a) by (nonlinear_arith)
                requires
                    a == f * k + m,
            ;
            vstd::arithmetic::div_mod::lemma_small_mod((f - m) as nat, f as nat);
        }
    }
    let t = QUARTER_TURN as int;
    let q = m / t;
    let d = m % t;
    if m != 0 {
        if d == 0 {
            assert(n == (4 - q) * t);
            assert(n / t == 4 - q && n % t == 0);
        } else {
            assert(n == (3 - q) * t + (t - d));
            assert(n / t == 3 - q && n % t == t - d);
            lemma_quadrant_complement(d);
        }
    }
    lemma_sin_cos_axes();
}

fn poly_step_exec(x2: i128, t: i128, k: i128) -> (r: i128)
    requires
        0 <= x2 <= POLY_ONE,
        0 <= t <= POLY_ONE,
        k >= 1,
    ensures
        r == poly_step(x2 as int, t as int, k as int),
        0 <= r <= POLY_ONE,
{
    proof {
        lemma_poly_step_bounds(x2 as int, t as int, k as int);
    }
    POLY_ONE - ((x2 * t) / POLY_ONE) / k
}

fn octant_sin_cos(d: i64) -> (sc: (i64, i64))
    requires
        0 <= d <= EIGHTH_TURN,
    ensures
        sc.0 == octant_sin(d as int),
        sc.1 == octant_cos(d as int),
        0 <= sc.0 <= TRIG_ONE,
        0 <= sc.1 <= TRIG_ONE,
{
    reveal(octant_sin);
    reveal(octant_cos);
    proof {
        lemma_poly_radians_bounds(d as int);
        lemma_octant_bounds(d as int);
    }
    let x: i128 = (d as i128) * RADIANS_PER_UNIT;
    let x2: i128 = (x * x) / POLY_ONE;
    let t5: i128 = poly_step_exec(x2, POLY_ONE, 110);
    let t4: i128 = poly_step_exec(x2, t5, 72);
    let t3: i128 = poly_step_exec(x2, t4, 42);
    let t2: i128 = poly_step_exec(x2, t3, 20);
    let t1: i128 = poly_step_exec(x2, t2, 6);
    proof {
        lemma_poly_step_bounds(x as int, t1 as int, 1);
    }
    let s: i128 = ((x * t1) / POLY_ONE + POLY_PER_TRIG / 2) / POLY_PER_TRIG;
    let u6: i128 = poly_step_exec(x2, POLY_ONE, 132);
    let u5: i128 = poly_step_exec(x2, u6, 90);
    let u4: i128 = poly_step_exec(x2, u5, 56);
    let u3: i128 = poly_step_exec(x2, u4, 30);
    let u2: i128 = poly_step_exec(x2, u3, 12);
    let u1: i128 = poly_step_exec(x2, u2, 2);
    let c: i128 = (u1 + POLY_PER_TRIG / 2) / POLY_PER_TRIG;
    (s as i64, c as i64)
}

fn wrap_turn_exec(a: i64) -> (m: i64)
    requires
        -LIMIT <= a <= LIMIT,
    ensures
        m == wrap_turn(a as int),
        0 <= m < FULL_TURN,
{
    if a >= 0 {
        a % FULL_TURN
    } else {
        let r: i64 = (-a) % FULL_TURN;
        proof {
            let n = -(a as int);
            let f = FULL_TURN as int;
            vstd::arithmetic::div_mod::lemma_fundamental_div_mod(n, f);
            if r == 0 {
                vstd::arithmetic::div_mod::lemma_mod_multiples_vanish(-(n / f), 0, f);
                assert(f * -(n / f) + 0 == a as int) by (nonlinear_arith)
                    requires
                        n == f * (n / f) + 0,
                        n == -(a as int),
                ;
                assert(0int % f == 0);
            } else {
                vstd::arithmetic::div_mod::lemma_mod_multiples_vanish(-(n / f) - 1, f - r, f);
                assert(f * (-(n / f) - 1) + (f - r) == a as int) by (nonlinear_arith)
                    requires
                        n == f * (n / f) + r,
                        n == -(a as int),
                ;
                vstd::arithmetic::div_mod::lemma_small_mod((f - r) as nat, f as nat);
            }
        }
        if r == 0 {
            0
        } else {
            FULL_TURN - r
        }
    }
}

/// Sine and cosine of an angle in degrees, each scaled by `TRIG_ONE`.
pub fn sin_cos(angle: Scalar) -> (sc: (i64, i64))
    ensures
        sc.0 == sin_spec(angle@),
        sc.1 == cos_spec(angle@),
        -TRIG_ONE <= sc.0 <= TRIG_ONE,
        -TRIG_ONE <= sc.1 <= TRIG_ONE,
{
    let m: i64 = wrap_turn_exec(angle.raw());
    let q: i64 = m / QUARTER_TURN;
    let d: i64 = m % QUARTER_TURN;
    let (s, c) = if d <= EIGHTH_TURN {
        octant_sin_cos(d)
    } else {
        let (s1, c1) = octant_sin_cos(QUARTER_TURN - d);
        (c1, s1)
    };
    if q == 0 {
        (s, c)
    } else if q == 1 {
        (c, -s)
    } else if q == 2 {
        (-s, -c)
    } else {
        (-c, s)
    }
}

/// Whether `r` is the integer square root of `n`: the largest `r` with `r * r <= n`.
pub open spec fn is_floor_sqrt(n: int, r: int) -> bool {
    &&& r >= 0
    &&& r * r <= n
    &&& n < (r + 1) * (r + 1)
}

/// The integer square root of a non-negative `n`.
pub open spec fn floor_sqrt(n: int) -> int {
    choose|r: int| is_floor_sqrt(n, r)
}

/// A number has at most one integer square root.
pub proof fn lemma_floor_sqrt_unique(n: int, r1: int, r2: int)
    requires
        is_floor_sqrt(n, r1),
        is_floor_sqrt(n, r2),
    ensures
        r1 == r2,
{
    if r1 < r2 {
        assert((r1 + 1) * (r1 + 1) <= r2 * r2) by (nonlinear_arith)
            requires
                0 <= r1 + 1 <= r2,
        ;
    } else if r2 < r1 {
        assert((r2 + 1) * (r2 + 1) <= r1 * r1) by (nonlinear_arith)
            requires
                0 <= r2 + 1 <= r1,
        ;
    }
}

/// The integer square root: the largest `r` whose square does not exceed `n`.
pub fn isqrt(n: u128) -> (r: u128)
    ensures
        is_floor_sqrt(n as int, r as int),
        r == floor_sqrt(n as int),
        r < 0x1_0000_0000_0000_0000,
{
    let mut lo: u128 = 0;
    let mut hi: u128 = 0x1_0000_0000_0000_0000;
    assert(n < hi * hi) by (nonlinear_arith)
        requires
            n <= 0xffff_ffff_ffff_ffff_ffff_ffff_ffff_ffff,
            hi == 0x1_0000_0000_0000_0000,
    ;
    while hi - lo > 1
        invariant
            lo < hi <= 0x1_0000_0000_0000_0000,
            lo * lo <= n,
            n < hi * hi,
        decreases hi - lo,
    {
        let mid: u128 = lo + (hi - lo) / 2;
        assert(mid * mid <= 0xffff_ffff_ffff_ffff * 0xffff_ffff_ffff_ffff) by (nonlinear_arith)
            requires
                0 <= mid <= 0xffff_ffff_ffff_ffff,
        ;
        if mid * mid <= n {
            lo = mid;
        } else {
            hi = mid;
        }
    }
    proof {
        assert(hi == lo + 1);
        assert(is_floor_sqrt(n as int, lo as int));
        let w = floor_sqrt(n as int);
        lemma_floor_sqrt_unique(n as int, lo as int, w);
    }
    lo
}

/// The length of the vector `(a, b)`, rounded down to a whole number of millionths.
pub open spec fn hypot_spec(a: int, b: int) -> int {
    floor_sqrt(a * a + b * b)
}

/// The length of the vector `(a, b)`: the integer square root of the sum of
/// the squares, saturated.
pub fn hypot(a: Scalar, b: Scalar) -> (r: Scalar)
    ensures
        r == Scalar::of(hypot_spec(a@, b@)),
        r@ == saturate(hypot_spec(a@, b@)),
        r@ >= 0,
{
    let x: i128 = a.raw() as i128;
    let y: i128 = b.raw() as i128;
    proof {
        lemma_mul_bounds(x as int, x as int, LIMIT as int, LIMIT as int);
        lemma_mul_bounds(y as int, y as int, LIMIT as int, LIMIT as int);
        assert(x * x >= 0) by (nonlinear_arith);
        assert(y * y >= 0) by (nonlinear_arith);
    }
    let n: i128 = x * x + y * y;
    let r: u128 = isqrt(n as u128);
    Scalar::from_wide(r as i128)
}

/// The sign of the rotation from the direction of angle `t` to the vector
/// `(q, p)`: non-negative while `t` has not passed the vector's own angle.
pub open spec fn cross_at(p: int, q: int, t: int) -> int {
    p * octant_cos(t) - q * octant_sin(t)
}

/// Bisection for the angle of `(q, p)` between `lo` and `hi`.
pub open spec fn bisect_angle(p: int, q: int, lo: int, hi: int) -> int
    decreases hi - lo,
{
    if hi - lo <= 1 {
        lo
    } else {
        let mid = lo + (hi - lo) / 2;
        if cross_at(p, q, mid) >= 0 {
            bisect_angle(p, q, mid, hi)
        } else {
            bisect_angle(p, q, lo, mid)
        }
    }
}

/// The angle of the vector `(q, p)` for `0 <= p <= q`, `q > 0`: between zero
/// and an eighth of a turn.
pub open spec fn octant_angle(p: int, q: int) -> int {
    if p == 0 {
        0
    } else if p == q {
        EIGHTH_TURN as int
    } else {
        bisect_angle(p, q, 0, EIGHTH_TURN as int)
    }
}

/// The angle of the vector `(ax, ay)` of the closed first quadrant.
pub open spec fn quadrant_angle(ay: int, ax: int) -> int {
    if ay <= ax {
        octant_angle(ay, ax)
    } else {
        QUARTER_TURN - octant_angle(ax, ay)
    }
}

/// The angle of the vector `(x, y)` in millionths of a degree, within
/// `[-HALF_TURN, HALF_TURN]`; zero for the zero vector.
pub open spec fn atan2_spec(y: int, x: int) -> int {
    if x == 0 && y == 0 {
        0
    } else {
        let t = quadrant_angle(magnitude(y), magnitude(x));
        if x >= 0 {
            if y >= 0 {
                t
            } else {
                -t
            }
        } else {
            if y >= 0 {
                HALF_TURN - t
            } else {
                t - HALF_TURN
            }
        }
    }
}

/// What bisection finds: an angle at which the vector is not yet passed, and
/// whose successor passes it or is the end of the interval.
pub proof fn lemma_bisect_angle(p: int, q: int, lo: int, hi: int)
    requires
        lo < hi,
        cross_at(p, q, lo) >= 0,
    ensures
        lo <= bisect_angle(p, q, lo, hi) < hi,
        cross_at(p, q, bisect_angle(p, q, lo, hi)) >= 0,
        cross_at(p, q, bisect_angle(p, q, lo, hi) + 1) < 0 || bisect_angle(p, q, lo, hi) + 1 == hi
            || cross_at(p, q, hi) >= 0,
    decreases hi - lo,
{
    if hi - lo > 1 {
        let mid = lo + (hi - lo) / 2;
        if cross_at(p, q, mid) >= 0 {
            lemma_bisect_angle(p, q, mid, hi);
        } else {
            lemma_bisect_angle(p, q, lo, mid);
        }
    }
}

/// The angle of a vector of the first half quadrant lies in that half quadrant,
/// and is exact on the axis and on the diagonal.
pub proof fn lemma_octant_angle(p: int, q: int)
    requires
        0 <= p <= q,
        q > 0,
    ensures
        0 <= octant_angle(p, q) <= EIGHTH_TURN,
        p == 0 ==> octant_angle(p, q) == 0,
        p == q ==> octant_angle(p, q) == EIGHTH_TURN,
        cross_at(p, q, octant_angle(p, q)) >= 0 || p == q,
{
    lemma_sin_cos_axes();
    assert(octant_sin(0) == 0 && octant_cos(0) == TRIG_ONE);
    assert(cross_at(p, q, 0) == p * TRIG_ONE - q * 0);
    assert(p * TRIG_ONE >= 0) by (nonlinear_arith)
        requires
            p >= 0,
    ;
    assert(q * 0 == 0);
    if p != 0 && p != q {
        lemma_bisect_angle(p, q, 0, EIGHTH_TURN as int);
    }
}

/// The angle of any vector lies within half a turn of zero.
pub proof fn lemma_atan2_bounds(y: int, x: int)
    ensures
        -HALF_TURN <= atan2_spec(y, x) <= HALF_TURN,
        x >= 0 ==> -QUARTER_TURN <= atan2_spec(y, x) <= QUARTER_TURN,
        y >= 0 ==> atan2_spec(y, x) >= 0,
        y < 0 ==> atan2_spec(y, x) <= 0,
{
    if !(x == 0 && y == 0) {
        let ay = magnitude(y);
        let ax = magnitude(x);
        if ay <= ax {
            lemma_octant_angle(ay, ax);
        } else {
            lemma_octant_angle(ax, ay);
        }
    }
}

/// Along the axes and the diagonals the angle is exact.
pub proof fn lemma_atan2_axes(r: int)
    requires
        r > 0,
    ensures
        atan2_spec(0, r) == 0,
        atan2_spec(r, 0) == QUARTER_TURN,
        atan2_spec(0, -r) == HALF_TURN,
        atan2_spec(-r, 0) == -QUARTER_TURN,
        atan2_spec(r, r) == EIGHTH_TURN,
        atan2_spec(0, 0) == 0,
{
}

fn cross_at_exec(p: i64, q: i64, t: i64) -> (c: i128)
    requires
        0 <= p <= LIMIT,
        0 <= q <= LIMIT,
        0 <= t <= EIGHTH_TURN,
    ensures
        c == cross_at(p as int, q as int, t as int),
{
    let (s, c) = octant_sin_cos(t);
    proof {
        lemma_mul_bounds(p as int, c as int, LIMIT as int, TRIG_ONE as int);
        lemma_mul_bounds(q as int, s as int, LIMIT as int, TRIG_ONE as int);
    }
    (p as i128) * (c as i128) - (q as i128) * (s as i128)
}

fn octant_angle_exec(p: i64, q: i64) -> (t: i64)
    requires
        0 <= p <= q <= LIMIT,
        q > 0,
    ensures
        t == octant_angle(p as int, q as int),
        0 <= t <= EIGHTH_TURN,
{
    proof {
        lemma_octant_angle(p as int, q as int);
    }
    if p == 0 {
        return 0;
    }
    if p == q {
        return EIGHTH_TURN;
    }
    let mut lo: i64 = 0;
    let mut hi: i64 = EIGHTH_TURN;
    while hi - lo > 1
        invariant
            0 <= lo < hi <= EIGHTH_TURN,
            0 <= p <= q <= LIMIT,
            bisect_angle(p as int, q as int, lo as int, hi as int) == bisect_angle(
                p as int,
                q as int,
                0,
                EIGHTH_TURN as int,
            ),
        decreases hi - lo,
    {
        let mid: i64 = lo + (hi - lo) / 2;
        let c: i128 = cross_at_exec(p, q, mid);
        if c >= 0 {
            lo = mid;
        } else {
            hi = mid;
        }
    }
    lo
}

/// The angle of the vector `(x, y)` in degrees, within half a turn of zero.
pub fn atan2(y: Scalar, x: Scalar) -> (angle: Scalar)
    ensures
        angle == Scalar::of(atan2_spec(y@, x@)),
        angle@ == atan2_spec(y@, x@),
        -HALF_TURN <= angle@ <= HALF_TURN,
{
    proof {
        lemma_atan2_bounds(y@, x@);
    }
    let xr: i64 = x.raw();
    let yr: i64 = y.raw();
    if xr == 0 && yr == 0 {
        return Scalar::zero();
    }
    let ax: i64 = if xr < 0 { -xr } else { xr };
    let ay: i64 = if yr < 0 { -yr } else { yr };
    let t: i64 = if ay <= ax {
        octant_angle_exec(ay, ax)
    } else {
        QUARTER_TURN - octant_angle_exec(ax, ay)
    };
    let a: i64 = if xr >= 0 {
        if yr >= 0 {
            t
        } else {
            -t
        }
    } else {
        if yr >= 0 {
            HALF_TURN - t
        } else {
            t - HALF_TURN
        }
    };
    Scalar::new(a)
}

/// The x coordinate of `(x, y)` turned counter-clockwise by `angle`, before saturation.
pub open spec fn rotated_x(x: int, y: int, angle: int) -> int {
    trunc_div(x * cos_spec(angle) - y * sin_spec(angle), TRIG_ONE as int)
}

/// The y coordinate of `(x, y)` turned counter-clockwise by `angle`, before saturation.
pub open spec fn rotated_y(x: int, y: int, angle: int) -> int {
    trunc_div(x * sin_spec(angle) + y * cos_spec(angle), TRIG_ONE as int)
}

/// Turning by a quarter turn maps `(x, y)` to `(-y, x)` exactly, and turning by
/// nothing or by a full turn changes nothing.
pub proof fn lemma_rotated_axes(x: int, y: int)
    ensures
        rotated_x(x, y, 0) == x && rotated_y(x, y, 0) == y,
        rotated_x(x, y, QUARTER_TURN as int) == -y && rotated_y(x, y, QUARTER_TURN as int) == x,
        rotated_x(x, y, HALF_TURN as int) == -x && rotated_y(x, y, HALF_TURN as int) == -y,
        rotated_x(x, y, -QUARTER_TURN as int) == y && rotated_y(x, y, -QUARTER_TURN as int) == -x,
{
    lemma_sin_cos_axes();
    lemma_trunc_div_exact(x, TRIG_ONE as int);
    lemma_trunc_div_exact(y, TRIG_ONE as int);
    lemma_trunc_div_exact(-x, TRIG_ONE as int);
    lemma_trunc_div_exact(-y, TRIG_ONE as int);
    assert(x * 0 == 0 && y * 0 == 0);
    assert(x * -TRIG_ONE == (-x) * TRIG_ONE) by (nonlinear_arith);
    assert(y * -TRIG_ONE == (-y) * TRIG_ONE) by (nonlinear_arith);
}

/// A multiple of the divisor is divided exactly.
pub proof fn lemma_trunc_div_exact(a: int, b: int)
    requires
        b > 0,
    ensures
        trunc_div(a * b, b) == a,
{
    if a >= 0 {
        assert(a * b >= 0) by (nonlinear_arith)
            requires
                a >= 0,
                b > 0,
        ;
        assert((a * b) / b == a) by (nonlinear_arith)
            requires
                b > 0,
        ;
    } else {
        assert(a * b < 0) by (nonlinear_arith)
            requires
                a < 0,
                b > 0,
        ;
        assert(-(a * b) == (-a) * b) by (nonlinear_arith);
        assert(((-a) * b) / b == -a) by (nonlinear_arith)
            requires
                b > 0,
        ;
    }
}

/// The vector `(x, y)` turned counter-clockwise about the origin by `angle` degrees.
pub fn rotate_xy(x: Scalar, y: Scalar, angle: Scalar) -> (r: (Scalar, Scalar))
    ensures
        r.0 == Scalar::of(rotated_x(x@, y@, angle@)),
        r.1 == Scalar::of(rotated_y(x@, y@, angle@)),
{
    let (s, c) = sin_cos(angle);
    let xr: i128 = x.raw() as i128;
    let yr: i128 = y.raw() as i128;
    let sw: i128 = s as i128;
    let cw: i128 = c as i128;
    proof {
        lemma_mul_bounds(xr as int, cw as int, LIMIT as int, TRIG_ONE as int);
        lemma_mul_bounds(yr as int, sw as int, LIMIT as int, TRIG_ONE as int);
        lemma_mul_bounds(xr as int, sw as int, LIMIT as int, TRIG_ONE as int);
        lemma_mul_bounds(yr as int, cw as int, LIMIT as int, TRIG_ONE as int);
    }
    let nx: i128 = xr * cw - yr * sw;
    let ny: i128 = xr * sw + yr * cw;
    (Scalar::from_wide(nx / (TRIG_ONE as i128)), Scalar::from_wide(ny / (TRIG_ONE as i128)))
}

} // verus!
