//! Orientation of a closed vertex list, and the polarity of a primitive.

use vstd::prelude::*;
use crate::fixed::{lemma_mul_bounds, LIMIT};
use crate::spacial::Position;

verus! {

/// The direction in which a closed vertex list runs.
#[derive(Debug, Copy, Clone, PartialEq, Eq, Structural)]
pub enum Winding {
    /// A positive shoelace sum.
    Clockwise,
    /// A shoelace sum that is zero or negative.
    CounterClockwise,
}

/// Whether a primitive adds material or removes it.
#[derive(Debug, Copy, Clone, PartialEq, Eq, Structural)]
pub enum Exposure {
    CutOut,
    Add,
}

impl From<bool> for Exposure {
    fn from(value: bool) -> (e: Exposure) {
        if value {
            Exposure::Add
        } else {
            Exposure::CutOut
        }
    }
}

impl vstd::std_specs::convert::FromSpecImpl<bool> for Exposure {
    open spec fn obeys_from_spec() -> bool {
        true
    }

    open spec fn from_spec(value: bool) -> Exposure {
        if value {
            Exposure::Add
        } else {
            Exposure::CutOut
        }
    }
}

/// The shoelace term of the edge that leaves vertex `i`:
/// `x_i * y_j - x_j * y_i`, where `j` follows `i` cyclically.
pub open spec fn shoelace_term(v: Seq<Position>, i: int) -> int {
    let j = if i + 1 == v.len() {
        0
    } else {
        i + 1
    };
    v[i].x@ * v[j].y@ - v[j].x@ * v[i].y@
}

/// The sum of the shoelace terms of the first `k` edges.
pub open spec fn shoelace_partial(v: Seq<Position>, k: int) -> int
    decreases k,
{
    if k <= 0 {
        0
    } else {
        shoelace_partial(v, k - 1) + shoelace_term(v, k - 1)
    }
}

/// The shoelace sum of a closed vertex list: twice its signed area, positive
/// when the list runs clockwise.
pub open spec fn shoelace(v: Seq<Position>) -> int {
    shoelace_partial(v, v.len() as int)
}

/// The winding of a vertex list: clockwise exactly when the shoelace sum is positive.
pub open spec fn winding_of(v: Seq<Position>) -> Winding {
    if shoelace(v) > 0 {
        Winding::Clockwise
    } else {
        Winding::CounterClockwise
    }
}

/// Reading the vertices backwards changes the sign of every partial sum taken
/// from the far end.
proof fn lemma_shoelace_reverse_partial(v: Seq<Position>, k: int)
    requires
        0 <= k < v.len(),
    ensures
        shoelace_partial(v.reverse(), k) == -(shoelace_partial(v, v.len() - 1) - shoelace_partial(
            v,
            v.len() - 1 - k,
        )),
    decreases k,
{
    let n = v.len() as int;
    let r = v.reverse();
    if k > 0 {
        lemma_shoelace_reverse_partial(v, k - 1);
        let i = k - 1;
        assert(r[i] == v[n - 1 - i]);
        assert(r[i + 1] == v[n - 2 - i]);
        assert(shoelace_term(r, i) == -shoelace_term(v, n - 1 - k));
        assert(shoelace_partial(v, n - k) == shoelace_partial(v, n - 1 - k) + shoelace_term(
            v,
            n - 1 - k,
        ));
    }
}

/// Reading a closed vertex list backwards negates its shoelace sum.
pub proof fn lemma_shoelace_reverse(v: Seq<Position>)
    ensures
        shoelace(v.reverse()) == -shoelace(v),
{
    let n = v.len() as int;
    let r = v.reverse();
    if n > 0 {
        lemma_shoelace_reverse_partial(v, n - 1);
        assert(r[n - 1] == v[0]);
        assert(r[0] == v[n - 1]);
        assert(shoelace_term(r, n - 1) == -shoelace_term(v, n - 1));
        assert(shoelace_partial(v, 0) == 0);
    }
}

/// A vertex list that does not run clockwise keeps that property, and one that
/// does loses it, when read backwards.
pub proof fn lemma_reverse_fixes_winding(v: Seq<Position>)
    requires
        winding_of(v) == Winding::Clockwise,
    ensures
        winding_of(v.reverse()) == Winding::CounterClockwise,
{
    lemma_shoelace_reverse(v);
}

/// The weight of the upper part of the running shoelace sum (2^100).
pub const CARRY: i128 = 0x10_0000_0000_0000_0000_0000_0000;

impl Winding {
    /// The winding of a closed vertex list, by the sign of its shoelace sum.
    pub fn from_vertices(vertices: &[Position]) -> (w: Winding)
        ensures
            w == winding_of(vertices@),
    {
        let n: usize = vertices.len();
        // the sum is `upper * CARRY + lower`, so that no list is too long for it
        let mut upper: i128 = 0;
        let mut lower: i128 = 0;
        let mut i: usize = 0;
        while i < n
            invariant
                i <= n,
                n == vertices.len(),
                upper * CARRY + lower == shoelace_partial(vertices@, i as int),
                -CARRY < lower < CARRY,
                -(i as int) <= upper <= i as int,
            decreases n - i,
        {
            let j: usize = if i + 1 == n {
                0
            } else {
                i + 1
            };
            let xi: i128 = vertices[i].x.raw() as i128;
            let yi: i128 = vertices[i].y.raw() as i128;
            let xj: i128 = vertices[j].x.raw() as i128;
            let yj: i128 = vertices[j].y.raw() as i128;
            proof {
                lemma_mul_bounds(xi as int, yj as int, LIMIT as int, LIMIT as int);
                lemma_mul_bounds(xj as int, yi as int, LIMIT as int, LIMIT as int);
                assert(LIMIT * LIMIT == 1208925819614629174706176);
            }
            let term: i128 = xi * yj - xj * yi;
            let ghost before = upper * CARRY + lower;
            lower = lower + term;
            if lower >= CARRY {
                lower = lower - CARRY;
                upper = upper + 1;
            } else if lower <= -CARRY {
                lower = lower + CARRY;
                upper = upper - 1;
            }
            proof {
                assert(upper * CARRY + lower == before + term) by (nonlinear_arith)
                    requires
                        upper * CARRY + lower == before + term || (upper - 1) * CARRY + (lower
                            + CARRY) == before + term || (upper + 1) * CARRY + (lower - CARRY)
                            == before + term,
                ;
            }
            i = i + 1;
        }
        proof {
            assert(upper >= 1 ==> upper * CARRY >= CARRY) by (nonlinear_arith);
            assert(upper <= -1 ==> upper * CARRY <= -CARRY) by (nonlinear_arith);
        }
        if upper > 0 || (upper == 0 && lower > 0) {
            Winding::Clockwise
        } else {
            Winding::CounterClockwise
        }
    }
}

} // verus!
