//! Convexity of a closed vertex list.

use vstd::prelude::*;
use crate::fixed::{lemma_mul_bounds, LIMIT};
use crate::spacial::Position;

verus! {

/// The index that follows `i` in a closed list of `n` vertices.
pub open spec fn cyclic_next(i: int, n: int) -> int {
    if i + 1 == n {
        0
    } else {
        i + 1
    }
}

/// The cross product of the edge that enters the vertex after `i` with the edge
/// that leaves it.
pub open spec fn corner_cross(v: Seq<Position>, i: int) -> int {
    let n = v.len() as int;
    let j = cyclic_next(i, n);
    let k = cyclic_next(j, n);
    (v[j].x@ - v[i].x@) * (v[k].y@ - v[j].y@) - (v[j].y@ - v[i].y@) * (v[k].x@ - v[j].x@)
}

/// Whether some corner among the first `k` turns left.
pub open spec fn turns_left_before(v: Seq<Position>, k: int) -> bool {
    exists|i: int| 0 <= i < k && corner_cross(v, i) > 0
}

/// Whether some corner among the first `k` turns right.
pub open spec fn turns_right_before(v: Seq<Position>, k: int) -> bool {
    exists|i: int| 0 <= i < k && corner_cross(v, i) < 0
}

/// A closed vertex list is convex when its corners do not turn both ways:
/// all cross products that are not zero have one sign. Fewer than three
/// vertices are convex.
pub open spec fn is_convex_spec(v: Seq<Position>) -> bool {
    v.len() < 3 || !(turns_left_before(v, v.len() as int) && turns_right_before(
        v,
        v.len() as int,
    ))
}

/// Whether the closed vertex list is convex.
pub fn is_convex(vertices: &[Position]) -> (convex: bool)
    ensures
        convex == is_convex_spec(vertices@),
{
    let n: usize = vertices.len();
    if n < 3 {
        return true;
    }
    let mut left: bool = false;
    let mut right: bool = false;
    let mut i: usize = 0;
    while i < n
        invariant
            i <= n,
            n == vertices.len(),
            n >= 3,
            left == turns_left_before(vertices@, i as int),
            right == turns_right_before(vertices@, i as int),
        decreases n - i,
    {
        let j: usize = if i + 1 == n {
            0
        } else {
            i + 1
        };
        let k: usize = if j + 1 == n {
            0
        } else {
            j + 1
        };
        let ax: i128 = (vertices[j].x.raw() - vertices[i].x.raw()) as i128;
        let ay: i128 = (vertices[j].y.raw() - vertices[i].y.raw()) as i128;
        let bx: i128 = (vertices[k].x.raw() - vertices[j].x.raw()) as i128;
        let by: i128 = (vertices[k].y.raw() - vertices[j].y.raw()) as i128;
        proof {
            lemma_mul_bounds(ax as int, by as int, 2 * LIMIT, 2 * LIMIT);
            lemma_mul_bounds(ay as int, bx as int, 2 * LIMIT, 2 * LIMIT);
            assert((2 * LIMIT) * (2 * LIMIT) == 4835703278458516698824704);
        }
        let cross: i128 = ax * by - ay * bx;
        assert(cross == corner_cross(vertices@, i as int));
        proof {
            let v = vertices@;
            let i0 = i as int;
            if cross > 0 {
                assert(0 <= i0 < i0 + 1 && corner_cross(v, i0) > 0);
            }
            if cross < 0 {
                assert(0 <= i0 < i0 + 1 && corner_cross(v, i0) < 0);
            }
            if turns_left_before(v, i0 + 1) {
                let w = choose|w: int| 0 <= w < i0 + 1 && corner_cross(v, w) > 0;
                if w < i0 {
                    assert(turns_left_before(v, i0));
                }
            }
            if turns_right_before(v, i0 + 1) {
                let w = choose|w: int| 0 <= w < i0 + 1 && corner_cross(v, w) < 0;
                if w < i0 {
                    assert(turns_right_before(v, i0));
                }
            }
            if turns_left_before(v, i0) {
                let w = choose|w: int| 0 <= w < i0 && corner_cross(v, w) > 0;
                assert(0 <= w < i0 + 1 && corner_cross(v, w) > 0);
            }
            if turns_right_before(v, i0) {
                let w = choose|w: int| 0 <= w < i0 && corner_cross(v, w) < 0;
                assert(0 <= w < i0 + 1 && corner_cross(v, w) < 0);
            }
        }
        if cross > 0 {
            left = true;
        }
        if cross < 0 {
            right = true;
        }
        i = i + 1;
    }
    !(left && right)
}

} // verus!
