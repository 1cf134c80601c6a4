//! Removal of vertices that repeat their predecessor within a tolerance.

use vstd::prelude::*;
use crate::fixed::{magnitude, Scalar};
use crate::spacial::Position;

verus! {

/// Whether both coordinates of `a` and `b` differ by less than `epsilon`.
pub open spec fn near(a: Position, b: Position, epsilon: int) -> bool {
    magnitude(a.x@ - b.x@) < epsilon && magnitude(a.y@ - b.y@) < epsilon
}

/// The vertices that a left-to-right scan retains: the first one, and every
/// later one that is not near the vertex retained last.
pub open spec fn dedup_scan(v: Seq<Position>, epsilon: int) -> Seq<Position>
    decreases v.len(),
{
    if v.len() == 0 {
        v
    } else {
        let before = dedup_scan(v.drop_last(), epsilon);
        if before.len() > 0 && near(before.last(), v.last(), epsilon) {
            before
        } else {
            before.push(v.last())
        }
    }
}

/// The retained vertices without the last one, when that one is near the first:
/// the list is closed, so the last vertex precedes the first.
pub open spec fn dedup_wrap(s: Seq<Position>, epsilon: int) -> Seq<Position> {
    if s.len() >= 2 && near(s.last(), s[0], epsilon) {
        s.drop_last()
    } else {
        s
    }
}

/// The result of deduplication: the retained vertices if at least three remain,
/// and the input itself otherwise.
pub open spec fn dedup_spec(v: Seq<Position>, epsilon: int) -> Seq<Position> {
    let retained = dedup_wrap(dedup_scan(v, epsilon), epsilon);
    if v.len() < 2 || retained.len() < 3 {
        v
    } else {
        retained
    }
}

/// Deduplication never leaves fewer than three vertices: where fewer would
/// remain it hands back the input unchanged.
pub proof fn lemma_dedup_safe(v: Seq<Position>, epsilon: int)
    ensures
        dedup_spec(v, epsilon).len() >= 3 || dedup_spec(v, epsilon) == v,
        dedup_wrap(dedup_scan(v, epsilon), epsilon).len() <= 2 ==> dedup_spec(v, epsilon) == v,
{
}

fn near_exec(a: Position, b: Position, epsilon: Scalar) -> (r: bool)
    ensures
        r == near(a, b, epsilon@),
{
    let dx: i64 = a.x.raw() - b.x.raw();
    let dy: i64 = a.y.raw() - b.y.raw();
    let ax: i64 = if dx < 0 { -dx } else { dx };
    let ay: i64 = if dy < 0 { -dy } else { dy };
    ax < epsilon.raw() && ay < epsilon.raw()
}

/// Deduplication of a closed vertex list with a tolerance.
pub trait DedupEpsilon: Sized {
    /// The vertices of the list, in order.
    spec fn vertices(&self) -> Seq<Position>;

    /// The list without the vertices that repeat the vertex retained before
    /// them within `epsilon`, or the list itself where fewer than three would remain.
    fn dedup_with_epsilon(self, epsilon: Scalar) -> (r: Self)
        ensures
            r.vertices() == dedup_spec(self.vertices(), epsilon@),
            r.vertices().len() >= 3 || r.vertices() == self.vertices(),
    ;
}

impl DedupEpsilon for Vec<Position> {
    open spec fn vertices(&self) -> Seq<Position> {
        self@
    }

    fn dedup_with_epsilon(self, epsilon: Scalar) -> (r: Vec<Position>) {
        let n: usize = self.len();
        if n < 2 {
            return self;
        }
        let mut kept: Vec<Position> = Vec::new();
        let mut i: usize = 0;
        while i < n
            invariant
                i <= n,
                n == self.len(),
                kept@ == dedup_scan(self@.take(i as int), epsilon@),
            decreases n - i,
        {
            let b: Position = self[i];
            let repeats: bool = kept.len() > 0 && near_exec(kept[kept.len() - 1], b, epsilon);
            proof {
                assert(self@.take(i + 1).drop_last() == self@.take(i as int));
                assert(self@.take(i + 1).last() == b);
            }
            if !repeats {
                kept.push(b);
            }
            i = i + 1;
        }
        proof {
            assert(self@.take(n as int) == self@);
        }
        if kept.len() >= 2 && near_exec(kept[kept.len() - 1], kept[0], epsilon) {
            kept.pop();
        }
        if kept.len() < 3 {
            self
        } else {
            kept
        }
    }
}

} // verus!
