//! The affine transform applied to geometry before it is shown: mirroring and
//! rotation about a pivot, followed by a translation.

use vstd::prelude::*;
use crate::fixed::Scalar;
use crate::geometry::mirroring::Mirroring;
use crate::spacial::{Position, Vector};

verus! {

/// Mirroring, then rotation, both about `origin`, then a shift by `offset`.
#[derive(Debug, Copy, Clone)]
pub struct GerberTransform {
    /// Counter-clockwise rotation in degrees.
    pub rotation: Scalar,
    pub mirroring: Mirroring,
    /// The pivot of the mirroring and of the rotation.
    pub origin: Vector,
    /// The translation applied last.
    pub offset: Vector,
}

impl GerberTransform {
    /// The transform that changes nothing.
    pub fn identity() -> (t: GerberTransform)
        ensures
            t.rotation@ == 0,
            !t.mirroring.x && !t.mirroring.y,
            t.origin.x@ == 0 && t.origin.y@ == 0,
            t.offset.x@ == 0 && t.offset.y@ == 0,
    {
        GerberTransform {
            rotation: Scalar::zero(),
            mirroring: Mirroring { x: false, y: false },
            origin: Vector::zero(),
            offset: Vector::zero(),
        }
    }

    /// The image of a point: the point is taken relative to the pivot, mirrored,
    /// rotated, put back relative to the pivot and shifted by the offset.
    pub open spec fn applied(self, p: Position) -> Position {
        p.translated_back(self.origin).mirrored(self.mirroring.x, self.mirroring.y).rotated(
            self.rotation@,
        ).translated(self.origin).translated(self.offset)
    }

    /// The image of a point under the transform.
    pub fn apply_to_position(&self, p: Position) -> (q: Position)
        ensures
            q == self.applied(p),
    {
        p.translate_back(self.origin).mirror(self.mirroring.x, self.mirroring.y).rotate(
            self.rotation,
        ).translate(self.origin).translate(self.offset)
    }

    /// The images of the points of a list, in order.
    pub open spec fn applied_to_all(self, points: Seq<Position>) -> Seq<Position> {
        Seq::new(points.len(), |i: int| self.applied(points[i]))
    }

    /// The images of the points of a list, in order.
    pub fn apply_to_positions(&self, points: &[Position]) -> (out: Vec<Position>)
        ensures
            out@ == self.applied_to_all(points@),
    {
        let mut out: Vec<Position> = Vec::new();
        let mut i: usize = 0;
        while i < points.len()
            invariant
                i <= points.len(),
                out@ == self.applied_to_all(points@.take(i as int)),
            decreases points.len() - i,
        {
            out.push(self.apply_to_position(points[i]));
            proof {
                assert(out@ =~= self.applied_to_all(points@.take(i + 1)));
            }
            i = i + 1;
        }
        proof {
            assert(points@.take(points.len() as int) == points@);
        }
        out
    }

    /// The identity leaves every point that is not at a bound of the range where it is.
    pub proof fn lemma_identity_fixes(t: GerberTransform, p: Position)
        requires
            t.rotation@ == 0,
            !t.mirroring.x && !t.mirroring.y,
            t.origin.x@ == 0 && t.origin.y@ == 0,
            t.offset.x@ == 0 && t.offset.y@ == 0,
            -crate::fixed::LIMIT <= p.x@ <= crate::fixed::LIMIT,
            -crate::fixed::LIMIT <= p.y@ <= crate::fixed::LIMIT,
        ensures
            t.applied(p) == p,
    {
        broadcast use crate::fixed::group_scalar;

        let a = p.translated_back(t.origin);
        assert(a.x@ == p.x@ && a.y@ == p.y@);
        let b = a.mirrored(false, false);
        crate::trig::lemma_rotated_axes(b.x@, b.y@);
        let c = b.rotated(0);
        assert(c.x@ == p.x@ && c.y@ == p.y@);
        let d = c.translated(t.origin).translated(t.offset);
        assert(d.x@ == p.x@ && d.y@ == p.y@);
        Scalar::lemma_view_injective(d.x, p.x);
        Scalar::lemma_view_injective(d.y, p.y);
    }
}

} // verus!
