//! Axis-aligned bounding boxes.

use vstd::prelude::*;
use crate::fixed::{trunc_div, Scalar, LIMIT};
use crate::geometry::transform::GerberTransform;
use crate::spacial::{Position, Vector};

verus! {

broadcast use crate::fixed::group_scalar;

/// An axis-aligned box, given by its corner of least and its corner of greatest
/// coordinates. The box whose `min` is the upper bound of the range and whose
/// `max` is the lower bound is the empty box; no other box is empty.
#[derive(Debug, Copy, Clone, PartialEq, Eq, Structural)]
pub struct BoundingBox {
    pub min: Position,
    pub max: Position,
}

/// The smaller of two scalars.
pub open spec fn scalar_min(a: Scalar, b: Scalar) -> Scalar {
    if b@ < a@ {
        b
    } else {
        a
    }
}

/// The larger of two scalars.
pub open spec fn scalar_max(a: Scalar, b: Scalar) -> Scalar {
    if b@ > a@ {
        b
    } else {
        a
    }
}

/// Whether both coordinates of a point lie in the range of the scalars, as
/// those of every point that exists at run time do.
pub open spec fn within_range(p: Position) -> bool {
    &&& -LIMIT <= p.x@ <= LIMIT
    &&& -LIMIT <= p.y@ <= LIMIT
}

/// The box of the first `k` points of a list: the empty box grown by each point in turn.
pub open spec fn box_of_prefix(points: Seq<Position>, k: int) -> BoundingBox
    decreases k,
{
    if k <= 0 {
        BoundingBox::empty()
    } else {
        box_of_prefix(points, k - 1).grown(points[k - 1])
    }
}

/// The box of a list of points.
pub open spec fn box_of(points: Seq<Position>) -> BoundingBox {
    box_of_prefix(points, points.len() as int)
}

impl BoundingBox {
    /// The empty box.
    pub open spec fn empty() -> BoundingBox {
        BoundingBox {
            min: Position { x: Scalar::of(LIMIT as int), y: Scalar::of(LIMIT as int) },
            max: Position { x: Scalar::of(-LIMIT as int), y: Scalar::of(-LIMIT as int) },
        }
    }

    /// The least box that holds this box and the point `p`.
    pub open spec fn grown(self, p: Position) -> BoundingBox {
        BoundingBox {
            min: Position { x: scalar_min(self.min.x, p.x), y: scalar_min(self.min.y, p.y) },
            max: Position { x: scalar_max(self.max.x, p.x), y: scalar_max(self.max.y, p.y) },
        }
    }

    /// The least box that holds this box and `other`: the pointwise minimum of
    /// the `min` corners and the pointwise maximum of the `max` corners.
    pub open spec fn union(self, other: BoundingBox) -> BoundingBox {
        BoundingBox {
            min: Position {
                x: scalar_min(self.min.x, other.min.x),
                y: scalar_min(self.min.y, other.min.y),
            },
            max: Position {
                x: scalar_max(self.max.x, other.max.x),
                y: scalar_max(self.max.y, other.max.y),
            },
        }
    }

    /// Whether the point lies in the box, borders included.
    pub open spec fn holds(self, p: Position) -> bool {
        &&& self.min.x@ <= p.x@ <= self.max.x@
        &&& self.min.y@ <= p.y@ <= self.max.y@
    }

    /// Whether `other` reaches nowhere outside this box.
    pub open spec fn contains(self, other: BoundingBox) -> bool {
        &&& self.min.x@ <= other.min.x@
        &&& self.min.y@ <= other.min.y@
        &&& other.max.x@ <= self.max.x@
        &&& other.max.y@ <= self.max.y@
    }

    /// The four corners, starting at `min` and running through
    /// `(max.x, min.y)`, `max` and `(min.x, max.y)`.
    pub open spec fn corners(self) -> Seq<Position> {
        seq![
            Position { x: self.min.x, y: self.min.y },
            Position { x: self.max.x, y: self.min.y },
            Position { x: self.max.x, y: self.max.y },
            Position { x: self.min.x, y: self.max.y },
        ]
    }

    /// The corners reflected in the vertical line through `offset.x` and in the
    /// horizontal line through `offset.y`, as chosen.
    pub open spec fn mirrored_corner(p: Position, mirror_x: bool, mirror_y: bool, offset: Vector)
        -> Position {
        Position {
            x: if mirror_x {
                Scalar::of(offset.x@ - Scalar::of(p.x@ - offset.x@)@)
            } else {
                p.x
            },
            y: if mirror_y {
                Scalar::of(offset.y@ - Scalar::of(p.y@ - offset.y@)@)
            } else {
                p.y
            },
        }
    }

    /// A corner turned about `offset` by `angle` millionths of a degree.
    pub open spec fn rotated_corner(p: Position, angle: int, offset: Vector) -> Position {
        p.translated_back(offset).rotated(angle).translated(offset)
    }

    /// The box grown to hold `other` as well.
    pub fn expand(&mut self, other: &BoundingBox)
        ensures
            *final(self) == old(self).union(*other),
            final(self).contains(*old(self)),
            final(self).contains(*other),
    {
        self.min.x = self.min.x.min(other.min.x);
        self.min.y = self.min.y.min(other.min.y);
        self.max.x = self.max.x.max(other.max.x);
        self.max.y = self.max.y.max(other.max.y);
    }

    /// Whether this is the empty box. A box of no extent, such as the box of the
    /// single point `(0, 0)`, is not empty.
    pub fn is_empty(&self) -> (b: bool)
        ensures
            b == (*self == BoundingBox::empty()),
    {
        proof {
            Scalar::lemma_view_injective(self.min.x, Scalar::of(LIMIT as int));
            Scalar::lemma_view_injective(self.min.y, Scalar::of(LIMIT as int));
            Scalar::lemma_view_injective(self.max.x, Scalar::of(-LIMIT as int));
            Scalar::lemma_view_injective(self.max.y, Scalar::of(-LIMIT as int));
        }
        self.min.x.raw() == LIMIT && self.min.y.raw() == LIMIT && self.max.x.raw() == -LIMIT
            && self.max.y.raw() == -LIMIT
    }

    /// The extent along x, saturating.
    pub fn width(&self) -> (w: Scalar)
        ensures
            w == Scalar::of(self.max.x@ - self.min.x@),
    {
        self.max.x.sub(self.min.x)
    }

    /// The extent along y, saturating.
    pub fn height(&self) -> (h: Scalar)
        ensures
            h == Scalar::of(self.max.y@ - self.min.y@),
    {
        self.max.y.sub(self.min.y)
    }

    /// The midpoint of the box, each coordinate rounded toward zero.
    pub open spec fn midpoint(self) -> Position {
        Position {
            x: Scalar::of(trunc_div(self.min.x@ + self.max.x@, 2)),
            y: Scalar::of(trunc_div(self.min.y@ + self.max.y@, 2)),
        }
    }

    /// The midpoint of the box.
    pub fn center(&self) -> (c: Position)
        ensures
            c == self.midpoint(),
    {
        let sx: i64 = self.min.x.raw() + self.max.x.raw();
        let sy: i64 = self.min.y.raw() + self.max.y.raw();
        proof {
            crate::fixed::lemma_trunc_div_bounds(sx as int, 2, 2 * LIMIT);
            crate::fixed::lemma_trunc_div_bounds(sy as int, 2, 2 * LIMIT);
        }
        Position { x: Scalar::new(sx / 2), y: Scalar::new(sy / 2) }
    }

    /// The four corners in an order that makes a closed outline.
    pub fn vertices(&self) -> (v: Vec<Position>)
        ensures
            v@ == self.corners(),
    {
        let mut v: Vec<Position> = Vec::new();
        v.push(Position { x: self.min.x, y: self.min.y });
        v.push(Position { x: self.max.x, y: self.min.y });
        v.push(Position { x: self.max.x, y: self.max.y });
        v.push(Position { x: self.min.x, y: self.max.y });
        proof {
            assert(v@ =~= self.corners());
        }
        v
    }

    /// The least box that holds every point of the list; the empty box for an
    /// empty list.
    pub fn from_points(points: &[Position]) -> (b: BoundingBox)
        ensures
            b == box_of(points@),
            forall|i: int| 0 <= i < points.len() ==> b.holds(#[trigger] points@[i]),
            points.len() > 0 ==> {
                &&& exists|i: int| 0 <= i < points.len() && b.min.x == (#[trigger] points@[i]).x
                &&& exists|i: int| 0 <= i < points.len() && b.min.y == (#[trigger] points@[i]).y
                &&& exists|i: int| 0 <= i < points.len() && b.max.x == (#[trigger] points@[i]).x
                &&& exists|i: int| 0 <= i < points.len() && b.max.y == (#[trigger] points@[i]).y
            },
    {
        let mut b = BoundingBox {
            min: Position { x: Scalar::max_value(), y: Scalar::max_value() },
            max: Position { x: Scalar::min_value(), y: Scalar::min_value() },
        };
        let mut i: usize = 0;
        while i < points.len()
            invariant
                i <= points.len(),
                b == box_of_prefix(points@, i as int),
                forall|j: int| 0 <= j < i ==> within_range(#[trigger] points@[j]),
            decreases points.len() - i,
        {
            let p: Position = points[i];
            let _x: i64 = p.x.raw();
            let _y: i64 = p.y.raw();
            b.min.x = b.min.x.min(p.x);
            b.min.y = b.min.y.min(p.y);
            b.max.x = b.max.x.max(p.x);
            b.max.y = b.max.y.max(p.y);
            i = i + 1;
        }
        proof {
            lemma_box_of_holds(points@, points.len() as int);
            if points.len() > 0 {
                lemma_box_of_attained(points@, points.len() as int);
            }
        }
        b
    }

    /// The images of the four corners under a transform, for drawing the outline
    /// of the transformed box.
    pub fn transform_vertices(&self, transform: &GerberTransform) -> (v: Vec<Position>)
        ensures
            v@ == transform.applied_to_all(self.corners()),
    {
        let corners = self.vertices();
        transform.apply_to_positions(corners.as_slice())
    }

    /// The axis-aligned box of the images of the four corners under a transform.
    pub fn apply_transform(&self, transform: &GerberTransform) -> (b: BoundingBox)
        ensures
            b == box_of(transform.applied_to_all(self.corners())),
    {
        let moved = self.transform_vertices(transform);
        BoundingBox::from_points(moved.as_slice())
    }

    /// The box of the corners reflected about `offset`, in x, in y, or in both.
    pub fn apply_mirroring(&self, mirror_x: bool, mirror_y: bool, offset: Vector) -> (b:
        BoundingBox)
        ensures
            b == box_of(
                Seq::new(
                    4,
                    |i: int| BoundingBox::mirrored_corner(self.corners()[i], mirror_x, mirror_y, offset),
                ),
            ),
    {
        let mut corners = self.vertices();
        let ghost before = corners@;
        let mut i: usize = 0;
        while i < 4
            invariant
                i <= 4,
                corners@.len() == 4,
                before == self.corners(),
                forall|j: int|
                    0 <= j < i ==> corners@[j] == BoundingBox::mirrored_corner(
                        before[j],
                        mirror_x,
                        mirror_y,
                        offset,
                    ),
                forall|j: int| i <= j < 4 ==> corners@[j] == before[j],
            decreases 4 - i,
        {
            let p: Position = corners[i];
            let q = Position {
                x: if mirror_x {
                    offset.x.sub(p.x.sub(offset.x))
                } else {
                    p.x
                },
                y: if mirror_y {
                    offset.y.sub(p.y.sub(offset.y))
                } else {
                    p.y
                },
            };
            corners.set(i, q);
            i = i + 1;
        }
        proof {
            assert(corners@ =~= Seq::new(
                4,
                |i: int| BoundingBox::mirrored_corner(self.corners()[i], mirror_x, mirror_y, offset),
            ));
        }
        BoundingBox::from_points(corners.as_slice())
    }

    /// The box of the corners turned about `offset` by `angle` degrees.
    pub fn apply_rotation(&self, angle: Scalar, offset: Vector) -> (b: BoundingBox)
        ensures
            b == box_of(
                Seq::new(4, |i: int| BoundingBox::rotated_corner(self.corners()[i], angle@, offset)),
            ),
    {
        let mut corners = self.vertices();
        let ghost before = corners@;
        let mut i: usize = 0;
        while i < 4
            invariant
                i <= 4,
                corners@.len() == 4,
                before == self.corners(),
                forall|j: int|
                    0 <= j < i ==> corners@[j] == BoundingBox::rotated_corner(
                        before[j],
                        angle@,
                        offset,
                    ),
                forall|j: int| i <= j < 4 ==> corners@[j] == before[j],
            decreases 4 - i,
        {
            let p: Position = corners[i];
            let q = p.translate_back(offset).rotate(angle).translate(offset);
            corners.set(i, q);
            i = i + 1;
        }
        proof {
            assert(corners@ =~= Seq::new(
                4,
                |i: int| BoundingBox::rotated_corner(self.corners()[i], angle@, offset),
            ));
        }
        BoundingBox::from_points(corners.as_slice())
    }
}

impl Default for BoundingBox {
    /// The empty box.
    fn default() -> (b: BoundingBox)
        ensures
            b == BoundingBox::empty(),
    {
        BoundingBox {
            min: Position { x: Scalar::max_value(), y: Scalar::max_value() },
            max: Position { x: Scalar::min_value(), y: Scalar::min_value() },
        }
    }
}

/// The box of a prefix holds each point of the prefix, and grows with the prefix.
pub proof fn lemma_box_of_holds(points: Seq<Position>, k: int)
    requires
        0 <= k <= points.len(),
    ensures
        forall|i: int| 0 <= i < k ==> box_of_prefix(points, k).holds(#[trigger] points[i]),
    decreases k,
{
    if k > 0 {
        lemma_box_of_holds(points, k - 1);
        let before = box_of_prefix(points, k - 1);
        let after = box_of_prefix(points, k);
        assert forall|i: int| 0 <= i < k implies after.holds(#[trigger] points[i]) by {
            if i < k - 1 {
                assert(before.holds(points[i]));
            }
        }
    }
}

/// The box of a non-empty prefix is as small as can be: each of its four
/// bounds is a coordinate of one of the points.
pub proof fn lemma_box_of_attained(points: Seq<Position>, k: int)
    requires
        0 < k <= points.len(),
        forall|i: int| 0 <= i < k ==> within_range(#[trigger] points[i]),
    ensures
        exists|i: int| 0 <= i < k && box_of_prefix(points, k).min.x == (#[trigger] points[i]).x,
        exists|i: int| 0 <= i < k && box_of_prefix(points, k).min.y == (#[trigger] points[i]).y,
        exists|i: int| 0 <= i < k && box_of_prefix(points, k).max.x == (#[trigger] points[i]).x,
        exists|i: int| 0 <= i < k && box_of_prefix(points, k).max.y == (#[trigger] points[i]).y,
    decreases k,
{
    let after = box_of_prefix(points, k);
    let last = points[k - 1];
    if k > 1 {
        lemma_box_of_attained(points, k - 1);
        let before = box_of_prefix(points, k - 1);
        let a = choose|i: int| 0 <= i < k - 1 && before.min.x == (#[trigger] points[i]).x;
        let b = choose|i: int| 0 <= i < k - 1 && before.min.y == (#[trigger] points[i]).y;
        let c = choose|i: int| 0 <= i < k - 1 && before.max.x == (#[trigger] points[i]).x;
        let d = choose|i: int| 0 <= i < k - 1 && before.max.y == (#[trigger] points[i]).y;
        assert(after.min.x == last.x || after.min.x == points[a].x);
        assert(after.min.y == last.y || after.min.y == points[b].y);
        assert(after.max.x == last.x || after.max.x == points[c].x);
        assert(after.max.y == last.y || after.max.y == points[d].y);
    } else {
        assert(box_of_prefix(points, 0) == BoundingBox::empty());
        assert(within_range(last));
        Scalar::lemma_view_injective(last.x, Scalar::of(LIMIT as int));
        Scalar::lemma_view_injective(last.y, Scalar::of(LIMIT as int));
        Scalar::lemma_view_injective(last.x, Scalar::of(-LIMIT as int));
        Scalar::lemma_view_injective(last.y, Scalar::of(-LIMIT as int));
        assert(after.min.x == last.x && after.min.y == last.y);
        assert(after.max.x == last.x && after.max.y == last.y);
    }
}

/// The box of a non-empty list is never the empty box, and the box of the single
/// point at the origin has no extent and is not empty either.
pub proof fn lemma_only_sentinel_is_empty(points: Seq<Position>)
    requires
        points.len() > 0,
    ensures
        box_of(points) != BoundingBox::empty(),
        box_of(points).min.x@ <= box_of(points).max.x@,
        box_of(points).min.y@ <= box_of(points).max.y@,
{
    lemma_box_of_holds(points, points.len() as int);
    assert(box_of(points).holds(points[0]));
}

/// A box whose two corners are the origin is not empty.
pub proof fn lemma_zero_box_not_empty(b: BoundingBox)
    requires
        b.min.x@ == 0 && b.min.y@ == 0 && b.max.x@ == 0 && b.max.y@ == 0,
    ensures
        b != BoundingBox::empty(),
{
}

} // verus!
