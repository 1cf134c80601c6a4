//! Points and vectors of the plane, and the removal of near-duplicate vertices.

pub mod deduplicate;

use vstd::prelude::*;
use crate::fixed::{group_scalar, saturate, Scalar};
use crate::trig::{rotate_xy, rotated_x, rotated_y};

verus! {

broadcast use group_scalar;

/// A point of the plane.
#[derive(Debug, Copy, Clone, PartialEq, Eq, Structural, Hash)]
pub struct Position {
    pub x: Scalar,
    pub y: Scalar,
}

/// A displacement of the plane.
#[derive(Debug, Copy, Clone, PartialEq, Eq, Structural, Hash)]
pub struct Vector {
    pub x: Scalar,
    pub y: Scalar,
}

/// A width and a height.
pub type Size = Vector;

impl Position {
    /// The point `(x, y)`.
    pub fn new(x: Scalar, y: Scalar) -> (p: Position)
        ensures
            p.x == x,
            p.y == y,
    {
        Position { x, y }
    }

    /// The point of the given raw coordinates, each pinned to the range.
    pub fn from_raw(x: i64, y: i64) -> (p: Position)
        ensures
            p.x@ == saturate(x as int),
            p.y@ == saturate(y as int),
    {
        Position { x: Scalar::new(x), y: Scalar::new(y) }
    }

    /// The origin.
    pub fn origin() -> (p: Position)
        ensures
            p.x@ == 0,
            p.y@ == 0,
            p == (Position { x: Scalar::of(0), y: Scalar::of(0) }),
    {
        Position { x: Scalar::zero(), y: Scalar::zero() }
    }

    /// The point moved by `v`, saturating.
    pub open spec fn translated(self, v: Vector) -> Position {
        Position { x: Scalar::of(self.x@ + v.x@), y: Scalar::of(self.y@ + v.y@) }
    }

    /// The point moved by `v`, saturating.
    pub fn translate(self, v: Vector) -> (p: Position)
        ensures
            p == self.translated(v),
    {
        let p = Position { x: self.x.add(v.x), y: self.y.add(v.y) };
        p
    }

    /// The point turned counter-clockwise about the origin by `angle` millionths
    /// of a degree.
    pub open spec fn rotated(self, angle: int) -> Position {
        Position {
            x: Scalar::of(rotated_x(self.x@, self.y@, angle)),
            y: Scalar::of(rotated_y(self.x@, self.y@, angle)),
        }
    }

    /// The point turned counter-clockwise about the origin by `angle` degrees.
    pub fn rotate(self, angle: Scalar) -> (p: Position)
        ensures
            p == self.rotated(angle@),
    {
        let (x, y) = rotate_xy(self.x, self.y, angle);
        Position { x, y }
    }

    /// The point with the chosen coordinates negated.
    pub open spec fn mirrored(self, mirror_x: bool, mirror_y: bool) -> Position {
        Position {
            x: if mirror_x {
                Scalar::of(-self.x@)
            } else {
                self.x
            },
            y: if mirror_y {
                Scalar::of(-self.y@)
            } else {
                self.y
            },
        }
    }

    /// The point with the chosen coordinates negated.
    pub fn mirror(self, mirror_x: bool, mirror_y: bool) -> (p: Position)
        ensures
            p == self.mirrored(mirror_x, mirror_y),
    {
        Position {
            x: if mirror_x {
                self.x.negate()
            } else {
                self.x
            },
            y: if mirror_y {
                self.y.negate()
            } else {
                self.y
            },
        }
    }

    /// The point moved back by `v`, saturating.
    pub open spec fn translated_back(self, v: Vector) -> Position {
        Position { x: Scalar::of(self.x@ - v.x@), y: Scalar::of(self.y@ - v.y@) }
    }

    /// The point moved back by `v`, saturating.
    pub fn translate_back(self, v: Vector) -> (p: Position)
        ensures
            p == self.translated_back(v),
    {
        let p = Position { x: self.x.sub(v.x), y: self.y.sub(v.y) };
        p
    }
}

impl Vector {
    /// The vector `(x, y)`.
    pub fn new(x: Scalar, y: Scalar) -> (v: Vector)
        ensures
            v.x == x,
            v.y == y,
    {
        Vector { x, y }
    }

    /// The zero vector.
    pub fn zero() -> (v: Vector)
        ensures
            v.x@ == 0,
            v.y@ == 0,
            v == (Vector { x: Scalar::of(0), y: Scalar::of(0) }),
    {
        Vector { x: Scalar::zero(), y: Scalar::zero() }
    }

    /// The sum of two vectors, saturating.
    pub open spec fn plus(self, v: Vector) -> Vector {
        Vector { x: Scalar::of(self.x@ + v.x@), y: Scalar::of(self.y@ + v.y@) }
    }

    /// The sum of two vectors, saturating.
    pub fn add(self, v: Vector) -> (r: Vector)
        ensures
            r == self.plus(v),
    {
        let r = Vector { x: self.x.add(v.x), y: self.y.add(v.y) };
        r
    }
}

/// Conversion of a point into the vector from the origin to it.
pub trait ToVector: Sized {
    spec fn as_vector(self) -> Vector;

    fn to_vector(self) -> (v: Vector)
        ensures
            v == self.as_vector(),
    ;
}

impl ToVector for Position {
    open spec fn as_vector(self) -> Vector {
        Vector { x: self.x, y: self.y }
    }

    fn to_vector(self) -> (v: Vector) {
        Vector { x: self.x, y: self.y }
    }
}

/// Conversion of a vector into the point it leads to from the origin.
pub trait ToPosition: Sized {
    spec fn as_position(self) -> Position;

    fn to_position(self) -> (p: Position)
        ensures
            p == self.as_position(),
    ;
}

impl ToPosition for Vector {
    open spec fn as_position(self) -> Position {
        Position { x: self.x, y: self.y }
    }

    fn to_position(self) -> (p: Position) {
        Position { x: self.x, y: self.y }
    }
}

/// Construction from a pair of coordinates.
pub trait FromTuple2: Sized {
    spec fn of_tuple(value: (Scalar, Scalar)) -> Self;

    fn from(value: (Scalar, Scalar)) -> (r: Self)
        ensures
            r == Self::of_tuple(value),
    ;
}

impl FromTuple2 for Position {
    open spec fn of_tuple(value: (Scalar, Scalar)) -> Position {
        Position { x: value.0, y: value.1 }
    }

    fn from(value: (Scalar, Scalar)) -> (r: Position) {
        Position { x: value.0, y: value.1 }
    }
}

/// Reflection in the coordinate axes.
pub trait Invert: Sized {
    spec fn inverted_x(self) -> Self;

    spec fn inverted_y(self) -> Self;

    /// The value with the sign of its x coordinate changed.
    fn invert_x(self) -> (r: Self)
        ensures
            r == self.inverted_x(),
    ;

    /// The value with the sign of its y coordinate changed.
    fn invert_y(self) -> (r: Self)
        ensures
            r == self.inverted_y(),
    ;
}

impl Invert for Vector {
    open spec fn inverted_x(self) -> Vector {
        Vector { x: Scalar::of(-self.x@), y: self.y }
    }

    open spec fn inverted_y(self) -> Vector {
        Vector { x: self.x, y: Scalar::of(-self.y@) }
    }

    fn invert_x(self) -> (r: Vector) {
        let r = Vector { x: self.x.negate(), y: self.y };
        r
    }

    fn invert_y(self) -> (r: Vector) {
        let r = Vector { x: self.x, y: self.y.negate() };
        r
    }
}

impl Invert for Position {
    open spec fn inverted_x(self) -> Position {
        Position { x: Scalar::of(-self.x@), y: self.y }
    }

    open spec fn inverted_y(self) -> Position {
        Position { x: self.x, y: Scalar::of(-self.y@) }
    }

    fn invert_x(self) -> (r: Position) {
        let r = Position { x: self.x.negate(), y: self.y };
        r
    }

    fn invert_y(self) -> (r: Position) {
        let r = Position { x: self.x, y: self.y.negate() };
        r
    }
}

} // verus!
