//! Mirroring in the two coordinate axes.

use vstd::prelude::*;
use vstd::std_specs::ops::{BitXorSpec, NegSpec};

verus! {

/// Which of the two coordinates change sign.
#[derive(Debug, Copy, Clone)]
pub struct Mirroring {
    pub x: bool,
    pub y: bool,
}

impl std::ops::BitXor<Mirroring> for Mirroring {
    type Output = Mirroring;

    /// Composition of two mirrorings: a coordinate changes sign when exactly one
    /// of the two changes it.
    fn bitxor(self, rhs: Mirroring) -> (out: Mirroring) {
        Mirroring { x: self.x ^ rhs.x, y: self.y ^ rhs.y }
    }
}

impl vstd::std_specs::ops::BitXorSpecImpl<Mirroring> for Mirroring {
    open spec fn obeys_bitxor_spec() -> bool {
        true
    }

    open spec fn bitxor_req(self, rhs: Mirroring) -> bool {
        true
    }

    open spec fn bitxor_spec(self, rhs: Mirroring) -> Mirroring {
        Mirroring { x: self.x != rhs.x, y: self.y != rhs.y }
    }
}

impl<T: std::ops::Neg<Output = T>> std::ops::Mul<(T, T)> for Mirroring {
    type Output = (T, T);

    /// The pair with each mirrored coordinate negated.
    fn mul(self, rhs: (T, T)) -> (out: (T, T)) {
        let a = if self.x {
            rhs.0.neg()
        } else {
            rhs.0
        };
        let b = if self.y {
            rhs.1.neg()
        } else {
            rhs.1
        };
        (a, b)
    }
}

impl<T: std::ops::Neg<Output = T>> vstd::std_specs::ops::MulSpecImpl<(T, T)> for Mirroring {
    open spec fn obeys_mul_spec() -> bool {
        T::obeys_neg_spec()
    }

    open spec fn mul_req(self, rhs: (T, T)) -> bool {
        &&& self.x ==> rhs.0.neg_req()
        &&& self.y ==> rhs.1.neg_req()
    }

    open spec fn mul_spec(self, rhs: (T, T)) -> (T, T) {
        (
            if self.x {
                rhs.0.neg_spec()
            } else {
                rhs.0
            },
            if self.y {
                rhs.1.neg_spec()
            } else {
                rhs.1
            },
        )
    }
}

impl Default for Mirroring {
    fn default() -> (m: Mirroring)
        ensures
            !m.x && !m.y,
    {
        Mirroring { x: false, y: false }
    }
}

impl From<[bool; 2]> for Mirroring {
    fn from(value: [bool; 2]) -> (m: Mirroring) {
        Mirroring { x: value[0], y: value[1] }
    }
}

impl vstd::std_specs::convert::FromSpecImpl<[bool; 2]> for Mirroring {
    open spec fn obeys_from_spec() -> bool {
        true
    }

    open spec fn from_spec(value: [bool; 2]) -> Mirroring {
        Mirroring { x: value[0], y: value[1] }
    }
}

impl From<[i8; 2]> for Mirroring {
    fn from(value: [i8; 2]) -> (m: Mirroring) {
        Mirroring { x: value[0] != 0, y: value[1] != 0 }
    }
}

impl vstd::std_specs::convert::FromSpecImpl<[i8; 2]> for Mirroring {
    open spec fn obeys_from_spec() -> bool {
        true
    }

    open spec fn from_spec(value: [i8; 2]) -> Mirroring {
        Mirroring { x: value[0] != 0, y: value[1] != 0 }
    }
}

impl From<(bool, bool)> for Mirroring {
    fn from(value: (bool, bool)) -> (m: Mirroring) {
        Mirroring { x: value.0, y: value.1 }
    }
}

impl vstd::std_specs::convert::FromSpecImpl<(bool, bool)> for Mirroring {
    open spec fn obeys_from_spec() -> bool {
        true
    }

    open spec fn from_spec(value: (bool, bool)) -> Mirroring {
        Mirroring { x: value.0, y: value.1 }
    }
}

impl From<(i8, i8)> for Mirroring {
    fn from(value: (i8, i8)) -> (m: Mirroring) {
        Mirroring { x: value.0 != 0, y: value.1 != 0 }
    }
}

impl vstd::std_specs::convert::FromSpecImpl<(i8, i8)> for Mirroring {
    open spec fn obeys_from_spec() -> bool {
        true
    }

    open spec fn from_spec(value: (i8, i8)) -> Mirroring {
        Mirroring { x: value.0 != 0, y: value.1 != 0 }
    }
}

impl Mirroring {
    /// The two signs as integers: `-1` for a mirrored coordinate, `1` otherwise.
    pub fn as_i8(&self) -> (signs: [i8; 2])
        ensures
            signs[0] == (if self.x { -1i8 } else { 1i8 }),
            signs[1] == (if self.y { -1i8 } else { 1i8 }),
    {
        [if self.x { -1 } else { 1 }, if self.y { -1 } else { 1 }]
    }

    /// Mirroring twice in the same axes is no mirroring.
    pub proof fn lemma_involution(m: Mirroring)
        ensures
            m.bitxor_spec(m) == (Mirroring { x: false, y: false }),
    {
    }
}

} // verus!
