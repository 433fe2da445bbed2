//! Flip a vector to lie in the same hemisphere as another.
use vstd::prelude::*;

use crate::fp::Fp;
use crate::math::dot::Dot;
use crate::math::normals::{spec_normal3_neg, Normal3f};
use crate::math::tuples::TupleElement;
use crate::math::vectors::{spec_vector3_neg, Vector3f};

verus! {

/// Flipping an orientation-carrying value into the hemisphere of another.
pub trait FaceForward<T: TupleElement, Rhs = Self> where Self: Sized + Copy, Rhs: Copy {
    type Output;

    spec fn spec_face_forward(self, rhs: Rhs) -> Self::Output;

    /// `self` flipped, if needed, to lie in the hemisphere `rhs` points
    /// into.
    fn face_forward(self, rhs: Rhs) -> (r: Self::Output)
        ensures
            r == self.spec_face_forward(rhs),
    ;
}

impl FaceForward<Fp> for Vector3f {
    type Output = Vector3f;

    open spec fn spec_face_forward(self, rhs: Self) -> Vector3f {
        if self.spec_dot(rhs).bits < 0 {
            spec_vector3_neg(self)
        } else {
            self
        }
    }

    fn face_forward(self, rhs: Self) -> (r: Vector3f) {
        if self.dot(rhs).bits < 0 {
            self.neg()
        } else {
            self
        }
    }
}

impl FaceForward<Fp, Normal3f> for Vector3f {
    type Output = Vector3f;

    open spec fn spec_face_forward(self, rhs: Normal3f) -> Vector3f {
        if self.spec_dot(rhs).bits < 0 {
            spec_vector3_neg(self)
        } else {
            self
        }
    }

    fn face_forward(self, rhs: Normal3f) -> (r: Vector3f) {
        if self.dot(rhs).bits < 0 {
            self.neg()
        } else {
            self
        }
    }
}

impl FaceForward<Fp, Vector3f> for Normal3f {
    type Output = Normal3f;

    open spec fn spec_face_forward(self, rhs: Vector3f) -> Normal3f {
        if self.spec_dot(rhs).bits < 0 {
            spec_normal3_neg(self)
        } else {
            self
        }
    }

    fn face_forward(self, rhs: Vector3f) -> (r: Normal3f) {
        if self.dot(rhs).bits < 0 {
            self.neg()
        } else {
            self
        }
    }
}

impl FaceForward<Fp> for Normal3f {
    type Output = Normal3f;

    open spec fn spec_face_forward(self, rhs: Self) -> Normal3f {
        if self.spec_dot(rhs).bits < 0 {
            spec_normal3_neg(self)
        } else {
            self
        }
    }

    fn face_forward(self, rhs: Self) -> (r: Normal3f) {
        if self.dot(rhs).bits < 0 {
            self.neg()
        } else {
            self
        }
    }
}

} // verus!
