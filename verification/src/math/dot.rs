//! Dot product for vectors and normals.
use vstd::prelude::*;

use crate::math::normals::Normal3;
use crate::math::num_traits::Abs;
use crate::math::tuples::TupleElement;
use crate::math::vectors::{Vector2, Vector3};

verus! {

/// The dot product of two geometric objects, with its absolute-value
/// companion.
pub trait Dot<Rhs = Self> where Self: Sized + Copy, Rhs: Copy {
    type Output: Abs;

    /// The dot product's value.
    spec fn spec_dot(self, rhs: Rhs) -> Self::Output;

    /// Computes the dot product of `self` and `rhs`.
    fn dot(self, rhs: Rhs) -> (r: Self::Output)
        ensures
            r == self.spec_dot(rhs),
    ;

    /// Computes the absolute value of the dot product of `self` and `rhs`.
    fn abs_dot(self, rhs: Rhs) -> (r: Self::Output)
        ensures
            r == self.spec_dot(rhs).spec_abs(),
    {
        self.dot(rhs).abs()
    }
}

impl<T: TupleElement> Dot for Vector2<T> {
    type Output = T;

    open spec fn spec_dot(self, rhs: Self) -> T {
        self.x.spec_elem_mul(rhs.x).spec_elem_add(self.y.spec_elem_mul(rhs.y))
    }

    fn dot(self, rhs: Self) -> (r: T) {
        self.x.elem_mul(rhs.x).elem_add(self.y.elem_mul(rhs.y))
    }
}

impl<T: TupleElement> Dot for Vector3<T> {
    type Output = T;

    open spec fn spec_dot(self, rhs: Self) -> T {
        self.x.spec_elem_mul(rhs.x).spec_elem_add(self.y.spec_elem_mul(rhs.y)).spec_elem_add(
            self.z.spec_elem_mul(rhs.z),
        )
    }

    fn dot(self, rhs: Self) -> (r: T) {
        self.x.elem_mul(rhs.x).elem_add(self.y.elem_mul(rhs.y)).elem_add(
            self.z.elem_mul(rhs.z),
        )
    }
}

impl<T: TupleElement> Dot<Normal3<T>> for Vector3<T> {
    type Output = T;

    open spec fn spec_dot(self, rhs: Normal3<T>) -> T {
        self.x.spec_elem_mul(rhs.x).spec_elem_add(self.y.spec_elem_mul(rhs.y)).spec_elem_add(
            self.z.spec_elem_mul(rhs.z),
        )
    }

    fn dot(self, rhs: Normal3<T>) -> (r: T) {
        self.x.elem_mul(rhs.x).elem_add(self.y.elem_mul(rhs.y)).elem_add(
            self.z.elem_mul(rhs.z),
        )
    }
}

impl<T: TupleElement> Dot<Vector3<T>> for Normal3<T> {
    type Output = T;

    open spec fn spec_dot(self, rhs: Vector3<T>) -> T {
        self.x.spec_elem_mul(rhs.x).spec_elem_add(self.y.spec_elem_mul(rhs.y)).spec_elem_add(
            self.z.spec_elem_mul(rhs.z),
        )
    }

    fn dot(self, rhs: Vector3<T>) -> (r: T) {
        self.x.elem_mul(rhs.x).elem_add(self.y.elem_mul(rhs.y)).elem_add(
            self.z.elem_mul(rhs.z),
        )
    }
}

impl<T: TupleElement> Dot for Normal3<T> {
    type Output = T;

    open spec fn spec_dot(self, rhs: Self) -> T {
        self.x.spec_elem_mul(rhs.x).spec_elem_add(self.y.spec_elem_mul(rhs.y)).spec_elem_add(
            self.z.spec_elem_mul(rhs.z),
        )
    }

    fn dot(self, rhs: Self) -> (r: T) {
        self.x.elem_mul(rhs.x).elem_add(self.y.elem_mul(rhs.y)).elem_add(
            self.z.elem_mul(rhs.z),
        )
    }
}

} // verus!
