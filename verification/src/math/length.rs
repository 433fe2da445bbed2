//! Length trait and implementations for vectors.
use vstd::prelude::*;

use crate::fp::{spec_fp_sqrt, spec_from_whole, Fp};
use crate::math::normals::Normal3f;
use crate::math::tuples::TupleElement;
use crate::math::vectors::{Vector2f, Vector2i, Vector3f, Vector3i};

verus! {

/// A type with a Euclidean length.
pub trait Length {
    type TupleElementType;

    type LengthType;

    spec fn spec_length_squared(self) -> Self::TupleElementType;

    spec fn spec_length(self) -> Self::LengthType;

    /// The squared length.
    fn length_squared(&self) -> (r: Self::TupleElementType)
        ensures
            r == self.spec_length_squared(),
    ;

    /// The length.
    fn length(&self) -> (r: Self::LengthType)
        ensures
            r == self.spec_length(),
    ;
}

impl Length for Vector2f {
    type TupleElementType = Fp;

    type LengthType = Fp;

    open spec fn spec_length_squared(self) -> Fp {
        self.x.spec_elem_mul(self.x).spec_elem_add(self.y.spec_elem_mul(self.y))
    }

    open spec fn spec_length(self) -> Fp {
        spec_fp_sqrt(self.spec_length_squared())
    }

    fn length_squared(&self) -> (r: Fp) {
        self.x.elem_mul(self.x).elem_add(self.y.elem_mul(self.y))
    }

    fn length(&self) -> (r: Fp) {
        self.length_squared().fp_sqrt()
    }
}

impl Length for Vector3f {
    type TupleElementType = Fp;

    type LengthType = Fp;

    open spec fn spec_length_squared(self) -> Fp {
        self.x.spec_elem_mul(self.x).spec_elem_add(self.y.spec_elem_mul(self.y)).spec_elem_add(
            self.z.spec_elem_mul(self.z),
        )
    }

    open spec fn spec_length(self) -> Fp {
        spec_fp_sqrt(self.spec_length_squared())
    }

    fn length_squared(&self) -> (r: Fp) {
        self.x.elem_mul(self.x).elem_add(self.y.elem_mul(self.y)).elem_add(
            self.z.elem_mul(self.z),
        )
    }

    fn length(&self) -> (r: Fp) {
        self.length_squared().fp_sqrt()
    }
}

impl Length for Vector2i {
    type TupleElementType = i32;

    type LengthType = Fp;

    open spec fn spec_length_squared(self) -> i32 {
        self.x.spec_elem_mul(self.x).spec_elem_add(self.y.spec_elem_mul(self.y))
    }

    open spec fn spec_length(self) -> Fp {
        spec_fp_sqrt(spec_from_whole(self.spec_length_squared() as int))
    }

    fn length_squared(&self) -> (r: i32) {
        self.x.elem_mul(self.x).elem_add(self.y.elem_mul(self.y))
    }

    fn length(&self) -> (r: Fp) {
        Fp::from_whole(self.length_squared() as i64).fp_sqrt()
    }
}

impl Length for Vector3i {
    type TupleElementType = i32;

    type LengthType = Fp;

    open spec fn spec_length_squared(self) -> i32 {
        self.x.spec_elem_mul(self.x).spec_elem_add(self.y.spec_elem_mul(self.y)).spec_elem_add(
            self.z.spec_elem_mul(self.z),
        )
    }

    open spec fn spec_length(self) -> Fp {
        spec_fp_sqrt(spec_from_whole(self.spec_length_squared() as int))
    }

    fn length_squared(&self) -> (r: i32) {
        self.x.elem_mul(self.x).elem_add(self.y.elem_mul(self.y)).elem_add(
            self.z.elem_mul(self.z),
        )
    }

    fn length(&self) -> (r: Fp) {
        Fp::from_whole(self.length_squared() as i64).fp_sqrt()
    }
}

impl Length for Normal3f {
    type TupleElementType = Fp;

    type LengthType = Fp;

    open spec fn spec_length_squared(self) -> Fp {
        self.x.spec_elem_mul(self.x).spec_elem_add(self.y.spec_elem_mul(self.y)).spec_elem_add(
            self.z.spec_elem_mul(self.z),
        )
    }

    open spec fn spec_length(self) -> Fp {
        spec_fp_sqrt(self.spec_length_squared())
    }

    fn length_squared(&self) -> (r: Fp) {
        self.x.elem_mul(self.x).elem_add(self.y.elem_mul(self.y)).elem_add(
            self.z.elem_mul(self.z),
        )
    }

    fn length(&self) -> (r: Fp) {
        self.length_squared().fp_sqrt()
    }
}

} // verus!
