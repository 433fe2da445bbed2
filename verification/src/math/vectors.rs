//! Vector types and operations.
use vstd::prelude::*;

use crate::fp::{spec_fp_div_any, spec_fp_neg, Fp, FP_ONE};
use crate::math::dot::Dot;
use crate::math::num_traits::MulAdd;
use crate::math::tuples::TupleElement;
use crate::math::{spec_difference_of_products, difference_of_products};

verus! {

/// Componentwise saturating negation of a fixed-point vector.
pub open spec fn spec_vector3_neg(v: Vector3<Fp>) -> Vector3<Fp> {
    Vector3 { x: spec_fp_neg(v.x), y: spec_fp_neg(v.y), z: spec_fp_neg(v.z) }
}

/// Represents a 2-dimensional vector.
#[derive(Clone, Copy, PartialEq, Eq, Structural, Debug)]
pub struct Vector2<T> {
    /// The x-coordinate of the vector.
    pub x: T,
    /// The y-coordinate of the vector.
    pub y: T,
}

/// Represents a 3-dimensional vector.
#[derive(Clone, Copy, PartialEq, Eq, Structural, Debug)]
pub struct Vector3<T> {
    /// The x-coordinate of the vector.
    pub x: T,
    /// The y-coordinate of the vector.
    pub y: T,
    /// The z-coordinate of the vector.
    pub z: T,
}

/// A 2-dimensional vector with fixed-point components.
pub type Vector2f = Vector2<crate::fp::Fp>;

/// A 3-dimensional vector with fixed-point components.
pub type Vector3f = Vector3<crate::fp::Fp>;

/// A 2-dimensional vector with `i32` components.
pub type Vector2i = Vector2<i32>;

/// A 3-dimensional vector with `i32` components.
pub type Vector3i = Vector3<i32>;

impl<T> Vector2<T> {
    pub fn new(x: T, y: T) -> (r: Self)
        ensures
            r == (Vector2 { x, y }),
    {
        Vector2 { x, y }
    }
}

impl<T> Vector3<T> {
    pub fn new(x: T, y: T, z: T) -> (r: Self)
        ensures
            r == (Vector3 { x, y, z }),
    {
        Vector3 { x, y, z }
    }
}

impl Vector3<Fp> {
    /// The opposite direction, saturating at the representable range.
    pub fn neg(&self) -> (r: Vector3<Fp>)
        ensures
            r == spec_vector3_neg(*self),
    {
        Vector3 { x: self.x.sat_neg(), y: self.y.sat_neg(), z: self.z.sat_neg() }
    }
}

impl<T: TupleElement> Vector2<T> {
    /// Componentwise sum.
    pub fn plus(&self, o: Vector2<T>) -> (r: Vector2<T>)
        ensures
            r == (Vector2 { x: self.x.spec_elem_add(o.x), y: self.y.spec_elem_add(o.y) }),
    {
        Vector2 { x: self.x.elem_add(o.x), y: self.y.elem_add(o.y) }
    }

    /// Componentwise difference.
    pub fn minus(&self, o: Vector2<T>) -> (r: Vector2<T>)
        ensures
            r == (Vector2 { x: self.x.spec_elem_sub(o.x), y: self.y.spec_elem_sub(o.y) }),
    {
        Vector2 { x: self.x.elem_sub(o.x), y: self.y.elem_sub(o.y) }
    }

    /// Every component scaled by `s`.
    pub fn scaled(&self, s: T) -> (r: Vector2<T>)
        ensures
            r == (Vector2 { x: self.x.spec_elem_mul(s), y: self.y.spec_elem_mul(s) }),
    {
        Vector2 { x: self.x.elem_mul(s), y: self.y.elem_mul(s) }
    }
}

impl<T: TupleElement> Vector3<T> {
    /// Componentwise sum.
    pub fn plus(&self, o: Vector3<T>) -> (r: Vector3<T>)
        ensures
            r == (Vector3 {
                x: self.x.spec_elem_add(o.x),
                y: self.y.spec_elem_add(o.y),
                z: self.z.spec_elem_add(o.z),
            }),
    {
        Vector3 { x: self.x.elem_add(o.x), y: self.y.elem_add(o.y), z: self.z.elem_add(o.z) }
    }

    /// Componentwise difference.
    pub fn minus(&self, o: Vector3<T>) -> (r: Vector3<T>)
        ensures
            r == (Vector3 {
                x: self.x.spec_elem_sub(o.x),
                y: self.y.spec_elem_sub(o.y),
                z: self.z.spec_elem_sub(o.z),
            }),
    {
        Vector3 { x: self.x.elem_sub(o.x), y: self.y.elem_sub(o.y), z: self.z.elem_sub(o.z) }
    }

    /// Every component scaled by `s`.
    pub fn scaled(&self, s: T) -> (r: Vector3<T>)
        ensures
            r == (Vector3 { x: self.x.spec_elem_mul(s), y: self.y.spec_elem_mul(s), z: self.z.spec_elem_mul(s) }),
    {
        Vector3 { x: self.x.elem_mul(s), y: self.y.elem_mul(s), z: self.z.elem_mul(s) }
    }
}

/// The cross product of two 3-vectors.
pub trait Cross where Self: Sized + Copy {
    spec fn spec_cross(self, other: Self) -> Self;

    /// Computes the cross product of `self` and `other`.
    fn cross(&self, other: &Self) -> (r: Self)
        ensures
            r == self.spec_cross(*other),
    ;
}

impl<T: TupleElement + MulAdd> Cross for Vector3<T> {
    open spec fn spec_cross(self, other: Self) -> Self {
        Vector3 {
            x: spec_difference_of_products(self.y, other.z, self.z, other.y),
            y: spec_difference_of_products(self.z, other.x, self.x, other.z),
            z: spec_difference_of_products(self.x, other.y, self.y, other.x),
        }
    }

    fn cross(&self, other: &Self) -> (r: Self) {
        Vector3 {
            x: difference_of_products(self.y, other.z, self.z, other.y),
            y: difference_of_products(self.z, other.x, self.x, other.z),
            z: difference_of_products(self.x, other.y, self.y, other.x),
        }
    }
}

/// The Gram-Schmidt orthogonalization step of one vector against another.
/// `self` must already be normalized.
pub trait GramSchmidt where Self: Sized + Copy {
    spec fn spec_gram_schmidt(self, other: Self) -> Self;

    /// `self` with its component along `other` removed.
    fn gram_schmidt(&self, other: &Self) -> (r: Self)
        ensures
            r == self.spec_gram_schmidt(*other),
    ;
}

impl<T: TupleElement> GramSchmidt for Vector2<T> {
    open spec fn spec_gram_schmidt(self, other: Self) -> Self {
        let d = self.spec_dot(other);
        Vector2 {
            x: self.x.spec_elem_sub(other.x.spec_elem_mul(d)),
            y: self.y.spec_elem_sub(other.y.spec_elem_mul(d)),
        }
    }

    fn gram_schmidt(&self, other: &Self) -> (r: Self) {
        let d = self.dot(*other);
        self.minus(other.scaled(d))
    }
}

impl<T: TupleElement> GramSchmidt for Vector3<T> {
    open spec fn spec_gram_schmidt(self, other: Self) -> Self {
        let d = self.spec_dot(other);
        Vector3 {
            x: self.x.spec_elem_sub(other.x.spec_elem_mul(d)),
            y: self.y.spec_elem_sub(other.y.spec_elem_mul(d)),
            z: self.z.spec_elem_sub(other.z.spec_elem_mul(d)),
        }
    }

    fn gram_schmidt(&self, other: &Self) -> (r: Self) {
        let d = self.dot(*other);
        self.minus(other.scaled(d))
    }
}

/// A full coordinate frame built around one vector.
pub trait CoordSystem where Self: Sized + Copy {
    spec fn spec_coord_system(self) -> (Self, Self);

    /// Two vectors completing a coordinate system with `self`, which must
    /// already be normalized.
    fn coord_system(&self) -> (r: (Self, Self))
        ensures
            r == self.spec_coord_system(),
    ;
}

/// The frame around a fixed-point direction, built branchlessly from the
/// sign of its `z` component.
pub open spec fn spec_coord_frame(v: Vector3<Fp>) -> (Vector3<Fp>, Vector3<Fp>) {
    let sign = if v.z.bits >= 0 {
        Fp { bits: FP_ONE }
    } else {
        Fp { bits: (-65536i64) }
    };
    let a = spec_fp_div_any(Fp { bits: (-65536i64) }, crate::fp::spec_fp_add(sign, v.z));
    let b = crate::fp::spec_fp_mul(crate::fp::spec_fp_mul(v.x, v.y), a);
    (
        Vector3 {
            x: crate::fp::spec_fp_add(
                Fp { bits: FP_ONE },
                crate::fp::spec_fp_mul(sign, crate::fp::spec_fp_mul(crate::fp::spec_fp_mul(v.x, v.x), a)),
            ),
            y: crate::fp::spec_fp_mul(sign, b),
            z: crate::fp::spec_fp_mul(spec_fp_neg(sign), v.x),
        },
        Vector3 {
            x: b,
            y: crate::fp::spec_fp_add(
                sign,
                crate::fp::spec_fp_mul(crate::fp::spec_fp_mul(v.y, v.y), a),
            ),
            z: spec_fp_neg(v.y),
        },
    )
}

/// Truncating `-1 / d` over the integers: non-zero only for a unit divisor.
pub open spec fn spec_neg_one_over(d: i32) -> i32 {
    if d == 1 {
        -1i32
    } else if d == -1i32 {
        1i32
    } else {
        0i32
    }
}

/// The integer frame around an integer direction, following the same
/// branchless construction over saturating integer arithmetic.
pub open spec fn spec_coord_frame_i(v: Vector3<i32>) -> (Vector3<i32>, Vector3<i32>) {
    let sign: i32 = if v.z >= 0 {
        1
    } else {
        -1i32
    };
    let a = spec_neg_one_over(sign.spec_elem_add(v.z));
    let b = v.x.spec_elem_mul(v.y).spec_elem_mul(a);
    (
        Vector3 {
            x: 1i32.spec_elem_add(sign.spec_elem_mul(v.x.spec_elem_mul(v.x).spec_elem_mul(a))),
            y: sign.spec_elem_mul(b),
            z: sign.spec_elem_neg().spec_elem_mul(v.x),
        },
        Vector3 {
            x: b,
            y: sign.spec_elem_add(v.y.spec_elem_mul(v.y).spec_elem_mul(a)),
            z: v.y.spec_elem_neg(),
        },
    )
}

impl CoordSystem for Vector3<i32> {
    open spec fn spec_coord_system(self) -> (Self, Self) {
        spec_coord_frame_i(self)
    }

    fn coord_system(&self) -> (r: (Self, Self)) {
        let sign: i32 = if self.z >= 0 {
            1
        } else {
            -1
        };
        let denominator = sign.elem_add(self.z);
        let a: i32 = if denominator == 1 {
            -1
        } else if denominator == -1 {
            1
        } else {
            0
        };
        let b = self.x.elem_mul(self.y).elem_mul(a);
        (
            Vector3 {
                x: 1i32.elem_add(sign.elem_mul(self.x.elem_mul(self.x).elem_mul(a))),
                y: sign.elem_mul(b),
                z: sign.elem_neg().elem_mul(self.x),
            },
            Vector3 {
                x: b,
                y: sign.elem_add(self.y.elem_mul(self.y).elem_mul(a)),
                z: self.y.elem_neg(),
            },
        )
    }
}

impl CoordSystem for Vector3<Fp> {
    open spec fn spec_coord_system(self) -> (Self, Self) {
        spec_coord_frame(self)
    }

    fn coord_system(&self) -> (r: (Self, Self)) {
        let sign = if self.z.bits >= 0 {
            Fp { bits: FP_ONE }
        } else {
            Fp { bits: (-65536i64) }
        };
        let denominator = sign.sat_add(self.z);
        let a = Fp { bits: (-65536i64) }.sat_div_any(denominator);
        let b = self.x.sat_mul(self.y).sat_mul(a);
        (
            Vector3 {
                x: Fp { bits: FP_ONE }.sat_add(sign.sat_mul(self.x.sat_mul(self.x).sat_mul(a))),
                y: sign.sat_mul(b),
                z: sign.sat_neg().sat_mul(self.x),
            },
            Vector3 {
                x: b,
                y: sign.sat_add(self.y.sat_mul(self.y).sat_mul(a)),
                z: self.y.sat_neg(),
            },
        )
    }
}

} // verus!
