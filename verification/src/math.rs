//! Mathematical utilities and types.
use vstd::prelude::*;

pub mod dot;
pub mod face_forward;
pub mod float;
pub mod length;
pub mod normalize;
pub mod normals;
pub mod num_traits;
pub mod points;
pub mod sampling;
pub mod tuples;
pub mod vectors;

use crate::math::num_traits::MulAdd;
use crate::math::tuples::TupleElement;

verus! {

/// The square of a value.
pub fn sqr<T: TupleElement>(v: T) -> (r: T)
    ensures
        r == v.spec_elem_mul(v),
{
    v.elem_mul(v)
}

/// The exact result of `(a * b) - (c * d)` computed the compensated way:
/// a fused multiply-add of the first product against the negated second,
/// plus the fused residue of the second product.
pub open spec fn spec_difference_of_products<T: TupleElement + MulAdd>(a: T, b: T, c: T, d: T) -> T {
    let cd = c.spec_elem_mul(d);
    let dop = a.spec_mul_add(b, cd.spec_elem_neg());
    let error = c.spec_elem_neg().spec_mul_add(d, cd);
    dop.spec_elem_add(error)
}

/// Returns the difference of the products of `a` and `b` and `c` and `d`,
/// computed with a compensated fused multiply-add.
pub fn difference_of_products<T: TupleElement + MulAdd>(a: T, b: T, c: T, d: T) -> (r: T)
    ensures
        r == spec_difference_of_products(a, b, c, d),
{
    let cd = c.elem_mul(d);
    let difference = a.mul_add(b, cd.elem_neg());
    let error = c.elem_neg().mul_add(d, cd);
    difference.elem_add(error)
}

} // verus!
