//! Normal vector types and operations.
use vstd::prelude::*;

use crate::fp::{spec_fp_neg, Fp};

verus! {

/// Componentwise saturating negation of a fixed-point normal.
pub open spec fn spec_normal3_neg(n: Normal3<Fp>) -> Normal3<Fp> {
    Normal3 { x: spec_fp_neg(n.x), y: spec_fp_neg(n.y), z: spec_fp_neg(n.z) }
}

/// Represents a 3-dimensional surface normal.
#[derive(Clone, Copy, PartialEq, Eq, Structural, Debug)]
pub struct Normal3<T> {
    /// The x-coordinate of the normal.
    pub x: T,
    /// The y-coordinate of the normal.
    pub y: T,
    /// The z-coordinate of the normal.
    pub z: T,
}

/// A 3-dimensional normal with fixed-point components.
pub type Normal3f = Normal3<crate::fp::Fp>;

impl<T> Normal3<T> {
    pub fn new(x: T, y: T, z: T) -> (r: Self)
        ensures
            r == (Normal3 { x, y, z }),
    {
        Normal3 { x, y, z }
    }
}

impl Normal3<Fp> {
    /// The opposite orientation, saturating at the representable range.
    pub fn neg(&self) -> (r: Normal3<Fp>)
        ensures
            r == spec_normal3_neg(*self),
    {
        Normal3 { x: self.x.sat_neg(), y: self.y.sat_neg(), z: self.z.sat_neg() }
    }
}

} // verus!
