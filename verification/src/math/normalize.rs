//! Normalization of vectors.
use vstd::prelude::*;

use crate::fp::{spec_fp_div, spec_from_whole, Fp};
use crate::math::length::Length;
use crate::math::vectors::{Vector2, Vector2f, Vector2i, Vector3, Vector3f, Vector3i};

verus! {

/// Rescaling a vector to unit length.  A zero-length vector normalizes to
/// the zero vector instead of an invalid value.
pub trait Normalize {
    type Output;

    spec fn spec_normalize(self) -> Self::Output;

    /// The vector scaled to unit length.
    fn normalize(&self) -> (r: Self::Output)
        ensures
            r == self.spec_normalize(),
    ;
}

impl Normalize for Vector2f {
    type Output = Vector2f;

    open spec fn spec_normalize(self) -> Vector2f {
        let len = self.spec_length();
        if len.bits <= 0 {
            Vector2 { x: Fp { bits: 0 }, y: Fp { bits: 0 } }
        } else {
            Vector2 { x: spec_fp_div(self.x, len), y: spec_fp_div(self.y, len) }
        }
    }

    fn normalize(&self) -> (r: Vector2f) {
        let len = self.length();
        if len.bits <= 0 {
            Vector2 { x: Fp { bits: 0 }, y: Fp { bits: 0 } }
        } else {
            Vector2 { x: self.x.sat_div(len), y: self.y.sat_div(len) }
        }
    }
}

impl Normalize for Vector3f {
    type Output = Vector3f;

    open spec fn spec_normalize(self) -> Vector3f {
        let len = self.spec_length();
        if len.bits <= 0 {
            Vector3 { x: Fp { bits: 0 }, y: Fp { bits: 0 }, z: Fp { bits: 0 } }
        } else {
            Vector3 {
                x: spec_fp_div(self.x, len),
                y: spec_fp_div(self.y, len),
                z: spec_fp_div(self.z, len),
            }
        }
    }

    fn normalize(&self) -> (r: Vector3f) {
        let len = self.length();
        if len.bits <= 0 {
            Vector3 { x: Fp { bits: 0 }, y: Fp { bits: 0 }, z: Fp { bits: 0 } }
        } else {
            Vector3 { x: self.x.sat_div(len), y: self.y.sat_div(len), z: self.z.sat_div(len) }
        }
    }
}

impl Normalize for Vector2i {
    type Output = Vector2f;

    open spec fn spec_normalize(self) -> Vector2f {
        let wide = Vector2 {
            x: spec_from_whole(self.x as int),
            y: spec_from_whole(self.y as int),
        };
        let len = self.spec_length();
        if len.bits <= 0 {
            Vector2 { x: Fp { bits: 0 }, y: Fp { bits: 0 } }
        } else {
            Vector2 { x: spec_fp_div(wide.x, len), y: spec_fp_div(wide.y, len) }
        }
    }

    fn normalize(&self) -> (r: Vector2f) {
        let wide = Vector2 {
            x: Fp::from_whole(self.x as i64),
            y: Fp::from_whole(self.y as i64),
        };
        let len = self.length();
        if len.bits <= 0 {
            Vector2 { x: Fp { bits: 0 }, y: Fp { bits: 0 } }
        } else {
            Vector2 { x: wide.x.sat_div(len), y: wide.y.sat_div(len) }
        }
    }
}

impl Normalize for Vector3i {
    type Output = Vector3f;

    open spec fn spec_normalize(self) -> Vector3f {
        let wide = Vector3 {
            x: spec_from_whole(self.x as int),
            y: spec_from_whole(self.y as int),
            z: spec_from_whole(self.z as int),
        };
        let len = self.spec_length();
        if len.bits <= 0 {
            Vector3 { x: Fp { bits: 0 }, y: Fp { bits: 0 }, z: Fp { bits: 0 } }
        } else {
            Vector3 {
                x: spec_fp_div(wide.x, len),
                y: spec_fp_div(wide.y, len),
                z: spec_fp_div(wide.z, len),
            }
        }
    }

    fn normalize(&self) -> (r: Vector3f) {
        let wide = Vector3 {
            x: Fp::from_whole(self.x as i64),
            y: Fp::from_whole(self.y as i64),
            z: Fp::from_whole(self.z as i64),
        };
        let len = self.length();
        if len.bits <= 0 {
            Vector3 { x: Fp { bits: 0 }, y: Fp { bits: 0 }, z: Fp { bits: 0 } }
        } else {
            Vector3 { x: wide.x.sat_div(len), y: wide.y.sat_div(len), z: wide.z.sat_div(len) }
        }
    }
}

} // verus!
