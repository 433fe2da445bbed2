//! Traits for working with numbers.
//!
//! Both component types of the geometric tuples implement these: `i32`, and
//! the fixed-point scalar [`Fp`].  All operations are total; results outside
//! the representable range saturate, and each contract states the exact
//! outcome including the saturation.
use vstd::prelude::*;

use crate::fp::{
    abs_int, ceil_to_one, floor_to_one, sat, spec_fp_add, spec_fp_mul, Fp,
};

verus! {

/// Clamp a mathematical integer into the `i32` range.
pub open spec fn sat32(x: int) -> int {
    if x > i32::MAX as int {
        i32::MAX as int
    } else if x < i32::MIN as int {
        i32::MIN as int
    } else {
        x
    }
}

/// Clamp a wide intermediate into the `i32` range.
fn clamp_i64_to_i32(x: i64) -> (r: i32)
    ensures
        r == sat32(x as int),
{
    if x > i32::MAX as i64 {
        i32::MAX
    } else if x < i32::MIN as i64 {
        i32::MIN
    } else {
        x as i32
    }
}

/// A trait for checking whether a value is not a number.
pub trait IsNan: Sized {
    /// Whether the value is invalid.
    spec fn spec_is_nan(&self) -> bool;

    /// Returns `true` if the value is invalid, `false` otherwise.
    fn is_nan(&self) -> (r: bool)
        ensures
            r == self.spec_is_nan(),
    ;
}

impl IsNan for Fp {
    open spec fn spec_is_nan(&self) -> bool {
        false
    }

    fn is_nan(&self) -> (r: bool) {
        false
    }
}

impl IsNan for i32 {
    open spec fn spec_is_nan(&self) -> bool {
        false
    }

    fn is_nan(&self) -> (r: bool) {
        false
    }
}

/// A trait for finding the maximum of two values of the same type.
pub trait Max: Sized + Copy {
    spec fn spec_max(self, other: Self) -> Self;

    /// Returns the maximum of `self` and `other`.
    fn max(self, other: Self) -> (r: Self)
        ensures
            r == self.spec_max(other),
    ;
}

impl Max for Fp {
    open spec fn spec_max(self, other: Self) -> Self {
        if self.bits >= other.bits {
            self
        } else {
            other
        }
    }

    fn max(self, other: Self) -> (r: Self) {
        self.sat_max(other)
    }
}

impl Max for i32 {
    open spec fn spec_max(self, other: Self) -> Self {
        if self >= other {
            self
        } else {
            other
        }
    }

    fn max(self, other: Self) -> (r: Self) {
        if self >= other {
            self
        } else {
            other
        }
    }
}

/// A trait for finding the minimum of two values of the same type.
pub trait Min: Sized + Copy {
    spec fn spec_min(self, other: Self) -> Self;

    /// Returns the minimum of `self` and `other`.
    fn min(self, other: Self) -> (r: Self)
        ensures
            r == self.spec_min(other),
    ;
}

impl Min for Fp {
    open spec fn spec_min(self, other: Self) -> Self {
        if self.bits <= other.bits {
            self
        } else {
            other
        }
    }

    fn min(self, other: Self) -> (r: Self) {
        self.sat_min(other)
    }
}

impl Min for i32 {
    open spec fn spec_min(self, other: Self) -> Self {
        if self <= other {
            self
        } else {
            other
        }
    }

    fn min(self, other: Self) -> (r: Self) {
        if self <= other {
            self
        } else {
            other
        }
    }
}

/// A trait for rounding up to the nearest whole number.
pub trait Ceil: Sized + Copy {
    spec fn spec_ceil(self) -> Self;

    /// Rounds the value up to the nearest whole number.
    fn ceil(self) -> (r: Self)
        ensures
            r == self.spec_ceil(),
    ;
}

impl Ceil for Fp {
    open spec fn spec_ceil(self) -> Self {
        Fp { bits: sat(ceil_to_one(self.bits as int)) as i64 }
    }

    fn ceil(self) -> (r: Self) {
        self.ceil_whole()
    }
}

impl Ceil for i32 {
    open spec fn spec_ceil(self) -> Self {
        self
    }

    fn ceil(self) -> (r: Self) {
        self
    }
}

/// A trait for rounding down to the nearest whole number.
pub trait Floor: Sized + Copy {
    spec fn spec_floor(self) -> Self;

    /// Rounds the value down to the nearest whole number.
    fn floor(self) -> (r: Self)
        ensures
            r == self.spec_floor(),
    ;
}

impl Floor for Fp {
    open spec fn spec_floor(self) -> Self {
        Fp { bits: floor_to_one(self.bits as int) as i64 }
    }

    fn floor(self) -> (r: Self) {
        self.floor_whole()
    }
}

impl Floor for i32 {
    open spec fn spec_floor(self) -> Self {
        self
    }

    fn floor(self) -> (r: Self) {
        self
    }
}

/// A trait for absolute values.
pub trait Abs: Sized + Copy {
    spec fn spec_abs(self) -> Self;

    /// Returns the absolute value, saturated at the top of the range.
    fn abs(self) -> (r: Self)
        ensures
            r == self.spec_abs(),
    ;
}

impl Abs for Fp {
    open spec fn spec_abs(self) -> Self {
        crate::fp::spec_fp_abs(self)
    }

    fn abs(self) -> (r: Self) {
        self.sat_abs()
    }
}

impl Abs for i32 {
    open spec fn spec_abs(self) -> Self {
        sat32(abs_int(self as int)) as i32
    }

    fn abs(self) -> (r: Self) {
        if self == i32::MIN {
            i32::MAX
        } else if self < 0 {
            -self
        } else {
            self
        }
    }
}

/// A trait for a combined multiply and add.
pub trait MulAdd: Sized + Copy {
    spec fn spec_mul_add(self, a: Self, b: Self) -> Self;

    /// Computes `self * a + b`.
    fn mul_add(self, a: Self, b: Self) -> (r: Self)
        ensures
            r == self.spec_mul_add(a, b),
    ;
}

impl MulAdd for Fp {
    open spec fn spec_mul_add(self, a: Self, b: Self) -> Self {
        spec_fp_add(spec_fp_mul(self, a), b)
    }

    fn mul_add(self, a: Self, b: Self) -> (r: Self) {
        self.sat_mul(a).sat_add(b)
    }
}

impl MulAdd for i32 {
    open spec fn spec_mul_add(self, a: Self, b: Self) -> Self {
        sat32(self * a + b) as i32
    }

    fn mul_add(self, a: Self, b: Self) -> (r: Self) {
        proof {
            assert(-0x4000_0000_0000_0000int <= self as int * a as int
                <= 0x4000_0000_0000_0000int) by (nonlinear_arith)
                requires
                    -0x8000_0000int <= self as int <= 0x8000_0000int,
                    -0x8000_0000int <= a as int <= 0x8000_0000int,
            ;
        }
        clamp_i64_to_i32((self as i64) * (a as i64) + (b as i64))
    }
}

} // verus!
