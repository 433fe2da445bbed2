//! Geometric tuple traits and their componentwise operations.
use vstd::prelude::*;

use crate::fp::{spec_fp_add, spec_fp_mul, spec_fp_neg, spec_fp_sub, Fp};
use crate::math::normals::Normal3;
use crate::math::num_traits::{sat32, Abs, Ceil, Floor, IsNan, Max, Min};
use crate::math::points::{Point2, Point3};
use crate::math::vectors::{Vector2, Vector3};

verus! {

fn sat_add_i32(a: i32, b: i32) -> (r: i32)
    ensures
        r as int == sat32(a + b),
{
    let wide: i64 = (a as i64) + (b as i64);
    if wide > i32::MAX as i64 {
        i32::MAX
    } else if wide < i32::MIN as i64 {
        i32::MIN
    } else {
        wide as i32
    }
}

fn sat_sub_i32(a: i32, b: i32) -> (r: i32)
    ensures
        r as int == sat32(a - b),
{
    let wide: i64 = (a as i64) - (b as i64);
    if wide > i32::MAX as i64 {
        i32::MAX
    } else if wide < i32::MIN as i64 {
        i32::MIN
    } else {
        wide as i32
    }
}

fn sat_mul_i32(a: i32, b: i32) -> (r: i32)
    ensures
        r as int == sat32(a * b),
{
    proof {
        assert(-0x4000_0000_0000_0000int <= a as int * b as int <= 0x4000_0000_0000_0000int)
            by (nonlinear_arith)
            requires
                -0x8000_0000int <= a as int <= 0x8000_0000int,
                -0x8000_0000int <= b as int <= 0x8000_0000int,
        ;
    }
    let wide: i64 = (a as i64) * (b as i64);
    if wide > i32::MAX as i64 {
        i32::MAX
    } else if wide < i32::MIN as i64 {
        i32::MIN
    } else {
        wide as i32
    }
}

/// The scalar operations a tuple component type supports, beyond the
/// rounding and comparison traits: saturating ring operations and a strict
/// order.
pub trait TupleElement: IsNan + Abs + Ceil + Floor + Min + Max + Sized + Copy {
    spec fn spec_elem_add(self, o: Self) -> Self;

    spec fn spec_elem_sub(self, o: Self) -> Self;

    spec fn spec_elem_mul(self, o: Self) -> Self;

    spec fn spec_elem_neg(self) -> Self;

    spec fn spec_elem_lt(self, o: Self) -> bool;

    /// Saturating sum.
    fn elem_add(self, o: Self) -> (r: Self)
        ensures
            r == self.spec_elem_add(o),
    ;

    /// Saturating difference.
    fn elem_sub(self, o: Self) -> (r: Self)
        ensures
            r == self.spec_elem_sub(o),
    ;

    /// Saturating product.
    fn elem_mul(self, o: Self) -> (r: Self)
        ensures
            r == self.spec_elem_mul(o),
    ;

    /// Saturating negation.
    fn elem_neg(self) -> (r: Self)
        ensures
            r == self.spec_elem_neg(),
    ;

    /// The strict order of the component values.
    fn elem_lt(self, o: Self) -> (r: bool)
        ensures
            r == self.spec_elem_lt(o),
    ;
}

impl TupleElement for Fp {
    open spec fn spec_elem_add(self, o: Self) -> Self {
        spec_fp_add(self, o)
    }

    open spec fn spec_elem_sub(self, o: Self) -> Self {
        spec_fp_sub(self, o)
    }

    open spec fn spec_elem_mul(self, o: Self) -> Self {
        spec_fp_mul(self, o)
    }

    open spec fn spec_elem_neg(self) -> Self {
        spec_fp_neg(self)
    }

    open spec fn spec_elem_lt(self, o: Self) -> bool {
        self.bits < o.bits
    }

    fn elem_add(self, o: Self) -> (r: Self) {
        self.sat_add(o)
    }

    fn elem_sub(self, o: Self) -> (r: Self) {
        self.sat_sub(o)
    }

    fn elem_mul(self, o: Self) -> (r: Self) {
        self.sat_mul(o)
    }

    fn elem_neg(self) -> (r: Self) {
        self.sat_neg()
    }

    fn elem_lt(self, o: Self) -> (r: bool) {
        self.bits < o.bits
    }
}

impl TupleElement for i32 {
    open spec fn spec_elem_add(self, o: Self) -> Self {
        sat32(self + o) as i32
    }

    open spec fn spec_elem_sub(self, o: Self) -> Self {
        sat32(self - o) as i32
    }

    open spec fn spec_elem_mul(self, o: Self) -> Self {
        sat32(self * o) as i32
    }

    open spec fn spec_elem_neg(self) -> Self {
        sat32(-self) as i32
    }

    open spec fn spec_elem_lt(self, o: Self) -> bool {
        self < o
    }

    fn elem_add(self, o: Self) -> (r: Self) {
        sat_add_i32(self, o)
    }

    fn elem_sub(self, o: Self) -> (r: Self) {
        sat_sub_i32(self, o)
    }

    fn elem_mul(self, o: Self) -> (r: Self) {
        sat_mul_i32(self, o)
    }

    fn elem_neg(self) -> (r: Self) {
        if self == i32::MIN {
            i32::MAX
        } else {
            -self
        }
    }

    fn elem_lt(self, o: Self) -> (r: bool) {
        self < o
    }
}

/// A geometric n-tuple of components of type `T`: componentwise rounding,
/// clamping and reductions, each pinned to its componentwise meaning.
pub trait Tuple<T: TupleElement>: Sized + Copy {
    spec fn spec_has_nan(self) -> bool;

    spec fn spec_abs(self) -> Self;

    spec fn spec_ceil(self) -> Self;

    spec fn spec_floor(self) -> Self;

    spec fn spec_min(self, other: Self) -> Self;

    spec fn spec_max(self, other: Self) -> Self;

    spec fn spec_min_component(self) -> T;

    spec fn spec_max_component(self) -> T;

    spec fn spec_min_index(self) -> usize;

    spec fn spec_max_index(self) -> usize;

    spec fn spec_hprod(self) -> T;

    spec fn spec_lerp(self, t: T, other: Self) -> Self;

    spec fn spec_fma(self, factor: Self, summand: Self) -> Self;

    /// Checks whether any component is invalid.
    fn has_nan(&self) -> (r: bool)
        ensures
            r == self.spec_has_nan(),
    ;

    /// The componentwise absolute value.
    fn abs(&self) -> (r: Self)
        ensures
            r == self.spec_abs(),
    ;

    /// The componentwise round up.
    fn ceil(&self) -> (r: Self)
        ensures
            r == self.spec_ceil(),
    ;

    /// The componentwise round down.
    fn floor(&self) -> (r: Self)
        ensures
            r == self.spec_floor(),
    ;

    /// The componentwise minimum of two tuples.
    fn min(&self, other: Self) -> (r: Self)
        ensures
            r == self.spec_min(other),
    ;

    /// The componentwise maximum of two tuples.
    fn max(&self, other: Self) -> (r: Self)
        ensures
            r == self.spec_max(other),
    ;

    /// The smallest component value.
    fn min_component_value(&self) -> (r: T)
        ensures
            r == self.spec_min_component(),
    ;

    /// The largest component value.
    fn max_component_value(&self) -> (r: T)
        ensures
            r == self.spec_max_component(),
    ;

    /// The position of the smallest component.
    fn min_component_index(&self) -> (r: usize)
        ensures
            r == self.spec_min_index(),
    ;

    /// The position of the largest component.
    fn max_component_index(&self) -> (r: usize)
        ensures
            r == self.spec_max_index(),
    ;

    /// The product of all components.
    fn hprod(&self) -> (r: T)
        ensures
            r == self.spec_hprod(),
    ;

    /// Componentwise linear interpolation toward `other` by the factor `t`.
    fn lerp(&self, t: T, other: Self) -> (r: Self)
        ensures
            r == self.spec_lerp(t, other),
    ;

    /// Componentwise multiply of `factor` followed by an add of `summand`.
    fn fma(&self, factor: Self, summand: Self) -> (r: Self)
        ensures
            r == self.spec_fma(factor, summand),
    ;
}

/// A 2-dimensional tuple: its components can be permuted.
pub trait Tuple2<T: TupleElement>: Tuple<T> {
    spec fn spec_permute(self, perm: [usize; 2]) -> Self;

    /// The tuple with its components rearranged by `perm`.
    fn permute(&self, perm: [usize; 2]) -> (r: Self)
        requires
            perm[0] < 2,
            perm[1] < 2,
        ensures
            r == self.spec_permute(perm),
    ;
}

/// A 3-dimensional tuple: its components can be permuted.
pub trait Tuple3<T: TupleElement>: Tuple<T> {
    spec fn spec_permute(self, perm: [usize; 3]) -> Self;

    /// The tuple with its components rearranged by `perm`.
    fn permute(&self, perm: [usize; 3]) -> (r: Self)
        requires
            perm[0] < 3,
            perm[1] < 3,
            perm[2] < 3,
        ensures
            r == self.spec_permute(perm),
    ;
}


impl<T: TupleElement> Tuple<T> for Vector2<T> {
    open spec fn spec_has_nan(self) -> bool {
        self.x.spec_is_nan() || self.y.spec_is_nan()
    }

    open spec fn spec_abs(self) -> Self {
        Vector2 { x: self.x.spec_abs(), y: self.y.spec_abs() }
    }

    open spec fn spec_ceil(self) -> Self {
        Vector2 { x: self.x.spec_ceil(), y: self.y.spec_ceil() }
    }

    open spec fn spec_floor(self) -> Self {
        Vector2 { x: self.x.spec_floor(), y: self.y.spec_floor() }
    }

    open spec fn spec_min(self, other: Self) -> Self {
        Vector2 { x: self.x.spec_min(other.x), y: self.y.spec_min(other.y) }
    }

    open spec fn spec_max(self, other: Self) -> Self {
        Vector2 { x: self.x.spec_max(other.x), y: self.y.spec_max(other.y) }
    }

    open spec fn spec_min_component(self) -> T {
        self.x.spec_min(self.y)
    }

    open spec fn spec_max_component(self) -> T {
        self.x.spec_max(self.y)
    }

    open spec fn spec_min_index(self) -> usize {
        if self.x.spec_elem_lt(self.y) {
            0
        } else {
            1
        }
    }

    open spec fn spec_max_index(self) -> usize {
        if self.y.spec_elem_lt(self.x) {
            0
        } else {
            1
        }
    }

    open spec fn spec_hprod(self) -> T {
        self.x.spec_elem_mul(self.y)
    }

    open spec fn spec_lerp(self, t: T, other: Self) -> Self {
        Vector2 {
            x: self.x.spec_elem_add(other.x.spec_elem_sub(self.x).spec_elem_mul(t)),
            y: self.y.spec_elem_add(other.y.spec_elem_sub(self.y).spec_elem_mul(t)),
        }
    }

    open spec fn spec_fma(self, factor: Self, summand: Self) -> Self {
        Vector2 {
            x: self.x.spec_elem_mul(factor.x).spec_elem_add(summand.x),
            y: self.y.spec_elem_mul(factor.y).spec_elem_add(summand.y),
        }
    }

    fn has_nan(&self) -> (r: bool) {
        self.x.is_nan() || self.y.is_nan()
    }

    fn abs(&self) -> (r: Self) {
        Vector2 { x: self.x.abs(), y: self.y.abs() }
    }

    fn ceil(&self) -> (r: Self) {
        Vector2 { x: self.x.ceil(), y: self.y.ceil() }
    }

    fn floor(&self) -> (r: Self) {
        Vector2 { x: self.x.floor(), y: self.y.floor() }
    }

    fn min(&self, other: Self) -> (r: Self) {
        Vector2 { x: self.x.min(other.x), y: self.y.min(other.y) }
    }

    fn max(&self, other: Self) -> (r: Self) {
        Vector2 { x: self.x.max(other.x), y: self.y.max(other.y) }
    }

    fn min_component_value(&self) -> (r: T) {
        self.x.min(self.y)
    }

    fn max_component_value(&self) -> (r: T) {
        self.x.max(self.y)
    }

    fn min_component_index(&self) -> (r: usize) {
        if self.x.elem_lt(self.y) {
            0
        } else {
            1
        }
    }

    fn max_component_index(&self) -> (r: usize) {
        if self.y.elem_lt(self.x) {
            0
        } else {
            1
        }
    }

    fn hprod(&self) -> (r: T) {
        self.x.elem_mul(self.y)
    }

    fn lerp(&self, t: T, other: Self) -> (r: Self) {
        Vector2 {
            x: self.x.elem_add(other.x.elem_sub(self.x).elem_mul(t)),
            y: self.y.elem_add(other.y.elem_sub(self.y).elem_mul(t)),
        }
    }

    fn fma(&self, factor: Self, summand: Self) -> (r: Self) {
        Vector2 {
            x: self.x.elem_mul(factor.x).elem_add(summand.x),
            y: self.y.elem_mul(factor.y).elem_add(summand.y),
        }
    }
}

impl<T: TupleElement> Tuple2<T> for Vector2<T> {
    open spec fn spec_permute(self, perm: [usize; 2]) -> Self {
        Vector2 {
            x: if perm[0] == 0 {
                self.x
            } else {
                self.y
            },
            y: if perm[1] == 0 {
                self.x
            } else {
                self.y
            },
        }
    }

    fn permute(&self, perm: [usize; 2]) -> (r: Self) {
        Vector2 {
            x: if perm[0] == 0 {
                self.x
            } else {
                self.y
            },
            y: if perm[1] == 0 {
                self.x
            } else {
                self.y
            },
        }
    }
}


impl<T: TupleElement> Tuple<T> for Vector3<T> {
    open spec fn spec_has_nan(self) -> bool {
        self.x.spec_is_nan() || self.y.spec_is_nan() || self.z.spec_is_nan()
    }

    open spec fn spec_abs(self) -> Self {
        Vector3 { x: self.x.spec_abs(), y: self.y.spec_abs(), z: self.z.spec_abs() }
    }

    open spec fn spec_ceil(self) -> Self {
        Vector3 { x: self.x.spec_ceil(), y: self.y.spec_ceil(), z: self.z.spec_ceil() }
    }

    open spec fn spec_floor(self) -> Self {
        Vector3 { x: self.x.spec_floor(), y: self.y.spec_floor(), z: self.z.spec_floor() }
    }

    open spec fn spec_min(self, other: Self) -> Self {
        Vector3 {
            x: self.x.spec_min(other.x),
            y: self.y.spec_min(other.y),
            z: self.z.spec_min(other.z),
        }
    }

    open spec fn spec_max(self, other: Self) -> Self {
        Vector3 {
            x: self.x.spec_max(other.x),
            y: self.y.spec_max(other.y),
            z: self.z.spec_max(other.z),
        }
    }

    open spec fn spec_min_component(self) -> T {
        self.x.spec_min(self.y).spec_min(self.z)
    }

    open spec fn spec_max_component(self) -> T {
        self.x.spec_max(self.y).spec_max(self.z)
    }

    open spec fn spec_min_index(self) -> usize {
        if self.x.spec_elem_lt(self.y) {
            if self.x.spec_elem_lt(self.z) {
                0
            } else {
                2
            }
        } else {
            if self.y.spec_elem_lt(self.z) {
                1
            } else {
                2
            }
        }
    }

    open spec fn spec_max_index(self) -> usize {
        if self.y.spec_elem_lt(self.x) {
            if self.z.spec_elem_lt(self.x) {
                0
            } else {
                2
            }
        } else {
            if self.z.spec_elem_lt(self.y) {
                1
            } else {
                2
            }
        }
    }

    open spec fn spec_hprod(self) -> T {
        self.x.spec_elem_mul(self.y).spec_elem_mul(self.z)
    }

    open spec fn spec_lerp(self, t: T, other: Self) -> Self {
        Vector3 {
            x: self.x.spec_elem_add(other.x.spec_elem_sub(self.x).spec_elem_mul(t)),
            y: self.y.spec_elem_add(other.y.spec_elem_sub(self.y).spec_elem_mul(t)),
            z: self.z.spec_elem_add(other.z.spec_elem_sub(self.z).spec_elem_mul(t)),
        }
    }

    open spec fn spec_fma(self, factor: Self, summand: Self) -> Self {
        Vector3 {
            x: self.x.spec_elem_mul(factor.x).spec_elem_add(summand.x),
            y: self.y.spec_elem_mul(factor.y).spec_elem_add(summand.y),
            z: self.z.spec_elem_mul(factor.z).spec_elem_add(summand.z),
        }
    }

    fn has_nan(&self) -> (r: bool) {
        self.x.is_nan() || self.y.is_nan() || self.z.is_nan()
    }

    fn abs(&self) -> (r: Self) {
        Vector3 { x: self.x.abs(), y: self.y.abs(), z: self.z.abs() }
    }

    fn ceil(&self) -> (r: Self) {
        Vector3 { x: self.x.ceil(), y: self.y.ceil(), z: self.z.ceil() }
    }

    fn floor(&self) -> (r: Self) {
        Vector3 { x: self.x.floor(), y: self.y.floor(), z: self.z.floor() }
    }

    fn min(&self, other: Self) -> (r: Self) {
        Vector3 {
            x: self.x.min(other.x),
            y: self.y.min(other.y),
            z: self.z.min(other.z),
        }
    }

    fn max(&self, other: Self) -> (r: Self) {
        Vector3 {
            x: self.x.max(other.x),
            y: self.y.max(other.y),
            z: self.z.max(other.z),
        }
    }

    fn min_component_value(&self) -> (r: T) {
        self.x.min(self.y).min(self.z)
    }

    fn max_component_value(&self) -> (r: T) {
        self.x.max(self.y).max(self.z)
    }

    fn min_component_index(&self) -> (r: usize) {
        if self.x.elem_lt(self.y) {
            if self.x.elem_lt(self.z) {
                0
            } else {
                2
            }
        } else {
            if self.y.elem_lt(self.z) {
                1
            } else {
                2
            }
        }
    }

    fn max_component_index(&self) -> (r: usize) {
        if self.y.elem_lt(self.x) {
            if self.z.elem_lt(self.x) {
                0
            } else {
                2
            }
        } else {
            if self.z.elem_lt(self.y) {
                1
            } else {
                2
            }
        }
    }

    fn hprod(&self) -> (r: T) {
        self.x.elem_mul(self.y).elem_mul(self.z)
    }

    fn lerp(&self, t: T, other: Self) -> (r: Self) {
        Vector3 {
            x: self.x.elem_add(other.x.elem_sub(self.x).elem_mul(t)),
            y: self.y.elem_add(other.y.elem_sub(self.y).elem_mul(t)),
            z: self.z.elem_add(other.z.elem_sub(self.z).elem_mul(t)),
        }
    }

    fn fma(&self, factor: Self, summand: Self) -> (r: Self) {
        Vector3 {
            x: self.x.elem_mul(factor.x).elem_add(summand.x),
            y: self.y.elem_mul(factor.y).elem_add(summand.y),
            z: self.z.elem_mul(factor.z).elem_add(summand.z),
        }
    }
}

impl<T: TupleElement> Tuple3<T> for Vector3<T> {
    open spec fn spec_permute(self, perm: [usize; 3]) -> Self {
        Vector3 {
            x: if perm[0] == 0 {
                self.x
            } else if perm[0] == 1 {
                self.y
            } else {
                self.z
            },
            y: if perm[1] == 0 {
                self.x
            } else if perm[1] == 1 {
                self.y
            } else {
                self.z
            },
            z: if perm[2] == 0 {
                self.x
            } else if perm[2] == 1 {
                self.y
            } else {
                self.z
            },
        }
    }

    fn permute(&self, perm: [usize; 3]) -> (r: Self) {
        Vector3 {
            x: if perm[0] == 0 {
                self.x
            } else if perm[0] == 1 {
                self.y
            } else {
                self.z
            },
            y: if perm[1] == 0 {
                self.x
            } else if perm[1] == 1 {
                self.y
            } else {
                self.z
            },
            z: if perm[2] == 0 {
                self.x
            } else if perm[2] == 1 {
                self.y
            } else {
                self.z
            },
        }
    }
}


impl<T: TupleElement> Tuple<T> for Point2<T> {
    open spec fn spec_has_nan(self) -> bool {
        self.x.spec_is_nan() || self.y.spec_is_nan()
    }

    open spec fn spec_abs(self) -> Self {
        Point2 { x: self.x.spec_abs(), y: self.y.spec_abs() }
    }

    open spec fn spec_ceil(self) -> Self {
        Point2 { x: self.x.spec_ceil(), y: self.y.spec_ceil() }
    }

    open spec fn spec_floor(self) -> Self {
        Point2 { x: self.x.spec_floor(), y: self.y.spec_floor() }
    }

    open spec fn spec_min(self, other: Self) -> Self {
        Point2 { x: self.x.spec_min(other.x), y: self.y.spec_min(other.y) }
    }

    open spec fn spec_max(self, other: Self) -> Self {
        Point2 { x: self.x.spec_max(other.x), y: self.y.spec_max(other.y) }
    }

    open spec fn spec_min_component(self) -> T {
        self.x.spec_min(self.y)
    }

    open spec fn spec_max_component(self) -> T {
        self.x.spec_max(self.y)
    }

    open spec fn spec_min_index(self) -> usize {
        if self.x.spec_elem_lt(self.y) {
            0
        } else {
            1
        }
    }

    open spec fn spec_max_index(self) -> usize {
        if self.y.spec_elem_lt(self.x) {
            0
        } else {
            1
        }
    }

    open spec fn spec_hprod(self) -> T {
        self.x.spec_elem_mul(self.y)
    }

    open spec fn spec_lerp(self, t: T, other: Self) -> Self {
        Point2 {
            x: self.x.spec_elem_add(other.x.spec_elem_sub(self.x).spec_elem_mul(t)),
            y: self.y.spec_elem_add(other.y.spec_elem_sub(self.y).spec_elem_mul(t)),
        }
    }

    open spec fn spec_fma(self, factor: Self, summand: Self) -> Self {
        Point2 {
            x: self.x.spec_elem_mul(factor.x).spec_elem_add(summand.x),
            y: self.y.spec_elem_mul(factor.y).spec_elem_add(summand.y),
        }
    }

    fn has_nan(&self) -> (r: bool) {
        self.x.is_nan() || self.y.is_nan()
    }

    fn abs(&self) -> (r: Self) {
        Point2 { x: self.x.abs(), y: self.y.abs() }
    }

    fn ceil(&self) -> (r: Self) {
        Point2 { x: self.x.ceil(), y: self.y.ceil() }
    }

    fn floor(&self) -> (r: Self) {
        Point2 { x: self.x.floor(), y: self.y.floor() }
    }

    fn min(&self, other: Self) -> (r: Self) {
        Point2 { x: self.x.min(other.x), y: self.y.min(other.y) }
    }

    fn max(&self, other: Self) -> (r: Self) {
        Point2 { x: self.x.max(other.x), y: self.y.max(other.y) }
    }

    fn min_component_value(&self) -> (r: T) {
        self.x.min(self.y)
    }

    fn max_component_value(&self) -> (r: T) {
        self.x.max(self.y)
    }

    fn min_component_index(&self) -> (r: usize) {
        if self.x.elem_lt(self.y) {
            0
        } else {
            1
        }
    }

    fn max_component_index(&self) -> (r: usize) {
        if self.y.elem_lt(self.x) {
            0
        } else {
            1
        }
    }

    fn hprod(&self) -> (r: T) {
        self.x.elem_mul(self.y)
    }

    fn lerp(&self, t: T, other: Self) -> (r: Self) {
        Point2 {
            x: self.x.elem_add(other.x.elem_sub(self.x).elem_mul(t)),
            y: self.y.elem_add(other.y.elem_sub(self.y).elem_mul(t)),
        }
    }

    fn fma(&self, factor: Self, summand: Self) -> (r: Self) {
        Point2 {
            x: self.x.elem_mul(factor.x).elem_add(summand.x),
            y: self.y.elem_mul(factor.y).elem_add(summand.y),
        }
    }
}

impl<T: TupleElement> Tuple2<T> for Point2<T> {
    open spec fn spec_permute(self, perm: [usize; 2]) -> Self {
        Point2 {
            x: if perm[0] == 0 {
                self.x
            } else {
                self.y
            },
            y: if perm[1] == 0 {
                self.x
            } else {
                self.y
            },
        }
    }

    fn permute(&self, perm: [usize; 2]) -> (r: Self) {
        Point2 {
            x: if perm[0] == 0 {
                self.x
            } else {
                self.y
            },
            y: if perm[1] == 0 {
                self.x
            } else {
                self.y
            },
        }
    }
}


impl<T: TupleElement> Tuple<T> for Point3<T> {
    open spec fn spec_has_nan(self) -> bool {
        self.x.spec_is_nan() || self.y.spec_is_nan() || self.z.spec_is_nan()
    }

    open spec fn spec_abs(self) -> Self {
        Point3 { x: self.x.spec_abs(), y: self.y.spec_abs(), z: self.z.spec_abs() }
    }

    open spec fn spec_ceil(self) -> Self {
        Point3 { x: self.x.spec_ceil(), y: self.y.spec_ceil(), z: self.z.spec_ceil() }
    }

    open spec fn spec_floor(self) -> Self {
        Point3 { x: self.x.spec_floor(), y: self.y.spec_floor(), z: self.z.spec_floor() }
    }

    open spec fn spec_min(self, other: Self) -> Self {
        Point3 {
            x: self.x.spec_min(other.x),
            y: self.y.spec_min(other.y),
            z: self.z.spec_min(other.z),
        }
    }

    open spec fn spec_max(self, other: Self) -> Self {
        Point3 {
            x: self.x.spec_max(other.x),
            y: self.y.spec_max(other.y),
            z: self.z.spec_max(other.z),
        }
    }

    open spec fn spec_min_component(self) -> T {
        self.x.spec_min(self.y).spec_min(self.z)
    }

    open spec fn spec_max_component(self) -> T {
        self.x.spec_max(self.y).spec_max(self.z)
    }

    open spec fn spec_min_index(self) -> usize {
        if self.x.spec_elem_lt(self.y) {
            if self.x.spec_elem_lt(self.z) {
                0
            } else {
                2
            }
        } else {
            if self.y.spec_elem_lt(self.z) {
                1
            } else {
                2
            }
        }
    }

    open spec fn spec_max_index(self) -> usize {
        if self.y.spec_elem_lt(self.x) {
            if self.z.spec_elem_lt(self.x) {
                0
            } else {
                2
            }
        } else {
            if self.z.spec_elem_lt(self.y) {
                1
            } else {
                2
            }
        }
    }

    open spec fn spec_hprod(self) -> T {
        self.x.spec_elem_mul(self.y).spec_elem_mul(self.z)
    }

    open spec fn spec_lerp(self, t: T, other: Self) -> Self {
        Point3 {
            x: self.x.spec_elem_add(other.x.spec_elem_sub(self.x).spec_elem_mul(t)),
            y: self.y.spec_elem_add(other.y.spec_elem_sub(self.y).spec_elem_mul(t)),
            z: self.z.spec_elem_add(other.z.spec_elem_sub(self.z).spec_elem_mul(t)),
        }
    }

    open spec fn spec_fma(self, factor: Self, summand: Self) -> Self {
        Point3 {
            x: self.x.spec_elem_mul(factor.x).spec_elem_add(summand.x),
            y: self.y.spec_elem_mul(factor.y).spec_elem_add(summand.y),
            z: self.z.spec_elem_mul(factor.z).spec_elem_add(summand.z),
        }
    }

    fn has_nan(&self) -> (r: bool) {
        self.x.is_nan() || self.y.is_nan() || self.z.is_nan()
    }

    fn abs(&self) -> (r: Self) {
        Point3 { x: self.x.abs(), y: self.y.abs(), z: self.z.abs() }
    }

    fn ceil(&self) -> (r: Self) {
        Point3 { x: self.x.ceil(), y: self.y.ceil(), z: self.z.ceil() }
    }

    fn floor(&self) -> (r: Self) {
        Point3 { x: self.x.floor(), y: self.y.floor(), z: self.z.floor() }
    }

    fn min(&self, other: Self) -> (r: Self) {
        Point3 {
            x: self.x.min(other.x),
            y: self.y.min(other.y),
            z: self.z.min(other.z),
        }
    }

    fn max(&self, other: Self) -> (r: Self) {
        Point3 {
            x: self.x.max(other.x),
            y: self.y.max(other.y),
            z: self.z.max(other.z),
        }
    }

    fn min_component_value(&self) -> (r: T) {
        self.x.min(self.y).min(self.z)
    }

    fn max_component_value(&self) -> (r: T) {
        self.x.max(self.y).max(self.z)
    }

    fn min_component_index(&self) -> (r: usize) {
        if self.x.elem_lt(self.y) {
            if self.x.elem_lt(self.z) {
                0
            } else {
                2
            }
        } else {
            if self.y.elem_lt(self.z) {
                1
            } else {
                2
            }
        }
    }

    fn max_component_index(&self) -> (r: usize) {
        if self.y.elem_lt(self.x) {
            if self.z.elem_lt(self.x) {
                0
            } else {
                2
            }
        } else {
            if self.z.elem_lt(self.y) {
                1
            } else {
                2
            }
        }
    }

    fn hprod(&self) -> (r: T) {
        self.x.elem_mul(self.y).elem_mul(self.z)
    }

    fn lerp(&self, t: T, other: Self) -> (r: Self) {
        Point3 {
            x: self.x.elem_add(other.x.elem_sub(self.x).elem_mul(t)),
            y: self.y.elem_add(other.y.elem_sub(self.y).elem_mul(t)),
            z: self.z.elem_add(other.z.elem_sub(self.z).elem_mul(t)),
        }
    }

    fn fma(&self, factor: Self, summand: Self) -> (r: Self) {
        Point3 {
            x: self.x.elem_mul(factor.x).elem_add(summand.x),
            y: self.y.elem_mul(factor.y).elem_add(summand.y),
            z: self.z.elem_mul(factor.z).elem_add(summand.z),
        }
    }
}

impl<T: TupleElement> Tuple3<T> for Point3<T> {
    open spec fn spec_permute(self, perm: [usize; 3]) -> Self {
        Point3 {
            x: if perm[0] == 0 {
                self.x
            } else if perm[0] == 1 {
                self.y
            } else {
                self.z
            },
            y: if perm[1] == 0 {
                self.x
            } else if perm[1] == 1 {
                self.y
            } else {
                self.z
            },
            z: if perm[2] == 0 {
                self.x
            } else if perm[2] == 1 {
                self.y
            } else {
                self.z
            },
        }
    }

    fn permute(&self, perm: [usize; 3]) -> (r: Self) {
        Point3 {
            x: if perm[0] == 0 {
                self.x
            } else if perm[0] == 1 {
                self.y
            } else {
                self.z
            },
            y: if perm[1] == 0 {
                self.x
            } else if perm[1] == 1 {
                self.y
            } else {
                self.z
            },
            z: if perm[2] == 0 {
                self.x
            } else if perm[2] == 1 {
                self.y
            } else {
                self.z
            },
        }
    }
}


impl<T: TupleElement> Tuple<T> for Normal3<T> {
    open spec fn spec_has_nan(self) -> bool {
        self.x.spec_is_nan() || self.y.spec_is_nan() || self.z.spec_is_nan()
    }

    open spec fn spec_abs(self) -> Self {
        Normal3 { x: self.x.spec_abs(), y: self.y.spec_abs(), z: self.z.spec_abs() }
    }

    open spec fn spec_ceil(self) -> Self {
        Normal3 { x: self.x.spec_ceil(), y: self.y.spec_ceil(), z: self.z.spec_ceil() }
    }

    open spec fn spec_floor(self) -> Self {
        Normal3 { x: self.x.spec_floor(), y: self.y.spec_floor(), z: self.z.spec_floor() }
    }

    open spec fn spec_min(self, other: Self) -> Self {
        Normal3 {
            x: self.x.spec_min(other.x),
            y: self.y.spec_min(other.y),
            z: self.z.spec_min(other.z),
        }
    }

    open spec fn spec_max(self, other: Self) -> Self {
        Normal3 {
            x: self.x.spec_max(other.x),
            y: self.y.spec_max(other.y),
            z: self.z.spec_max(other.z),
        }
    }

    open spec fn spec_min_component(self) -> T {
        self.x.spec_min(self.y).spec_min(self.z)
    }

    open spec fn spec_max_component(self) -> T {
        self.x.spec_max(self.y).spec_max(self.z)
    }

    open spec fn spec_min_index(self) -> usize {
        if self.x.spec_elem_lt(self.y) {
            if self.x.spec_elem_lt(self.z) {
                0
            } else {
                2
            }
        } else {
            if self.y.spec_elem_lt(self.z) {
                1
            } else {
                2
            }
        }
    }

    open spec fn spec_max_index(self) -> usize {
        if self.y.spec_elem_lt(self.x) {
            if self.z.spec_elem_lt(self.x) {
                0
            } else {
                2
            }
        } else {
            if self.z.spec_elem_lt(self.y) {
                1
            } else {
                2
            }
        }
    }

    open spec fn spec_hprod(self) -> T {
        self.x.spec_elem_mul(self.y).spec_elem_mul(self.z)
    }

    open spec fn spec_lerp(self, t: T, other: Self) -> Self {
        Normal3 {
            x: self.x.spec_elem_add(other.x.spec_elem_sub(self.x).spec_elem_mul(t)),
            y: self.y.spec_elem_add(other.y.spec_elem_sub(self.y).spec_elem_mul(t)),
            z: self.z.spec_elem_add(other.z.spec_elem_sub(self.z).spec_elem_mul(t)),
        }
    }

    open spec fn spec_fma(self, factor: Self, summand: Self) -> Self {
        Normal3 {
            x: self.x.spec_elem_mul(factor.x).spec_elem_add(summand.x),
            y: self.y.spec_elem_mul(factor.y).spec_elem_add(summand.y),
            z: self.z.spec_elem_mul(factor.z).spec_elem_add(summand.z),
        }
    }

    fn has_nan(&self) -> (r: bool) {
        self.x.is_nan() || self.y.is_nan() || self.z.is_nan()
    }

    fn abs(&self) -> (r: Self) {
        Normal3 { x: self.x.abs(), y: self.y.abs(), z: self.z.abs() }
    }

    fn ceil(&self) -> (r: Self) {
        Normal3 { x: self.x.ceil(), y: self.y.ceil(), z: self.z.ceil() }
    }

    fn floor(&self) -> (r: Self) {
        Normal3 { x: self.x.floor(), y: self.y.floor(), z: self.z.floor() }
    }

    fn min(&self, other: Self) -> (r: Self) {
        Normal3 {
            x: self.x.min(other.x),
            y: self.y.min(other.y),
            z: self.z.min(other.z),
        }
    }

    fn max(&self, other: Self) -> (r: Self) {
        Normal3 {
            x: self.x.max(other.x),
            y: self.y.max(other.y),
            z: self.z.max(other.z),
        }
    }

    fn min_component_value(&self) -> (r: T) {
        self.x.min(self.y).min(self.z)
    }

    fn max_component_value(&self) -> (r: T) {
        self.x.max(self.y).max(self.z)
    }

    fn min_component_index(&self) -> (r: usize) {
        if self.x.elem_lt(self.y) {
            if self.x.elem_lt(self.z) {
                0
            } else {
                2
            }
        } else {
            if self.y.elem_lt(self.z) {
                1
            } else {
                2
            }
        }
    }

    fn max_component_index(&self) -> (r: usize) {
        if self.y.elem_lt(self.x) {
            if self.z.elem_lt(self.x) {
                0
            } else {
                2
            }
        } else {
            if self.z.elem_lt(self.y) {
                1
            } else {
                2
            }
        }
    }

    fn hprod(&self) -> (r: T) {
        self.x.elem_mul(self.y).elem_mul(self.z)
    }

    fn lerp(&self, t: T, other: Self) -> (r: Self) {
        Normal3 {
            x: self.x.elem_add(other.x.elem_sub(self.x).elem_mul(t)),
            y: self.y.elem_add(other.y.elem_sub(self.y).elem_mul(t)),
            z: self.z.elem_add(other.z.elem_sub(self.z).elem_mul(t)),
        }
    }

    fn fma(&self, factor: Self, summand: Self) -> (r: Self) {
        Normal3 {
            x: self.x.elem_mul(factor.x).elem_add(summand.x),
            y: self.y.elem_mul(factor.y).elem_add(summand.y),
            z: self.z.elem_mul(factor.z).elem_add(summand.z),
        }
    }
}

impl<T: TupleElement> Tuple3<T> for Normal3<T> {
    open spec fn spec_permute(self, perm: [usize; 3]) -> Self {
        Normal3 {
            x: if perm[0] == 0 {
                self.x
            } else if perm[0] == 1 {
                self.y
            } else {
                self.z
            },
            y: if perm[1] == 0 {
                self.x
            } else if perm[1] == 1 {
                self.y
            } else {
                self.z
            },
            z: if perm[2] == 0 {
                self.x
            } else if perm[2] == 1 {
                self.y
            } else {
                self.z
            },
        }
    }

    fn permute(&self, perm: [usize; 3]) -> (r: Self) {
        Normal3 {
            x: if perm[0] == 0 {
                self.x
            } else if perm[0] == 1 {
                self.y
            } else {
                self.z
            },
            y: if perm[1] == 0 {
                self.x
            } else if perm[1] == 1 {
                self.y
            } else {
                self.z
            },
            z: if perm[2] == 0 {
                self.x
            } else if perm[2] == 1 {
                self.y
            } else {
                self.z
            },
        }
    }
}


} // verus!
