//! Point types and operations.
use vstd::prelude::*;

use crate::fp::Fp;
use crate::math::length::Length;
use crate::math::tuples::TupleElement;
use crate::math::vectors::{Vector2, Vector3};

verus! {

/// Represents a 2-dimensional point.
///
/// A point is a zero-dimensional location in space.
#[derive(Clone, Copy, PartialEq, Eq, Structural, Debug)]
pub struct Point2<T> {
    /// The x-coordinate of the point.
    pub x: T,
    /// The y-coordinate of the point.
    pub y: T,
}

/// Represents a 3-dimensional point.
#[derive(Clone, Copy, PartialEq, Eq, Structural, Debug)]
pub struct Point3<T> {
    /// The x-coordinate of the point.
    pub x: T,
    /// The y-coordinate of the point.
    pub y: T,
    /// The z-coordinate of the point.
    pub z: T,
}

/// A 2-dimensional point with fixed-point components.
pub type Point2f = Point2<crate::fp::Fp>;

/// A 3-dimensional point with fixed-point components.
pub type Point3f = Point3<crate::fp::Fp>;

/// A 2-dimensional point with `i32` components.
pub type Point2i = Point2<i32>;

/// A 3-dimensional point with `i32` components.
pub type Point3i = Point3<i32>;

impl<T> Point2<T> {
    pub fn new(x: T, y: T) -> (r: Self)
        ensures
            r == (Point2 { x, y }),
    {
        Point2 { x, y }
    }
}

impl<T> Point3<T> {
    pub fn new(x: T, y: T, z: T) -> (r: Self)
        ensures
            r == (Point3 { x, y, z }),
    {
        Point3 { x, y, z }
    }
}

impl<T: TupleElement> Point2<T> {
    /// The displacement vector from `o` to `self`.
    pub fn minus(&self, o: Point2<T>) -> (r: Vector2<T>)
        ensures
            r == (Vector2 { x: self.x.spec_elem_sub(o.x), y: self.y.spec_elem_sub(o.y) }),
    {
        Vector2 { x: self.x.elem_sub(o.x), y: self.y.elem_sub(o.y) }
    }
}

impl<T: TupleElement> Point3<T> {
    /// The displacement vector from `o` to `self`.
    pub fn minus(&self, o: Point3<T>) -> (r: Vector3<T>)
        ensures
            r == (Vector3 {
                x: self.x.spec_elem_sub(o.x),
                y: self.y.spec_elem_sub(o.y),
                z: self.z.spec_elem_sub(o.z),
            }),
    {
        Vector3 { x: self.x.elem_sub(o.x), y: self.y.elem_sub(o.y), z: self.z.elem_sub(o.z) }
    }
}

/// The Euclidean separation of two points.
pub trait Distance where Self: Sized + Copy {
    type TupleElementType;

    type LengthType;

    spec fn spec_distance_squared(self, other: Self) -> Self::TupleElementType;

    spec fn spec_distance(self, other: Self) -> Self::LengthType;

    /// The squared distance between `self` and `other`.
    fn distance_squared(&self, other: &Self) -> (r: Self::TupleElementType)
        ensures
            r == self.spec_distance_squared(*other),
    ;

    /// The distance between `self` and `other`.
    fn distance(&self, other: &Self) -> (r: Self::LengthType)
        ensures
            r == self.spec_distance(*other),
    ;
}

impl Distance for Point2f {
    type TupleElementType = Fp;

    type LengthType = Fp;

    open spec fn spec_distance_squared(self, other: Self) -> Fp {
        (Vector2 { x: self.x.spec_elem_sub(other.x), y: self.y.spec_elem_sub(other.y) }).spec_length_squared()
    }

    open spec fn spec_distance(self, other: Self) -> Fp {
        (Vector2 { x: self.x.spec_elem_sub(other.x), y: self.y.spec_elem_sub(other.y) }).spec_length()
    }

    fn distance_squared(&self, other: &Self) -> (r: Fp) {
        self.minus(*other).length_squared()
    }

    fn distance(&self, other: &Self) -> (r: Fp) {
        self.minus(*other).length()
    }
}

impl Distance for Point3f {
    type TupleElementType = Fp;

    type LengthType = Fp;

    open spec fn spec_distance_squared(self, other: Self) -> Fp {
        (Vector3 {
            x: self.x.spec_elem_sub(other.x),
            y: self.y.spec_elem_sub(other.y),
            z: self.z.spec_elem_sub(other.z),
        }).spec_length_squared()
    }

    open spec fn spec_distance(self, other: Self) -> Fp {
        (Vector3 {
            x: self.x.spec_elem_sub(other.x),
            y: self.y.spec_elem_sub(other.y),
            z: self.z.spec_elem_sub(other.z),
        }).spec_length()
    }

    fn distance_squared(&self, other: &Self) -> (r: Fp) {
        self.minus(*other).length_squared()
    }

    fn distance(&self, other: &Self) -> (r: Fp) {
        self.minus(*other).length()
    }
}

impl Distance for Point2i {
    type TupleElementType = i32;

    type LengthType = Fp;

    open spec fn spec_distance_squared(self, other: Self) -> i32 {
        (Vector2 { x: self.x.spec_elem_sub(other.x), y: self.y.spec_elem_sub(other.y) }).spec_length_squared()
    }

    open spec fn spec_distance(self, other: Self) -> Fp {
        (Vector2 { x: self.x.spec_elem_sub(other.x), y: self.y.spec_elem_sub(other.y) }).spec_length()
    }

    fn distance_squared(&self, other: &Self) -> (r: i32) {
        self.minus(*other).length_squared()
    }

    fn distance(&self, other: &Self) -> (r: Fp) {
        self.minus(*other).length()
    }
}

impl Distance for Point3i {
    type TupleElementType = i32;

    type LengthType = Fp;

    open spec fn spec_distance_squared(self, other: Self) -> i32 {
        (Vector3 {
            x: self.x.spec_elem_sub(other.x),
            y: self.y.spec_elem_sub(other.y),
            z: self.z.spec_elem_sub(other.z),
        }).spec_length_squared()
    }

    open spec fn spec_distance(self, other: Self) -> Fp {
        (Vector3 {
            x: self.x.spec_elem_sub(other.x),
            y: self.y.spec_elem_sub(other.y),
            z: self.z.spec_elem_sub(other.z),
        }).spec_length()
    }

    fn distance_squared(&self, other: &Self) -> (r: i32) {
        self.minus(*other).length_squared()
    }

    fn distance(&self, other: &Self) -> (r: Fp) {
        self.minus(*other).length()
    }
}

} // verus!
