//! Pixel-region and scene bounds.
use vstd::prelude::*;

use crate::math::points::Point3f;

verus! {

/// Extent of the film's pixel region: pixels `(x, y)` with
/// `0 <= x < nx` and `0 <= y < ny`.
#[derive(Clone, Copy, PartialEq, Eq, Structural, Debug)]
pub struct Bounds2i {
    pub nx: i32,
    pub ny: i32,
}

impl Bounds2i {
    /// A usable pixel region: non-negative extents small enough that pixel
    /// coordinates convert exactly to fixed point.
    pub open spec fn wf(self) -> bool {
        0 <= self.nx <= 16384 && 0 <= self.ny <= 16384
    }

    pub fn new(nx: i32, ny: i32) -> (r: Bounds2i)
        requires
            0 <= nx <= 16384,
            0 <= ny <= 16384,
        ensures
            r == (Bounds2i { nx, ny }),
            r.wf(),
    {
        Bounds2i { nx, ny }
    }

    /// Width of the pixel region.
    pub fn x(&self) -> (r: i32)
        ensures
            r == self.nx,
    {
        self.nx
    }

    /// Height of the pixel region.
    pub fn y(&self) -> (r: i32)
        ensures
            r == self.ny,
    {
        self.ny
    }

    /// Number of pixels in the region.
    pub fn area(&self) -> (r: i64)
        ensures
            r == self.nx as int * self.ny as int,
    {
        proof {
            assert(-0x4000_0000_0000_0000int <= self.nx as int * self.ny as int
                <= 0x4000_0000_0000_0000int) by (nonlinear_arith)
                requires
                    -0x8000_0000int <= self.nx as int <= 0x8000_0000int,
                    -0x8000_0000int <= self.ny as int <= 0x8000_0000int,
            ;
        }
        (self.nx as i64) * (self.ny as i64)
    }
}

/// An axis-aligned box around the scene's geometry.
#[derive(Clone, Copy, PartialEq, Eq, Structural, Debug)]
pub struct Bounds3f {
    pub min: Point3f,
    pub max: Point3f,
}

impl Bounds3f {
    /// The degenerate box at the origin, used when no geometry exists.
    pub open spec fn spec_empty() -> Bounds3f {
        Bounds3f {
            min: Point3f {
                x: crate::fp::Fp { bits: 0 },
                y: crate::fp::Fp { bits: 0 },
                z: crate::fp::Fp { bits: 0 },
            },
            max: Point3f {
                x: crate::fp::Fp { bits: 0 },
                y: crate::fp::Fp { bits: 0 },
                z: crate::fp::Fp { bits: 0 },
            },
        }
    }
}

impl Default for Bounds3f {
    /// The degenerate box at the origin.
    fn default() -> (r: Bounds3f)
        ensures
            r == Bounds3f::spec_empty(),
    {
        Bounds3f {
            min: Point3f {
                x: crate::fp::Fp { bits: 0 },
                y: crate::fp::Fp { bits: 0 },
                z: crate::fp::Fp { bits: 0 },
            },
            max: Point3f {
                x: crate::fp::Fp { bits: 0 },
                y: crate::fp::Fp { bits: 0 },
                z: crate::fp::Fp { bits: 0 },
            },
        }
    }
}

} // verus!
