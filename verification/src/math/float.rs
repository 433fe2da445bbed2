//! Extension operations on the fixed-point scalar.
use vstd::prelude::*;

use crate::fp::{
    spec_fp_add, spec_fp_div_any, spec_fp_mul, spec_fp_sqrt, spec_fp_sub, Fp, FP_ONE,
};

verus! {

/// The largest representable value below one.
pub const FP_ONE_MINUS_EPSILON: i64 = 65535;

/// The circle constant, in fixed point.
pub const FP_PI: i64 = 205887;

/// `1 / pi`, in fixed point.
pub const FP_INV_PI: i64 = 20861;

/// `1 / (2 * pi)`, in fixed point.
pub const FP_INV_2PI: i64 = 10430;

/// `1 / (4 * pi)`, in fixed point.
pub const FP_INV_4PI: i64 = 5215;

/// `pi / 2`, in fixed point.
pub const FP_PI_OVER_2: i64 = 102944;

/// `pi / 4`, in fixed point.
pub const FP_PI_OVER_4: i64 = 51472;

/// `pi / 180`, in fixed point.
pub const FP_DEG_TO_RAD: i64 = 1144;

/// `180 / pi`, in fixed point.
pub const FP_RAD_TO_DEG: i64 = 3754936;

/// `t` clamped into `[0, 1]`.
pub open spec fn spec_clamp_unit(t: Fp) -> Fp {
    if t.bits < 0 {
        Fp { bits: 0 }
    } else if t.bits > FP_ONE {
        Fp { bits: FP_ONE }
    } else {
        t
    }
}

/// Extension operations for the fixed-point scalar.
pub trait FloatExt: Sized + Copy {
    spec fn spec_safe_sqrt(self) -> Self;

    spec fn spec_next_float_down(self) -> Self;

    spec fn spec_next_float_up(self) -> Self;

    spec fn spec_deg_to_rad(self) -> Self;

    spec fn spec_rad_to_deg(self) -> Self;

    spec fn spec_lerp(self, a: Self, b: Self) -> Self;

    spec fn spec_smooth_step(self, a: Self, b: Self) -> Self;

    /// The square root of the value, with negative inputs taken as zero.
    fn safe_sqrt(self) -> (r: Self)
        ensures
            r == self.spec_safe_sqrt(),
    ;

    /// The next representable value below, saturating at the bottom.
    fn next_float_down(self) -> (r: Self)
        ensures
            r == self.spec_next_float_down(),
    ;

    /// The next representable value above, saturating at the top.
    fn next_float_up(self) -> (r: Self)
        ensures
            r == self.spec_next_float_up(),
    ;

    /// The angle converted from degrees to radians.
    fn deg_to_rad(self) -> (r: Self)
        ensures
            r == self.spec_deg_to_rad(),
    ;

    /// The angle converted from radians to degrees.
    fn rad_to_deg(self) -> (r: Self)
        ensures
            r == self.spec_rad_to_deg(),
    ;

    /// Linear interpolation from `a` to `b` by the factor `self`.
    fn lerp(self, a: Self, b: Self) -> (r: Self)
        ensures
            r == self.spec_lerp(a, b),
    ;

    /// The cubic smooth blend of `self` over the range `[a, b]`.
    fn smooth_step(self, a: Self, b: Self) -> (r: Self)
        ensures
            r == self.spec_smooth_step(a, b),
    ;
}

impl FloatExt for Fp {
    open spec fn spec_safe_sqrt(self) -> Fp {
        spec_fp_sqrt(self)
    }

    open spec fn spec_next_float_down(self) -> Fp {
        if self.bits == i64::MIN {
            self
        } else {
            Fp { bits: (self.bits - 1) as i64 }
        }
    }

    open spec fn spec_next_float_up(self) -> Fp {
        if self.bits == i64::MAX {
            self
        } else {
            Fp { bits: (self.bits + 1) as i64 }
        }
    }

    open spec fn spec_deg_to_rad(self) -> Fp {
        spec_fp_mul(self, Fp { bits: FP_DEG_TO_RAD })
    }

    open spec fn spec_rad_to_deg(self) -> Fp {
        spec_fp_mul(self, Fp { bits: FP_RAD_TO_DEG })
    }

    open spec fn spec_lerp(self, a: Fp, b: Fp) -> Fp {
        spec_fp_add(
            spec_fp_mul(a, spec_fp_sub(Fp { bits: FP_ONE }, self)),
            spec_fp_mul(b, self),
        )
    }

    open spec fn spec_smooth_step(self, a: Fp, b: Fp) -> Fp {
        if a == b {
            if self.bits < a.bits {
                Fp { bits: 0 }
            } else {
                Fp { bits: FP_ONE }
            }
        } else {
            let t = spec_clamp_unit(
                spec_fp_div_any(spec_fp_sub(self, a), spec_fp_sub(b, a)),
            );
            spec_fp_mul(
                spec_fp_mul(t, t),
                spec_fp_sub(Fp { bits: 196608 }, spec_fp_mul(Fp { bits: 131072 }, t)),
            )
        }
    }

    fn safe_sqrt(self) -> (r: Fp) {
        self.fp_sqrt()
    }

    fn next_float_down(self) -> (r: Fp) {
        if self.bits == i64::MIN {
            self
        } else {
            Fp { bits: self.bits - 1 }
        }
    }

    fn next_float_up(self) -> (r: Fp) {
        if self.bits == i64::MAX {
            self
        } else {
            Fp { bits: self.bits + 1 }
        }
    }

    fn deg_to_rad(self) -> (r: Fp) {
        self.sat_mul(Fp { bits: FP_DEG_TO_RAD })
    }

    fn rad_to_deg(self) -> (r: Fp) {
        self.sat_mul(Fp { bits: FP_RAD_TO_DEG })
    }

    fn lerp(self, a: Fp, b: Fp) -> (r: Fp) {
        a.sat_mul(Fp { bits: FP_ONE }.sat_sub(self)).sat_add(b.sat_mul(self))
    }

    fn smooth_step(self, a: Fp, b: Fp) -> (r: Fp) {
        if a.bits == b.bits {
            if self.bits < a.bits {
                Fp { bits: 0 }
            } else {
                Fp { bits: FP_ONE }
            }
        } else {
            let raw = self.sat_sub(a).sat_div_any(b.sat_sub(a));
            let t = if raw.bits < 0 {
                Fp { bits: 0 }
            } else if raw.bits > FP_ONE {
                Fp { bits: FP_ONE }
            } else {
                raw
            };
            t.sat_mul(t).sat_mul(Fp { bits: 196608 }.sat_sub(Fp { bits: 131072 }.sat_mul(t)))
        }
    }
}

} // verus!
