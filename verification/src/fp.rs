//! Fixed-point scalars.
//!
//! Radiometric and geometric quantities are carried as signed 64-bit
//! fixed-point numbers with a 16-bit fractional part.  Arithmetic saturates at
//! the representable range instead of overflowing, and every operation's exact
//! result (including the saturation) is pinned down by its contract.
use vstd::prelude::*;

verus! {

/// Number of fixed-point steps per unit: the representation of `1`.
pub const FP_ONE: i64 = 65536;

/// A fixed-point scalar: `bits` counts steps of `1 / 65536`.
#[derive(Clone, Copy, PartialEq, Eq, Structural, Debug)]
pub struct Fp {
    pub bits: i64,
}

/// Clamp a mathematical integer into the `i64` range.
pub open spec fn sat(x: int) -> int {
    if x > i64::MAX as int {
        i64::MAX as int
    } else if x < i64::MIN as int {
        i64::MIN as int
    } else {
        x
    }
}

/// Division that truncates toward zero, as machine division does.
/// Meaningful for `d > 0`.
pub open spec fn tdiv(n: int, d: int) -> int {
    if n >= 0 {
        n / d
    } else {
        -((-n) / d)
    }
}

/// Exact (unsaturated) product of two fixed-point values.
pub open spec fn fpmul(a: int, b: int) -> int {
    tdiv(a * b, FP_ONE as int)
}

/// Exact (unsaturated) quotient of two fixed-point values, for `d > 0`.
pub open spec fn fpdiv(a: int, d: int) -> int {
    tdiv(a * FP_ONE, d)
}

/// Truncating division for a divisor of either sign (non-zero).
pub open spec fn tdiv_any(n: int, d: int) -> int {
    if d >= 0 {
        tdiv(n, d)
    } else {
        tdiv(-n, -d)
    }
}

/// Saturating fixed-point quotient for a non-zero divisor of either sign.
pub open spec fn spec_fp_div_any(a: Fp, d: Fp) -> Fp {
    Fp { bits: sat(tdiv_any(a.bits * FP_ONE, d.bits as int)) as i64 }
}

/// The fixed-point square root of `max(0, a)`.  Inputs above the supported
/// root range are clamped to it first.
pub open spec fn spec_fp_sqrt(a: Fp) -> Fp {
    if a.bits <= 0 {
        Fp { bits: 0 }
    } else {
        let clamped = if a.bits > 0x3fff_ffff_ffffi64 {
            0x3fff_ffff_ffffi64
        } else {
            a.bits
        };
        Fp { bits: spec_isqrt(clamped * FP_ONE) as i64 }
    }
}

/// The whole number `v` as a fixed-point value, saturated at the range.
pub open spec fn spec_from_whole(v: int) -> Fp {
    Fp { bits: sat(v * FP_ONE) as i64 }
}

/// Saturating fixed-point sum of two scalars.
pub open spec fn spec_fp_add(a: Fp, b: Fp) -> Fp {
    Fp { bits: sat(a.bits + b.bits) as i64 }
}

/// Saturating fixed-point difference of two scalars.
pub open spec fn spec_fp_sub(a: Fp, b: Fp) -> Fp {
    Fp { bits: sat(a.bits - b.bits) as i64 }
}

/// Saturating fixed-point negation.
pub open spec fn spec_fp_neg(a: Fp) -> Fp {
    Fp { bits: sat(-a.bits) as i64 }
}

/// Saturating fixed-point absolute value.
pub open spec fn spec_fp_abs(a: Fp) -> Fp {
    Fp { bits: sat(abs_int(a.bits as int)) as i64 }
}

/// Saturating fixed-point product of two scalars.
pub open spec fn spec_fp_mul(a: Fp, b: Fp) -> Fp {
    Fp { bits: sat(fpmul(a.bits as int, b.bits as int)) as i64 }
}

/// Saturating fixed-point quotient; meaningful for `d.bits > 0`.
pub open spec fn spec_fp_div(a: Fp, d: Fp) -> Fp {
    Fp { bits: sat(fpdiv(a.bits as int, d.bits as int)) as i64 }
}

pub open spec fn abs_int(x: int) -> int {
    if x >= 0 {
        x
    } else {
        -x
    }
}

proof fn lemma_mul_sign_abs(a: int, b: int)
    ensures
        a >= 0 && b >= 0 ==> a * b == abs_int(a) * abs_int(b),
        a >= 0 && b < 0 ==> a * b == -(abs_int(a) * abs_int(b)),
        a < 0 && b >= 0 ==> a * b == -(abs_int(a) * abs_int(b)),
        a < 0 && b < 0 ==> a * b == abs_int(a) * abs_int(b),
{
    if a >= 0 && b < 0 {
        assert(a * b == -(a * (-b))) by (nonlinear_arith);
    } else if a < 0 && b >= 0 {
        assert(a * b == -((-a) * b)) by (nonlinear_arith);
    } else if a < 0 && b < 0 {
        assert(a * b == (-a) * (-b)) by (nonlinear_arith);
    }
}

impl Fp {
    pub fn zero() -> (r: Fp)
        ensures
            r.bits == 0,
    {
        Fp { bits: 0 }
    }

    pub fn one() -> (r: Fp)
        ensures
            r.bits == FP_ONE,
    {
        Fp { bits: FP_ONE }
    }

    /// Largest representable value; stands in for an unbounded ray extent.
    pub fn max_value() -> (r: Fp)
        ensures
            r.bits == i64::MAX,
    {
        Fp { bits: i64::MAX }
    }

    /// The whole number `v` as a fixed-point value, saturated at the range.
    pub fn from_whole(v: i64) -> (r: Fp)
        ensures
            r == spec_from_whole(v as int),
    {
        proof {
            assert((v as int) * (FP_ONE as int) <= 0x8000_0000_0000_0000int * 0x1_0000int
                && (v as int) * (FP_ONE as int) >= -(0x8000_0000_0000_0000int * 0x1_0000int))
                by (nonlinear_arith)
                requires
                    -0x8000_0000_0000_0000int <= v as int <= 0x7fff_ffff_ffff_ffffint,
            ;
        }
        let wide: i128 = (v as i128) * (FP_ONE as i128);
        clamp_i128(wide)
    }

    pub fn sat_add(self, o: Fp) -> (r: Fp)
        ensures
            r.bits == sat(self.bits + o.bits),
    {
        clamp_i128((self.bits as i128) + (o.bits as i128))
    }

    pub fn sat_sub(self, o: Fp) -> (r: Fp)
        ensures
            r.bits == sat(self.bits - o.bits),
    {
        clamp_i128((self.bits as i128) - (o.bits as i128))
    }

    pub fn sat_neg(self) -> (r: Fp)
        ensures
            r.bits == sat(-self.bits),
    {
        clamp_i128(-(self.bits as i128))
    }

    pub fn sat_abs(self) -> (r: Fp)
        ensures
            r.bits == sat(abs_int(self.bits as int)),
    {
        if self.bits >= 0 {
            self
        } else {
            clamp_i128(-(self.bits as i128))
        }
    }

    pub fn sat_mul(self, o: Fp) -> (r: Fp)
        ensures
            r.bits == sat(fpmul(self.bits as int, o.bits as int)),
    {
        let a = self.bits;
        let b = o.bits;
        let ua: u128 = mag_u128(a);
        let ub: u128 = mag_u128(b);
        proof {
            lemma_mul_sign_abs(a as int, b as int);
            assert(ua * ub <= 0x4000_0000_0000_0000_0000_0000_0000_0000u128) by (nonlinear_arith)
                requires
                    ua <= 0x8000_0000_0000_0000u128,
                    ub <= 0x8000_0000_0000_0000u128,
            ;
        }
        let m: u128 = (ua * ub) / (FP_ONE as u128);
        if (a >= 0) == (b >= 0) {
            clamp_mag(m, false)
        } else {
            clamp_mag(m, true)
        }
    }

    /// Fixed-point division by a strictly positive divisor.
    pub fn sat_div(self, o: Fp) -> (r: Fp)
        requires
            o.bits > 0,
        ensures
            r.bits == sat(fpdiv(self.bits as int, o.bits as int)),
    {
        let a = self.bits;
        let ua: u128 = mag_u128(a);
        proof {
            lemma_mul_sign_abs(a as int, FP_ONE as int);
            assert(ua * (FP_ONE as u128) <= 0x8000_0000_0000_0000u128 * 0x1_0000u128)
                by (nonlinear_arith)
                requires
                    ua <= 0x8000_0000_0000_0000u128,
            ;
        }
        let scaled: u128 = ua * (FP_ONE as u128);
        let m: u128 = scaled / (o.bits as u128);
        if a >= 0 {
            clamp_mag(m, false)
        } else {
            clamp_mag(m, true)
        }
    }

    /// Fixed-point division by a non-zero divisor of either sign.
    pub fn sat_div_any(self, o: Fp) -> (r: Fp)
        requires
            o.bits != 0,
        ensures
            r == spec_fp_div_any(self, o),
    {
        let a = self.bits;
        let ua: u128 = mag_u128(a);
        proof {
            lemma_mul_sign_abs(a as int, FP_ONE as int);
            assert(ua * (FP_ONE as u128) <= 0x8000_0000_0000_0000u128 * 0x1_0000u128)
                by (nonlinear_arith)
                requires
                    ua <= 0x8000_0000_0000_0000u128,
            ;
        }
        let scaled: u128 = ua * (FP_ONE as u128);
        let ud: u128 = mag_u128(o.bits);
        let m: u128 = scaled / ud;
        proof {
            assert(m <= scaled) by (nonlinear_arith)
                requires
                    m == scaled / ud,
                    ud >= 1,
            ;
        }
        if (a >= 0) == (o.bits >= 0) {
            clamp_mag(m, false)
        } else {
            clamp_mag(m, true)
        }
    }

    /// The square root of `max(0, self)`, with the input clamped into the
    /// supported root range.
    pub fn fp_sqrt(self) -> (r: Fp)
        ensures
            r == spec_fp_sqrt(self),
    {
        if self.bits <= 0 {
            Fp { bits: 0 }
        } else {
            let clamped: i64 = if self.bits > 0x3fff_ffff_ffffi64 {
                0x3fff_ffff_ffffi64
            } else {
                self.bits
            };
            proof {
                assert(clamped as int * (FP_ONE as int) < 0x4000_0000_0000_0000int)
                    by (nonlinear_arith)
                    requires
                        0 < clamped as int <= 0x3fff_ffff_ffffint,
                ;
            }
            let root = isqrt_u64((clamped as u64) * (FP_ONE as u64));
            Fp { bits: root as i64 }
        }
    }

    pub fn sat_min(self, o: Fp) -> (r: Fp)
        ensures
            r.bits == if self.bits <= o.bits {
                self.bits
            } else {
                o.bits
            },
    {
        if self.bits <= o.bits {
            self
        } else {
            o
        }
    }

    pub fn sat_max(self, o: Fp) -> (r: Fp)
        ensures
            r.bits == if self.bits >= o.bits {
                self.bits
            } else {
                o.bits
            },
    {
        if self.bits >= o.bits {
            self
        } else {
            o
        }
    }
}

/// The largest whole multiple of one not above `x`.
pub open spec fn floor_to_one(x: int) -> int {
    x - (x % (FP_ONE as int))
}

/// The smallest whole multiple of one not below `x`.
pub open spec fn ceil_to_one(x: int) -> int {
    if x % (FP_ONE as int) == 0 {
        x
    } else {
        x - (x % (FP_ONE as int)) + FP_ONE
    }
}

impl Fp {
    /// Round down to a whole number.
    pub fn floor_whole(self) -> (r: Fp)
        ensures
            r.bits == floor_to_one(self.bits as int),
    {
        let b = self.bits;
        if b >= 0 {
            let q: u64 = (b as u64) / (FP_ONE as u64);
            proof {
                vstd::arithmetic::div_mod::lemma_fundamental_div_mod(b as int, FP_ONE as int);
            }
            Fp { bits: (q * (FP_ONE as u64)) as i64 }
        } else {
            let k: u128 = (-(b as i128)) as u128;
            let qn: u128 = (k + 0xffff) / (FP_ONE as u128);
            proof {
                vstd::arithmetic::div_mod::lemma_fundamental_div_mod(
                    k as int + 0xffff,
                    FP_ONE as int,
                );
                let rem = qn as int * FP_ONE - k as int;
                assert(0 <= rem < FP_ONE);
                vstd::arithmetic::div_mod::lemma_fundamental_div_mod_converse(
                    -(k as int),
                    FP_ONE as int,
                    -(qn as int),
                    rem,
                );
            }
            Fp { bits: ((-(qn as i128)) * (FP_ONE as i128)) as i64 }
        }
    }

    /// Round up to a whole number, saturating at the top of the range.
    pub fn ceil_whole(self) -> (r: Fp)
        ensures
            r.bits == sat(ceil_to_one(self.bits as int)),
    {
        let down = self.floor_whole();
        if down.bits == self.bits {
            self
        } else {
            proof {
                vstd::arithmetic::div_mod::lemma_fundamental_div_mod(
                    self.bits as int,
                    FP_ONE as int,
                );
            }
            clamp_i128((down.bits as i128) + (FP_ONE as i128))
        }
    }
}

/// Magnitude of an `i64` as a `u128`.
fn mag_u128(a: i64) -> (r: u128)
    ensures
        r == abs_int(a as int),
        r <= 0x8000_0000_0000_0000u128,
{
    if a >= 0 {
        a as u128
    } else {
        (-(a as i128)) as u128
    }
}

/// Clamp a wide intermediate into the `i64` range.
fn clamp_i128(x: i128) -> (r: Fp)
    ensures
        r.bits == sat(x as int),
{
    if x > i64::MAX as i128 {
        Fp { bits: i64::MAX }
    } else if x < i64::MIN as i128 {
        Fp { bits: i64::MIN }
    } else {
        Fp { bits: x as i64 }
    }
}

/// Clamp a magnitude (with a sign to apply) into the `i64` range.
fn clamp_mag(m: u128, negative: bool) -> (r: Fp)
    ensures
        !negative ==> r.bits == sat(m as int),
        negative ==> r.bits == sat(-(m as int)),
{
    if negative {
        if m >= 0x8000_0000_0000_0000u128 {
            Fp { bits: i64::MIN }
        } else {
            Fp { bits: -((m as i128) as i64) }
        }
    } else {
        if m > i64::MAX as u128 {
            Fp { bits: i64::MAX }
        } else {
            Fp { bits: m as i64 }
        }
    }
}

/// Integer square root as a mathematical function: the largest `r` with
/// `r * r <= v`.
pub open spec fn spec_isqrt(v: int) -> int
    decreases v,
{
    if v <= 0 {
        0
    } else {
        let p = spec_isqrt(v - 1);
        if (p + 1) * (p + 1) <= v {
            p + 1
        } else {
            p
        }
    }
}

/// `spec_isqrt` really is the integer square root.
pub proof fn lemma_isqrt_characterization(v: int)
    requires
        v >= 0,
    ensures
        0 <= spec_isqrt(v),
        spec_isqrt(v) * spec_isqrt(v) <= v,
        v < (spec_isqrt(v) + 1) * (spec_isqrt(v) + 1),
    decreases v,
{
    if v > 0 {
        lemma_isqrt_characterization(v - 1);
        let p = spec_isqrt(v - 1);
        if (p + 1) * (p + 1) <= v {
            assert(v - 1 < (p + 1) * (p + 1));
            assert((p + 1) * (p + 1) < (p + 2) * (p + 2)) by (nonlinear_arith)
                requires
                    p >= 0,
            ;
        }
    }
}

/// Any value meeting the square-root characterization is `spec_isqrt`.
pub proof fn lemma_isqrt_unique(v: int, r: int)
    requires
        v >= 0,
        0 <= r,
        r * r <= v,
        v < (r + 1) * (r + 1),
    ensures
        r == spec_isqrt(v),
{
    lemma_isqrt_characterization(v);
    let q = spec_isqrt(v);
    if r < q {
        assert((r + 1) * (r + 1) <= q * q) by (nonlinear_arith)
            requires
                0 <= r,
                r + 1 <= q,
        ;
    }
    if q < r {
        assert((q + 1) * (q + 1) <= r * r) by (nonlinear_arith)
            requires
                0 <= q,
                q + 1 <= r,
        ;
    }
}

/// Integer square root: the largest `r` with `r * r <= v`.
pub fn isqrt_u64(v: u64) -> (r: u64)
    requires
        v < 0x4000_0000_0000_0000u64,
    ensures
        r * r <= v,
        v < (r + 1) * (r + 1),
        r < 0x8000_0000u64,
        r == spec_isqrt(v as int),
{
    let mut lo: u64 = 0;
    let mut hi: u64 = 0x8000_0000u64;
    proof {
        assert((0x8000_0000u64 as int) * (0x8000_0000u64 as int) == 0x4000_0000_0000_0000int)
            by (nonlinear_arith);
    }
    while lo + 1 < hi
        invariant
            lo < hi <= 0x8000_0000u64,
            lo * lo <= v,
            v < hi * hi,
        decreases hi - lo,
    {
        let mid: u64 = lo + (hi - lo) / 2;
        proof {
            assert(mid * mid <= 0x8000_0000u64 * 0x8000_0000u64) by (nonlinear_arith)
                requires
                    mid <= 0x8000_0000u64,
            ;
        }
        if mid * mid <= v {
            lo = mid;
        } else {
            hi = mid;
        }
    }
    proof {
        lemma_isqrt_unique(v as int, lo as int);
    }
    lo
}

} // verus!
