//! Wavelength-sampled spectral values.
//!
//! A [`SampledSpectrum`] carries the radiometric quantity at four sampled
//! wavelengths; a [`SampledWavelengths`] records which wavelengths those are.
//! The wavelengths are drawn once per camera sample and shared across the
//! whole path.
use vstd::prelude::*;

use crate::fp::{spec_fp_add, spec_fp_div, spec_fp_mul, Fp};

verus! {

/// A spectral value sampled at four wavelengths.
#[derive(Clone, Copy, PartialEq, Eq, Structural, Debug)]
pub struct SampledSpectrum {
    pub c0: Fp,
    pub c1: Fp,
    pub c2: Fp,
    pub c3: Fp,
}

/// The four wavelengths a camera sample was taken at.
#[derive(Clone, Copy, PartialEq, Eq, Structural, Debug)]
pub struct SampledWavelengths {
    pub l0: Fp,
    pub l1: Fp,
    pub l2: Fp,
    pub l3: Fp,
}

pub open spec fn spec_zero_spectrum() -> SampledSpectrum {
    SampledSpectrum { c0: Fp { bits: 0 }, c1: Fp { bits: 0 }, c2: Fp { bits: 0 }, c3: Fp { bits: 0 } }
}

pub open spec fn spec_constant_spectrum(v: Fp) -> SampledSpectrum {
    SampledSpectrum { c0: v, c1: v, c2: v, c3: v }
}

pub open spec fn spec_spectrum_add(a: SampledSpectrum, b: SampledSpectrum) -> SampledSpectrum {
    SampledSpectrum {
        c0: spec_fp_add(a.c0, b.c0),
        c1: spec_fp_add(a.c1, b.c1),
        c2: spec_fp_add(a.c2, b.c2),
        c3: spec_fp_add(a.c3, b.c3),
    }
}

pub open spec fn spec_spectrum_mul(a: SampledSpectrum, b: SampledSpectrum) -> SampledSpectrum {
    SampledSpectrum {
        c0: spec_fp_mul(a.c0, b.c0),
        c1: spec_fp_mul(a.c1, b.c1),
        c2: spec_fp_mul(a.c2, b.c2),
        c3: spec_fp_mul(a.c3, b.c3),
    }
}

pub open spec fn spec_spectrum_scale(a: SampledSpectrum, s: Fp) -> SampledSpectrum {
    SampledSpectrum {
        c0: spec_fp_mul(a.c0, s),
        c1: spec_fp_mul(a.c1, s),
        c2: spec_fp_mul(a.c2, s),
        c3: spec_fp_mul(a.c3, s),
    }
}

pub open spec fn spec_spectrum_div(a: SampledSpectrum, d: Fp) -> SampledSpectrum {
    SampledSpectrum {
        c0: spec_fp_div(a.c0, d),
        c1: spec_fp_div(a.c1, d),
        c2: spec_fp_div(a.c2, d),
        c3: spec_fp_div(a.c3, d),
    }
}

/// Whether any spectral component is non-zero.
pub open spec fn spec_spectrum_nonzero(a: SampledSpectrum) -> bool {
    a.c0.bits != 0 || a.c1.bits != 0 || a.c2.bits != 0 || a.c3.bits != 0
}

pub open spec fn spec_fp_max_zero(a: Fp) -> Fp {
    if a.bits < 0 {
        Fp { bits: 0 }
    } else {
        a
    }
}

/// The spectrum with every invalid (negative) component zeroed.
pub open spec fn spec_spectrum_clamp_nonnegative(a: SampledSpectrum) -> SampledSpectrum {
    SampledSpectrum {
        c0: spec_fp_max_zero(a.c0),
        c1: spec_fp_max_zero(a.c1),
        c2: spec_fp_max_zero(a.c2),
        c3: spec_fp_max_zero(a.c3),
    }
}

impl SampledSpectrum {
    /// A spectrum holding the same value at every sampled wavelength.
    pub fn new(value: Fp) -> (r: SampledSpectrum)
        ensures
            r == spec_constant_spectrum(value),
    {
        SampledSpectrum { c0: value, c1: value, c2: value, c3: value }
    }

    pub fn zero() -> (r: SampledSpectrum)
        ensures
            r == spec_zero_spectrum(),
    {
        SampledSpectrum::new(Fp { bits: 0 })
    }

    /// Componentwise saturating sum.
    pub fn plus(&self, o: &SampledSpectrum) -> (r: SampledSpectrum)
        ensures
            r == spec_spectrum_add(*self, *o),
    {
        SampledSpectrum {
            c0: self.c0.sat_add(o.c0),
            c1: self.c1.sat_add(o.c1),
            c2: self.c2.sat_add(o.c2),
            c3: self.c3.sat_add(o.c3),
        }
    }

    /// Componentwise saturating product.
    pub fn times(&self, o: &SampledSpectrum) -> (r: SampledSpectrum)
        ensures
            r == spec_spectrum_mul(*self, *o),
    {
        SampledSpectrum {
            c0: self.c0.sat_mul(o.c0),
            c1: self.c1.sat_mul(o.c1),
            c2: self.c2.sat_mul(o.c2),
            c3: self.c3.sat_mul(o.c3),
        }
    }

    /// Every component scaled by the same scalar.
    pub fn scale(&self, s: Fp) -> (r: SampledSpectrum)
        ensures
            r == spec_spectrum_scale(*self, s),
    {
        SampledSpectrum {
            c0: self.c0.sat_mul(s),
            c1: self.c1.sat_mul(s),
            c2: self.c2.sat_mul(s),
            c3: self.c3.sat_mul(s),
        }
    }

    /// Every component divided by the same strictly positive scalar.
    pub fn div_by(&self, d: Fp) -> (r: SampledSpectrum)
        requires
            d.bits > 0,
        ensures
            r == spec_spectrum_div(*self, d),
    {
        SampledSpectrum {
            c0: self.c0.sat_div(d),
            c1: self.c1.sat_div(d),
            c2: self.c2.sat_div(d),
            c3: self.c3.sat_div(d),
        }
    }

    /// The spectrum with every invalid (negative) component zeroed.
    /// Radiance is physically non-negative; a negative component is an
    /// invalid numeric result and must not be accumulated as-is.
    pub fn clamped_nonnegative(&self) -> (r: SampledSpectrum)
        ensures
            r == spec_spectrum_clamp_nonnegative(*self),
    {
        SampledSpectrum {
            c0: if self.c0.bits < 0 {
                Fp { bits: 0 }
            } else {
                self.c0
            },
            c1: if self.c1.bits < 0 {
                Fp { bits: 0 }
            } else {
                self.c1
            },
            c2: if self.c2.bits < 0 {
                Fp { bits: 0 }
            } else {
                self.c2
            },
            c3: if self.c3.bits < 0 {
                Fp { bits: 0 }
            } else {
                self.c3
            },
        }
    }

    /// True when some sampled wavelength carries a non-zero value.
    pub fn nonzero(&self) -> (r: bool)
        ensures
            r == spec_spectrum_nonzero(*self),
    {
        self.c0.bits != 0 || self.c1.bits != 0 || self.c2.bits != 0 || self.c3.bits != 0
    }
}

} // verus!
