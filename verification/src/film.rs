//! The film: wavelength sampling and weighted sample accumulation.
use vstd::prelude::*;

use crate::bounds::Bounds2i;
use crate::fp::{spec_fp_add, Fp, FP_ONE};
use crate::math::points::Point2i;
use crate::spectrum::{
    spec_spectrum_add, spec_spectrum_scale, SampledSpectrum, SampledWavelengths,
};

verus! {

/// Shortest sampled wavelength, in nanometres.
pub const LAMBDA_MIN: i64 = 360;

/// Width of the sampled wavelength range, in nanometres.
pub const LAMBDA_RANGE: i64 = 470;

/// The film's reconstruction filter.  The filter is a box: every sample
/// inside the radius carries the same weight.
#[derive(Clone, Copy, PartialEq, Eq, Structural, Debug)]
pub struct Filter {
    pub radius: Fp,
}

/// First-hit summary recorded beside the radiance when the film keeps
/// auxiliary buffers.  One sample's lifetime only.
#[derive(Clone, Copy, PartialEq, Eq, Structural, Debug)]
pub struct VisibleSurface {
    /// Whether a hit was recorded for this sample.
    pub set: bool,
}

impl Default for VisibleSurface {
    fn default() -> (r: VisibleSurface)
        ensures
            r == (VisibleSurface { set: false }),
    {
        VisibleSurface { set: false }
    }
}

/// One pixel's accumulator: the weighted spectral sum, the weight total,
/// a diagnostic tally of samples whose radiance had to be clamped as
/// invalid, and — when the film records auxiliary buffers — the latest
/// auxiliary surface a sample handed over.
#[derive(Clone, Copy, PartialEq, Eq, Structural, Debug)]
pub struct FilmPixel {
    pub sum: SampledSpectrum,
    pub weight_sum: Fp,
    pub invalid_samples: i64,
    pub surface: VisibleSurface,
}

pub open spec fn spec_empty_pixel() -> FilmPixel {
    FilmPixel {
        sum: crate::spectrum::spec_zero_spectrum(),
        weight_sum: Fp { bits: 0 },
        invalid_samples: 0,
        surface: VisibleSurface { set: false },
    }
}

/// A pixel accumulator after one more invalid sample was reported against
/// it.  The tally saturates instead of overflowing.
pub open spec fn spec_pixel_mark_invalid(c: FilmPixel) -> FilmPixel {
    FilmPixel {
        invalid_samples: if c.invalid_samples == i64::MAX {
            i64::MAX
        } else {
            (c.invalid_samples + 1) as i64
        },
        ..c
    }
}

/// A pixel accumulator after one more weighted sample.  The auxiliary
/// surface is recorded only when the film keeps auxiliary buffers.
pub open spec fn spec_pixel_add(
    c: FilmPixel,
    l: SampledSpectrum,
    weight: Fp,
    uses_vis: bool,
    vs: VisibleSurface,
) -> FilmPixel {
    FilmPixel {
        sum: spec_spectrum_add(c.sum, spec_spectrum_scale(l, weight)),
        weight_sum: spec_fp_add(c.weight_sum, weight),
        invalid_samples: c.invalid_samples,
        surface: if uses_vis {
            vs
        } else {
            c.surface
        },
    }
}

/// Position of a pixel's accumulator in the film's storage.
pub open spec fn spec_pixel_index(b: Bounds2i, px: int, py: int) -> int {
    px * b.ny + py
}

/// Wavelength `j` of the stratified sample drawn from `u`: the unit
/// interval is rotated by `j / 4` and stretched over the sampled range.
pub open spec fn spec_wavelength(u: Fp, j: int) -> Fp {
    let t = if u.bits + j * 16384 >= FP_ONE {
        u.bits + j * 16384 - FP_ONE
    } else {
        u.bits + j * 16384
    };
    Fp { bits: (LAMBDA_MIN * FP_ONE + t * LAMBDA_RANGE) as i64 }
}

pub open spec fn spec_sample_wavelengths(u: Fp) -> SampledWavelengths {
    SampledWavelengths {
        l0: spec_wavelength(u, 0),
        l1: spec_wavelength(u, 1),
        l2: spec_wavelength(u, 2),
        l3: spec_wavelength(u, 3),
    }
}

/// The film: a pixel region, a reconstruction filter, and one accumulator
/// per pixel.
#[derive(PartialEq, Debug)]
pub struct Film {
    pub bounds: Bounds2i,
    pub filter: Filter,
    pub uses_vis: bool,
    pub pixels: Vec<FilmPixel>,
}

impl Film {
    /// A usable film: a well-formed region with one accumulator per pixel.
    pub open spec fn wf(self) -> bool {
        self.bounds.wf() && self.pixels@.len() == self.bounds.nx * self.bounds.ny
    }

    pub fn new(bounds: Bounds2i, filter: Filter, uses_vis: bool) -> (r: Film)
        requires
            bounds.wf(),
        ensures
            r.wf(),
            r.bounds == bounds,
            r.filter == filter,
            r.uses_vis == uses_vis,
            forall|k: int|
                0 <= k < r.pixels@.len() ==> r.pixels@[k] == spec_empty_pixel(),
    {
        proof {
            assert(0 <= bounds.nx as int * bounds.ny as int <= 16384 * 16384) by (nonlinear_arith)
                requires
                    0 <= bounds.nx as int <= 16384,
                    0 <= bounds.ny as int <= 16384,
            ;
        }
        let n: usize = (bounds.nx as usize) * (bounds.ny as usize);
        let pixels: Vec<FilmPixel> = vec![FilmPixel {
            sum: SampledSpectrum::zero(),
            weight_sum: Fp { bits: 0 },
            invalid_samples: 0,
            surface: VisibleSurface { set: false },
        }; n];
        Film { bounds, filter, uses_vis, pixels }
    }

    /// The pixel region the film covers.
    pub fn pixel_bounds(&self) -> (r: Bounds2i)
        ensures
            r == self.bounds,
    {
        self.bounds
    }

    /// The active reconstruction filter.
    pub fn filter(&self) -> (r: Filter)
        ensures
            r == self.filter,
    {
        self.filter
    }

    /// Whether auxiliary first-hit buffers are recorded.
    pub fn uses_visible_surface(&self) -> (r: bool)
        ensures
            r == self.uses_vis,
    {
        self.uses_vis
    }

    /// Pick the four wavelengths for one camera sample from a scalar in
    /// `[0, 1)`: four stratified points over the visible range.
    pub fn sample_wavelengths(&self, sample: Fp) -> (r: SampledWavelengths)
        requires
            0 <= sample.bits < FP_ONE,
        ensures
            r == spec_sample_wavelengths(sample),
    {
        SampledWavelengths {
            l0: wavelength_of(sample, 0),
            l1: wavelength_of(sample, 1),
            l2: wavelength_of(sample, 2),
            l3: wavelength_of(sample, 3),
        }
    }

    /// Accumulate one weighted sample into its pixel's accumulator.
    pub fn add_sample(
        &mut self,
        pixel: Point2i,
        l: SampledSpectrum,
        lambda: SampledWavelengths,
        visible_surface: &VisibleSurface,
        filter_weight: Fp,
    )
        requires
            old(self).wf(),
            0 <= pixel.x < old(self).bounds.nx,
            0 <= pixel.y < old(self).bounds.ny,
        ensures
            final(self).bounds == old(self).bounds,
            final(self).filter == old(self).filter,
            final(self).uses_vis == old(self).uses_vis,
            final(self).pixels@ == old(self).pixels@.update(
                spec_pixel_index(old(self).bounds, pixel.x as int, pixel.y as int),
                spec_pixel_add(
                    old(self).pixels@[spec_pixel_index(
                        old(self).bounds,
                        pixel.x as int,
                        pixel.y as int,
                    )],
                    l,
                    filter_weight,
                    old(self).uses_vis,
                    *visible_surface,
                ),
            ),
            final(self).wf(),
    {
        proof {
            lemma_pixel_index_in_range(self.bounds, pixel.x as int, pixel.y as int);
        }
        let idx: usize = (pixel.x as usize) * (self.bounds.ny as usize) + (pixel.y as usize);
        let updated = FilmPixel {
            sum: self.pixels[idx].sum.plus(&l.scale(filter_weight)),
            weight_sum: self.pixels[idx].weight_sum.sat_add(filter_weight),
            invalid_samples: self.pixels[idx].invalid_samples,
            surface: if self.uses_vis {
                *visible_surface
            } else {
                self.pixels[idx].surface
            },
        };
        self.pixels[idx] = updated;
    }

    /// Report one sample at `pixel` whose radiance was invalid and had to
    /// be clamped before accumulation: bump the pixel's diagnostic tally.
    pub fn record_invalid_sample(&mut self, pixel: Point2i)
        requires
            old(self).wf(),
            0 <= pixel.x < old(self).bounds.nx,
            0 <= pixel.y < old(self).bounds.ny,
        ensures
            final(self).bounds == old(self).bounds,
            final(self).filter == old(self).filter,
            final(self).uses_vis == old(self).uses_vis,
            final(self).pixels@ == old(self).pixels@.update(
                spec_pixel_index(old(self).bounds, pixel.x as int, pixel.y as int),
                spec_pixel_mark_invalid(
                    old(self).pixels@[spec_pixel_index(
                        old(self).bounds,
                        pixel.x as int,
                        pixel.y as int,
                    )],
                ),
            ),
            final(self).wf(),
    {
        proof {
            lemma_pixel_index_in_range(self.bounds, pixel.x as int, pixel.y as int);
        }
        let idx: usize = (pixel.x as usize) * (self.bounds.ny as usize) + (pixel.y as usize);
        let tally: i64 = self.pixels[idx].invalid_samples;
        let bumped: i64 = if tally == i64::MAX {
            i64::MAX
        } else {
            tally + 1
        };
        let updated = FilmPixel { invalid_samples: bumped, ..self.pixels[idx] };
        self.pixels[idx] = updated;
    }

    /// Sum of the per-pixel invalid-sample tallies: how many samples of the
    /// whole render had their radiance clamped.  The sum saturates at the
    /// representable range.
    pub fn invalid_sample_count(&self) -> (r: i64)
        ensures
            r == spec_invalid_total(self.pixels@),
    {
        let mut total: i64 = 0;
        let n = self.pixels.len();
        let mut k: usize = 0;
        while k < n
            invariant
                n == self.pixels@.len(),
                k <= n,
                total == spec_invalid_total(self.pixels@.take(k as int)),
            decreases n - k,
        {
            proof {
                assert(self.pixels@.take(k as int + 1).drop_last() =~= self.pixels@.take(
                    k as int,
                ));
            }
            total = sat_add_i64(total, self.pixels[k].invalid_samples);
            k += 1;
        }
        proof {
            assert(self.pixels@.take(n as int) =~= self.pixels@);
        }
        total
    }
}

/// A pixel accumulator after a sample, with its diagnostic tally bumped
/// when that sample's radiance had to be clamped.
pub open spec fn spec_pixel_record(c: FilmPixel, invalid: bool) -> FilmPixel {
    if invalid {
        spec_pixel_mark_invalid(c)
    } else {
        c
    }
}

/// The saturating sum of the per-pixel invalid-sample tallies, accumulated
/// left to right.
pub open spec fn spec_invalid_total(cells: Seq<FilmPixel>) -> int
    decreases cells.len(),
{
    if cells.len() == 0 {
        0
    } else {
        crate::fp::sat(spec_invalid_total(cells.drop_last()) + cells.last().invalid_samples)
    }
}

fn sat_add_i64(a: i64, b: i64) -> (r: i64)
    ensures
        r as int == crate::fp::sat(a + b),
{
    let wide: i128 = (a as i128) + (b as i128);
    if wide > i64::MAX as i128 {
        i64::MAX
    } else if wide < i64::MIN as i128 {
        i64::MIN
    } else {
        wide as i64
    }
}

/// The pixel storage index stays inside the film's accumulator vector.
pub proof fn lemma_pixel_index_in_range(b: Bounds2i, px: int, py: int)
    requires
        b.wf(),
        0 <= px < b.nx,
        0 <= py < b.ny,
    ensures
        0 <= spec_pixel_index(b, px, py) < b.nx * b.ny,
        0 <= px * b.ny,
        b.nx * b.ny <= 0x1000_0000,
{
    assert(0 <= px * b.ny + py < b.nx * b.ny) by (nonlinear_arith)
        requires
            0 <= px < b.nx,
            0 <= py < b.ny,
    ;
    assert(0 <= px * b.ny) by (nonlinear_arith)
        requires
            0 <= px && 0 <= b.ny,
    ;
    assert(b.nx * b.ny <= 0x1000_0000) by (nonlinear_arith)
        requires
            0 <= b.nx <= 16384,
            0 <= b.ny <= 16384,
    ;
}

fn wavelength_of(u: Fp, j: i64) -> (r: Fp)
    requires
        0 <= u.bits < FP_ONE,
        0 <= j <= 3,
    ensures
        r == spec_wavelength(u, j as int),
{
    let shifted: i64 = u.bits + j * 16384;
    let t: i64 = if shifted >= FP_ONE {
        shifted - FP_ONE
    } else {
        shifted
    };
    Fp { bits: LAMBDA_MIN * FP_ONE + t * LAMBDA_RANGE }
}

} // verus!
