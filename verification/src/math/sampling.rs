//! Sampling techniques over the fixed-point scalar: multiple-importance
//! weighting heuristics, discrete sampling from a weight list, and linear
//! and bilinear distributions.
use vstd::prelude::*;

use crate::fp::{
    spec_fp_add, spec_fp_div, spec_fp_mul, spec_fp_sqrt, spec_fp_sub, spec_from_whole, Fp, FP_ONE,
};
use crate::math::float::{FloatExt, FP_ONE_MINUS_EPSILON};
use crate::math::points::Point2f;

verus! {

/// The balance heuristic weight `nf * f / (nf * f + ng * g)` of the first
/// of two sampling distributions.  A zero denominator weighs as zero.
pub open spec fn spec_balance_heuristic(nf: u32, f_pdf: Fp, ng: u32, g_pdf: Fp) -> Fp {
    let f = spec_fp_mul(spec_from_whole(nf as int), f_pdf);
    let g = spec_fp_mul(spec_from_whole(ng as int), g_pdf);
    let den = spec_fp_add(f, g);
    if den.bits <= 0 {
        Fp { bits: 0 }
    } else {
        spec_fp_div(f, den)
    }
}

/// Weight the first of two sampling distributions by sample counts and
/// densities.
pub fn balance_heuristic(nf: u32, f_pdf: Fp, ng: u32, g_pdf: Fp) -> (r: Fp)
    ensures
        r == spec_balance_heuristic(nf, f_pdf, ng, g_pdf),
{
    let f = Fp::from_whole(nf as i64).sat_mul(f_pdf);
    let g = Fp::from_whole(ng as i64).sat_mul(g_pdf);
    let den = f.sat_add(g);
    if den.bits <= 0 {
        Fp { bits: 0 }
    } else {
        f.sat_div(den)
    }
}

/// The power heuristic with exponent two: `f^2 / (f^2 + g^2)` for the
/// effective sample weights.  A zero denominator weighs as zero.
pub open spec fn spec_power_heuristic(nf: u32, f_pdf: Fp, ng: u32, g_pdf: Fp) -> Fp {
    let f = spec_fp_mul(spec_from_whole(nf as int), f_pdf);
    let g = spec_fp_mul(spec_from_whole(ng as int), g_pdf);
    let f2 = spec_fp_mul(f, f);
    let g2 = spec_fp_mul(g, g);
    let den = spec_fp_add(f2, g2);
    if den.bits <= 0 {
        Fp { bits: 0 }
    } else {
        spec_fp_div(f2, den)
    }
}

/// Weight the first of two sampling distributions, emphasising the lower
/// variance one.
pub fn power_heuristic(nf: u32, f_pdf: Fp, ng: u32, g_pdf: Fp) -> (r: Fp)
    ensures
        r == spec_power_heuristic(nf, f_pdf, ng, g_pdf),
{
    let f = Fp::from_whole(nf as i64).sat_mul(f_pdf);
    let g = Fp::from_whole(ng as i64).sat_mul(g_pdf);
    let f2 = f.sat_mul(f);
    let g2 = g.sat_mul(g);
    let den = f2.sat_add(g2);
    if den.bits <= 0 {
        Fp { bits: 0 }
    } else {
        f2.sat_div(den)
    }
}

/// The outcome of sampling a discrete distribution: the chosen index, its
/// probability mass, and the random value remapped into `[0, 1)` so it can
/// serve as a fresh uniform sample.
#[derive(Clone, Copy, PartialEq, Eq, Structural, Debug)]
pub struct DiscreteSample {
    pub sample: i32,
    pub pmf: Fp,
    pub u_remapped: Fp,
}

/// The saturating left-to-right sum of a weight list.
pub open spec fn spec_weights_sum(ws: Seq<Fp>) -> Fp
    decreases ws.len(),
{
    if ws.len() == 0 {
        Fp { bits: 0 }
    } else {
        spec_fp_add(spec_weights_sum(ws.drop_last()), ws.last())
    }
}

/// The result reported when no weight takes the scan past `up`.
pub open spec fn spec_no_sample() -> DiscreteSample {
    DiscreteSample { sample: (-1i32), pmf: Fp { bits: 0 }, u_remapped: Fp { bits: 0 } }
}

/// The scan of the weight list from position `i` with partial sum `acc`:
/// the first index whose running sum passes `up` is chosen, and the random
/// value is remapped for reuse by rescaling `up`'s position within the
/// chosen weight — `(up - acc) / w`, clamped below one — so a chosen index
/// (where `acc <= up < acc + w`) hands back a value in `[0, 1)`.
pub open spec fn spec_weights_scan(ws: Seq<Fp>, sumw: Fp, up: Fp, i: int, acc: Fp) -> DiscreteSample
    decreases ws.len() - i,
    when 0 <= i <= ws.len()
{
    if i >= ws.len() {
        spec_no_sample()
    } else {
        let acc2 = spec_fp_add(acc, ws[i]);
        if acc2.bits > up.bits {
            DiscreteSample {
                sample: i as i32,
                pmf: spec_fp_div(ws[i], sumw),
                u_remapped: if spec_fp_div(spec_fp_sub(up, acc), ws[i]).bits
                    <= FP_ONE_MINUS_EPSILON {
                    spec_fp_div(spec_fp_sub(up, acc), ws[i])
                } else {
                    Fp { bits: FP_ONE_MINUS_EPSILON }
                },
            }
        } else {
            spec_weights_scan(ws, sumw, up, i + 1, acc2)
        }
    }
}

/// The discrete sample drawn from a weight list by the value `u`.  A list
/// whose weights sum to zero offers nothing to sample.
pub open spec fn spec_sample_from_weights(ws: Seq<Fp>, u: Fp) -> DiscreteSample {
    if ws.len() == 0 || spec_weights_sum(ws).bits <= 0 {
        spec_no_sample()
    } else {
        let sumw = spec_weights_sum(ws);
        let up0 = spec_fp_mul(u, sumw);
        let up = if up0 == sumw {
            up0.spec_next_float_down()
        } else {
            up0
        };
        spec_weights_scan(ws, sumw, up, 0, Fp { bits: 0 })
    }
}

impl DiscreteSample {
    /// Sample an index from a list of non-negative weights using the random
    /// value `u`.  An empty list, or a scan the weights cannot carry past
    /// the scaled value, reports no sample.
    #[verifier::loop_isolation(false)]
    pub fn sample_from_weights(weights: &[Fp], u: Fp) -> (r: DiscreteSample)
        requires
            forall|i: int| 0 <= i < weights@.len() ==> (#[trigger] weights@[i]).bits >= 0,
            0 <= u.bits < FP_ONE,
            weights@.len() <= 0x7fff_ffff,
        ensures
            r == spec_sample_from_weights(weights@, u),
    {
        let n = weights.len();
        if n == 0 {
            return DiscreteSample { sample: (-1i32), pmf: Fp { bits: 0 }, u_remapped: Fp { bits: 0 } };
        }

        let mut sum_weights = Fp { bits: 0 };
        let mut k: usize = 0;
        while k < n
            invariant
                n == weights@.len(),
                k <= n,
                sum_weights == spec_weights_sum(weights@.take(k as int)),
                sum_weights.bits >= 0,
                forall|q: int| 0 <= q < n ==> (#[trigger] weights@[q]).bits >= 0,
            decreases n - k,
        {
            proof {
                assert(weights@.take(k as int + 1).drop_last() =~= weights@.take(k as int));
            }
            sum_weights = sum_weights.sat_add(weights[k]);
            k += 1;
        }
        proof {
            assert(weights@.take(n as int) =~= weights@);
        }
        if sum_weights.bits <= 0 {
            return DiscreteSample { sample: (-1i32), pmf: Fp { bits: 0 }, u_remapped: Fp { bits: 0 } };
        }

        proof {
            lemma_fpmul_nonneg(u.bits as int, sum_weights.bits as int);
        }
        let up0 = u.sat_mul(sum_weights);

        // The scaled value can land exactly on the weight sum; bump it down
        // so the scan below can assume it lies strictly inside.
        let up = if up0.bits == sum_weights.bits {
            up0.next_float_down()
        } else {
            up0
        };

        let mut i: usize = 0;
        let mut sum = Fp { bits: 0 };
        while i < n
            invariant
                n == weights@.len(),
                i <= n,
                forall|q: int| 0 <= q < n ==> (#[trigger] weights@[q]).bits >= 0,
                0 <= sum.bits <= up.bits,
                spec_weights_scan(weights@, sum_weights, up, 0, Fp { bits: 0 })
                    == spec_weights_scan(weights@, sum_weights, up, i as int, sum),
            decreases n - i,
        {
            let weight = weights[i];
            let next_sum = sum.sat_add(weight);
            if next_sum.bits > up.bits {
                proof {
                    // The chosen weight carried the running sum past the
                    // scaled value, so division by it is meaningful.
                    assert(weight.bits > 0);
                }
                let raw = up.sat_sub(sum).sat_div(weight);
                let remapped = if raw.bits <= FP_ONE_MINUS_EPSILON {
                    raw
                } else {
                    Fp { bits: FP_ONE_MINUS_EPSILON }
                };
                return DiscreteSample {
                    sample: i as i32,
                    pmf: weight.sat_div(sum_weights),
                    u_remapped: remapped,
                };
            }
            sum = next_sum;
            i += 1;
        }

        // The weights could not carry the scan past the scaled value; report
        // that no index was chosen.
        DiscreteSample { sample: (-1i32), pmf: Fp { bits: 0 }, u_remapped: Fp { bits: 0 } }
    }
}

/// The density at `x` of the linear distribution interpolating `a` to `b`
/// over the unit interval.  A degenerate weight pair has zero density.
pub open spec fn spec_linear_pdf(x: Fp, a: Fp, b: Fp) -> Fp {
    if x.bits < 0 || x.bits > FP_ONE {
        Fp { bits: 0 }
    } else {
        let den = spec_fp_add(a, b);
        if den.bits <= 0 {
            Fp { bits: 0 }
        } else {
            spec_fp_div(spec_fp_mul(Fp { bits: 131072 }, x.spec_lerp(a, b)), den)
        }
    }
}

/// The probability density of a linear distribution at `x`.
pub fn linear_pdf(x: Fp, a: Fp, b: Fp) -> (r: Fp)
    requires
        a.bits >= 0,
        b.bits >= 0,
    ensures
        r == spec_linear_pdf(x, a, b),
{
    if x.bits < 0 || x.bits > FP_ONE {
        Fp { bits: 0 }
    } else {
        let den = a.sat_add(b);
        if den.bits <= 0 {
            Fp { bits: 0 }
        } else {
            Fp { bits: 131072 }.sat_mul(x.lerp(a, b)).sat_div(den)
        }
    }
}

/// The value of the linear distribution sampled by `u`.  A degenerate
/// denominator samples as zero.
pub open spec fn spec_sample_linear(u: Fp, a: Fp, b: Fp) -> Fp {
    if u.bits == 0 && a.bits == 0 {
        Fp { bits: 0 }
    } else {
        let den = spec_fp_add(a, spec_fp_sqrt(u.spec_lerp(spec_fp_mul(a, a), spec_fp_mul(b, b))));
        if den.bits <= 0 {
            Fp { bits: 0 }
        } else {
            let x = spec_fp_div(spec_fp_mul(u, spec_fp_add(a, b)), den);
            if x.bits <= FP_ONE_MINUS_EPSILON {
                x
            } else {
                Fp { bits: FP_ONE_MINUS_EPSILON }
            }
        }
    }
}

/// Sample a value from the linear distribution interpolating `a` to `b`.
pub fn sample_linear(u: Fp, a: Fp, b: Fp) -> (r: Fp)
    requires
        a.bits >= 0,
        b.bits >= 0,
    ensures
        r == spec_sample_linear(u, a, b),
{
    if u.bits == 0 && a.bits == 0 {
        Fp { bits: 0 }
    } else {
        let den = a.sat_add(u.lerp(a.sat_mul(a), b.sat_mul(b)).safe_sqrt());
        if den.bits <= 0 {
            Fp { bits: 0 }
        } else {
            let x = u.sat_mul(a.sat_add(b)).sat_div(den);
            if x.bits <= FP_ONE_MINUS_EPSILON {
                x
            } else {
                Fp { bits: FP_ONE_MINUS_EPSILON }
            }
        }
    }
}

/// The random value that samples the linear distribution at `x`.  A
/// degenerate weight pair inverts to zero.
pub open spec fn spec_invert_linear_sample(x: Fp, a: Fp, b: Fp) -> Fp {
    let den = spec_fp_add(a, b);
    if den.bits <= 0 {
        Fp { bits: 0 }
    } else {
        spec_fp_div(
            spec_fp_mul(
                x,
                spec_fp_add(
                    spec_fp_mul(a, spec_fp_sub(Fp { bits: 131072 }, x)),
                    spec_fp_mul(b, x),
                ),
            ),
            den,
        )
    }
}

/// Invert `sample_linear`: the random value that yields `x`.
pub fn invert_linear_sample(x: Fp, a: Fp, b: Fp) -> (r: Fp)
    requires
        a.bits >= 0,
        b.bits >= 0,
    ensures
        r == spec_invert_linear_sample(x, a, b),
{
    let den = a.sat_add(b);
    if den.bits <= 0 {
        Fp { bits: 0 }
    } else {
        x.sat_mul(a.sat_mul(Fp { bits: 131072 }.sat_sub(x)).sat_add(b.sat_mul(x))).sat_div(den)
    }
}

/// The density at `p` of the bilinear distribution with corner weights `w`.
pub open spec fn spec_bilinear_pdf(p: Point2f, w: Seq<Fp>) -> Fp {
    let sum = spec_fp_add(spec_fp_add(spec_fp_add(w[0], w[1]), w[2]), w[3]);
    if p.x.bits < 0 || p.x.bits > FP_ONE || p.y.bits < 0 || p.y.bits > FP_ONE {
        Fp { bits: 0 }
    } else if sum.bits == 0 {
        Fp { bits: FP_ONE }
    } else {
        let cx = spec_fp_sub(Fp { bits: FP_ONE }, p.x);
        let cy = spec_fp_sub(Fp { bits: FP_ONE }, p.y);
        let blend = spec_fp_add(
            spec_fp_add(
                spec_fp_mul(spec_fp_mul(cx, cy), w[0]),
                spec_fp_mul(spec_fp_mul(p.x, cy), w[1]),
            ),
            spec_fp_add(
                spec_fp_mul(spec_fp_mul(cx, p.y), w[2]),
                spec_fp_mul(spec_fp_mul(p.x, p.y), w[3]),
            ),
        );
        spec_fp_div(spec_fp_mul(Fp { bits: 262144 }, blend), sum)
    }
}

/// The probability density of the bilinear interpolation of four corner
/// weights at `p`.
pub fn bilinear_pdf(p: Point2f, w: &[Fp; 4]) -> (r: Fp)
    requires
        w[0].bits >= 0,
        w[1].bits >= 0,
        w[2].bits >= 0,
        w[3].bits >= 0,
    ensures
        r == spec_bilinear_pdf(p, w@),
{
    let sum = w[0].sat_add(w[1]).sat_add(w[2]).sat_add(w[3]);
    if p.x.bits < 0 || p.x.bits > FP_ONE || p.y.bits < 0 || p.y.bits > FP_ONE {
        Fp { bits: 0 }
    } else if sum.bits == 0 {
        Fp { bits: FP_ONE }
    } else {
        proof {
            // Non-negative weights cannot sum below zero, so a non-zero sum
            // is a positive divisor.
            assert(sum.bits > 0);
        }
        let cx = Fp { bits: FP_ONE }.sat_sub(p.x);
        let cy = Fp { bits: FP_ONE }.sat_sub(p.y);
        let blend = cx.sat_mul(cy).sat_mul(w[0]).sat_add(p.x.sat_mul(cy).sat_mul(w[1])).sat_add(
            cx.sat_mul(p.y).sat_mul(w[2]).sat_add(p.x.sat_mul(p.y).sat_mul(w[3])),
        );
        Fp { bits: 262144 }.sat_mul(blend).sat_div(sum)
    }
}

/// The point of the unit square the bilinear distribution maps `u` to.
pub open spec fn spec_sample_bilinear(u: Point2f, w: Seq<Fp>) -> Point2f {
    let y = spec_sample_linear(u.y, spec_fp_add(w[0], w[1]), spec_fp_add(w[2], w[3]));
    let x = spec_sample_linear(u.x, y.spec_lerp(w[0], w[2]), y.spec_lerp(w[1], w[3]));
    Point2f { x, y }
}

/// Sample the bilinear distribution of four corner weights.
pub fn sample_bilinear(u: Point2f, w: &[Fp; 4]) -> (r: Point2f)
    requires
        w[0].bits >= 0,
        w[1].bits >= 0,
        w[2].bits >= 0,
        w[3].bits >= 0,
        0 <= u.x.bits <= FP_ONE,
        0 <= u.y.bits <= FP_ONE,
    ensures
        r == spec_sample_bilinear(u, w@),
{
    // Sample the marginal in y, then the conditional in x.
    let y = sample_linear(u.y, w[0].sat_add(w[1]), w[2].sat_add(w[3]));
    proof {
        lemma_fp_lerp_nonneg(y, w[0], w[2]);
        lemma_fp_lerp_nonneg(y, w[1], w[3]);
    }
    let x = sample_linear(u.x, y.lerp(w[0], w[2]), y.lerp(w[1], w[3]));
    Point2f { x, y }
}

/// The random point that samples the bilinear distribution at `p`.
pub open spec fn spec_invert_bilinear_sample(p: Point2f, w: Seq<Fp>) -> Point2f {
    Point2f {
        x: spec_invert_linear_sample(p.x, p.y.spec_lerp(w[0], w[2]), p.y.spec_lerp(w[1], w[3])),
        y: spec_invert_linear_sample(p.y, spec_fp_add(w[0], w[1]), spec_fp_add(w[2], w[3])),
    }
}

/// Invert `sample_bilinear`: the random point that yields `p`.
pub fn invert_bilinear_sample(p: Point2f, w: &[Fp; 4]) -> (r: Point2f)
    requires
        w[0].bits >= 0,
        w[1].bits >= 0,
        w[2].bits >= 0,
        w[3].bits >= 0,
        0 <= p.y.bits <= FP_ONE,
    ensures
        r == spec_invert_bilinear_sample(p, w@),
{
    proof {
        lemma_fp_lerp_nonneg(p.y, w[0], w[2]);
        lemma_fp_lerp_nonneg(p.y, w[1], w[3]);
    }
    Point2f {
        x: invert_linear_sample(p.x, p.y.lerp(w[0], w[2]), p.y.lerp(w[1], w[3])),
        y: invert_linear_sample(p.y, w[0].sat_add(w[1]), w[2].sat_add(w[3])),
    }
}

/// Interpolating between non-negative values with a factor in `[0, 1]`
/// cannot go negative.
proof fn lemma_fp_lerp_nonneg(t: Fp, a: Fp, b: Fp)
    requires
        0 <= t.bits <= FP_ONE,
        a.bits >= 0,
        b.bits >= 0,
    ensures
        t.spec_lerp(a, b).bits >= 0,
{
    lemma_fpmul_nonneg(a.bits as int, FP_ONE - t.bits);
    lemma_fpmul_nonneg(b.bits as int, t.bits as int);
}

/// `fpmul` of non-negative factors is non-negative.
proof fn lemma_fpmul_nonneg(a: int, b: int)
    requires
        a >= 0,
        b >= 0,
    ensures
        crate::fp::fpmul(a, b) >= 0,
{
    assert(a * b >= 0) by (nonlinear_arith)
        requires
            a >= 0,
            b >= 0,
    ;
    vstd::arithmetic::div_mod::lemma_div_is_ordered(0, a * b, FP_ONE as int);
}

} // verus!
