//! Cost models: the declared cost of `n` repetitions of a primitive, and the
//! inversion that finds how many repetitions fit a budget.

use crate::weight::{sat_sub, ResourceVector};
use vstd::prelude::*;

verus! {

/// The affine cost of a primitive operation: `base + slope * n` for `n`
/// repetitions, in both dimensions.
#[derive(Clone, Copy, Debug, PartialEq, Eq, Structural)]
pub struct CostModel {
    /// What is paid once, however many repetitions follow.
    pub base: ResourceVector,
    /// What each repetition adds.
    pub slope: ResourceVector,
}

/// Why a phase reserves nothing and does no work.
#[derive(Clone, Copy, Debug, PartialEq, Eq, Structural)]
pub enum Skipped {
    /// The slope is zero in the primitive's own dimension, so no number of
    /// repetitions is singled out by the budget.
    ZeroSlope,
    /// The primitive is declared with a cost in the other dimension, where
    /// none is allowed.
    SecondaryCost,
    /// The budget that is left does not hold the cost of one repetition.
    Exhausted,
}

/// `base + slope * n` over the integers.
pub open spec fn affine(base: u64, slope: u64, n: int) -> int {
    base + slope * n
}

/// The largest `n` with `base + slope * n <= limit`, for a positive slope;
/// zero where not even `base` fits.
pub open spec fn fit_count(limit: u64, base: u64, slope: u64) -> u64 {
    sat_sub(limit, base) / slope
}

/// The smaller of two counts.
pub open spec fn min_count(a: u64, b: u64) -> u64 {
    if a <= b {
        a
    } else {
        b
    }
}

/// The count that [`fit_count`] gives is the largest that fits: its cost is
/// within the limit, and the cost of one repetition more is not.
pub proof fn lemma_fit_count_is_maximal(limit: u64, base: u64, slope: u64)
    requires
        slope > 0,
        base <= limit,
    ensures
        affine(base, slope, fit_count(limit, base, slope) as int) <= limit,
        affine(base, slope, fit_count(limit, base, slope) + 1) > limit,
{
    let room = (limit - base) as int;
    let d = slope as int;
    assert(d * (room / d) <= room && room < d * (room / d + 1)) by (nonlinear_arith)
        requires
            d > 0,
            room >= 0,
    ;
}

/// Where not even the base cost fits, [`fit_count`] is zero.
pub proof fn lemma_fit_count_zero_below_base(limit: u64, base: u64, slope: u64)
    requires
        slope > 0,
        limit < base,
    ensures
        fit_count(limit, base, slope) == 0,
{
    assert(0int / (slope as int) == 0) by (nonlinear_arith)
        requires
            slope > 0,
    ;
}

/// A larger limit never fits fewer repetitions.
pub proof fn lemma_fit_count_monotone(small: u64, large: u64, base: u64, slope: u64)
    requires
        slope > 0,
        small <= large,
    ensures
        fit_count(small, base, slope) <= fit_count(large, base, slope),
{
    let a = sat_sub(small, base) as int;
    let b = sat_sub(large, base) as int;
    let d = slope as int;
    assert(a / d <= b / d) by (nonlinear_arith)
        requires
            d > 0,
            0 <= a <= b,
    ;
}

/// Any count whose cost is within the limit is at most [`fit_count`].
pub proof fn lemma_fit_count_bounds_fitting(limit: u64, base: u64, slope: u64, n: int)
    requires
        slope > 0,
        n >= 0,
        affine(base, slope, n) <= limit,
    ensures
        n <= fit_count(limit, base, slope),
{
    let d = slope as int;
    let room = (limit - base) as int;
    assert(d * n >= 0) by (nonlinear_arith)
        requires
            d > 0,
            n >= 0,
    ;
    assert(n <= room / d) by (nonlinear_arith)
        requires
            d > 0,
            n >= 0,
            d * n <= room,
    ;
}

impl CostModel {
    /// The declared cost of `n` repetitions, clamped to what `u64` holds.
    pub open spec fn spec_cost(self, n: u64) -> ResourceVector {
        self.base.saturating_add(self.slope.saturating_mul(n))
    }

    /// Whether `n` repetitions cost at most `limit` in both dimensions,
    /// reckoned over the integers.
    pub open spec fn fits(self, n: int, limit: ResourceVector) -> bool {
        &&& affine(self.base.compute, self.slope.compute, n) <= limit.compute
        &&& affine(self.base.witness, self.slope.witness, n) <= limit.witness
    }

    /// The declared cost of `n` repetitions: `base + slope * n`, saturating.
    #[verifier::when_used_as_spec(spec_cost)]
    pub fn cost(self, n: u64) -> (c: ResourceVector)
        ensures
            c == self.spec_cost(n),
    {
        self.base.saturating_add(self.slope.saturating_mul(n))
    }

    /// How many repetitions of the compute primitive fit `remaining`.
    ///
    /// The primitive must be free in the witness dimension, base and slope,
    /// and its compute slope must not be zero. The count is then the largest
    /// whose compute cost is within `remaining.compute`; a count of zero is
    /// reported as an exhausted budget.
    pub open spec fn spec_ref_time_iters(self, remaining: ResourceVector) -> Result<u64, Skipped> {
        if self.base.witness != 0 || self.slope.witness != 0 {
            Err(Skipped::SecondaryCost)
        } else if self.slope.compute == 0 {
            Err(Skipped::ZeroSlope)
        } else if fit_count(remaining.compute, self.base.compute, self.slope.compute) == 0 {
            Err(Skipped::Exhausted)
        } else {
            Ok(fit_count(remaining.compute, self.base.compute, self.slope.compute))
        }
    }

    /// How many repetitions of the witness primitive fit `remaining`.
    ///
    /// The witness slope must not be zero. The count is the largest whose
    /// cost is within `remaining` in both dimensions: the smaller of the
    /// counts that each dimension allows, where a dimension with a zero slope
    /// allows any count as long as the base cost fits it. A count of zero, or
    /// a base cost that does not fit, is reported as an exhausted budget.
    pub open spec fn spec_proof_size_iters(self, remaining: ResourceVector) -> Result<
        u64,
        Skipped,
    > {
        if self.slope.witness == 0 {
            Err(Skipped::ZeroSlope)
        } else if !self.base.all_lte(remaining) {
            Err(Skipped::Exhausted)
        } else if self.spec_proof_size_fit(remaining) == 0 {
            Err(Skipped::Exhausted)
        } else {
            Ok(self.spec_proof_size_fit(remaining))
        }
    }

    /// The smaller of the per-dimension counts for the witness primitive,
    /// the compute dimension counting only where its slope is not zero.
    pub open spec fn spec_proof_size_fit(self, remaining: ResourceVector) -> u64 {
        let witness_fit = fit_count(remaining.witness, self.base.witness, self.slope.witness);
        if self.slope.compute == 0 {
            witness_fit
        } else {
            min_count(
                witness_fit,
                fit_count(remaining.compute, self.base.compute, self.slope.compute),
            )
        }
    }

    /// What the compute phase reserves against `remaining`: the cost of the
    /// solved count, or nothing where the phase is skipped.
    pub open spec fn spec_ref_time_phase_cost(self, remaining: ResourceVector) -> ResourceVector {
        match self.spec_ref_time_iters(remaining) {
            Ok(n) => self.spec_cost(n),
            Err(_) => ResourceVector::spec_zero(),
        }
    }

    /// What the witness phase reserves against `remaining`: the cost of the
    /// solved count, or nothing where the phase is skipped.
    pub open spec fn spec_proof_size_phase_cost(self, remaining: ResourceVector) -> ResourceVector {
        match self.spec_proof_size_iters(remaining) {
            Ok(n) => self.spec_cost(n),
            Err(_) => ResourceVector::spec_zero(),
        }
    }

    /// Solves the compute primitive's repetition count for `remaining`.
    pub fn ref_time_iters(self, remaining: ResourceVector) -> (r: Result<u64, Skipped>)
        ensures
            r == self.spec_ref_time_iters(remaining),
    {
        if self.base.witness != 0 || self.slope.witness != 0 {
            return Err(Skipped::SecondaryCost);
        }
        if self.slope.compute == 0 {
            return Err(Skipped::ZeroSlope);
        }
        let n: u64 = remaining.compute.saturating_sub(self.base.compute) / self.slope.compute;
        if n == 0 {
            Err(Skipped::Exhausted)
        } else {
            Ok(n)
        }
    }

    /// Solves the witness primitive's repetition count for `remaining`.
    pub fn proof_size_iters(self, remaining: ResourceVector) -> (r: Result<u64, Skipped>)
        ensures
            r == self.spec_proof_size_iters(remaining),
    {
        if self.slope.witness == 0 {
            return Err(Skipped::ZeroSlope);
        }
        if !self.base.all_lte(remaining) {
            return Err(Skipped::Exhausted);
        }
        let witness_fit: u64 = remaining.witness.saturating_sub(self.base.witness)
            / self.slope.witness;
        let n: u64 = if self.slope.compute == 0 {
            witness_fit
        } else {
            let compute_fit: u64 = remaining.compute.saturating_sub(self.base.compute)
                / self.slope.compute;
            if witness_fit <= compute_fit {
                witness_fit
            } else {
                compute_fit
            }
        };
        if n == 0 {
            Err(Skipped::Exhausted)
        } else {
            Ok(n)
        }
    }
}

/// Where the compute phase finds a count, its cost is `base + slope * n`
/// without clamping, is free in the witness dimension, and is within
/// `remaining`; the cost of one repetition more is not.
pub proof fn lemma_ref_time_iters_fit(model: CostModel, remaining: ResourceVector)
    requires
        model.spec_ref_time_iters(remaining) is Ok,
    ensures
        ({
            let n = model.spec_ref_time_iters(remaining)->Ok_0;
            &&& n > 0
            &&& model.spec_cost(n).compute == affine(
                model.base.compute,
                model.slope.compute,
                n as int,
            )
            &&& model.spec_cost(n).witness == 0
            &&& model.spec_cost(n).all_lte(remaining)
            &&& affine(model.base.compute, model.slope.compute, n + 1) > remaining.compute
        }),
{
    let n = model.spec_ref_time_iters(remaining)->Ok_0;
    if remaining.compute < model.base.compute {
        lemma_fit_count_zero_below_base(remaining.compute, model.base.compute, model.slope.compute);
    }
    lemma_fit_count_is_maximal(remaining.compute, model.base.compute, model.slope.compute);
    assert(0 * (n as int) == 0) by (nonlinear_arith);
}

/// Where the witness phase finds a count, its cost is `base + slope * n`
/// without clamping and is within `remaining` in both dimensions; the cost
/// of one repetition more is not.
pub proof fn lemma_proof_size_iters_fit(model: CostModel, remaining: ResourceVector)
    requires
        model.spec_proof_size_iters(remaining) is Ok,
    ensures
        ({
            let n = model.spec_proof_size_iters(remaining)->Ok_0;
            &&& n > 0
            &&& model.spec_cost(n).compute == affine(
                model.base.compute,
                model.slope.compute,
                n as int,
            )
            &&& model.spec_cost(n).witness == affine(
                model.base.witness,
                model.slope.witness,
                n as int,
            )
            &&& model.fits(n as int, remaining)
            &&& model.spec_cost(n).all_lte(remaining)
            &&& !model.fits(n + 1, remaining)
        }),
{
    let n = model.spec_proof_size_iters(remaining)->Ok_0;
    let witness_fit = fit_count(remaining.witness, model.base.witness, model.slope.witness);
    lemma_fit_count_is_maximal(remaining.witness, model.base.witness, model.slope.witness);
    lemma_affine_monotone(model.base.witness, model.slope.witness, n as int, witness_fit as int);
    if model.slope.compute == 0 {
        assert(0 * (n as int) == 0) by (nonlinear_arith);
        assert(0 * (n + 1) == 0) by (nonlinear_arith);
    } else {
        let compute_fit = fit_count(remaining.compute, model.base.compute, model.slope.compute);
        lemma_fit_count_is_maximal(remaining.compute, model.base.compute, model.slope.compute);
        lemma_affine_monotone(model.base.compute, model.slope.compute, n as int, compute_fit as int);
    }
}

/// The affine cost does not fall as the count grows.
pub proof fn lemma_affine_monotone(base: u64, slope: u64, m: int, n: int)
    requires
        m <= n,
    ensures
        affine(base, slope, m) <= affine(base, slope, n),
{
    let d = slope as int;
    assert(d * m <= d * n) by (nonlinear_arith)
        requires
            d >= 0,
            m <= n,
    ;
}

} // verus!
