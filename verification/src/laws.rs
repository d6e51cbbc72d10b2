//! What holds of the governor for every budget, cost table and configuration.

use crate::cost::{
    fit_count, lemma_affine_monotone, lemma_fit_count_is_maximal,
    lemma_fit_count_monotone, lemma_fit_count_zero_below_base, lemma_proof_size_iters_fit,
    lemma_ref_time_iters_fit, CostModel, Skipped,
};
use crate::fraction::{lemma_mul_floor_bounds, lemma_mul_floor_monotone_in_fraction, Fraction};
use crate::pallet::{consumption, sub_budget, wasted, Pallet};
use crate::weight::ResourceVector;
use vstd::prelude::*;

verus! {

/// A primitive whose slope is zero in its own dimension is never repeated:
/// its phase finds no count and reserves nothing, whatever the budget.
pub proof fn lemma_zero_slope_skips(model: CostModel, remaining: ResourceVector)
    ensures
        model.slope.compute == 0 ==> model.spec_ref_time_iters(remaining) is Err
            && model.spec_ref_time_phase_cost(remaining) == ResourceVector::spec_zero(),
        model.slope.witness == 0 ==> model.spec_proof_size_iters(remaining) == Err::<
            u64,
            Skipped,
        >(Skipped::ZeroSlope) && model.spec_proof_size_phase_cost(remaining)
            == ResourceVector::spec_zero(),
{
}

/// A compute primitive that is declared with any witness cost is never
/// repeated: its phase is skipped and reserves nothing.
pub proof fn lemma_secondary_cost_skips(model: CostModel, remaining: ResourceVector)
    requires
        model.base.witness != 0 || model.slope.witness != 0,
    ensures
        model.spec_ref_time_iters(remaining) == Err::<u64, Skipped>(Skipped::SecondaryCost),
        model.spec_ref_time_phase_cost(remaining) == ResourceVector::spec_zero(),
{
}

/// What the witness phase reserves is within the limit it is given.
pub proof fn lemma_proof_size_phase_within(model: CostModel, limit: ResourceVector)
    ensures
        model.spec_proof_size_phase_cost(limit).all_lte(limit),
{
    if model.spec_proof_size_iters(limit) is Ok {
        lemma_proof_size_iters_fit(model, limit);
    }
}

/// What the compute phase reserves is within the limit it is given, and is
/// nothing in the witness dimension.
pub proof fn lemma_ref_time_phase_within(model: CostModel, limit: ResourceVector)
    ensures
        model.spec_ref_time_phase_cost(limit).all_lte(limit),
        model.spec_ref_time_phase_cost(limit).witness == 0,
{
    if model.spec_ref_time_iters(limit) is Ok {
        lemma_ref_time_iters_fit(model, limit);
    }
}

/// What both phases reserve together is within the limit they share, and is
/// the plain sum of what each reserves.
pub proof fn lemma_wasted_within(
    witness_model: CostModel,
    compute_model: CostModel,
    limit: ResourceVector,
)
    ensures
        wasted(witness_model, compute_model, limit).all_lte(limit),
        ({
            let first = witness_model.spec_proof_size_phase_cost(limit);
            let second = compute_model.spec_ref_time_phase_cost(limit.saturating_sub(first));
            &&& wasted(witness_model, compute_model, limit).compute == first.compute
                + second.compute
            &&& wasted(witness_model, compute_model, limit).witness == first.witness
        }),
{
    let first = witness_model.spec_proof_size_phase_cost(limit);
    lemma_proof_size_phase_within(witness_model, limit);
    lemma_ref_time_phase_within(compute_model, limit.saturating_sub(first));
}

/// The total that an invocation reports never exceeds the granted budget in
/// either dimension, as long as the fixed overhead fits the budget.
pub proof fn lemma_consumption_within_budget(
    overhead: ResourceVector,
    witness_model: CostModel,
    compute_model: CostModel,
    compute: Fraction,
    storage: Fraction,
    budget: ResourceVector,
)
    requires
        compute.wf(),
        storage.wf(),
        overhead.all_lte(budget),
    ensures
        consumption(overhead, witness_model, compute_model, compute, storage, budget).all_lte(
            budget,
        ),
{
    let rest = budget.saturating_sub(overhead);
    lemma_mul_floor_bounds(compute, rest.compute);
    lemma_mul_floor_bounds(storage, rest.witness);
    lemma_wasted_within(witness_model, compute_model, sub_budget(compute, storage, rest));
}

/// The total that an invocation reports is decided by the cost table, the two
/// fractions, whether the trash table is empty, and the granted budget: two
/// governors that agree in these report the same total.
pub proof fn lemma_on_idle_is_determined(a: Pallet, b: Pallet, budget: ResourceVector)
    requires
        a.spec_weights() == b.spec_weights(),
        a.spec_compute() == b.spec_compute(),
        a.spec_storage() == b.spec_storage(),
        (a.spec_trash_data().spec_len() == 0) == (b.spec_trash_data().spec_len() == 0),
    ensures
        a.spec_on_idle(budget) == b.spec_on_idle(budget),
{
}

/// With both fractions zero an invocation reports the fixed overhead and
/// nothing else.
pub proof fn lemma_zero_fractions_waste_nothing(
    overhead: ResourceVector,
    witness_model: CostModel,
    compute_model: CostModel,
    compute: Fraction,
    storage: Fraction,
    budget: ResourceVector,
)
    requires
        compute.parts() == 0,
        storage.parts() == 0,
    ensures
        consumption(overhead, witness_model, compute_model, compute, storage, budget) == overhead,
{
    if overhead.all_lte(budget) {
        let rest = budget.saturating_sub(overhead);
        lemma_mul_floor_bounds(compute, rest.compute);
        lemma_mul_floor_bounds(storage, rest.witness);
        assert(rest.compute as int * 0 == 0) by (nonlinear_arith);
        assert(rest.witness as int * 0 == 0) by (nonlinear_arith);
        let limit = sub_budget(compute, storage, rest);
        assert(limit == ResourceVector::spec_zero());
        lemma_nothing_fits_zero(witness_model, compute_model);
    }
}

/// Of a limit that is zero in both dimensions the phases reserve nothing.
pub proof fn lemma_nothing_fits_zero(witness_model: CostModel, compute_model: CostModel)
    ensures
        wasted(witness_model, compute_model, ResourceVector::spec_zero())
            == ResourceVector::spec_zero(),
{
    let zero = ResourceVector::spec_zero();
    lemma_wasted_within(witness_model, compute_model, zero);
}

/// A budget below the base cost of both primitives, each in its own
/// dimension, leaves both phases without work: the total is the fixed
/// overhead.
pub proof fn lemma_budget_below_base_costs(
    overhead: ResourceVector,
    witness_model: CostModel,
    compute_model: CostModel,
    compute: Fraction,
    storage: Fraction,
    budget: ResourceVector,
)
    requires
        compute.wf(),
        storage.wf(),
        budget.witness < witness_model.base.witness,
        budget.compute < compute_model.base.compute,
    ensures
        consumption(overhead, witness_model, compute_model, compute, storage, budget) == overhead,
{
    if overhead.all_lte(budget) {
        let rest = budget.saturating_sub(overhead);
        lemma_mul_floor_bounds(compute, rest.compute);
        lemma_mul_floor_bounds(storage, rest.witness);
        let limit = sub_budget(compute, storage, rest);
        assert(witness_model.spec_proof_size_iters(limit) is Err);
        let first = witness_model.spec_proof_size_phase_cost(limit);
        let left = limit.saturating_sub(first);
        if compute_model.slope.compute != 0 {
            lemma_fit_count_zero_below_base(
                left.compute,
                compute_model.base.compute,
                compute_model.slope.compute,
            );
        }
        assert(compute_model.spec_ref_time_iters(left) is Err);
    }
}

/// A larger limit in both dimensions never makes the witness phase reserve
/// less.
pub proof fn lemma_proof_size_phase_monotone(
    model: CostModel,
    small: ResourceVector,
    large: ResourceVector,
)
    requires
        small.all_lte(large),
    ensures
        model.spec_proof_size_phase_cost(small).all_lte(model.spec_proof_size_phase_cost(large)),
        model.spec_proof_size_iters(small) is Ok ==> model.spec_proof_size_iters(large) is Ok
            && model.spec_proof_size_iters(small)->Ok_0 <= model.spec_proof_size_iters(
            large,
        )->Ok_0,
{
    if model.spec_proof_size_iters(small) is Ok {
        let n = model.spec_proof_size_iters(small)->Ok_0;
        lemma_fit_count_monotone(
            small.witness,
            large.witness,
            model.base.witness,
            model.slope.witness,
        );
        if model.slope.compute != 0 {
            lemma_fit_count_monotone(
                small.compute,
                large.compute,
                model.base.compute,
                model.slope.compute,
            );
        }
        let m = model.spec_proof_size_iters(large)->Ok_0;
        lemma_proof_size_iters_fit(model, small);
        lemma_proof_size_iters_fit(model, large);
        lemma_affine_monotone(model.base.compute, model.slope.compute, n as int, m as int);
        lemma_affine_monotone(model.base.witness, model.slope.witness, n as int, m as int);
    }
}

/// A larger compute limit never makes the compute phase reserve less.
pub proof fn lemma_ref_time_phase_monotone(
    model: CostModel,
    small: ResourceVector,
    large: ResourceVector,
)
    requires
        small.compute <= large.compute,
    ensures
        model.spec_ref_time_phase_cost(small).compute <= model.spec_ref_time_phase_cost(
            large,
        ).compute,
        model.spec_ref_time_phase_cost(small).witness == 0,
        model.spec_ref_time_phase_cost(large).witness == 0,
{
    lemma_ref_time_phase_within(model, small);
    lemma_ref_time_phase_within(model, large);
    if model.spec_ref_time_iters(small) is Ok {
        let n = model.spec_ref_time_iters(small)->Ok_0;
        lemma_fit_count_monotone(
            small.compute,
            large.compute,
            model.base.compute,
            model.slope.compute,
        );
        let m = model.spec_ref_time_iters(large)->Ok_0;
        lemma_ref_time_iters_fit(model, small);
        lemma_ref_time_iters_fit(model, large);
        lemma_affine_monotone(model.base.compute, model.slope.compute, n as int, m as int);
    }
}

/// Where a larger compute limit, with the witness limit unchanged, makes the
/// witness phase reserve something else, what it then reserves in compute
/// time is more than the whole of the smaller limit.
proof fn lemma_compute_limit_step(model: CostModel, small: ResourceVector, large: ResourceVector)
    requires
        small.witness == large.witness,
        small.compute <= large.compute,
        model.spec_proof_size_phase_cost(small) != model.spec_proof_size_phase_cost(large),
    ensures
        small.compute < model.spec_proof_size_phase_cost(large).compute,
{
    lemma_proof_size_phase_monotone(model, small, large);
    if model.spec_proof_size_iters(small) is Ok {
        let n = model.spec_proof_size_iters(small)->Ok_0;
        let m = model.spec_proof_size_iters(large)->Ok_0;
        lemma_proof_size_iters_fit(model, small);
        lemma_proof_size_iters_fit(model, large);
        assert(n < m);
        assert(model.slope.compute != 0);
        assert(n == fit_count(small.compute, model.base.compute, model.slope.compute));
        lemma_fit_count_is_maximal(small.compute, model.base.compute, model.slope.compute);
        lemma_affine_monotone(model.base.compute, model.slope.compute, n + 1, m as int);
    } else {
        assert(model.spec_proof_size_iters(large) is Ok);
        let m = model.spec_proof_size_iters(large)->Ok_0;
        lemma_proof_size_iters_fit(model, large);
        lemma_affine_monotone(model.base.compute, model.slope.compute, 1, m as int);
        lemma_affine_monotone(model.base.compute, model.slope.compute, 0, m as int);
        assert(model.slope.compute as int * 0 == 0) by (nonlinear_arith);
        assert(model.slope.compute as int * 1 == model.slope.compute) by (nonlinear_arith);
        if model.base.all_lte(small) {
            assert(model.slope.compute != 0);
            assert(fit_count(small.compute, model.base.compute, model.slope.compute) == 0);
            lemma_fit_count_is_maximal(small.compute, model.base.compute, model.slope.compute);
        }
    }
}

/// A larger compute limit, with the witness limit unchanged, never makes the
/// two phases reserve less, in either dimension.
pub proof fn lemma_wasted_monotone_in_compute_limit(
    witness_model: CostModel,
    compute_model: CostModel,
    small: ResourceVector,
    large: ResourceVector,
)
    requires
        small.witness == large.witness,
        small.compute <= large.compute,
    ensures
        wasted(witness_model, compute_model, small).all_lte(
            wasted(witness_model, compute_model, large),
        ),
{
    let first_small = witness_model.spec_proof_size_phase_cost(small);
    let first_large = witness_model.spec_proof_size_phase_cost(large);
    lemma_proof_size_phase_monotone(witness_model, small, large);
    lemma_wasted_within(witness_model, compute_model, small);
    lemma_wasted_within(witness_model, compute_model, large);
    lemma_proof_size_phase_within(witness_model, small);
    lemma_proof_size_phase_within(witness_model, large);
    if first_small == first_large {
        lemma_ref_time_phase_monotone(
            compute_model,
            small.saturating_sub(first_small),
            large.saturating_sub(first_large),
        );
    } else {
        lemma_compute_limit_step(witness_model, small, large);
    }
}

/// A larger witness limit, with the compute limit unchanged, never makes the
/// two phases reserve less witness size. Where the witness primitive is free
/// in compute time, it does not change what they reserve in compute time
/// either.
pub proof fn lemma_wasted_monotone_in_witness_limit(
    witness_model: CostModel,
    compute_model: CostModel,
    small: ResourceVector,
    large: ResourceVector,
)
    requires
        small.compute == large.compute,
        small.witness <= large.witness,
    ensures
        wasted(witness_model, compute_model, small).witness <= wasted(
            witness_model,
            compute_model,
            large,
        ).witness,
        witness_model.base.compute == 0 && witness_model.slope.compute == 0 ==> wasted(
            witness_model,
            compute_model,
            small,
        ).compute == wasted(witness_model, compute_model, large).compute,
{
    let first_small = witness_model.spec_proof_size_phase_cost(small);
    let first_large = witness_model.spec_proof_size_phase_cost(large);
    lemma_proof_size_phase_monotone(witness_model, small, large);
    lemma_wasted_within(witness_model, compute_model, small);
    lemma_wasted_within(witness_model, compute_model, large);
    if witness_model.base.compute == 0 && witness_model.slope.compute == 0 {
        if witness_model.spec_proof_size_iters(small) is Ok {
            lemma_proof_size_iters_fit(witness_model, small);
            assert(0 * (witness_model.spec_proof_size_iters(small)->Ok_0 as int) == 0)
                by (nonlinear_arith);
        }
        if witness_model.spec_proof_size_iters(large) is Ok {
            lemma_proof_size_iters_fit(witness_model, large);
            assert(0 * (witness_model.spec_proof_size_iters(large)->Ok_0 as int) == 0)
                by (nonlinear_arith);
        }
        assert(first_small.compute == 0);
        assert(first_large.compute == 0);
    }
}

/// Raising the compute fraction, with the budget and all else unchanged,
/// never lowers the total that an invocation reports, in either dimension.
pub proof fn lemma_monotone_in_compute_fraction(
    overhead: ResourceVector,
    witness_model: CostModel,
    compute_model: CostModel,
    lower: Fraction,
    higher: Fraction,
    storage: Fraction,
    budget: ResourceVector,
)
    requires
        lower.wf(),
        higher.wf(),
        storage.wf(),
        lower.parts() <= higher.parts(),
    ensures
        consumption(overhead, witness_model, compute_model, lower, storage, budget).all_lte(
            consumption(overhead, witness_model, compute_model, higher, storage, budget),
        ),
{
    if overhead.all_lte(budget) {
        let rest = budget.saturating_sub(overhead);
        lemma_mul_floor_bounds(lower, rest.compute);
        lemma_mul_floor_bounds(higher, rest.compute);
        lemma_mul_floor_bounds(storage, rest.witness);
        lemma_mul_floor_monotone_in_fraction(lower, higher, rest.compute);
        lemma_wasted_monotone_in_compute_limit(
            witness_model,
            compute_model,
            sub_budget(lower, storage, rest),
            sub_budget(higher, storage, rest),
        );
    }
}

/// Raising the witness fraction, with the budget and all else unchanged,
/// never lowers the witness size that an invocation reports. Where the
/// witness primitive is free in compute time, the compute time that is
/// reported does not fall either.
pub proof fn lemma_monotone_in_witness_fraction(
    overhead: ResourceVector,
    witness_model: CostModel,
    compute_model: CostModel,
    compute: Fraction,
    lower: Fraction,
    higher: Fraction,
    budget: ResourceVector,
)
    requires
        compute.wf(),
        lower.wf(),
        higher.wf(),
        lower.parts() <= higher.parts(),
    ensures
        consumption(overhead, witness_model, compute_model, compute, lower, budget).witness
            <= consumption(overhead, witness_model, compute_model, compute, higher, budget).witness,
        witness_model.base.compute == 0 && witness_model.slope.compute == 0 ==> consumption(
            overhead,
            witness_model,
            compute_model,
            compute,
            lower,
            budget,
        ).compute <= consumption(
            overhead,
            witness_model,
            compute_model,
            compute,
            higher,
            budget,
        ).compute,
{
    if overhead.all_lte(budget) {
        let rest = budget.saturating_sub(overhead);
        lemma_mul_floor_bounds(compute, rest.compute);
        lemma_mul_floor_bounds(lower, rest.witness);
        lemma_mul_floor_bounds(higher, rest.witness);
        lemma_mul_floor_monotone_in_fraction(lower, higher, rest.witness);
        lemma_wasted_monotone_in_witness_limit(
            witness_model,
            compute_model,
            sub_budget(compute, lower, rest),
            sub_budget(compute, higher, rest),
        );
    }
}

} // verus!
