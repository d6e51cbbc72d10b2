use glutton::cost::{CostModel, Skipped};
use glutton::fraction::Fraction;
use glutton::hash::waste_ref_time_iter;
use glutton::meter::BudgetMeter;
use glutton::pallet::{DispatchError, Event, Origin, Pallet, ProofSizeWaste, HASH_ROUNDS};
use glutton::weight::ResourceVector;
use glutton::weights::{RuntimeDbWeight, WeightInfo};

fn rv(compute: u64, witness: u64) -> ResourceVector {
    ResourceVector::new(compute, witness)
}

fn model(base: ResourceVector, slope: ResourceVector) -> CostModel {
    CostModel { base, slope }
}

fn table(overhead: ResourceVector, witness: CostModel, compute: CostModel) -> WeightInfo {
    WeightInfo {
        waste_ref_time_iter: compute,
        waste_proof_size_some: witness,
        waste_proof_size_none: witness,
        read_limits: rv(0, 0),
        on_idle: rv(0, 0),
        empty_on_idle: overhead,
    }
}

fn governor(weights: WeightInfo, compute_percent: u32, storage_percent: u32) -> Pallet {
    let mut pallet = Pallet::new(weights);
    assert!(pallet.set_compute(Origin::Root, Fraction::from_percent(compute_percent)).is_ok());
    assert!(pallet.set_storage(Origin::Root, Fraction::from_percent(storage_percent)).is_ok());
    pallet
}

#[test]
fn new_governor_wastes_nothing() {
    let weights = table(rv(7, 3), model(rv(0, 50), rv(0, 10)), model(rv(0, 0), rv(100, 0)));
    let pallet = Pallet::new(weights);
    assert_eq!(pallet.weights(), weights);
    assert!(pallet.compute().is_zero());
    assert!(pallet.storage().is_zero());
    assert!(pallet.trash_data().is_empty());
    assert_eq!(pallet.on_idle(rv(1_000_000, 10_000)), rv(7, 3));
}

#[test]
fn witness_fraction_one_fills_the_witness_budget() {
    let weights = table(rv(0, 0), model(rv(0, 50), rv(0, 10)), model(rv(0, 0), rv(100, 0)));
    let mut pallet = governor(weights, 0, 100);
    assert!(pallet.initialize_pallet(Origin::Root, 5).is_ok());

    // n = floor((10_000 - 50) / 10), reserved = 50 + 10 * n
    let mut meter = BudgetMeter::from_limit(rv(0, 10_000));
    assert_eq!(pallet.calculate_proof_size_iters(&meter), Ok(995));
    let work = pallet.waste_at_most_proof_size(&mut meter);
    assert_eq!(work, ProofSizeWaste { reads: 995, hits: 995 });
    assert_eq!(meter.consumed(), rv(0, 10_000));
    assert_eq!(pallet.calculate_ref_time_iters(&meter), Err(Skipped::Exhausted));
    let idle = pallet.waste_at_most_ref_time(&mut meter);
    assert_eq!(idle.iterations, 0);
    assert_eq!(idle.clobber, vec![0u8; 64]);
    assert_eq!(meter.consumed(), rv(0, 10_000));

    assert_eq!(pallet.on_idle(rv(1_000_000, 10_000)), rv(0, 10_000));

    // one unit less than a whole step: n = 994, reserved = 50 + 9_940
    let mut meter = BudgetMeter::from_limit(rv(0, 9_999));
    assert_eq!(pallet.calculate_proof_size_iters(&meter), Ok(994));
    let work = pallet.waste_at_most_proof_size(&mut meter);
    assert_eq!(work.reads, 994);
    assert_eq!(meter.consumed(), rv(0, 9_990));
    assert_eq!(pallet.on_idle(rv(1_000_000, 9_999)), rv(0, 9_990));
}

#[test]
fn zero_fractions_consume_the_overhead_only() {
    let weights = table(rv(457, 11), model(rv(0, 50), rv(0, 10)), model(rv(0, 0), rv(100, 0)));
    let mut pallet = governor(weights, 0, 0);
    assert!(pallet.initialize_pallet(Origin::Root, 5).is_ok());
    assert_eq!(pallet.on_idle(rv(1_000_000, 10_000)), rv(457, 11));
    assert_eq!(pallet.on_idle(rv(u64::MAX, u64::MAX)), rv(457, 11));
    assert_eq!(pallet.on_idle(rv(457, 11)), rv(457, 11));
}

#[test]
fn compute_primitive_with_witness_cost_is_skipped() {
    let witness = model(rv(0, 50), rv(0, 10));
    for compute in [model(rv(0, 1), rv(100, 0)), model(rv(0, 0), rv(100, 1))] {
        let mut pallet = governor(table(rv(0, 0), witness, compute), 100, 100);
        assert!(pallet.initialize_pallet(Origin::Root, 5).is_ok());

        let mut meter = BudgetMeter::from_limit(rv(1_000, 1_000));
        assert_eq!(pallet.calculate_ref_time_iters(&meter), Err(Skipped::SecondaryCost));
        let work = pallet.waste_at_most_ref_time(&mut meter);
        assert_eq!(work.iterations, 0);
        assert_eq!(meter.consumed(), rv(0, 0));

        // only the witness phase contributes: n = (1_000 - 50) / 10 = 95
        assert_eq!(pallet.on_idle(rv(1_000, 1_000)), rv(0, 1_000));
    }
    let mut pallet = governor(table(rv(0, 0), witness, model(rv(0, 1), rv(100, 0))), 100, 0);
    assert!(pallet.initialize_pallet(Origin::Root, 5).is_ok());
    assert_eq!(pallet.on_idle(rv(1_000, 1_000)), rv(0, 0));
}

#[test]
fn zero_slope_performs_no_reservation_and_no_work() {
    let weights = table(rv(0, 0), model(rv(0, 50), rv(0, 0)), model(rv(10, 0), rv(0, 0)));
    let mut pallet = governor(weights, 100, 100);
    assert!(!pallet.integrity_test());
    for limit in [rv(0, 0), rv(10, 50), rv(1_000, 1_000), rv(u64::MAX, u64::MAX)] {
        let mut meter = BudgetMeter::from_limit(limit);
        assert_eq!(pallet.calculate_proof_size_iters(&meter), Err(Skipped::ZeroSlope));
        let reads = pallet.waste_at_most_proof_size(&mut meter);
        assert_eq!(reads, ProofSizeWaste { reads: 0, hits: 0 });
        assert_eq!(meter.consumed(), rv(0, 0));
        assert_eq!(pallet.calculate_ref_time_iters(&meter), Err(Skipped::ZeroSlope));
        let work = pallet.waste_at_most_ref_time(&mut meter);
        assert_eq!(work.iterations, 0);
        assert_eq!(meter.consumed(), rv(0, 0));
        assert_eq!(pallet.on_idle(limit), rv(0, 0));
    }
    assert!(pallet.initialize_pallet(Origin::Root, 2).is_ok());
    assert_eq!(pallet.on_idle(rv(1_000, 1_000)), rv(0, 0));
}

#[test]
fn compute_phase_chains_the_digest() {
    let weights = table(rv(0, 0), model(rv(0, 50), rv(0, 10)), model(rv(20, 0), rv(100, 0)));
    let pallet = governor(weights, 100, 0);

    let mut meter = BudgetMeter::from_limit(rv(350, 0));
    assert_eq!(pallet.calculate_ref_time_iters(&meter), Ok(3));
    let work = pallet.waste_at_most_ref_time(&mut meter);
    assert_eq!(work.iterations, 3);
    assert_eq!(meter.consumed(), rv(320, 0));
    assert_eq!(meter.remaining(), rv(30, 0));

    let mut expected = vec![0u8; 64];
    for _ in 0..3 {
        expected = waste_ref_time_iter(expected, HASH_ROUNDS);
    }
    assert_eq!(work.clobber, expected);
    assert_eq!(work.clobber.len(), 64);
    assert_ne!(work.clobber, waste_ref_time_iter(vec![0u8; 64], HASH_ROUNDS));

    // what is left holds no further iteration
    assert_eq!(pallet.calculate_ref_time_iters(&meter), Err(Skipped::Exhausted));
}

#[test]
fn both_phases_share_one_budget() {
    // each read costs compute time too, so the witness phase leaves less for the compute phase
    let weights = table(rv(5, 1), model(rv(10, 50), rv(30, 10)), model(rv(20, 0), rv(100, 0)));
    let mut pallet = governor(weights, 50, 100);
    assert!(pallet.initialize_pallet(Origin::Root, 4).is_ok());

    // budget (1_005, 101): after the overhead (1_000, 100); shares (500, 100)
    // witness phase: by witness (100 - 50) / 10 = 5, by compute (500 - 10) / 30 = 16; n = 5
    //   reserved (10 + 150, 50 + 50) = (160, 100)
    // compute phase: (340 - 20) / 100 = 3; reserved (320, 0)
    assert_eq!(pallet.on_idle(rv(1_005, 101)), rv(5 + 160 + 320, 1 + 100));

    let mut meter = BudgetMeter::from_limit(rv(500, 100));
    let reads = pallet.waste_at_most_proof_size(&mut meter);
    assert_eq!(reads, ProofSizeWaste { reads: 5, hits: 5 });
    assert_eq!(meter.consumed(), rv(160, 100));
    let work = pallet.waste_at_most_ref_time(&mut meter);
    assert_eq!(work.iterations, 3);
    assert_eq!(meter.consumed(), rv(480, 100));
}

#[test]
fn waste_reports_the_work_of_both_phases() {
    let weights = table(rv(5, 1), model(rv(10, 50), rv(30, 10)), model(rv(20, 0), rv(100, 0)));
    let mut pallet = governor(weights, 50, 100);
    assert!(pallet.initialize_pallet(Origin::Root, 4).is_ok());

    let work = pallet.waste(rv(1_005, 101));
    assert_eq!(work.consumed, rv(5 + 160 + 320, 1 + 100));
    assert_eq!(work.proof_size, ProofSizeWaste { reads: 5, hits: 5 });
    assert_eq!(work.ref_time.iterations, 3);
    let mut expected = vec![0u8; 64];
    for _ in 0..3 {
        expected = waste_ref_time_iter(expected, HASH_ROUNDS);
    }
    assert_eq!(work.ref_time.clobber, expected);
    assert_eq!(pallet.on_idle(rv(1_005, 101)), work.consumed);

    // the overhead does not fit: it is reported, and no work is done
    let none = pallet.waste(rv(4, 101));
    assert_eq!(none.consumed, rv(5, 1));
    assert_eq!(none.proof_size, ProofSizeWaste { reads: 0, hits: 0 });
    assert_eq!(none.ref_time.iterations, 0);
    assert_eq!(none.ref_time.clobber, vec![0u8; 64]);
}

#[test]
fn empty_trash_table_uses_the_absent_cost() {
    let mut weights = table(rv(0, 0), model(rv(0, 0), rv(0, 10)), model(rv(0, 0), rv(100, 0)));
    weights.waste_proof_size_none = model(rv(0, 0), rv(0, 4));
    let mut pallet = governor(weights, 0, 100);

    assert_eq!(pallet.proof_size_model(), weights.waste_proof_size_none);
    let mut meter = BudgetMeter::from_limit(rv(0, 100));
    let work = pallet.waste_at_most_proof_size(&mut meter);
    assert_eq!(work, ProofSizeWaste { reads: 25, hits: 0 });
    assert_eq!(pallet.on_idle(rv(0, 100)), rv(0, 100));

    assert!(pallet.initialize_pallet(Origin::Root, 3).is_ok());
    assert_eq!(pallet.proof_size_model(), weights.waste_proof_size_some);
    let mut meter = BudgetMeter::from_limit(rv(0, 105));
    let work = pallet.waste_at_most_proof_size(&mut meter);
    assert_eq!(work, ProofSizeWaste { reads: 10, hits: 10 });
    assert_eq!(meter.consumed(), rv(0, 100));
}

#[test]
fn repeated_invocations_return_the_same_total() {
    let weights = table(rv(5, 1), model(rv(10, 50), rv(30, 10)), model(rv(20, 0), rv(100, 0)));
    let mut pallet = governor(weights, 50, 80);
    assert!(pallet.initialize_pallet(Origin::Root, 4).is_ok());
    let budget = rv(905, 201);
    let first = pallet.on_idle(budget);
    let second = pallet.on_idle(budget);
    let third = pallet.on_idle(budget);
    assert_eq!(first, second);
    assert_eq!(second, third);

    let mut twin = governor(weights, 50, 80);
    assert!(twin.initialize_pallet(Origin::Root, 9).is_ok());
    assert_eq!(twin.on_idle(budget), first);
}

#[test]
fn raising_a_fraction_never_lowers_the_total() {
    let witness = model(rv(0, 50), rv(0, 10));
    let compute = model(rv(20, 0), rv(250, 0));
    let weights = table(rv(5, 1), witness, compute);
    let budget = rv(605, 1_001);
    let percents = [0u32, 25, 50, 75, 100];
    for storage in [0u32, 50, 100] {
        let mut last = rv(0, 0);
        for compute_percent in percents {
            let mut pallet = governor(weights, compute_percent, storage);
            assert!(pallet.initialize_pallet(Origin::Root, 4).is_ok());
            let total = pallet.on_idle(budget);
            assert!(last.all_lte(total));
            assert!(total.all_lte(budget));
            last = total;
        }
    }
    for compute_percent in [0u32, 100] {
        let mut last = rv(0, 0);
        for storage in percents {
            let mut pallet = governor(weights, compute_percent, storage);
            assert!(pallet.initialize_pallet(Origin::Root, 4).is_ok());
            let total = pallet.on_idle(budget);
            assert!(last.all_lte(total));
            last = total;
        }
    }
    let mut half = governor(weights, 50, 50);
    assert!(half.initialize_pallet(Origin::Root, 4).is_ok());
    // shares (300, 500): reads (500 - 50) / 10 = 45 -> (0, 500); iterations (300 - 20) / 250 = 1
    assert_eq!(half.on_idle(budget), rv(5 + 270, 1 + 500));
}

#[test]
fn witness_reads_with_compute_cost_can_crowd_out_the_compute_phase() {
    // scaled from parts of ten to percent: the compute total falls from 23 to 20
    let weights = table(rv(3, 0), model(rv(2, 0), rv(3, 1)), model(rv(4, 0), rv(2, 0)));
    let budget = rv(32, 25);
    let mut low = governor(weights, 70, 10);
    assert!(low.initialize_pallet(Origin::Root, 1).is_ok());
    let mut high = governor(weights, 70, 20);
    assert!(high.initialize_pallet(Origin::Root, 1).is_ok());
    assert_eq!(low.on_idle(budget), rv(23, 2));
    assert_eq!(high.on_idle(budget), rv(20, 5));
}

#[test]
fn budget_below_the_base_costs_yields_the_overhead() {
    let weights = table(rv(5, 1), model(rv(0, 500), rv(0, 10)), model(rv(700, 0), rv(1, 0)));
    let mut pallet = governor(weights, 100, 100);
    assert!(pallet.initialize_pallet(Origin::Root, 4).is_ok());
    assert_eq!(pallet.on_idle(rv(699, 499)), rv(5, 1));
    assert_eq!(pallet.on_idle(rv(5, 1)), rv(5, 1));
    // a budget that does not even hold the overhead reports the overhead all the same
    assert_eq!(pallet.on_idle(rv(4, 499)), rv(5, 1));
    assert_eq!(pallet.on_idle(rv(0, 0)), rv(5, 1));
    // just enough for one iteration of each
    assert_eq!(pallet.on_idle(rv(5 + 701, 1 + 510)), rv(5 + 701, 1 + 510));
}

#[test]
fn total_never_exceeds_the_budget() {
    let weights = table(rv(5, 1), model(rv(10, 50), rv(30, 10)), model(rv(20, 0), rv(300, 0)));
    for compute_percent in [0u32, 33, 100] {
        for storage in [0u32, 66, 100] {
            let mut pallet = governor(weights, compute_percent, storage);
            assert!(pallet.initialize_pallet(Origin::Root, 4).is_ok());
            for budget in [rv(5, 1), rv(100, 100), rv(433, 977), rv(1_000, 60), rv(60, 1_000)] {
                assert!(pallet.on_idle(budget).all_lte(budget));
            }
        }
    }
}

#[test]
fn only_root_changes_the_configuration() {
    let weights = table(rv(5, 1), model(rv(0, 50), rv(0, 10)), model(rv(0, 0), rv(100, 0)));
    let mut pallet = Pallet::new(weights);
    let half = Fraction::from_percent(50);
    let third = Fraction::from_parts(333_333_333);

    for origin in [Origin::Signed(7), Origin::Unsigned] {
        assert_eq!(pallet.set_compute(origin, half), Err(DispatchError::BadOrigin));
        assert_eq!(pallet.set_storage(origin, third), Err(DispatchError::BadOrigin));
        assert_eq!(pallet.initialize_pallet(origin, 5), Err(DispatchError::BadOrigin));
        assert!(pallet.compute().is_zero());
        assert!(pallet.storage().is_zero());
        assert!(pallet.trash_data().is_empty());
    }

    assert_eq!(
        pallet.set_compute(Origin::Root, half),
        Ok(Event::ComputationLimitSet { compute: half })
    );
    assert_eq!(pallet.compute(), half);
    assert!(pallet.storage().is_zero());
    assert_eq!(
        pallet.set_storage(Origin::Root, third),
        Ok(Event::StorageLimitSet { storage: third })
    );
    assert_eq!(pallet.storage(), third);
    assert_eq!(pallet.compute(), half);
    assert_eq!(pallet.initialize_pallet(Origin::Root, 5), Ok(Event::PalletInitialized));
    assert_eq!(pallet.trash_data().len(), 5);
    assert_eq!(pallet.weights(), weights);
}

#[test]
fn initializer_called_twice_keeps_the_larger_table() {
    let weights = table(rv(0, 0), model(rv(0, 50), rv(0, 10)), model(rv(0, 0), rv(100, 0)));
    let mut pallet = Pallet::new(weights);
    assert_eq!(pallet.initialize_pallet(Origin::Root, 5), Ok(Event::PalletInitialized));
    assert_eq!(pallet.initialize_pallet(Origin::Root, 3), Ok(Event::PalletInitialized));
    let trash = pallet.trash_data();
    assert_eq!(trash.len(), 5);
    for key in 0..5u32 {
        assert!(trash.contains_key(key));
        assert_eq!(trash.get(key).unwrap(), &[key as u8; 1024]);
    }
    assert!(!trash.contains_key(5));
}

#[test]
fn integrity_test_wants_non_zero_slopes() {
    let good = table(rv(0, 0), model(rv(0, 50), rv(0, 10)), model(rv(0, 0), rv(100, 0)));
    assert!(Pallet::new(good).integrity_test());
    assert!(good.integrity());

    let no_compute_slope = table(rv(0, 0), model(rv(0, 50), rv(0, 10)), model(rv(9, 0), rv(0, 0)));
    assert!(!Pallet::new(no_compute_slope).integrity_test());

    let no_witness_slope = table(rv(0, 0), model(rv(0, 50), rv(7, 0)), model(rv(0, 0), rv(1, 0)));
    assert!(!Pallet::new(no_witness_slope).integrity_test());

    let mut absent_only = good;
    absent_only.waste_proof_size_none = model(rv(0, 0), rv(1, 0));
    assert!(!Pallet::new(absent_only).integrity_test());
}

#[test]
fn privileged_calls_are_charged_by_their_writes() {
    let db = RuntimeDbWeight { read: 25_000_000, write: 100_000_000 };
    assert_eq!(Pallet::initialize_pallet_weight(db, 0), rv(0, 0));
    assert_eq!(Pallet::initialize_pallet_weight(db, 1), rv(100_000_000, 0));
    assert_eq!(Pallet::initialize_pallet_weight(db, 5_000), rv(500_000_000_000, 0));
    assert_eq!(Pallet::initialize_pallet_weight(db, u32::MAX), rv(429_496_729_500_000_000, 0));
    let dear = RuntimeDbWeight { read: 1, write: u64::MAX / 2 + 1 };
    assert_eq!(Pallet::initialize_pallet_weight(dear, 2), rv(u64::MAX, 0));
    assert_eq!(Pallet::set_limit_weight(db), rv(100_000_000, 0));
}
