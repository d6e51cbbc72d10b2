//! The governor: configuration, the privileged operations that change it, and
//! the idle hook that wastes the configured share of a slot's budget.

use crate::cost::{lemma_proof_size_iters_fit, lemma_ref_time_iters_fit, CostModel, Skipped};
use crate::fraction::{lemma_mul_floor_bounds, Fraction};
use crate::hash::{ref_time_iter_digest, waste_ref_time_iter, DIGEST_LEN};
use crate::meter::BudgetMeter;
use crate::trash::{grown_len, initialized, TrashTable};
use crate::weight::ResourceVector;
use crate::weights::{RuntimeDbWeight, WeightInfo};
use vstd::prelude::*;

verus! {

/// How many times one iteration of the compute phase absorbs its buffer
/// before it takes the digest.
pub const HASH_ROUNDS: u32 = 100_000;

/// Who asks for a privileged operation.
#[derive(Clone, Copy, Debug, PartialEq, Eq, Structural)]
pub enum Origin {
    /// The one caller that may change the configuration and fill the trash
    /// table.
    Root,
    /// An ordinary account.
    Signed(u64),
    /// No account at all.
    Unsigned,
}

/// Why a privileged operation was refused.
#[derive(Clone, Copy, Debug, PartialEq, Eq, Structural)]
pub enum DispatchError {
    /// The caller is not the privileged one.
    BadOrigin,
}

/// What a privileged operation reports to the host once it has taken effect.
#[derive(Clone, Copy, Debug, PartialEq, Eq, Structural)]
pub enum Event {
    /// The trash table has been filled.
    PalletInitialized,
    /// The compute fraction has been set.
    ComputationLimitSet { compute: Fraction },
    /// The witness fraction has been set.
    StorageLimitSet { storage: Fraction },
}

/// What the witness phase did.
#[derive(Clone, Copy, Debug, PartialEq, Eq, Structural)]
pub struct ProofSizeWaste {
    /// How many lookups were made.
    pub reads: u64,
    /// How many of them found an entry.
    pub hits: u64,
}

/// What the compute phase did.
#[derive(Debug)]
pub struct RefTimeWaste {
    /// How many iterations were run.
    pub iterations: u64,
    /// The buffer after the last iteration.
    pub clobber: Vec<u8>,
}

/// What one invocation of the governor did.
#[derive(Debug)]
pub struct IdleWaste {
    /// The total that was reserved: the fixed overhead and what the phases
    /// added.
    pub consumed: ResourceVector,
    /// The witness phase.
    pub proof_size: ProofSizeWaste,
    /// The compute phase.
    pub ref_time: RefTimeWaste,
}

/// The count that a phase repeats its primitive: the solved count, or zero
/// where the phase is skipped.
pub open spec fn repetitions(solved: Result<u64, Skipped>) -> u64 {
    match solved {
        Ok(n) => n,
        Err(_) => 0,
    }
}

/// The buffer that the compute phase starts from: 64 zero bytes.
pub open spec fn seed() -> Seq<u8> {
    Seq::new(DIGEST_LEN as nat, |i: int| 0u8)
}

/// The buffer after `iterations` iterations of the compute phase: each
/// iteration digests [`HASH_ROUNDS`] copies of the buffer that the one before
/// left.
pub open spec fn clobber_after(iterations: nat) -> Seq<u8>
    decreases iterations,
{
    if iterations == 0 {
        seed()
    } else {
        ref_time_iter_digest(clobber_after((iterations - 1) as nat), HASH_ROUNDS as nat)
    }
}

/// The key that lookup number `i` of the witness phase reads in a table of
/// `len` entries: the lookups cycle through the keys that are present.
pub open spec fn lookup_key(i: u64, len: nat) -> u32 {
    if len == 0 {
        (i % 0x1_0000_0000) as u32
    } else {
        ((i as nat) % len) as u32
    }
}

/// The part of `remaining` that the phases may use: the compute fraction of
/// its compute time and the witness fraction of its witness size, each
/// rounded down.
pub open spec fn sub_budget(
    compute: Fraction,
    storage: Fraction,
    remaining: ResourceVector,
) -> ResourceVector {
    ResourceVector {
        compute: compute.spec_mul_floor(remaining.compute) as u64,
        witness: storage.spec_mul_floor(remaining.witness) as u64,
    }
}

/// What the two phases reserve of `limit`: the witness phase first, then the
/// compute phase on what the witness phase left.
pub open spec fn wasted(
    witness_model: CostModel,
    compute_model: CostModel,
    limit: ResourceVector,
) -> ResourceVector {
    let first = witness_model.spec_proof_size_phase_cost(limit);
    let second = compute_model.spec_ref_time_phase_cost(limit.saturating_sub(first));
    first.saturating_add(second)
}

/// The total that one invocation reports for the granted `budget`.
///
/// Where the fixed overhead does not fit the budget, the overhead alone;
/// otherwise the overhead and what the phases reserve of their share of the
/// rest.
pub open spec fn consumption(
    overhead: ResourceVector,
    witness_model: CostModel,
    compute_model: CostModel,
    compute: Fraction,
    storage: Fraction,
    budget: ResourceVector,
) -> ResourceVector {
    if !overhead.all_lte(budget) {
        overhead
    } else {
        overhead.saturating_add(
            wasted(
                witness_model,
                compute_model,
                sub_budget(compute, storage, budget.saturating_sub(overhead)),
            ),
        )
    }
}

/// Whether `origin` is the privileged caller.
pub fn ensure_root(origin: Origin) -> (r: Result<(), DispatchError>)
    ensures
        origin is Root ==> r == Ok::<(), DispatchError>(()),
        !(origin is Root) ==> r == Err::<(), DispatchError>(DispatchError::BadOrigin),
{
    match origin {
        Origin::Root => Ok(()),
        _ => Err(DispatchError::BadOrigin),
    }
}

/// 64 zero bytes.
fn zero_buffer() -> (buffer: Vec<u8>)
    ensures
        buffer@ == seed(),
{
    let mut buffer: Vec<u8> = Vec::new();
    let mut i: usize = 0;
    while i < DIGEST_LEN
        invariant
            i <= DIGEST_LEN,
            buffer@.len() == i,
            forall|j: int| 0 <= j < i ==> buffer@[j] == 0u8,
        decreases DIGEST_LEN - i,
    {
        buffer.push(0u8);
        i = i + 1;
    }
    assert(buffer@ =~= seed());
    buffer
}

/// The governor with its persistent state: the configured fractions, the
/// trash table, and the cost table it was built with.
pub struct Pallet {
    weights: WeightInfo,
    compute: Fraction,
    storage: Fraction,
    trash_data: TrashTable,
}

impl Pallet {
    /// The cost table.
    pub closed spec fn spec_weights(self) -> WeightInfo {
        self.weights
    }

    /// The fraction of the remaining compute time that is to be wasted.
    pub closed spec fn spec_compute(self) -> Fraction {
        self.compute
    }

    /// The fraction of the remaining witness size that is to be wasted.
    pub closed spec fn spec_storage(self) -> Fraction {
        self.storage
    }

    /// The trash table.
    pub closed spec fn spec_trash_data(self) -> TrashTable {
        self.trash_data
    }

    /// The cost model that matches what the witness phase's lookups will
    /// find: every lookup misses in an empty table, and hits otherwise.
    pub open spec fn spec_proof_size_model(self) -> CostModel {
        if self.spec_trash_data().spec_len() == 0 {
            self.spec_weights().waste_proof_size_none
        } else {
            self.spec_weights().waste_proof_size_some
        }
    }

    /// The limit that the phases share in an invocation with
    /// `remaining_weight`, where the fixed overhead fits it.
    pub open spec fn spec_phase_limit(self, remaining_weight: ResourceVector) -> ResourceVector {
        sub_budget(
            self.spec_compute(),
            self.spec_storage(),
            remaining_weight.saturating_sub(self.spec_weights().empty_on_idle),
        )
    }

    /// How many trash entries an invocation with `remaining_weight` reads.
    pub open spec fn spec_idle_reads(self, remaining_weight: ResourceVector) -> u64 {
        if !self.spec_weights().empty_on_idle.all_lte(remaining_weight) {
            0
        } else {
            repetitions(
                self.spec_proof_size_model().spec_proof_size_iters(
                    self.spec_phase_limit(remaining_weight),
                ),
            )
        }
    }

    /// How many iterations of the digest an invocation with
    /// `remaining_weight` runs.
    pub open spec fn spec_idle_iterations(self, remaining_weight: ResourceVector) -> u64 {
        if !self.spec_weights().empty_on_idle.all_lte(remaining_weight) {
            0
        } else {
            let limit = self.spec_phase_limit(remaining_weight);
            repetitions(
                self.spec_weights().waste_ref_time_iter.spec_ref_time_iters(
                    limit.saturating_sub(
                        self.spec_proof_size_model().spec_proof_size_phase_cost(limit),
                    ),
                ),
            )
        }
    }

    /// The total that [`Pallet::on_idle`] reports for `remaining_weight`.
    pub open spec fn spec_on_idle(self, remaining_weight: ResourceVector) -> ResourceVector {
        consumption(
            self.spec_weights().empty_on_idle,
            self.spec_proof_size_model(),
            self.spec_weights().waste_ref_time_iter,
            self.spec_compute(),
            self.spec_storage(),
            remaining_weight,
        )
    }

    /// A governor with the given cost table, both fractions zero and an empty
    /// trash table: until it is configured it wastes nothing.
    pub fn new(weights: WeightInfo) -> (pallet: Pallet)
        ensures
            pallet.spec_weights() == weights,
            pallet.spec_compute().parts() == 0,
            pallet.spec_storage().parts() == 0,
            pallet.spec_trash_data()@ == Map::<u32, Seq<u8>>::empty(),
            pallet.spec_trash_data().spec_len() == 0,
    {
        Pallet {
            weights,
            compute: Fraction::zero(),
            storage: Fraction::zero(),
            trash_data: TrashTable::new(),
        }
    }

    /// The cost table.
    pub fn weights(&self) -> (weights: WeightInfo)
        ensures
            weights == self.spec_weights(),
    {
        self.weights
    }

    /// The configured compute fraction.
    pub fn compute(&self) -> (compute: Fraction)
        ensures
            compute == self.spec_compute(),
    {
        self.compute
    }

    /// The configured witness fraction.
    pub fn storage(&self) -> (storage: Fraction)
        ensures
            storage == self.spec_storage(),
    {
        self.storage
    }

    /// The trash table.
    pub fn trash_data(&self) -> (table: &TrashTable)
        ensures
            *table == self.spec_trash_data(),
    {
        &self.trash_data
    }

    /// Whether the cost table can be used: every primitive that a phase
    /// repeats has a non-zero slope in its own dimension. To be checked once,
    /// when the system starts.
    pub fn integrity_test(&self) -> (ok: bool)
        ensures
            ok == self.spec_weights().spec_integrity(),
    {
        self.weights.integrity()
    }

    /// What filling the trash table with `trash_count` entries is charged:
    /// one database write for each entry, so the charge grows with the count
    /// in a straight line.
    pub fn initialize_pallet_weight(db_weight: RuntimeDbWeight, trash_count: u32) -> (charge:
        ResourceVector)
        ensures
            charge == db_weight.spec_writes(trash_count as u64),
    {
        db_weight.writes(trash_count as u64)
    }

    /// What setting one of the two fractions is charged: one database write.
    pub fn set_limit_weight(db_weight: RuntimeDbWeight) -> (charge: ResourceVector)
        ensures
            charge == db_weight.spec_writes(1),
    {
        db_weight.writes(1)
    }

    /// Fills the trash table with `trash_count` entries under the keys from
    /// zero. Only the privileged caller may do so.
    ///
    /// Entries under these keys are overwritten, all others stay.
    pub fn initialize_pallet(&mut self, origin: Origin, trash_count: u32) -> (r: Result<
        Event,
        DispatchError,
    >)
        ensures
            origin is Root ==> {
                &&& r == Ok::<Event, DispatchError>(Event::PalletInitialized)
                &&& final(self).spec_trash_data()@ == initialized(
                    old(self).spec_trash_data()@,
                    trash_count,
                )
                &&& final(self).spec_trash_data().spec_len() == grown_len(
                    old(self).spec_trash_data().spec_len(),
                    trash_count,
                )
                &&& final(self).spec_weights() == old(self).spec_weights()
                &&& final(self).spec_compute() == old(self).spec_compute()
                &&& final(self).spec_storage() == old(self).spec_storage()
            },
            !(origin is Root) ==> {
                &&& r == Err::<Event, DispatchError>(DispatchError::BadOrigin)
                &&& *final(self) == *old(self)
            },
    {
        match ensure_root(origin) {
            Err(e) => Err(e),
            Ok(_) => {
                self.trash_data.initialize(trash_count);
                Ok(Event::PalletInitialized)
            },
        }
    }

    /// Sets the fraction of the remaining compute time that the idle hook
    /// wastes. Only the privileged caller may do so.
    pub fn set_compute(&mut self, origin: Origin, compute: Fraction) -> (r: Result<
        Event,
        DispatchError,
    >)
        ensures
            origin is Root ==> {
                &&& r == Ok::<Event, DispatchError>(Event::ComputationLimitSet { compute })
                &&& final(self).spec_compute() == compute
                &&& final(self).spec_storage() == old(self).spec_storage()
                &&& final(self).spec_weights() == old(self).spec_weights()
                &&& final(self).spec_trash_data() == old(self).spec_trash_data()
            },
            !(origin is Root) ==> {
                &&& r == Err::<Event, DispatchError>(DispatchError::BadOrigin)
                &&& *final(self) == *old(self)
            },
    {
        match ensure_root(origin) {
            Err(e) => Err(e),
            Ok(_) => {
                self.compute = compute;
                Ok(Event::ComputationLimitSet { compute })
            },
        }
    }

    /// Sets the fraction of the remaining witness size that the idle hook
    /// wastes. Only the privileged caller may do so.
    pub fn set_storage(&mut self, origin: Origin, storage: Fraction) -> (r: Result<
        Event,
        DispatchError,
    >)
        ensures
            origin is Root ==> {
                &&& r == Ok::<Event, DispatchError>(Event::StorageLimitSet { storage })
                &&& final(self).spec_storage() == storage
                &&& final(self).spec_compute() == old(self).spec_compute()
                &&& final(self).spec_weights() == old(self).spec_weights()
                &&& final(self).spec_trash_data() == old(self).spec_trash_data()
            },
            !(origin is Root) ==> {
                &&& r == Err::<Event, DispatchError>(DispatchError::BadOrigin)
                &&& *final(self) == *old(self)
            },
    {
        match ensure_root(origin) {
            Err(e) => Err(e),
            Ok(_) => {
                self.storage = storage;
                Ok(Event::StorageLimitSet { storage })
            },
        }
    }

    /// The cost model of the witness primitive for the lookups that the
    /// table as it is will answer.
    pub fn proof_size_model(&self) -> (model: CostModel)
        ensures
            model == self.spec_proof_size_model(),
    {
        if self.trash_data.is_empty() {
            self.weights.waste_proof_size_none
        } else {
            self.weights.waste_proof_size_some
        }
    }

    /// How many lookups the witness phase can reserve from what `meter` has
    /// left, or why it must be skipped.
    pub fn calculate_proof_size_iters(&self, meter: &BudgetMeter) -> (r: Result<u64, Skipped>)
        ensures
            r == self.spec_proof_size_model().spec_proof_size_iters(meter.spec_remaining()),
    {
        self.proof_size_model().proof_size_iters(meter.remaining())
    }

    /// How many iterations the compute phase can reserve from what `meter`
    /// has left, or why it must be skipped.
    pub fn calculate_ref_time_iters(&self, meter: &BudgetMeter) -> (r: Result<u64, Skipped>)
        ensures
            r == self.spec_weights().waste_ref_time_iter.spec_ref_time_iters(
                meter.spec_remaining(),
            ),
    {
        self.weights.waste_ref_time_iter.ref_time_iters(meter.remaining())
    }

    /// The witness phase: reserves the declared cost of as many lookups as
    /// `meter` has room for, then reads that many trash entries.
    ///
    /// Where the phase is skipped the meter is left as it was and nothing is
    /// read. The reservation is made before the first read.
    pub fn waste_at_most_proof_size(&self, meter: &mut BudgetMeter) -> (work: ProofSizeWaste)
        ensures
            final(meter).spec_limit() == old(meter).spec_limit(),
            final(meter).spec_consumed() == old(meter).spec_consumed().saturating_add(
                self.spec_proof_size_model().spec_proof_size_phase_cost(
                    old(meter).spec_remaining(),
                ),
            ),
            final(meter).wf(),
            match self.spec_proof_size_model().spec_proof_size_iters(old(meter).spec_remaining()) {
                Ok(n) => work.reads == n,
                Err(_) => work.reads == 0 && *final(meter) == *old(meter),
            },
            work.hits == if self.spec_trash_data().spec_len() == 0 {
                0
            } else {
                work.reads
            },
            self.spec_proof_size_model().slope.witness == 0 ==> work.reads == 0 && *final(meter)
                == *old(meter),
    {
        proof {
            use_type_invariant(&*meter);
        }
        let model = self.proof_size_model();
        let n: u64 = match model.proof_size_iters(meter.remaining()) {
            Ok(n) => n,
            Err(_) => {
                return ProofSizeWaste { reads: 0, hits: 0 };
            },
        };
        proof {
            lemma_proof_size_iters_fit(model, meter.spec_remaining());
        }
        let reserved = meter.reserve(model.cost(n));
        assert(reserved);
        let len = self.trash_data.len();
        let mut hits: u64 = 0;
        let mut i: u64 = 0;
        while i < n
            invariant
                i <= n,
                len == self.spec_trash_data().spec_len(),
                len <= 0x1_0000_0000,
                hits == if len == 0 {
                    0
                } else {
                    i
                },
            decreases n - i,
        {
            let key: u32 = if len == 0 {
                (i % 0x1_0000_0000) as u32
            } else {
                (i % (len as u64)) as u32
            };
            assert(key == lookup_key(i, len as nat));
            if self.trash_data.get(key).is_some() {
                hits = hits + 1;
            }
            i = i + 1;
        }
        ProofSizeWaste { reads: n, hits }
    }

    /// The compute phase: reserves the declared cost of as many iterations
    /// as `meter` has room for, then runs that many, each on the buffer that
    /// the one before left.
    ///
    /// Where the phase is skipped the meter is left as it was and no
    /// iteration is run. The reservation is made before the first iteration.
    pub fn waste_at_most_ref_time(&self, meter: &mut BudgetMeter) -> (work: RefTimeWaste)
        ensures
            final(meter).spec_limit() == old(meter).spec_limit(),
            final(meter).spec_consumed() == old(meter).spec_consumed().saturating_add(
                self.spec_weights().waste_ref_time_iter.spec_ref_time_phase_cost(
                    old(meter).spec_remaining(),
                ),
            ),
            final(meter).wf(),
            match self.spec_weights().waste_ref_time_iter.spec_ref_time_iters(
                old(meter).spec_remaining(),
            ) {
                Ok(n) => work.iterations == n,
                Err(_) => work.iterations == 0 && *final(meter) == *old(meter),
            },
            work.clobber@ == clobber_after(work.iterations as nat),
            work.clobber@.len() == DIGEST_LEN,
            self.spec_weights().waste_ref_time_iter.slope.compute == 0 ==> work.iterations == 0
                && *final(meter) == *old(meter),
    {
        proof {
            use_type_invariant(&*meter);
        }
        let model = self.weights.waste_ref_time_iter;
        let mut clobber = zero_buffer();
        let n: u64 = match model.ref_time_iters(meter.remaining()) {
            Ok(n) => n,
            Err(_) => {
                return RefTimeWaste { iterations: 0, clobber };
            },
        };
        proof {
            lemma_ref_time_iters_fit(model, meter.spec_remaining());
        }
        let reserved = meter.reserve(model.cost(n));
        assert(reserved);
        let mut i: u64 = 0;
        while i < n
            invariant
                i <= n,
                clobber@ == clobber_after(i as nat),
                clobber@.len() == DIGEST_LEN,
            decreases n - i,
        {
            clobber = waste_ref_time_iter(clobber, HASH_ROUNDS);
            i = i + 1;
        }
        RefTimeWaste { iterations: n, clobber }
    }

    /// One invocation of the governor for a slot that has `remaining_weight`
    /// left: what it reserved in all, and what each phase did for it.
    ///
    /// The fixed overhead is reserved first; where even that does not fit
    /// the budget, it is reported all the same and nothing else is done.
    /// Otherwise the phases get their share of what is left after the
    /// overhead: the witness phase works first, the compute phase on what
    /// the witness phase left. The total never exceeds `remaining_weight` in
    /// either dimension.
    pub fn waste(&self, remaining_weight: ResourceVector) -> (work: IdleWaste)
        ensures
            work.consumed == self.spec_on_idle(remaining_weight),
            self.spec_weights().empty_on_idle.all_lte(remaining_weight)
                ==> work.consumed.all_lte(remaining_weight),
            !self.spec_weights().empty_on_idle.all_lte(remaining_weight) ==> work.consumed
                == self.spec_weights().empty_on_idle,
            work.proof_size.reads == self.spec_idle_reads(remaining_weight),
            work.proof_size.hits == if self.spec_trash_data().spec_len() == 0 {
                0
            } else {
                work.proof_size.reads
            },
            work.ref_time.iterations == self.spec_idle_iterations(remaining_weight),
            work.ref_time.clobber@ == clobber_after(work.ref_time.iterations as nat),
    {
        let overhead = self.weights.empty_on_idle;
        let mut meter = BudgetMeter::from_limit(remaining_weight);
        if !meter.reserve(overhead) {
            return IdleWaste {
                consumed: overhead,
                proof_size: ProofSizeWaste { reads: 0, hits: 0 },
                ref_time: RefTimeWaste { iterations: 0, clobber: zero_buffer() },
            };
        }
        let remaining = meter.remaining();
        proof {
            use_type_invariant(&self.compute);
            use_type_invariant(&self.storage);
            lemma_mul_floor_bounds(self.compute, remaining.compute);
            lemma_mul_floor_bounds(self.storage, remaining.witness);
        }
        let limit = ResourceVector {
            compute: self.compute.mul_floor(remaining.compute),
            witness: self.storage.mul_floor(remaining.witness),
        };
        let mut meter = BudgetMeter::from_limit(limit);
        let proof_size = self.waste_at_most_proof_size(&mut meter);
        let ref_time = self.waste_at_most_ref_time(&mut meter);
        IdleWaste { consumed: overhead.saturating_add(meter.consumed()), proof_size, ref_time }
    }

    /// The idle hook: wastes the configured fractions of what a slot has
    /// left and returns the total that it reserved.
    ///
    /// This is [`Pallet::waste`] without the account of the work.
    pub fn on_idle(&self, remaining_weight: ResourceVector) -> (consumed: ResourceVector)
        ensures
            consumed == self.spec_on_idle(remaining_weight),
            self.spec_weights().empty_on_idle.all_lte(remaining_weight) ==> consumed.all_lte(
                remaining_weight,
            ),
            !self.spec_weights().empty_on_idle.all_lte(remaining_weight) ==> consumed
                == self.spec_weights().empty_on_idle,
    {
        self.waste(remaining_weight).consumed
    }
}

/// While the table has entries, every key that the witness phase looks up is
/// present; in an empty table none is.
pub proof fn lemma_lookup_key_is_present(table: TrashTable, i: u64)
    requires
        table.wf(),
    ensures
        table@.contains_key(lookup_key(i, table.spec_len())) <==> table.spec_len() != 0,
{
    let len = table.spec_len();
    if len != 0 {
        assert(((i as nat) % len) < len) by (nonlinear_arith)
            requires
                len > 0,
        ;
    }
}

} // verus!
