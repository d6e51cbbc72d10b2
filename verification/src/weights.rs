//! The calibrated cost table that the governor is built with.

use crate::cost::CostModel;
use crate::weight::{sat_add, sat_mul, ResourceVector};
use vstd::prelude::*;

verus! {

/// What one read and one write of the host's database cost in compute time.
#[derive(Clone, Copy, Debug, PartialEq, Eq, Structural)]
pub struct RuntimeDbWeight {
    /// Compute time of one read.
    pub read: u64,
    /// Compute time of one write.
    pub write: u64,
}

impl RuntimeDbWeight {
    /// The cost of `r` reads.
    pub open spec fn spec_reads(self, r: u64) -> ResourceVector {
        ResourceVector { compute: sat_mul(self.read, r), witness: 0 }
    }

    /// The cost of `w` writes.
    pub open spec fn spec_writes(self, w: u64) -> ResourceVector {
        ResourceVector { compute: sat_mul(self.write, w), witness: 0 }
    }

    /// The cost of `r` reads: compute time only, saturating.
    #[verifier::when_used_as_spec(spec_reads)]
    pub fn reads(self, r: u64) -> (v: ResourceVector)
        ensures
            v == self.spec_reads(r),
    {
        ResourceVector { compute: self.read, witness: 0 }.saturating_mul(r)
    }

    /// The cost of `w` writes: compute time only, saturating.
    #[verifier::when_used_as_spec(spec_writes)]
    pub fn writes(self, w: u64) -> (v: ResourceVector)
        ensures
            v == self.spec_writes(w),
    {
        ResourceVector { compute: self.write, witness: 0 }.saturating_mul(w)
    }
}

/// The cost table of the governor: one cost model for each primitive that it
/// repeats, and the fixed costs of an invocation.
#[derive(Clone, Copy, Debug, PartialEq, Eq, Structural)]
pub struct WeightInfo {
    /// One round of the compute-burning digest.
    pub waste_ref_time_iter: CostModel,
    /// One read of a trash entry that is present.
    pub waste_proof_size_some: CostModel,
    /// One read of a trash entry that is absent.
    pub waste_proof_size_none: CostModel,
    /// Reading the two configured fractions.
    pub read_limits: ResourceVector,
    /// A whole invocation as it was measured, for the host's own accounting.
    pub on_idle: ResourceVector,
    /// The fixed overhead of an invocation that wastes nothing.
    pub empty_on_idle: ResourceVector,
}

impl WeightInfo {
    /// Whether every primitive that is repeated in a loop has a slope that is
    /// not zero in its own dimension.
    pub open spec fn spec_integrity(self) -> bool {
        &&& self.waste_ref_time_iter.slope.compute != 0
        &&& self.waste_proof_size_some.slope.witness != 0
        &&& self.waste_proof_size_none.slope.witness != 0
    }

    /// Checks the table once, before it is used: every repeated primitive
    /// must have a non-zero slope in its own dimension.
    #[verifier::when_used_as_spec(spec_integrity)]
    pub fn integrity(self) -> (ok: bool)
        ensures
            ok == self.spec_integrity(),
    {
        self.waste_ref_time_iter.slope.compute != 0 && self.waste_proof_size_some.slope.witness
            != 0 && self.waste_proof_size_none.slope.witness != 0
    }
}

/// The reference calibration, measured on the recommended hardware.
#[derive(Clone, Copy, Debug, PartialEq, Eq, Structural)]
pub struct SubstrateWeight {
    /// The database costs of the host that the table is made for.
    pub db_weight: RuntimeDbWeight,
}

impl SubstrateWeight {
    pub open spec fn spec_waste_ref_time_iter(self) -> CostModel {
        CostModel {
            base: ResourceVector::spec_zero(),
            slope: ResourceVector { compute: 7_696_066_000, witness: 0 },
        }
    }

    pub open spec fn spec_waste_proof_size_some(self) -> CostModel {
        CostModel {
            base: ResourceVector::spec_zero(),
            slope: ResourceVector {
                compute: sat_add(14_549_000, sat_mul(self.db_weight.read, 1)),
                witness: 2499,
            },
        }
    }

    pub open spec fn spec_waste_proof_size_none(self) -> CostModel {
        CostModel {
            base: ResourceVector::spec_zero(),
            slope: ResourceVector {
                compute: sat_add(3_157_000, sat_mul(self.db_weight.read, 1)),
                witness: 2499,
            },
        }
    }

    pub open spec fn spec_read_limits(self) -> ResourceVector {
        ResourceVector {
            compute: sat_add(3_434_000, sat_mul(self.db_weight.read, 2)),
            witness: 998,
        }
    }

    pub open spec fn spec_on_idle(self) -> ResourceVector {
        ResourceVector {
            compute: sat_add(24_680_302_000, sat_mul(self.db_weight.read, 2099)),
            witness: 5_241_401,
        }
    }

    pub open spec fn spec_empty_on_idle(self) -> ResourceVector {
        ResourceVector { compute: 457_000, witness: 0 }
    }

    /// The whole table.
    pub open spec fn spec_weight_info(self) -> WeightInfo {
        WeightInfo {
            waste_ref_time_iter: self.spec_waste_ref_time_iter(),
            waste_proof_size_some: self.spec_waste_proof_size_some(),
            waste_proof_size_none: self.spec_waste_proof_size_none(),
            read_limits: self.spec_read_limits(),
            on_idle: self.spec_on_idle(),
            empty_on_idle: self.spec_empty_on_idle(),
        }
    }

    /// One round of the digest: 7.7 ms of compute time, no witness.
    #[verifier::when_used_as_spec(spec_waste_ref_time_iter)]
    pub fn waste_ref_time_iter(self) -> (m: CostModel)
        ensures
            m == self.spec_waste_ref_time_iter(),
    {
        CostModel { base: ResourceVector::zero(), slope: ResourceVector::new(7_696_066_000, 0) }
    }

    /// One read of a present entry: its own compute time and one database
    /// read, and 2499 bytes of witness.
    #[verifier::when_used_as_spec(spec_waste_proof_size_some)]
    pub fn waste_proof_size_some(self) -> (m: CostModel)
        ensures
            m == self.spec_waste_proof_size_some(),
    {
        CostModel {
            base: ResourceVector::zero(),
            slope: ResourceVector::new(14_549_000, 2499).saturating_add(self.db_weight.reads(1)),
        }
    }

    /// One read of an absent entry: its own compute time and one database
    /// read, and 2499 bytes of witness.
    #[verifier::when_used_as_spec(spec_waste_proof_size_none)]
    pub fn waste_proof_size_none(self) -> (m: CostModel)
        ensures
            m == self.spec_waste_proof_size_none(),
    {
        CostModel {
            base: ResourceVector::zero(),
            slope: ResourceVector::new(3_157_000, 2499).saturating_add(self.db_weight.reads(1)),
        }
    }

    /// Reading both configured fractions: two database reads.
    #[verifier::when_used_as_spec(spec_read_limits)]
    pub fn read_limits(self) -> (v: ResourceVector)
        ensures
            v == self.spec_read_limits(),
    {
        ResourceVector::new(3_434_000, 998).saturating_add(self.db_weight.reads(2))
    }

    /// A whole measured invocation: 2099 database reads.
    #[verifier::when_used_as_spec(spec_on_idle)]
    pub fn on_idle(self) -> (v: ResourceVector)
        ensures
            v == self.spec_on_idle(),
    {
        ResourceVector::new(24_680_302_000, 5_241_401).saturating_add(self.db_weight.reads(2099))
    }

    /// An invocation that wastes nothing.
    #[verifier::when_used_as_spec(spec_empty_on_idle)]
    pub fn empty_on_idle(self) -> (v: ResourceVector)
        ensures
            v == self.spec_empty_on_idle(),
    {
        ResourceVector::new(457_000, 0)
    }

    /// The table that the governor takes.
    #[verifier::when_used_as_spec(spec_weight_info)]
    pub fn weight_info(self) -> (table: WeightInfo)
        ensures
            table == self.spec_weight_info(),
            table.spec_integrity(),
    {
        WeightInfo {
            waste_ref_time_iter: self.waste_ref_time_iter(),
            waste_proof_size_some: self.waste_proof_size_some(),
            waste_proof_size_none: self.waste_proof_size_none(),
            read_limits: self.read_limits(),
            on_idle: self.on_idle(),
            empty_on_idle: self.empty_on_idle(),
        }
    }
}

} // verus!
