//! Resource vectors: a cost or a budget in both tracked dimensions at once.

use crate::fraction::Fraction;
use vstd::prelude::*;

verus! {

/// A pair of magnitudes: compute-time units and witness-size units.
///
/// All arithmetic on resource vectors is component-wise and saturating: a sum
/// or a product that would leave the range of `u64` is clamped to `u64::MAX`,
/// and a difference that would fall below zero is clamped to zero.
#[derive(Clone, Copy, Debug, PartialEq, Eq, Structural)]
pub struct ResourceVector {
    /// Compute-time units.
    pub compute: u64,
    /// Witness-size units.
    pub witness: u64,
}

/// `a + b`, clamped to the largest `u64`.
pub open spec fn sat_add(a: u64, b: u64) -> u64 {
    if a + b > u64::MAX {
        u64::MAX
    } else {
        (a + b) as u64
    }
}

/// `a - b`, clamped to zero.
pub open spec fn sat_sub(a: u64, b: u64) -> u64 {
    if a < b {
        0
    } else {
        (a - b) as u64
    }
}

/// `a * b`, clamped to the largest `u64`.
pub open spec fn sat_mul(a: u64, b: u64) -> u64 {
    if a * b > u64::MAX {
        u64::MAX
    } else {
        (a * b) as u64
    }
}

/// `a * b`, or `u64::MAX` where the product does not fit.
fn mul_clamped(a: u64, b: u64) -> (p: u64)
    ensures
        p == sat_mul(a, b),
{
    match a.checked_mul(b) {
        Some(p) => p,
        None => u64::MAX,
    }
}

impl ResourceVector {
    /// The vector with the given components.
    pub fn new(compute: u64, witness: u64) -> (v: ResourceVector)
        ensures
            v == (ResourceVector { compute, witness }),
    {
        ResourceVector { compute, witness }
    }

    /// The vector that is zero in both dimensions.
    pub fn zero() -> (v: ResourceVector)
        ensures
            v == ResourceVector::spec_zero(),
    {
        ResourceVector { compute: 0, witness: 0 }
    }

    /// The vector that is zero in both dimensions.
    pub open spec fn spec_zero() -> ResourceVector {
        ResourceVector { compute: 0, witness: 0 }
    }

    /// Whether both components are zero.
    pub open spec fn spec_is_zero(self) -> bool {
        self.compute == 0 && self.witness == 0
    }

    /// Whether both components are zero.
    #[verifier::when_used_as_spec(spec_is_zero)]
    pub fn is_zero(self) -> (b: bool)
        ensures
            b == self.spec_is_zero(),
    {
        self.compute == 0 && self.witness == 0
    }

    /// Component-wise sum, each component clamped to `u64::MAX`.
    pub open spec fn spec_saturating_add(self, rhs: ResourceVector) -> ResourceVector {
        ResourceVector {
            compute: sat_add(self.compute, rhs.compute),
            witness: sat_add(self.witness, rhs.witness),
        }
    }

    /// Component-wise sum, each component clamped to `u64::MAX`.
    #[verifier::when_used_as_spec(spec_saturating_add)]
    pub fn saturating_add(self, rhs: ResourceVector) -> (v: ResourceVector)
        ensures
            v == self.spec_saturating_add(rhs),
    {
        ResourceVector {
            compute: self.compute.saturating_add(rhs.compute),
            witness: self.witness.saturating_add(rhs.witness),
        }
    }

    /// Component-wise difference, each component clamped to zero.
    pub open spec fn spec_saturating_sub(self, rhs: ResourceVector) -> ResourceVector {
        ResourceVector {
            compute: sat_sub(self.compute, rhs.compute),
            witness: sat_sub(self.witness, rhs.witness),
        }
    }

    /// Component-wise difference, each component clamped to zero.
    #[verifier::when_used_as_spec(spec_saturating_sub)]
    pub fn saturating_sub(self, rhs: ResourceVector) -> (v: ResourceVector)
        ensures
            v == self.spec_saturating_sub(rhs),
    {
        ResourceVector {
            compute: self.compute.saturating_sub(rhs.compute),
            witness: self.witness.saturating_sub(rhs.witness),
        }
    }

    /// Both components times `scalar`, each clamped to `u64::MAX`.
    pub open spec fn spec_saturating_mul(self, scalar: u64) -> ResourceVector {
        ResourceVector {
            compute: sat_mul(self.compute, scalar),
            witness: sat_mul(self.witness, scalar),
        }
    }

    /// Both components times `scalar`, each clamped to `u64::MAX`.
    #[verifier::when_used_as_spec(spec_saturating_mul)]
    pub fn saturating_mul(self, scalar: u64) -> (v: ResourceVector)
        ensures
            v == self.spec_saturating_mul(scalar),
    {
        ResourceVector {
            compute: mul_clamped(self.compute, scalar),
            witness: mul_clamped(self.witness, scalar),
        }
    }

    /// The exact component-wise sum, or nothing where a component would
    /// exceed `u64::MAX`.
    pub open spec fn spec_checked_add(self, rhs: ResourceVector) -> Option<ResourceVector> {
        if self.compute + rhs.compute > u64::MAX || self.witness + rhs.witness > u64::MAX {
            None
        } else {
            Some(
                ResourceVector {
                    compute: (self.compute + rhs.compute) as u64,
                    witness: (self.witness + rhs.witness) as u64,
                },
            )
        }
    }

    /// The exact component-wise sum, or nothing where a component would
    /// exceed `u64::MAX`.
    #[verifier::when_used_as_spec(spec_checked_add)]
    pub fn checked_add(self, rhs: ResourceVector) -> (v: Option<ResourceVector>)
        ensures
            v == self.spec_checked_add(rhs),
    {
        match (self.compute.checked_add(rhs.compute), self.witness.checked_add(rhs.witness)) {
            (Some(compute), Some(witness)) => Some(ResourceVector { compute, witness }),
            _ => None,
        }
    }

    /// The exact component-wise difference, or nothing where a component
    /// would fall below zero.
    pub open spec fn spec_checked_sub(self, rhs: ResourceVector) -> Option<ResourceVector> {
        if self.compute < rhs.compute || self.witness < rhs.witness {
            None
        } else {
            Some(
                ResourceVector {
                    compute: (self.compute - rhs.compute) as u64,
                    witness: (self.witness - rhs.witness) as u64,
                },
            )
        }
    }

    /// The exact component-wise difference, or nothing where a component
    /// would fall below zero.
    #[verifier::when_used_as_spec(spec_checked_sub)]
    pub fn checked_sub(self, rhs: ResourceVector) -> (v: Option<ResourceVector>)
        ensures
            v == self.spec_checked_sub(rhs),
    {
        match (self.compute.checked_sub(rhs.compute), self.witness.checked_sub(rhs.witness)) {
            (Some(compute), Some(witness)) => Some(ResourceVector { compute, witness }),
            _ => None,
        }
    }

    /// The given fraction of both components, each rounded down.
    pub fn mul_floor(self, fraction: Fraction) -> (v: ResourceVector)
        ensures
            v.compute == fraction.spec_mul_floor(self.compute),
            v.witness == fraction.spec_mul_floor(self.witness),
            v.all_lte(self),
    {
        ResourceVector {
            compute: fraction.mul_floor(self.compute),
            witness: fraction.mul_floor(self.witness),
        }
    }

    /// Whether `self` is at most `other` in both dimensions.
    pub open spec fn spec_all_lte(self, other: ResourceVector) -> bool {
        self.compute <= other.compute && self.witness <= other.witness
    }

    /// Whether `self` is at most `other` in both dimensions.
    #[verifier::when_used_as_spec(spec_all_lte)]
    pub fn all_lte(self, other: ResourceVector) -> (b: bool)
        ensures
            b == self.spec_all_lte(other),
    {
        self.compute <= other.compute && self.witness <= other.witness
    }
}

} // verus!
