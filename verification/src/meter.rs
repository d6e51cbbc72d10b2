//! The budget meter: a fixed limit and what has been reserved against it.

use crate::weight::ResourceVector;
use vstd::prelude::*;

verus! {

/// Accounts for reservations against a fixed limit.
///
/// What has been consumed never exceeds the limit in either dimension: a
/// reservation that would is refused as a whole.
#[derive(Clone, Copy, Debug)]
pub struct BudgetMeter {
    limit: ResourceVector,
    consumed: ResourceVector,
}

impl BudgetMeter {
    /// The limit that the meter was made with.
    pub closed spec fn spec_limit(self) -> ResourceVector {
        self.limit
    }

    /// The sum of all reservations made so far.
    pub closed spec fn spec_consumed(self) -> ResourceVector {
        self.consumed
    }

    /// Whether the consumed amount is within the limit in both dimensions.
    /// Every meter that executable code holds is.
    #[verifier::type_invariant]
    pub open spec fn wf(self) -> bool {
        self.spec_consumed().all_lte(self.spec_limit())
    }

    /// What is left of the limit.
    pub open spec fn spec_remaining(self) -> ResourceVector {
        self.spec_limit().saturating_sub(self.spec_consumed())
    }

    /// Whether `amount` fits in what is left, in both dimensions.
    pub open spec fn spec_can_reserve(self, amount: ResourceVector) -> bool {
        amount.all_lte(self.spec_remaining())
    }

    /// A meter with the given limit and nothing consumed.
    pub fn from_limit(limit: ResourceVector) -> (meter: BudgetMeter)
        ensures
            meter.spec_limit() == limit,
            meter.spec_consumed() == ResourceVector::spec_zero(),
            meter.wf(),
    {
        BudgetMeter { limit, consumed: ResourceVector { compute: 0, witness: 0 } }
    }

    /// The limit.
    #[verifier::when_used_as_spec(spec_limit)]
    pub fn limit(self) -> (v: ResourceVector)
        ensures
            v == self.spec_limit(),
    {
        self.limit
    }

    /// The amount consumed so far.
    #[verifier::when_used_as_spec(spec_consumed)]
    pub fn consumed(self) -> (v: ResourceVector)
        ensures
            v == self.spec_consumed(),
            v.all_lte(self.spec_limit()),
    {
        proof {
            use_type_invariant(&self);
        }
        self.consumed
    }

    /// The limit less the amount consumed.
    #[verifier::when_used_as_spec(spec_remaining)]
    pub fn remaining(self) -> (v: ResourceVector)
        ensures
            v == self.spec_remaining(),
    {
        self.limit.saturating_sub(self.consumed)
    }

    /// Whether `amount` can be reserved: it is at most the remaining budget
    /// in both dimensions.
    #[verifier::when_used_as_spec(spec_can_reserve)]
    pub fn can_reserve(self, amount: ResourceVector) -> (ok: bool)
        ensures
            ok == self.spec_can_reserve(amount),
    {
        amount.all_lte(self.remaining())
    }

    /// Reserves `amount` if it fits, and says whether it did.
    ///
    /// On success the amount is added to what was consumed; otherwise the
    /// meter is left as it was. The limit never changes.
    pub fn reserve(&mut self, amount: ResourceVector) -> (ok: bool)
        ensures
            ok == old(self).spec_can_reserve(amount),
            final(self).spec_limit() == old(self).spec_limit(),
            ok ==> final(self).spec_consumed() == old(self).spec_consumed().saturating_add(amount),
            ok ==> final(self).spec_consumed().compute == old(self).spec_consumed().compute
                + amount.compute,
            ok ==> final(self).spec_consumed().witness == old(self).spec_consumed().witness
                + amount.witness,
            !ok ==> *final(self) == *old(self),
            final(self).wf(),
    {
        proof {
            use_type_invariant(&*self);
        }
        if self.can_reserve(amount) {
            self.consumed = self.consumed.saturating_add(amount);
            true
        } else {
            false
        }
    }
}

} // verus!
