//! Regular-gas accounting of a precompile call.
use vstd::prelude::*;

verus! {

/// Regular-gas counter of a precompile call: a fixed limit and the gas that
/// is still left. Charging a cost either deducts it in full or, when the cost
/// exceeds what is left, fails and leaves the counter as it was.
pub struct GasCounter {
    limit: u64,
    remaining: u64,
}

impl GasCounter {
    #[verifier::type_invariant]
    spec fn inv(self) -> bool {
        self.remaining <= self.limit
    }

    /// The gas limit the counter was created with.
    pub closed spec fn spec_limit(self) -> u64 {
        self.limit
    }

    /// The regular gas that is still available.
    pub closed spec fn spec_remaining(self) -> u64 {
        self.remaining
    }

    /// Gas consumed so far.
    pub open spec fn spec_used(self) -> int {
        self.spec_limit() - self.spec_remaining()
    }

    /// A fresh counter with `limit` gas available.
    pub fn new(limit: u64) -> (g: Self)
        ensures
            g.spec_limit() == limit,
            g.spec_remaining() == limit,
    {
        GasCounter { limit, remaining: limit }
    }

    /// Charges `cost` regular gas. Succeeds exactly when at least `cost` gas
    /// is left; on failure nothing is charged.
    pub fn record_regular_cost(&mut self, cost: u64) -> (ok: bool)
        ensures
            ok == (cost <= old(self).spec_remaining()),
            final(self).spec_remaining() <= final(self).spec_limit(),
            final(self).spec_limit() == old(self).spec_limit(),
            ok ==> final(self).spec_remaining() == old(self).spec_remaining() - cost,
            !ok ==> final(self).spec_remaining() == old(self).spec_remaining(),
    {
        proof { use_type_invariant(&*self); }
        if cost <= self.remaining {
            self.remaining = self.remaining - cost;
            true
        } else {
            false
        }
    }

    /// Gas consumed so far: the limit minus what is left.
    pub fn used(&self) -> (u: u64)
        ensures
            u == self.spec_used(),
            u <= self.spec_limit(),
    {
        proof { use_type_invariant(self); }
        self.limit - self.remaining
    }
}

} // verus!
