//! The connection admission pool: a counting permit pool that bounds the
//! number of concurrently active connections.
//!
//! A permit is drawn when a connection is admitted and given back exactly
//! once, when that connection's handler terminates. The pool's capacity is
//! fixed at construction; the number of outstanding permits never exceeds
//! it.

use vstd::prelude::*;

verus! {

/// The permit pool. `capacity` is the configured maximum of concurrent
/// clients; `available` is the number of permits not currently held.
pub struct AdmissionPool {
    pub capacity: u64,
    pub available: u64,
}

/// What acquiring does: a permit is granted exactly when one is available,
/// and a granted permit lowers the available count by one.
pub open spec fn acquire_spec(pool: AdmissionPool) -> (bool, AdmissionPool) {
    if pool.available > 0 {
        (true, AdmissionPool { capacity: pool.capacity, available: (pool.available - 1) as u64 })
    } else {
        (false, pool)
    }
}

/// What releasing does: the permit returns to the pool.
pub open spec fn release_spec(pool: AdmissionPool) -> AdmissionPool {
    AdmissionPool { capacity: pool.capacity, available: (pool.available + 1) as u64 }
}

impl AdmissionPool {
    /// The pool never hands out more permits than its capacity, so the
    /// available count never exceeds it either.
    pub open spec fn wf(self) -> bool {
        self.available <= self.capacity
    }

    /// Permits currently held by connections.
    pub open spec fn outstanding(self) -> int {
        self.capacity - self.available
    }

    /// A fresh pool of the configured size, with every permit available.
    pub fn new(max_clients: u16) -> (pool: AdmissionPool)
        ensures
            pool.wf(),
            pool.capacity == max_clients,
            pool.available == max_clients,
            pool.outstanding() == 0,
    {
        AdmissionPool { capacity: max_clients as u64, available: max_clients as u64 }
    }

    /// Try to draw a permit. The attempt succeeds exactly when a permit is
    /// available, that is, when fewer than `capacity` permits are
    /// outstanding; a caller that must suspend retries once a permit has
    /// been released.
    pub fn try_acquire(&mut self) -> (granted: bool)
        requires
            old(self).wf(),
        ensures
            final(self).wf(),
            granted == acquire_spec(*old(self)).0,
            *final(self) == acquire_spec(*old(self)).1,
            granted <==> old(self).outstanding() < old(self).capacity,
            granted ==> final(self).outstanding() == old(self).outstanding() + 1,
            !granted ==> *final(self) == *old(self),
            final(self).capacity == old(self).capacity,
    {
        if self.available > 0 {
            self.available = self.available - 1;
            true
        } else {
            false
        }
    }

    /// Give a permit back. Exactly one release is owed for each granted
    /// permit, on every exit path of its holder.
    pub fn release(&mut self)
        requires
            old(self).wf(),
            old(self).outstanding() > 0,
        ensures
            final(self).wf(),
            *final(self) == release_spec(*old(self)),
            final(self).outstanding() == old(self).outstanding() - 1,
            final(self).capacity == old(self).capacity,
    {
        self.available = self.available + 1;
    }

    /// How many permits are currently available.
    pub fn permits_available(&self) -> (n: u64)
        ensures
            n == self.available,
    {
        self.available
    }
}

/// Admission bound: in every well-formed pool state, the number of
/// outstanding permits is at most the pool's capacity. Since construction
/// establishes well-formedness and every operation preserves it, no run of
/// acquisitions and releases ever exceeds the bound.
pub proof fn lemma_admission_bound(pool: AdmissionPool)
    requires
        pool.wf(),
    ensures
        0 <= pool.outstanding() <= pool.capacity,
{
}

/// Release restores the baseline: a granted acquisition followed by its
/// release leaves the pool exactly as it was, so availability returns to
/// baseline after each handler terminates.
pub proof fn lemma_release_restores(pool: AdmissionPool)
    requires
        pool.wf(),
        pool.available > 0,
    ensures
        acquire_spec(pool).0,
        release_spec(acquire_spec(pool).1) == pool,
{
}

} // verus!
