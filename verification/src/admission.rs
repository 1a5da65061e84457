//! Bounded admission control: a process-wide pool of execution slots that
//! caps how many downloader subprocesses may run at once. Acquisition is
//! non-blocking; backpressure is pushed to the caller.

use vstd::prelude::*;

verus! {

/// An execution slot may be granted when fewer than `capacity` are held.
pub open spec fn can_admit(capacity: nat, in_use: nat) -> bool {
    in_use < capacity
}

/// Slots held after one acquisition attempt, and whether it succeeded.
pub open spec fn spec_try_acquire(capacity: nat, in_use: nat) -> (nat, bool) {
    if can_admit(capacity, in_use) {
        ((in_use + 1) as nat, true)
    } else {
        (in_use, false)
    }
}

/// An opaque capability standing for one concurrent execution slot. Owned
/// exclusively by the request that acquired it until returned; never cloned.
pub struct AdmissionToken {
    slot: (),
}

/// A counting pool of execution slots with a fixed capacity. There is no
/// internal queue: a request that finds the pool saturated is rejected
/// immediately.
pub struct AdmissionController {
    capacity: usize,
    in_use: usize,
}

impl AdmissionController {
    pub closed spec fn capacity(&self) -> nat {
        self.capacity as nat
    }

    pub closed spec fn in_use(&self) -> nat {
        self.in_use as nat
    }

    /// Never more slots held than the configured capacity.
    pub open spec fn wf(&self) -> bool {
        self.in_use() <= self.capacity()
    }

    /// A pool with `capacity` free slots and none held.
    pub fn new(capacity: usize) -> (c: AdmissionController)
        ensures
            c.wf(),
            c.capacity() == capacity as nat,
            c.in_use() == 0,
    {
        AdmissionController { capacity, in_use: 0 }
    }

    /// Grant a slot when one is free, without blocking; a saturated pool
    /// rejects the caller and is left unchanged.
    pub fn try_acquire(&mut self) -> (r: Option<AdmissionToken>)
        requires
            old(self).wf(),
        ensures
            final(self).wf(),
            final(self).capacity() == old(self).capacity(),
            final(self).in_use() == spec_try_acquire(old(self).capacity(), old(self).in_use()).0,
            r is Some == spec_try_acquire(old(self).capacity(), old(self).in_use()).1,
    {
        if self.in_use < self.capacity {
            self.in_use = self.in_use + 1;
            Some(AdmissionToken { slot: () })
        } else {
            None
        }
    }

    /// Return a slot. The token is consumed; the slot becomes available to
    /// the next acquisition attempt.
    pub fn release(&mut self, token: AdmissionToken)
        requires
            old(self).wf(),
            old(self).in_use() >= 1,
        ensures
            final(self).wf(),
            final(self).capacity() == old(self).capacity(),
            final(self).in_use() == old(self).in_use() - 1,
    {
        let AdmissionToken { slot: _ } = token;
        self.in_use = self.in_use - 1;
    }
}

/// With all slots held, the next acquisition is rejected and grants nothing,
/// so no more than `capacity` subprocesses ever hold a slot at once.
pub proof fn lemma_saturated_pool_rejects(capacity: nat, in_use: nat)
    requires
        in_use == capacity,
    ensures
        !spec_try_acquire(capacity, in_use).1,
        spec_try_acquire(capacity, in_use).0 == in_use,
{
}

/// Completing one job at saturation frees exactly one slot: the next
/// acquisition succeeds and the one after it is rejected again.
pub proof fn lemma_release_admits_exactly_one(capacity: nat)
    requires
        capacity >= 1,
    ensures
        ({
            let after_release = (capacity - 1) as nat;
            let (held1, ok1) = spec_try_acquire(capacity, after_release);
            let (held2, ok2) = spec_try_acquire(capacity, held1);
            ok1 && !ok2 && held1 == capacity && held2 == capacity
        }),
{
}

} // verus!
