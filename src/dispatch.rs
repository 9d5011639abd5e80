//! Admission to the database worker pool: a fixed number of workers each run
//! one operation at a time, and the operations waiting or running are bounded;
//! past the bound a dispatch is rejected rather than queued.

use vstd::prelude::*;

verus! {

/// The number of database workers a server starts with.
pub const DEFAULT_WORKER_COUNT: usize = 2;

/// The number of database operations a server lets wait or run at once.
pub const DEFAULT_QUEUE_DEPTH: usize = 1024;

/// Why a database operation was not dispatched.
#[derive(Clone, Copy, Debug, PartialEq, Eq, Structural)]
pub enum DispatchError {
    /// As many operations as the bound allows are already waiting or running.
    Overloaded,
}

/// Counts the database operations dispatched and not yet completed, against
/// a fixed bound.
#[derive(Debug)]
pub struct DispatchGate {
    in_flight: usize,
    capacity: usize,
}

impl DispatchGate {
    /// Operations dispatched and not yet completed.
    pub closed spec fn pending(self) -> nat {
        self.in_flight as nat
    }

    /// The most operations that may be pending at once.
    pub closed spec fn bound(self) -> nat {
        self.capacity as nat
    }

    #[verifier::type_invariant]
    spec fn within_bound(self) -> bool {
        self.in_flight <= self.capacity
    }

    /// A gate with nothing pending that admits up to `capacity` operations.
    pub fn new(capacity: usize) -> (r: DispatchGate)
        ensures
            r.pending() == 0,
            r.bound() == capacity,
    {
        DispatchGate { in_flight: 0, capacity }
    }

    /// Operations dispatched and not yet completed.
    pub fn in_flight(&self) -> (r: usize)
        ensures
            r == self.pending(),
            r <= self.bound(),
    {
        proof {
            use_type_invariant(self);
        }
        self.in_flight
    }

    /// The bound on pending operations.
    pub fn capacity(&self) -> (r: usize)
        ensures
            r == self.bound(),
    {
        self.capacity
    }

    /// Admits one more operation if the bound allows it.
    pub fn try_admit(&mut self) -> (r: Result<(), DispatchError>)
        ensures
            final(self).pending() <= final(self).bound(),
            final(self).bound() == old(self).bound(),
            old(self).pending() < old(self).bound() ==> r is Ok && final(self).pending()
                == old(self).pending() + 1,
            old(self).pending() >= old(self).bound() ==> r == Err::<(), _>(
                DispatchError::Overloaded,
            ) && final(self).pending() == old(self).pending(),
    {
        proof {
            use_type_invariant(&*self);
        }
        if self.in_flight < self.capacity {
            self.in_flight = self.in_flight + 1;
            Ok(())
        } else {
            Err(DispatchError::Overloaded)
        }
    }

    /// Records that one admitted operation finished, freeing its place. With
    /// nothing pending it changes nothing.
    pub fn complete(&mut self)
        ensures
            final(self).pending() <= final(self).bound(),
            final(self).bound() == old(self).bound(),
            old(self).pending() > 0 ==> final(self).pending() == old(self).pending() - 1,
            old(self).pending() == 0 ==> final(self).pending() == 0,
    {
        proof {
            use_type_invariant(&*self);
        }
        if self.in_flight > 0 {
            self.in_flight = self.in_flight - 1;
        }
    }
}

} // verus!
