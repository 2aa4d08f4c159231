//! The counting permit pool that bounds concurrent handler invocations for
//! one listener.

use vstd::prelude::*;

verus! {

/// What one attempt to take a permit yields. The pool never blocks: when it
/// is exhausted the caller is told to wait, and the runtime suspends that one
/// task until a permit is released.
#[derive(Clone, Copy, PartialEq, Eq, Structural, Debug)]
pub enum AcquireStep {
    /// A permit was taken; the available count went down by one.
    Granted,
    /// No permit is available; nothing changed, the caller must wait.
    MustWait,
    /// The pool was torn down while the caller was asking; nothing changed.
    Closed,
}

/// A counting permit pool: fixed capacity, an available count between zero
/// and that capacity, mutated only by acquisition and release. Created once
/// with its listener and never resized.
pub struct Limiter {
    pub capacity: usize,
    pub available: usize,
    pub closed: bool,
}

impl Limiter {
    /// A pool is well formed when its capacity is at least one and no more
    /// permits are available than the pool was created with.
    pub open spec fn wf(self) -> bool {
        1 <= self.capacity && self.available <= self.capacity
    }

    /// How many permits are currently out: one per handler invocation that
    /// has been dispatched and has not yet released its permit.
    pub open spec fn in_flight(self) -> int {
        self.capacity - self.available
    }

    /// A fresh pool with every permit available.
    pub fn new(capacity: usize) -> (r: Limiter)
        requires
            1 <= capacity,
        ensures
            r.wf(),
            r.capacity == capacity,
            r.available == capacity,
            !r.closed,
    {
        Limiter { capacity, available: capacity, closed: false }
    }

    /// One attempt to take a permit. Grants and decrements when a permit is
    /// available, asks the caller to wait when none is, and reports a closed
    /// pool without touching anything.
    pub fn acquire_step(&mut self) -> (r: AcquireStep)
        requires
            old(self).wf(),
        ensures
            final(self).wf(),
            final(self).capacity == old(self).capacity,
            final(self).closed == old(self).closed,
            (r == AcquireStep::Closed) <==> old(self).closed,
            (r == AcquireStep::Granted) <==> (!old(self).closed && old(self).available > 0),
            (r == AcquireStep::MustWait) <==> (!old(self).closed && old(self).available == 0),
            r == AcquireStep::Granted ==> final(self).available == old(self).available - 1,
            r != AcquireStep::Granted ==> final(self).available == old(self).available,
    {
        if self.closed {
            AcquireStep::Closed
        } else if self.available > 0 {
            self.available = self.available - 1;
            AcquireStep::Granted
        } else {
            AcquireStep::MustWait
        }
    }

    /// Gives one permit back. Callable exactly once per granted permit, so a
    /// permit must be out when it is called.
    pub fn release(&mut self)
        requires
            old(self).wf(),
            old(self).in_flight() > 0,
        ensures
            final(self).wf(),
            final(self).capacity == old(self).capacity,
            final(self).closed == old(self).closed,
            final(self).available == old(self).available + 1,
            final(self).in_flight() == old(self).in_flight() - 1,
    {
        self.available = self.available + 1;
    }

    /// Tears the pool down: every later acquisition attempt reports `Closed`.
    pub fn close(&mut self)
        requires
            old(self).wf(),
        ensures
            final(self).wf(),
            final(self).capacity == old(self).capacity,
            final(self).available == old(self).available,
            final(self).closed,
    {
        self.closed = true;
    }
}

/// Law: a pool of capacity K never has more than K permits out, whatever the
/// arrival pattern. Acquisition and release keep a pool well formed, so this
/// bound holds in every reachable state.
pub proof fn lemma_concurrency_bounded(l: Limiter)
    requires
        l.wf(),
    ensures
        0 <= l.in_flight() <= l.capacity,
{
}

} // verus!
