//! Handler capabilities and the immutable binding of one handler to its
//! exchange and its permit pool.

use vstd::prelude::*;
use crate::limiter::Limiter;
use crate::message::Delivery;
use crate::outcome::Outcome;

verus! {

/// Tags a value as publishable: it knows the exchange it is sent on.
/// Application code implements this for its payload types.
pub trait BrokerPublish {
    /// The exchange this value is published on.
    fn exchange_name(&self) -> &'static str;
}

/// A message handler that application code plugs into the broker.
pub trait BrokerListener {
    /// The exchange whose deliveries this handler consumes.
    fn exchange_name(&self) -> &'static str;

    /// Upper bound on invocations of `consume` running concurrently for this
    /// handler; one unless the implementation says otherwise.
    fn max_concurrent_tasks(&self) -> (r: usize)
        ensures
            r >= 1,
    {
        1
    }

    /// Processes one delivery and reports the acknowledgement owed for it.
    fn consume(&self, delivery: &Delivery) -> Outcome;
}

/// One registered listener: the exchange it consumes and the permit pool
/// bounding its concurrent handler tasks. Built at registration time and,
/// but for the pool's available count, immutable thereafter.
pub struct Listener {
    pub exchange_name: String,
    pub limiter: Limiter,
}

impl Listener {
    pub open spec fn wf(self) -> bool {
        self.limiter.wf()
    }

    /// The binding for a handler of the given exchange and concurrency
    /// bound: a fresh, fully available pool of that capacity.
    pub fn with_binding(exchange_name: String, max_concurrent_tasks: usize) -> (r: Listener)
        requires
            1 <= max_concurrent_tasks,
        ensures
            r.wf(),
            r.exchange_name == exchange_name,
            r.limiter.capacity == max_concurrent_tasks,
            r.limiter.available == max_concurrent_tasks,
            !r.limiter.closed,
    {
        Listener { exchange_name, limiter: Limiter::new(max_concurrent_tasks) }
    }

    /// The binding for a handler, read off the handler itself. What the two
    /// capability methods return is the handler's own business, so only the
    /// pool's shape can be promised here; `with_binding` carries the exact
    /// contract.
    pub fn new<L: BrokerListener>(listener: &L) -> (r: Listener)
        ensures
            r.wf(),
            r.limiter.available == r.limiter.capacity,
            !r.limiter.closed,
    {
        let name: &'static str = listener.exchange_name();
        let cap: usize = listener.max_concurrent_tasks();
        Listener::with_binding(name.to_owned(), cap)
    }

    /// The capacity of this listener's pool.
    pub fn max_concurrent_tasks(&self) -> (r: usize)
        ensures
            r == self.limiter.capacity,
    {
        self.limiter.capacity
    }
}

} // verus!
