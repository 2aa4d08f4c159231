//! The listener registry and the dispatch state machine: the core of the
//! layer. The runtime pulls each item off the transport stream and hands it
//! to `dispatch`; the returned action tells it what to perform (spawn a
//! handler task, wait for a permit, send a best-effort reject, stop). All
//! routing, backpressure and failure-policy decisions are made here.

use vstd::prelude::*;
use crate::errors::Error;
use crate::errors::TransportFault;
use crate::limiter::AcquireStep;
use crate::listener::BrokerListener;
use crate::listener::Listener;
use crate::message::Delivery;
use crate::metrics::ConsumerMetrics;

verus! {

/// The dispatch loop's state between suspension points. Routing a delivery
/// and spawning its task complete within one `dispatch` call, so the loop is
/// seen either idle (awaiting the next stream item), suspended acquiring a
/// permit, or stopped in one of the two terminal states.
#[derive(Clone, Copy, PartialEq, Eq, Structural, Debug)]
pub enum LoopState {
    /// Awaiting the next item of the transport stream.
    Idle,
    /// Suspended in permit acquisition for the matched listener; this is the
    /// single backpressure point, and it stalls the whole loop.
    Acquiring { listener: usize },
    /// The stream ended normally; terminal.
    Closed,
    /// A transport error, an unroutable delivery or a torn-down limiter
    /// ended the loop; terminal.
    Fatal,
}

/// One item pulled off the transport stream, as the runtime hands it over.
pub enum StreamItem {
    Delivery(Delivery),
    /// The transport yielded an error instead of a delivery.
    TransportError(TransportFault),
    /// The stream ended normally.
    End,
}

/// What the runtime must perform after one dispatch step.
pub enum DispatchAction {
    /// A permit is held: spawn the handler task for this delivery on the
    /// listener at this index, without awaiting its completion.
    SpawnTask { listener: usize, delivery: Delivery },
    /// The matched listener's pool is exhausted: wait until a permit is
    /// released, then hand the delivery to `resume`.
    AwaitPermit { listener: usize, delivery: Delivery },
    /// No listener matches the delivery's exchange: attempt one best-effort
    /// `reject(requeue = false)`, then stop; the loop is now fatal.
    RejectUnroutable { delivery: Delivery },
    /// The transport stream failed: stop and propagate the fault; no retry.
    AbortOnTransportError { fault: TransportFault },
    /// The limiter was torn down while acquiring: stop and propagate the
    /// `AcquireSemaphore` fault.
    AbortOnLimiterClosed,
    /// The stream ended normally: stop.
    Stop,
}

/// The registry of listeners plus the loop state and the injected metrics
/// sink. The registry is built before the loop starts; lookup is first-match
/// on exchange name, so of two listeners registered for one exchange the
/// first always wins (a documented weakness, preserved deliberately).
pub struct Consumer {
    pub listeners: Vec<Listener>,
    pub state: LoopState,
    pub metrics: ConsumerMetrics,
}

impl Consumer {
    /// Every pool well formed, and a pending acquisition always names a
    /// registered listener.
    pub open spec fn wf(self) -> bool {
        &&& forall|i: int|
            0 <= i < self.listeners@.len() ==> (#[trigger] self.listeners@[i]).wf()
        &&& match self.state {
            LoopState::Acquiring { listener } => listener < self.listeners@.len(),
            _ => true,
        }
    }

    /// The listener at index `i` is registered for `key`.
    pub open spec fn entry_matches(self, key: Seq<char>, i: int) -> bool {
        self.listeners@[i].exchange_name@ == key
    }

    /// Some listener is registered for `key`.
    pub open spec fn has_listener_for(self, key: Seq<char>) -> bool {
        exists|i: int|
            0 <= i < self.listeners@.len() && self.entry_matches(key, i)
    }

    /// `i` is the first-registered listener for `key`.
    pub open spec fn is_first_match(self, key: Seq<char>, i: int) -> bool {
        &&& 0 <= i < self.listeners@.len()
        &&& self.entry_matches(key, i)
        &&& forall|j: int| 0 <= j < i ==> !self.entry_matches(key, j)
    }

    /// The registrations of `a` and `b` agree: same listeners, same
    /// capacities, same teardown flags; only available counts may differ.
    pub open spec fn same_bindings(a: Consumer, b: Consumer) -> bool {
        &&& a.listeners@.len() == b.listeners@.len()
        &&& forall|i: int|
            0 <= i < a.listeners@.len() ==> {
                &&& (#[trigger] b.listeners@[i]).exchange_name@ == a.listeners@[i].exchange_name@
                &&& b.listeners@[i].limiter.capacity == a.listeners@[i].limiter.capacity
                &&& b.listeners@[i].limiter.closed == a.listeners@[i].limiter.closed
            }
    }

    /// Available counts agree everywhere but possibly at `k`.
    pub open spec fn same_available_except(a: Consumer, b: Consumer, k: int) -> bool {
        forall|i: int|
            0 <= i < a.listeners@.len() && i != k ==> (#[trigger] b.listeners@[i]).limiter.available
                == a.listeners@[i].limiter.available
    }

    /// Available counts agree everywhere.
    pub open spec fn same_available(a: Consumer, b: Consumer) -> bool {
        forall|i: int|
            0 <= i < a.listeners@.len() ==> (#[trigger] b.listeners@[i]).limiter.available
                == a.listeners@[i].limiter.available
    }

    /// An empty registry around the injected metrics sink, ready to have
    /// listeners added before the loop starts.
    pub fn new(metrics: ConsumerMetrics) -> (r: Consumer)
        ensures
            r.wf(),
            r.listeners@.len() == 0,
            r.state == LoopState::Idle,
    {
        Consumer { listeners: Vec::new(), state: LoopState::Idle, metrics }
    }

    /// Registers a listener for `exchange_name` with the given concurrency
    /// bound. Appends without checking for duplicates: lookup is first-match,
    /// so an earlier registration for the same exchange keeps winning.
    pub fn add_binding(&mut self, exchange_name: String, max_concurrent_tasks: usize)
        requires
            old(self).wf(),
            1 <= max_concurrent_tasks,
        ensures
            final(self).wf(),
            final(self).state == old(self).state,
            final(self).listeners@.len() == old(self).listeners@.len() + 1,
            forall|i: int|
                0 <= i < old(self).listeners@.len() ==> final(self).listeners@[i] == old(
                    self,
                ).listeners@[i],
            final(self).listeners@.last().exchange_name == exchange_name,
            final(self).listeners@.last().limiter.capacity == max_concurrent_tasks,
            final(self).listeners@.last().limiter.available == max_concurrent_tasks,
            !final(self).listeners@.last().limiter.closed,
    {
        let entry = Listener::with_binding(exchange_name, max_concurrent_tasks);
        self.listeners.push(entry);
    }

    /// Registers a listener read off the handler itself; `add_binding`
    /// carries the exact contract.
    pub fn add_listener<L: BrokerListener>(&mut self, listener: &L)
        requires
            old(self).wf(),
        ensures
            final(self).wf(),
            final(self).state == old(self).state,
            final(self).listeners@.len() == old(self).listeners@.len() + 1,
            forall|i: int|
                0 <= i < old(self).listeners@.len() ==> final(self).listeners@[i] == old(
                    self,
                ).listeners@[i],
            final(self).listeners@.last().limiter.available == final(self).listeners@.last().limiter.capacity,
            !final(self).listeners@.last().limiter.closed,
    {
        let entry = Listener::new(listener);
        self.listeners.push(entry);
    }

    /// First-match lookup by exchange name: the first-registered listener
    /// whose exchange equals the argument exactly, none when no match.
    pub fn lookup(&self, exchange: &String) -> (r: Option<usize>)
        ensures
            match r {
                Some(i) => self.is_first_match(exchange@, i as int),
                None => !self.has_listener_for(exchange@),
            },
    {
        let mut i: usize = 0;
        while i < self.listeners.len()
            invariant
                i <= self.listeners@.len(),
                forall|j: int| 0 <= j < i ==> !self.entry_matches(exchange@, j),
            decreases self.listeners@.len() - i,
        {
            if self.listeners[i].exchange_name == *exchange {
                return Some(i);
            }
            i = i + 1;
        }
        None
    }

    /// One iteration of the dispatch loop, from the next stream item to the
    /// action the runtime must perform. A delivery is routed to its
    /// first-registered listener; a permit is taken inline, before the next
    /// stream item is read, so a saturated pool stalls the whole loop; an
    /// unroutable delivery or a transport error is fatal.
    pub fn dispatch(&mut self, item: StreamItem) -> (r: DispatchAction)
        requires
            old(self).wf(),
            old(self).state == LoopState::Idle,
        ensures
            final(self).wf(),
            Consumer::same_bindings(*old(self), *final(self)),
            (match item {
                StreamItem::End => {
                    &&& r == DispatchAction::Stop
                    &&& final(self).state == LoopState::Closed
                    &&& Consumer::same_available(*old(self), *final(self))
                },
                StreamItem::TransportError(fault) => {
                    &&& r == (DispatchAction::AbortOnTransportError { fault })
                    &&& final(self).state == LoopState::Fatal
                    &&& Consumer::same_available(*old(self), *final(self))
                },
                StreamItem::Delivery(d) => {
                    &&& (!old(self).has_listener_for(d.exchange@) ==> {
                        &&& r == (DispatchAction::RejectUnroutable { delivery: d })
                        &&& final(self).state == LoopState::Fatal
                        &&& Consumer::same_available(*old(self), *final(self))
                    })
                    &&& forall|i: int|
                        old(self).is_first_match(d.exchange@, i) ==> {
                            let lim = old(self).listeners@[i].limiter;
                            &&& (lim.closed ==> {
                                &&& r == DispatchAction::AbortOnLimiterClosed
                                &&& final(self).state == LoopState::Fatal
                                &&& Consumer::same_available(*old(self), *final(self))
                            })
                            &&& (!lim.closed && lim.available > 0 ==> {
                                &&& r == (DispatchAction::SpawnTask {
                                    listener: i as usize,
                                    delivery: d,
                                })
                                &&& final(self).state == LoopState::Idle
                                &&& final(self).listeners@[i].limiter.available == lim.available
                                    - 1
                                &&& Consumer::same_available_except(
                                    *old(self),
                                    *final(self),
                                    i,
                                )
                            })
                            &&& (!lim.closed && lim.available == 0 ==> {
                                &&& r == (DispatchAction::AwaitPermit {
                                    listener: i as usize,
                                    delivery: d,
                                })
                                &&& final(self).state == (LoopState::Acquiring {
                                    listener: i as usize,
                                })
                                &&& Consumer::same_available(*old(self), *final(self))
                            })
                        }
                },
            }),
    {
        match item {
            StreamItem::End => {
                self.state = LoopState::Closed;
                DispatchAction::Stop
            },
            StreamItem::TransportError(fault) => {
                self.state = LoopState::Fatal;
                DispatchAction::AbortOnTransportError { fault }
            },
            StreamItem::Delivery(d) => {
                match self.lookup(&d.exchange) {
                    None => {
                        self.state = LoopState::Fatal;
                        DispatchAction::RejectUnroutable { delivery: d }
                    },
                    Some(i) => {
                        let cap = self.listeners[i].limiter.capacity;
                        self.metrics.set_max_concurrent(
                            &d.exchange,
                            #[verifier::truncate] (cap as i64),
                        );
                        let step = self.listeners[i].limiter.acquire_step();
                        match step {
                            AcquireStep::Closed => {
                                self.state = LoopState::Fatal;
                                DispatchAction::AbortOnLimiterClosed
                            },
                            AcquireStep::Granted => {
                                self.metrics.inc_permits_used(&d.exchange);
                                DispatchAction::SpawnTask { listener: i, delivery: d }
                            },
                            AcquireStep::MustWait => {
                                self.state = LoopState::Acquiring { listener: i };
                                DispatchAction::AwaitPermit { listener: i, delivery: d }
                            },
                        }
                    },
                }
            },
        }
    }

    /// Retries the pending acquisition once the runtime has seen a permit
    /// come back. Grants and spawns when one is now available, keeps waiting
    /// when not, and aborts when the pool was torn down meanwhile.
    pub fn resume(&mut self, delivery: Delivery) -> (r: DispatchAction)
        requires
            old(self).wf(),
            old(self).state is Acquiring,
        ensures
            final(self).wf(),
            Consumer::same_bindings(*old(self), *final(self)),
            (old(self).state matches LoopState::Acquiring { listener } ==> {
                let lim = old(self).listeners@[listener as int].limiter;
                &&& (lim.closed ==> {
                    &&& r == DispatchAction::AbortOnLimiterClosed
                    &&& final(self).state == LoopState::Fatal
                    &&& Consumer::same_available(*old(self), *final(self))
                })
                &&& (!lim.closed && lim.available > 0 ==> {
                    &&& r == (DispatchAction::SpawnTask { listener, delivery })
                    &&& final(self).state == LoopState::Idle
                    &&& final(self).listeners@[listener as int].limiter.available == lim.available
                        - 1
                    &&& Consumer::same_available_except(*old(self), *final(self), listener as int)
                })
                &&& (!lim.closed && lim.available == 0 ==> {
                    &&& r == (DispatchAction::AwaitPermit { listener, delivery })
                    &&& final(self).state == old(self).state
                    &&& Consumer::same_available(*old(self), *final(self))
                })
            }),
    {
        let i = match self.state {
            LoopState::Acquiring { listener } => listener,
            _ => 0,
        };
        let step = self.listeners[i].limiter.acquire_step();
        match step {
            AcquireStep::Closed => {
                self.state = LoopState::Fatal;
                DispatchAction::AbortOnLimiterClosed
            },
            AcquireStep::Granted => {
                self.metrics.inc_permits_used(&delivery.exchange);
                self.state = LoopState::Idle;
                DispatchAction::SpawnTask { listener: i, delivery }
            },
            AcquireStep::MustWait => DispatchAction::AwaitPermit { listener: i, delivery },
        }
    }

    /// Gives the permit of a finished handler task back to its listener's
    /// pool. Called exactly once per spawned task, directly after its
    /// `consume` returns and before its acknowledgement is sent.
    pub fn release_permit(&mut self, listener: usize)
        requires
            old(self).wf(),
            listener < old(self).listeners@.len(),
            old(self).listeners@[listener as int].limiter.in_flight() > 0,
        ensures
            final(self).wf(),
            Consumer::same_bindings(*old(self), *final(self)),
            final(self).state == old(self).state,
            final(self).listeners@[listener as int].limiter.available == old(
                self,
            ).listeners@[listener as int].limiter.available + 1,
            Consumer::same_available_except(*old(self), *final(self), listener as int),
    {
        self.listeners[listener].limiter.release();
    }

    /// Tears every pool down, as process shutdown does: acquisitions in
    /// flight and later ones fail with the `AcquireSemaphore` fault.
    pub fn close_listeners(&mut self)
        requires
            old(self).wf(),
        ensures
            final(self).wf(),
            final(self).state == old(self).state,
            Consumer::same_available(*old(self), *final(self)),
            final(self).listeners@.len() == old(self).listeners@.len(),
            forall|i: int|
                0 <= i < final(self).listeners@.len() ==> {
                    &&& (#[trigger] final(self).listeners@[i]).exchange_name@ == old(
                        self,
                    ).listeners@[i].exchange_name@
                    &&& final(self).listeners@[i].limiter.capacity == old(
                        self,
                    ).listeners@[i].limiter.capacity
                    &&& final(self).listeners@[i].limiter.closed
                },
    {
        let mut i: usize = 0;
        while i < self.listeners.len()
            invariant
                i <= self.listeners@.len(),
                self.listeners@.len() == old(self).listeners@.len(),
                self.state == old(self).state,
                forall|j: int|
                    0 <= j < self.listeners@.len() ==> {
                        &&& (#[trigger] self.listeners@[j]).wf()
                        &&& self.listeners@[j].exchange_name@ == old(
                            self,
                        ).listeners@[j].exchange_name@
                        &&& self.listeners@[j].limiter.capacity == old(
                            self,
                        ).listeners@[j].limiter.capacity
                        &&& self.listeners@[j].limiter.available == old(
                            self,
                        ).listeners@[j].limiter.available
                    },
                forall|j: int| 0 <= j < i ==> (#[trigger] self.listeners@[j]).limiter.closed,
                match self.state {
                    LoopState::Acquiring { listener } => listener < self.listeners@.len(),
                    _ => true,
                },
            decreases self.listeners@.len() - i,
        {
            self.listeners[i].limiter.close();
            i = i + 1;
        }
    }
}

/// The fault a dispatch action carries to the loop's supervisor, exactly for
/// the three actions that end the loop abnormally: an unroutable delivery
/// (after its best-effort reject), a transport stream error, and a torn-down
/// limiter.
pub fn loop_fault(action: &DispatchAction) -> (r: Option<Error>)
    ensures
        (match action {
            DispatchAction::RejectUnroutable { delivery } => r == Some(
                (Error::Unroutable { exchange: delivery.exchange }),
            ),
            DispatchAction::AbortOnTransportError { fault } => r == Some(
                (Error::Amqp { message: fault.message }),
            ),
            DispatchAction::AbortOnLimiterClosed => r == Some(Error::AcquireSemaphore),
            _ => r is None,
        }),
{
    match action {
        DispatchAction::RejectUnroutable { delivery } => Some(
            Error::Unroutable { exchange: delivery.exchange.clone() },
        ),
        DispatchAction::AbortOnTransportError { fault } => Some(
            Error::Amqp { message: fault.message.clone() },
        ),
        DispatchAction::AbortOnLimiterClosed => Some(Error::AcquireSemaphore),
        _ => None,
    }
}

/// Law: a listener whose pool was created with capacity K never has more
/// than K permits out — no more than K handler invocations running at once —
/// in any state the dispatch operations can reach, since each of them
/// preserves well-formedness.
pub proof fn lemma_dispatch_concurrency_bounded(c: Consumer, i: int)
    requires
        c.wf(),
        0 <= i < c.listeners@.len(),
    ensures
        0 <= c.listeners@[i].limiter.in_flight() <= c.listeners@[i].limiter.capacity,
{
}

/// Law: of two listeners registered for the same exchange, the
/// first-registered one receives every delivery for it. Whatever matching
/// listener `i` a delivery could name, the routed listener `m` stands at or
/// before it and is itself registered for the exchange.
pub proof fn lemma_first_registered_wins(c: Consumer, key: Seq<char>, i: int, m: int)
    requires
        0 <= i < c.listeners@.len(),
        c.entry_matches(key, i),
        c.is_first_match(key, m),
    ensures
        m <= i,
        c.entry_matches(key, m),
{
    if m > i {
        assert(!c.entry_matches(key, i));
    }
}

} // verus!
