//! Fault taxonomy of the dispatch-and-backpressure layer.

use vstd::prelude::*;

verus! {

/// What the codec collaborator reports for a payload it refuses to encode.
/// `message` carries the codec's own description of the fault.
#[derive(Debug)]
pub struct EncodeFault {
    pub message: String,
}

/// A transport-layer fault: connection, channel or stream. The runtime turns
/// the transport's error value into this plain form at the boundary.
#[derive(Debug)]
pub struct TransportFault {
    pub message: String,
}

/// The faults this layer can surface to its callers.
#[derive(Debug)]
pub enum Error {
    /// Permit acquisition was interrupted because the limiter was torn down
    /// during shutdown; propagated to the dispatch loop's supervisor.
    AcquireSemaphore,
    /// A transport-layer fault; fatal for the dispatch loop, never retried.
    Amqp { message: String },
    /// The payload was not encodable; returned to the publish caller only,
    /// with nothing sent on the transport.
    Bincode { message: String },
    /// No listener is registered for the delivery's exchange; escalated by
    /// policy to a fatal loop termination after one best-effort reject.
    Unroutable { exchange: String },
}

} // verus!
