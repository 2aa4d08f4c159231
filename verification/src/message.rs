//! The data of one inbound delivery.

use vstd::prelude::*;

verus! {

/// One inbound unit from the broker: its origin exchange, routing key,
/// redelivery flag and opaque body bytes. The transport's one-shot `ack` and
/// `reject` capabilities stay with the runtime, which exercises them exactly
/// as the dispatch layer's decisions direct.
pub struct Delivery {
    pub exchange: String,
    pub routing_key: String,
    pub redelivered: bool,
    pub data: Vec<u8>,
}

} // verus!
