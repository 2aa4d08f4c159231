//! The outcome a handler reports for one delivery, and the acknowledgement
//! it maps to.

use vstd::prelude::*;

verus! {

/// What a handler reports after consuming one delivery. `Failure` carries the
/// requeue flag that the negative acknowledgement must forward to the broker.
/// This is ordinary data, not a fault of the dispatch layer.
#[derive(Clone, Copy, PartialEq, Eq, Structural, Debug)]
pub enum Outcome {
    Success,
    Failure { requeue: bool },
}

/// One bookkeeping or acknowledgement step this layer owes, in the order a
/// completion plan lists them: release the concurrency permit, record a
/// duration observation, send exactly one acknowledgement.
#[derive(Clone, Copy, PartialEq, Eq, Structural, Debug)]
pub enum Effect {
    ReleasePermit,
    ObserveDuration,
    Ack,
    Reject { requeue: bool },
}

/// The acknowledgement owed for an outcome: `Success` is acked, `Failure`
/// is rejected with the outcome's own requeue flag.
pub open spec fn spec_ack_effect(o: Outcome) -> Effect {
    match o {
        Outcome::Success => Effect::Ack,
        Outcome::Failure { requeue } => (Effect::Reject { requeue }),
    }
}

/// Maps a handler outcome to the single acknowledgement the broker is owed.
pub fn ack_effect(o: Outcome) -> (r: Effect)
    ensures
        r == spec_ack_effect(o),
{
    match o {
        Outcome::Success => Effect::Ack,
        Outcome::Failure { requeue } => Effect::Reject { requeue },
    }
}

} // verus!
