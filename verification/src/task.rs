//! One spawned handler task: its duration bookkeeping and its completion
//! plan. Once spawned a task always runs to completion and always attempts
//! exactly one acknowledgement; the plan fixes the order of its closing
//! steps.

use vstd::prelude::*;
use crate::metrics::ConsumerMetrics;
use crate::metrics::timer_observe_duration;
use crate::outcome::Effect;
use crate::outcome::Outcome;
use crate::outcome::ack_effect;
use crate::outcome::spec_ack_effect;

verus! {

/// The bookkeeping of one spawned handler task: which listener it runs for
/// and the running consume-duration measurement, started before the handler
/// is called.
pub struct HandlerTask {
    pub listener: usize,
    pub exchange_name: String,
    pub timer: Option<prometheus::HistogramTimer>,
}

impl HandlerTask {
    /// Opens the task's bookkeeping as it is spawned: starts the
    /// consume-duration measurement for its exchange.
    pub fn begin(listener: usize, exchange_name: String, metrics: &ConsumerMetrics) -> (r:
        HandlerTask)
        ensures
            r.listener == listener,
            r.exchange_name == exchange_name,
    {
        let timer = metrics.start_consume_timer(&exchange_name);
        HandlerTask { listener, exchange_name, timer }
    }

    /// Closes the task's bookkeeping, after the permit release and before
    /// the acknowledgement: steps the permits-used gauge down and records
    /// the consume duration, which therefore excludes the acknowledgement
    /// round-trip. Consuming the task makes a second observation impossible.
    pub fn observe(self, metrics: &ConsumerMetrics)
    {
        metrics.dec_permits_used(&self.exchange_name);
        match self.timer {
            Some(t) => timer_observe_duration(t),
            None => (),
        }
    }
}

/// The closing steps owed for a handler task whose `consume` returned `o`,
/// in the order they must be performed: release the permit (so the freed
/// slot is visible to the dispatch loop while the acknowledgement round-trip
/// is still in flight), record the duration, then send the one
/// acknowledgement the outcome maps to.
pub open spec fn completion_effects(o: Outcome) -> Seq<Effect> {
    seq![Effect::ReleasePermit, Effect::ObserveDuration, spec_ack_effect(o)]
}

/// How often `e` occurs in `s`.
pub open spec fn count_effect(s: Seq<Effect>, e: Effect) -> nat
    decreases s.len(),
{
    if s.len() == 0 {
        0
    } else {
        count_effect(s.drop_last(), e) + (if s.last() == e {
            1nat
        } else {
            0nat
        })
    }
}

/// An acknowledgement step, positive or negative.
pub open spec fn is_acknowledgement(e: Effect) -> bool {
    e == Effect::Ack || e is Reject
}

/// The completion plan of one handler task, produced once its `consume` has
/// returned. The runtime performs the steps in order; the laws below pin
/// down what the plan contains.
pub fn completion_steps(o: Outcome) -> (r: Vec<Effect>)
    ensures
        r@ == completion_effects(o),
{
    let mut v: Vec<Effect> = Vec::new();
    v.push(Effect::ReleasePermit);
    v.push(Effect::ObserveDuration);
    v.push(ack_effect(o));
    proof {
        assert(v@ =~= completion_effects(o));
    }
    v
}

/// Law: per spawned task the permit is released exactly once, strictly
/// before the acknowledgement — the plan's one release stands first, and
/// every acknowledgement step stands after it. That the release comes
/// strictly after `consume` returns is structural: the plan exists only
/// given the outcome `consume` returned.
pub proof fn lemma_permit_release_discipline(o: Outcome)
    ensures
        count_effect(completion_effects(o), Effect::ReleasePermit) == 1,
        completion_effects(o)[0] == Effect::ReleasePermit,
        forall|k: int|
            0 <= k < completion_effects(o).len() && is_acknowledgement(
                #[trigger] completion_effects(o)[k],
            ) ==> k > 0,
{
    let s = completion_effects(o);
    lemma_count_three(s, Effect::ReleasePermit);
    assert forall|k: int|
        0 <= k < s.len() && is_acknowledgement(#[trigger] s[k]) implies k > 0 by {
        if k == 0 {
            assert(s[0] == Effect::ReleasePermit);
        }
    }
}

/// Law: a `Success` outcome owes exactly one ack and no reject.
pub proof fn lemma_success_acks_once()
    ensures
        count_effect(completion_effects(Outcome::Success), Effect::Ack) == 1,
        forall|k: int|
            0 <= k < completion_effects(Outcome::Success).len() ==> !(
            #[trigger] completion_effects(Outcome::Success)[k] is Reject),
{
    lemma_count_three(completion_effects(Outcome::Success), Effect::Ack);
}

/// Law: a `Failure` outcome owes exactly one reject carrying the outcome's
/// own requeue flag, and no ack.
pub proof fn lemma_failure_rejects_once(requeue: bool)
    ensures
        count_effect(
            completion_effects(Outcome::Failure { requeue }),
            (Effect::Reject { requeue }),
        ) == 1,
        forall|k: int|
            0 <= k < completion_effects(Outcome::Failure { requeue }).len() ==> (
            #[trigger] completion_effects(Outcome::Failure { requeue })[k]) != Effect::Ack,
        forall|k: int|
            0 <= k < completion_effects(Outcome::Failure { requeue }).len() && (
            #[trigger] completion_effects(Outcome::Failure { requeue })[k]) is Reject ==>
                completion_effects(Outcome::Failure { requeue })[k] == (Effect::Reject { requeue }),
{
    lemma_count_three(completion_effects(Outcome::Failure { requeue }), (Effect::Reject { requeue }));
}

/// Law: each consume invocation records exactly one duration observation,
/// on the success and on the failure path alike.
pub proof fn lemma_one_observation_per_task(o: Outcome)
    ensures
        count_effect(completion_effects(o), Effect::ObserveDuration) == 1,
{
    lemma_count_three(completion_effects(o), Effect::ObserveDuration);
}

/// Unfolds `count_effect` over a three-step sequence.
proof fn lemma_count_three(s: Seq<Effect>, e: Effect)
    requires
        s.len() == 3,
    ensures
        count_effect(s, e) == (if s[0] == e {
            1nat
        } else {
            0nat
        }) + (if s[1] == e {
            1nat
        } else {
            0nat
        }) + (if s[2] == e {
            1nat
        } else {
            0nat
        }),
{
    reveal_with_fuel(count_effect, 4);
    assert(s.drop_last().drop_last().drop_last() =~= Seq::<Effect>::empty());
    assert(count_effect(s.drop_last().drop_last().drop_last(), e) == 0);
    assert(s.drop_last().drop_last().last() == s[0]);
    assert(s.drop_last().last() == s[1]);
    assert(s.last() == s[2]);
}

} // verus!
