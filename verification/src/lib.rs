//! Dispatch-and-backpressure layer between a message-broker transport and
//! application message handlers.
//!
//! The crate models the core of an AMQP consumer/publisher pair: a registry
//! of listeners keyed by exchange name, a counting permit pool bounding
//! concurrent handler invocations per listener, the dispatch state machine
//! that routes each delivery and acquires a permit before spawning a handler
//! task, the handler task's ack/reject policy, and the publisher path.
//! Transport I/O itself (connections, channels, acknowledgement round-trips)
//! is performed by the embedding runtime, which drives these state machines.

mod consumer;
mod errors;
mod limiter;
mod listener;
mod message;
mod metrics;
mod outcome;
mod publisher;
mod task;

pub use consumer::Consumer;
pub use consumer::DispatchAction;
pub use consumer::LoopState;
pub use consumer::StreamItem;
pub use consumer::lemma_dispatch_concurrency_bounded;
pub use consumer::lemma_first_registered_wins;
pub use consumer::loop_fault;
pub use errors::EncodeFault;
pub use errors::Error;
pub use errors::TransportFault;
pub use limiter::AcquireStep;
pub use limiter::Limiter;
pub use limiter::lemma_concurrency_bounded;
pub use listener::BrokerListener;
pub use listener::BrokerPublish;
pub use listener::Listener;
pub use message::Delivery;
pub use metrics::ConsumerMetrics;
pub use metrics::GaugeFamily;
pub use metrics::GaugeHandle;
pub use metrics::HistogramFamily;
pub use outcome::Effect;
pub use outcome::Outcome;
pub use outcome::ack_effect;
pub use outcome::spec_ack_effect;
pub use publisher::Confirmation;
pub use publisher::PublishRequest;
pub use publisher::Publisher;
pub use publisher::complete_publish;
pub use task::HandlerTask;
pub use task::completion_effects;
pub use task::completion_steps;
pub use task::count_effect;
pub use task::is_acknowledgement;
pub use task::lemma_failure_rejects_once;
pub use task::lemma_one_observation_per_task;
pub use task::lemma_permit_release_discipline;
pub use task::lemma_success_acks_once;
