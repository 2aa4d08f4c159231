use amqp_broker::AcquireStep;
use amqp_broker::BrokerListener;
use amqp_broker::Consumer;
use amqp_broker::ConsumerMetrics;
use amqp_broker::Delivery;
use amqp_broker::DispatchAction;
use amqp_broker::Effect;
use amqp_broker::Error;
use amqp_broker::GaugeFamily;
use amqp_broker::HistogramFamily;
use amqp_broker::HandlerTask;
use amqp_broker::Limiter;
use amqp_broker::Listener;
use amqp_broker::LoopState;
use amqp_broker::Outcome;
use amqp_broker::StreamItem;
use amqp_broker::TransportFault;
use amqp_broker::ack_effect;
use amqp_broker::completion_steps;
use amqp_broker::loop_fault;

fn metrics() -> ConsumerMetrics {
    let gauge_labels = vec!["exchange_name".to_string(), "kind".to_string()];
    let hist_labels = vec!["exchange_name".to_string()];
    let concurrent = GaugeFamily::new(
        "amqp_consumer_concurrent_tasks",
        "Current/Max concurrent check",
        &gauge_labels,
    )
    .expect("gauge family");
    let duration = HistogramFamily::new(
        "amqp_consumer_duration",
        "The duration of the consumer",
        &hist_labels,
    )
    .expect("histogram family");
    ConsumerMetrics::new(concurrent, duration)
}

fn delivery(exchange: &str) -> Delivery {
    Delivery {
        exchange: exchange.to_string(),
        routing_key: "rk".to_string(),
        redelivered: false,
        data: vec![1u8, 2, 3],
    }
}

#[test]
fn limiter_bounds_and_release() {
    let mut l = Limiter::new(2);
    assert_eq!(l.capacity, 2);
    assert_eq!(l.available, 2);
    assert!(matches!(l.acquire_step(), AcquireStep::Granted));
    assert!(matches!(l.acquire_step(), AcquireStep::Granted));
    assert_eq!(l.available, 0);
    assert!(matches!(l.acquire_step(), AcquireStep::MustWait));
    assert_eq!(l.available, 0);
    l.release();
    assert_eq!(l.available, 1);
    assert!(matches!(l.acquire_step(), AcquireStep::Granted));
}

#[test]
fn limiter_closed_reports_closed() {
    let mut l = Limiter::new(1);
    l.close();
    assert!(matches!(l.acquire_step(), AcquireStep::Closed));
    assert_eq!(l.available, 1);
}

#[test]
fn scenario_two_permits_third_waits() {
    let mut c = Consumer::new(metrics());
    c.add_binding("orders".to_string(), 2);
    assert!(matches!(c.state, LoopState::Idle));

    let a1 = c.dispatch(StreamItem::Delivery(delivery("orders")));
    match a1 {
        DispatchAction::SpawnTask { listener, delivery } => {
            assert_eq!(listener, 0);
            assert_eq!(delivery.exchange, "orders");
        }
        _ => panic!("first delivery must be dispatched at once"),
    }
    let a2 = c.dispatch(StreamItem::Delivery(delivery("orders")));
    assert!(matches!(a2, DispatchAction::SpawnTask { listener: 0, .. }));
    assert_eq!(c.listeners[0].limiter.available, 0);

    // the pool is saturated: the third delivery stalls the whole loop
    let a3 = c.dispatch(StreamItem::Delivery(delivery("orders")));
    let held = match a3 {
        DispatchAction::AwaitPermit { listener, delivery } => {
            assert_eq!(listener, 0);
            delivery
        }
        _ => panic!("third delivery must wait for a permit"),
    };
    assert!(matches!(c.state, LoopState::Acquiring { listener: 0 }));

    // waiting again without a release changes nothing
    let again = c.resume(held);
    let held = match again {
        DispatchAction::AwaitPermit { delivery, .. } => delivery,
        _ => panic!("no permit came back yet"),
    };

    // the first task's consume returns: its permit comes back before its ack
    c.release_permit(0);
    assert_eq!(c.listeners[0].limiter.available, 1);
    let a4 = c.resume(held);
    assert!(matches!(a4, DispatchAction::SpawnTask { listener: 0, .. }));
    assert_eq!(c.listeners[0].limiter.available, 0);
    assert!(matches!(c.state, LoopState::Idle));

    // one acknowledgement per message, no duplicates
    let outcomes = [
        Outcome::Success,
        Outcome::Success,
        Outcome::Failure { requeue: false },
    ];
    let mut acks = 0;
    for o in outcomes {
        let steps = completion_steps(o);
        let n = steps
            .iter()
            .filter(|e| matches!(e, Effect::Ack | Effect::Reject { .. }))
            .count();
        assert_eq!(n, 1);
        acks += n;
    }
    assert_eq!(acks, 3);
}

#[test]
fn unroutable_delivery_is_fatal_after_one_reject() {
    let mut c = Consumer::new(metrics());
    c.add_binding("orders".to_string(), 1);
    let a = c.dispatch(StreamItem::Delivery(delivery("unknown")));
    match &a {
        DispatchAction::RejectUnroutable { delivery } => {
            assert_eq!(delivery.exchange, "unknown");
        }
        _ => panic!("an unroutable delivery gets one best-effort reject"),
    }
    assert!(matches!(c.state, LoopState::Fatal));
    match loop_fault(&a) {
        Some(Error::Unroutable { exchange }) => assert_eq!(exchange, "unknown"),
        _ => panic!("the loop's supervisor sees the unroutable fault"),
    }
}

#[test]
fn transport_error_is_fatal_untouched() {
    let mut c = Consumer::new(metrics());
    c.add_binding("orders".to_string(), 1);
    let fault = TransportFault {
        message: "connection reset".to_string(),
    };
    let a = c.dispatch(StreamItem::TransportError(fault));
    assert!(matches!(c.state, LoopState::Fatal));
    match loop_fault(&a) {
        Some(Error::Amqp { message }) => assert_eq!(message, "connection reset"),
        _ => panic!("the transport fault propagates"),
    }
}

#[test]
fn stream_end_closes_loop() {
    let mut c = Consumer::new(metrics());
    let a = c.dispatch(StreamItem::End);
    assert!(matches!(a, DispatchAction::Stop));
    assert!(matches!(c.state, LoopState::Closed));
    assert!(loop_fault(&a).is_none());
}

#[test]
fn closed_limiter_aborts_the_loop() {
    let mut c = Consumer::new(metrics());
    c.add_binding("orders".to_string(), 1);
    c.close_listeners();
    let a = c.dispatch(StreamItem::Delivery(delivery("orders")));
    assert!(matches!(a, DispatchAction::AbortOnLimiterClosed));
    assert!(matches!(c.state, LoopState::Fatal));
    assert!(matches!(loop_fault(&a), Some(Error::AcquireSemaphore)));
}

#[test]
fn teardown_while_waiting_aborts_on_resume() {
    let mut c = Consumer::new(metrics());
    c.add_binding("orders".to_string(), 1);
    let a1 = c.dispatch(StreamItem::Delivery(delivery("orders")));
    assert!(matches!(a1, DispatchAction::SpawnTask { .. }));
    let a2 = c.dispatch(StreamItem::Delivery(delivery("orders")));
    let held = match a2 {
        DispatchAction::AwaitPermit { delivery, .. } => delivery,
        _ => panic!("the second delivery must wait"),
    };
    // shutdown tears the pools down while the loop is suspended
    c.close_listeners();
    let a3 = c.resume(held);
    assert!(matches!(a3, DispatchAction::AbortOnLimiterClosed));
    assert!(matches!(c.state, LoopState::Fatal));
    assert!(matches!(loop_fault(&a3), Some(Error::AcquireSemaphore)));
}

#[test]
fn first_registered_listener_wins() {
    let mut c = Consumer::new(metrics());
    c.add_binding("orders".to_string(), 1);
    c.add_binding("orders".to_string(), 5);
    assert_eq!(c.lookup(&"orders".to_string()), Some(0));

    let a = c.dispatch(StreamItem::Delivery(delivery("orders")));
    assert!(matches!(a, DispatchAction::SpawnTask { listener: 0, .. }));
    assert_eq!(c.listeners[0].limiter.available, 0);
    assert_eq!(c.listeners[1].limiter.available, 5);
}

#[test]
fn lookup_misses_on_empty_and_foreign_keys() {
    let mut c = Consumer::new(metrics());
    assert_eq!(c.lookup(&"orders".to_string()), None);
    c.add_binding("orders".to_string(), 1);
    assert_eq!(c.lookup(&"payments".to_string()), None);
    assert_eq!(c.lookup(&"orders".to_string()), Some(0));
}

struct OrdersHandler;

impl BrokerListener for OrdersHandler {
    fn exchange_name(&self) -> &'static str {
        "orders"
    }

    fn max_concurrent_tasks(&self) -> usize {
        2
    }

    fn consume(&self, delivery: &Delivery) -> Outcome {
        if delivery.data.is_empty() {
            Outcome::Failure { requeue: true }
        } else {
            Outcome::Success
        }
    }
}

#[test]
fn handler_registration_and_consume_outcome() {
    let h = OrdersHandler;
    let entry = Listener::new(&h);
    assert_eq!(entry.exchange_name, "orders");
    assert_eq!(entry.max_concurrent_tasks(), 2);

    let mut c = Consumer::new(metrics());
    c.add_listener(&h);
    assert_eq!(c.lookup(&"orders".to_string()), Some(0));

    let full = delivery("orders");
    assert_eq!(h.consume(&full), Outcome::Success);
    let empty = Delivery {
        exchange: "orders".to_string(),
        routing_key: "rk".to_string(),
        redelivered: true,
        data: vec![],
    };
    assert_eq!(h.consume(&empty), Outcome::Failure { requeue: true });
}

#[test]
fn handler_task_records_once() {
    let m = metrics();
    let task = HandlerTask::begin(0, "orders".to_string(), &m);
    assert_eq!(task.listener, 0);
    assert_eq!(task.exchange_name, "orders");
    // consuming the task closes the measurement; a second observation is
    // impossible because the task is gone
    task.observe(&m);
}

#[test]
fn completion_plan_success() {
    let steps = completion_steps(Outcome::Success);
    assert_eq!(
        steps,
        vec![
            Effect::ReleasePermit,
            Effect::ObserveDuration,
            Effect::Ack
        ]
    );
}

#[test]
fn completion_plan_failure_keeps_requeue_flag() {
    let steps = completion_steps(Outcome::Failure { requeue: true });
    assert_eq!(
        steps,
        vec![
            Effect::ReleasePermit,
            Effect::ObserveDuration,
            Effect::Reject { requeue: true }
        ]
    );
    let steps = completion_steps(Outcome::Failure { requeue: false });
    assert_eq!(steps[2], Effect::Reject { requeue: false });
}

#[test]
fn ack_effect_maps_outcomes() {
    assert_eq!(ack_effect(Outcome::Success), Effect::Ack);
    assert_eq!(
        ack_effect(Outcome::Failure { requeue: true }),
        Effect::Reject { requeue: true }
    );
    assert_eq!(
        ack_effect(Outcome::Failure { requeue: false }),
        Effect::Reject { requeue: false }
    );
}
