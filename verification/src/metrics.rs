//! The observability sink: prometheus gauge and histogram families, held
//! behind trusted items and injected into the consumer and the publisher
//! instead of living in process-wide lazily-initialized state.
//!
//! What a metric records (a duration, a gauge level) depends on the clock and
//! on the machine, so none of these items states anything about the recorded
//! values; the layer's accounting of *how many* observations each code path
//! makes is carried by the verified callers.

use vstd::prelude::*;

verus! {

/// `prometheus::Histogram`: one histogram child, observed through timers.
#[verifier::external_type_specification]
#[verifier::external_body]
pub struct ExHistogram(prometheus::Histogram);

/// `prometheus::HistogramTimer`: a running duration measurement; consuming
/// it records exactly one observation in its histogram.
#[verifier::external_type_specification]
#[verifier::external_body]
pub struct ExHistogramTimer(prometheus::HistogramTimer);

/// One integer gauge child. The underlying `prometheus::IntGauge` cannot be
/// declared to the verifier (its generic storage parameter is bound by a
/// trait of the outside crate), so it sits in a hidden field and is reached
/// only through the trusted functions below.
#[verifier::external_body]
pub struct GaugeHandle {
    inner: prometheus::IntGauge,
}

/// A labelled family of histograms. The underlying `prometheus::HistogramVec`
/// cannot be declared to the verifier (its builder type parameter is not
/// publicly nameable), so it sits in a hidden field and is reached only
/// through the trusted methods below.
#[verifier::external_body]
pub struct HistogramFamily {
    inner: prometheus::HistogramVec,
}

impl HistogramFamily {
    /// Relies on `prometheus::HistogramOpts::new` and
    /// `prometheus::HistogramVec::new`: builds a histogram family with the
    /// given name, help text and label names, with prometheus's default
    /// duration buckets; `None` when prometheus refuses the descriptor.
    #[verifier::external_body]
    pub fn new(name: &str, help: &str, label_names: &Vec<String>) -> (r: Option<HistogramFamily>)
    {
        let labels: Vec<&str> = label_names.iter().map(|s| s.as_str()).collect();
        match prometheus::HistogramVec::new(prometheus::HistogramOpts::new(name, help), &labels) {
            Ok(inner) => Some(HistogramFamily { inner }),
            Err(_) => None,
        }
    }

    /// Relies on `prometheus::core::MetricVec::get_metric_with_label_values`
    /// (histogram instantiation): the child histogram for the given label
    /// values, or `None` when the label cardinality does not match.
    #[verifier::external_body]
    pub fn child(&self, label_values: &Vec<String>) -> (r: Option<prometheus::Histogram>)
    {
        let labels: Vec<&str> = label_values.iter().map(|s| s.as_str()).collect();
        match self.inner.get_metric_with_label_values(&labels) {
            Ok(h) => Some(h),
            Err(_) => None,
        }
    }

    /// Relies on `prometheus::Registry::register` on the default registry:
    /// makes the family visible to exporters; `false` when registration is
    /// refused (for example a duplicate descriptor).
    #[verifier::external_body]
    pub fn register_default(&self) -> (r: bool)
    {
        match prometheus::default_registry().register(Box::new(self.inner.clone())) {
            Ok(()) => true,
            Err(_) => false,
        }
    }
}

/// A labelled family of integer gauges; hidden for the same reason as
/// `HistogramFamily`.
#[verifier::external_body]
pub struct GaugeFamily {
    inner: prometheus::IntGaugeVec,
}

impl GaugeFamily {
    /// Relies on `prometheus::Opts::new` and `prometheus::IntGaugeVec::new`:
    /// builds an integer gauge family; `None` when prometheus refuses the
    /// descriptor.
    #[verifier::external_body]
    pub fn new(name: &str, help: &str, label_names: &Vec<String>) -> (r: Option<GaugeFamily>)
    {
        let labels: Vec<&str> = label_names.iter().map(|s| s.as_str()).collect();
        match prometheus::IntGaugeVec::new(prometheus::Opts::new(name, help), &labels) {
            Ok(inner) => Some(GaugeFamily { inner }),
            Err(_) => None,
        }
    }

    /// Relies on `prometheus::core::MetricVec::get_metric_with_label_values`
    /// (gauge instantiation): the child gauge for the given label values, or
    /// `None` when the label cardinality does not match.
    #[verifier::external_body]
    pub fn child(&self, label_values: &Vec<String>) -> (r: Option<GaugeHandle>)
    {
        let labels: Vec<&str> = label_values.iter().map(|s| s.as_str()).collect();
        match self.inner.get_metric_with_label_values(&labels) {
            Ok(g) => Some(GaugeHandle { inner: g }),
            Err(_) => None,
        }
    }

    /// Relies on `prometheus::Registry::register` on the default registry;
    /// `false` when registration is refused.
    #[verifier::external_body]
    pub fn register_default(&self) -> (r: bool)
    {
        match prometheus::default_registry().register(Box::new(self.inner.clone())) {
            Ok(()) => true,
            Err(_) => false,
        }
    }
}

/// Relies on `prometheus::Histogram::start_timer`: starts one duration
/// measurement against the given histogram child.
#[verifier::external_body]
pub fn histogram_start_timer(h: &prometheus::Histogram) -> (t: prometheus::HistogramTimer)
{
    h.start_timer()
}

/// Relies on `prometheus::HistogramTimer::observe_duration`: consumes the
/// timer and records the elapsed duration as one observation.
#[verifier::external_body]
pub fn timer_observe_duration(t: prometheus::HistogramTimer)
{
    t.observe_duration()
}

/// Relies on `prometheus::core::GenericGauge::set` on an integer gauge.
#[verifier::external_body]
pub fn gauge_set(g: &GaugeHandle, v: i64)
{
    g.inner.set(v)
}

/// Relies on `prometheus::core::GenericGauge::inc` on an integer gauge.
#[verifier::external_body]
pub fn gauge_inc(g: &GaugeHandle)
{
    g.inner.inc()
}

/// Relies on `prometheus::core::GenericGauge::dec` on an integer gauge.
#[verifier::external_body]
pub fn gauge_dec(g: &GaugeHandle)
{
    g.inner.dec()
}

/// The metrics the consumer side records: the per-exchange concurrent-task
/// gauges (labelled by exchange name and kind) and the per-exchange consume
/// duration histogram.
pub struct ConsumerMetrics {
    pub concurrent_tasks: GaugeFamily,
    pub consumer_duration: HistogramFamily,
}

impl ConsumerMetrics {
    /// Packs the two injected families into one sink.
    pub fn new(concurrent_tasks: GaugeFamily, consumer_duration: HistogramFamily) -> (r:
        ConsumerMetrics)
    {
        ConsumerMetrics { concurrent_tasks, consumer_duration }
    }

    /// Records the capacity of a listener's pool on the gauge labelled
    /// `(exchange, "max")`, as far as the sink accepts the labels.
    pub fn set_max_concurrent(&self, exchange: &String, capacity: i64)
    {
        let labels: Vec<String> = vec![exchange.clone(), "max".to_owned()];
        match self.concurrent_tasks.child(&labels) {
            Some(g) => gauge_set(&g, capacity),
            None => (),
        }
    }

    /// Steps the gauge labelled `(exchange, "permits_used")` up by one.
    pub fn inc_permits_used(&self, exchange: &String)
    {
        let labels: Vec<String> = vec![exchange.clone(), "permits_used".to_owned()];
        match self.concurrent_tasks.child(&labels) {
            Some(g) => gauge_inc(&g),
            None => (),
        }
    }

    /// Steps the gauge labelled `(exchange, "permits_used")` down by one.
    pub fn dec_permits_used(&self, exchange: &String)
    {
        let labels: Vec<String> = vec![exchange.clone(), "permits_used".to_owned()];
        match self.concurrent_tasks.child(&labels) {
            Some(g) => gauge_dec(&g),
            None => (),
        }
    }

    /// Starts the consume-duration measurement for one handler task, against
    /// the histogram labelled by the exchange name.
    pub fn start_consume_timer(&self, exchange: &String) -> (t: Option<prometheus::HistogramTimer>)
    {
        let labels: Vec<String> = vec![exchange.clone()];
        match self.consumer_duration.child(&labels) {
            Some(h) => Some(histogram_start_timer(&h)),
            None => None,
        }
    }
}

} // verus!
