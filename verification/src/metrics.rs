//! The per-transport request counter and its registration.
//!
//! `RpcMetrics` owns an optional prometheus counter vector, keyed by one
//! label dimension (`protocol`). Constructed without a registry it holds no
//! counter and every increment is a no-op; constructed with one it registers
//! the counter against that registry exactly once, and a rejected
//! registration is fatal to whoever is starting the server.

use vstd::prelude::*;

verus! {

/// The external metrics registry; opaque here, touched only when the
/// counter is registered against it.
#[verifier::external_type_specification]
#[verifier::external_body]
pub struct ExRegistry(prometheus::Registry);

/// The backend's error type; opaque here, carried out to the caller
/// unread.
#[verifier::external_type_specification]
#[verifier::external_body]
pub struct ExPrometheusError(prometheus::Error);

/// Holds a prometheus counter vector: a collection of counters that share
/// one descriptor and differ in the value of their single label.
///
/// `prometheus::core::GenericCounterVec` cannot be described to the
/// verifier: it is an alias that instantiates `MetricVec` at
/// `CounterVecBuilder`, a type its crate does not export. So the vector is
/// held opaquely here and reached only through the trusted functions below.
/// Its contents are not modeled: the vector is shared with the registry and
/// with every clone of these metrics, and all of them may increment it
/// concurrently.
#[derive(Debug)]
#[verifier::external_body]
pub struct RequestCounter {
    vec: prometheus::core::GenericCounterVec<prometheus::core::AtomicU64>,
}

/// The metric name the counter vector's descriptor was built with.
pub uninterp spec fn spec_counter_name(counter: RequestCounter) -> Seq<char>;

/// The help text the counter vector's descriptor was built with.
pub uninterp spec fn spec_counter_help(counter: RequestCounter) -> Seq<char>;

/// The single label dimension the counter vector's descriptor was built
/// with.
pub uninterp spec fn spec_counter_label(counter: RequestCounter) -> Seq<char>;

impl Clone for RequestCounter {
    /// Relies on `prometheus::core::MetricVec`'s `Clone`: the clone shares
    /// the same underlying counters, so counts accumulate across clones.
    #[verifier::external_body]
    fn clone(&self) -> (r: Self) {
        RequestCounter { vec: self.vec.clone() }
    }
}

/// Relies on `prometheus::core::GenericCounterVec::new` to build a counter
/// vector with the given name, help text and single label dimension, and on
/// `prometheus::Registry::register` to add it to the registry's metric set;
/// either's rejection (an invalid descriptor, a name collision with an
/// already-registered metric of incompatible shape, or any other
/// backend-specific refusal) comes back as the error. A returned counter's
/// descriptor holds exactly the given name, help text and label: `new`
/// copies them into the `Desc` the vector keeps.
#[verifier::external_body]
fn new_registered_counter(
    registry: &prometheus::Registry,
    name: &str,
    help: &str,
    label: &str,
) -> (r: Result<RequestCounter, prometheus::Error>)
    ensures
        r matches Ok(c) ==> (spec_counter_name(c) == name@ && spec_counter_help(c) == help@
            && spec_counter_label(c) == label@),
{
    let counter = prometheus::core::GenericCounterVec::<prometheus::core::AtomicU64>::new(
        prometheus::Opts::new(name, help),
        &[label],
    )?;
    registry.register(Box::new(counter.clone()))?;
    Ok(RequestCounter { vec: counter })
}

/// Relies on `prometheus::core::MetricVec::get_metric_with_label_values` and
/// `prometheus::core::GenericCounter::inc`: adds one to the counter child
/// with the given label value, creating that child at zero first if this
/// label value was never incremented before. The counter vector was built
/// with exactly one label dimension, so one label value is the right number;
/// a mismatch would be reported as an error, which cannot carry more than
/// the failure to count and is discarded.
#[verifier::external_body]
fn inc_by_label(counter: &RequestCounter, label: &str) {
    if let Ok(child) = counter.vec.get_metric_with_label_values(&[label]) {
        child.inc();
    }
}

/// A metric registration rejected by the backend; fatal at server startup.
#[derive(Debug)]
pub struct RegistrationError {
    inner: prometheus::Error,
}

impl RegistrationError {
    /// The rejection as the backend reported it.
    pub closed spec fn spec_inner(&self) -> prometheus::Error {
        self.inner
    }

    /// The backend's own account of the rejection.
    pub fn into_inner(self) -> (r: prometheus::Error)
        ensures
            r == self.spec_inner(),
    {
        self.inner
    }
}

/// Metrics of the RPC middleware: an optional counter of received requests,
/// labeled by transport.
#[derive(Debug, Clone)]
pub struct RpcMetrics {
    rpc_calls: Option<RequestCounter>,
}

impl RpcMetrics {
    /// Whether a counter was registered; without one every increment is a
    /// no-op.
    pub closed spec fn has_counter(&self) -> bool {
        self.rpc_calls is Some
    }

    /// The registered counter's metric name; empty without a counter.
    pub closed spec fn counter_name(&self) -> Seq<char> {
        match self.rpc_calls {
            Some(counter) => spec_counter_name(counter),
            None => Seq::<char>::empty(),
        }
    }

    /// The registered counter's help text; empty without a counter.
    pub closed spec fn counter_help(&self) -> Seq<char> {
        match self.rpc_calls {
            Some(counter) => spec_counter_help(counter),
            None => Seq::<char>::empty(),
        }
    }

    /// The registered counter's label dimension; empty without a counter.
    pub closed spec fn counter_label(&self) -> Seq<char> {
        match self.rpc_calls {
            Some(counter) => spec_counter_label(counter),
            None => Seq::<char>::empty(),
        }
    }

    /// Whether a counter was registered, as the callers can test it.
    pub fn counter_present(&self) -> (r: bool)
        ensures
            r == self.has_counter(),
    {
        match &self.rpc_calls {
            Some(_) => true,
            None => false,
        }
    }

    /// Creates the metrics. Without a registry the result holds no counter
    /// and never errors; with one, a counter named `rpc_calls_total` with
    /// the single label dimension `protocol` is registered against it, and
    /// the registry's rejection is returned as the error.
    pub fn new(metrics_registry: Option<&prometheus::Registry>) -> (r: Result<
        Self,
        RegistrationError,
    >)
        ensures
            metrics_registry is None ==> (r matches Ok(m) && !m.has_counter()),
            metrics_registry is Some ==> (r matches Ok(m) ==> (m.has_counter() && m.counter_name()
                == "rpc_calls_total"@ && m.counter_help() == "Number of rpc calls received"@
                && m.counter_label() == "protocol"@)),
    {
        match metrics_registry {
            None => Ok(RpcMetrics { rpc_calls: None }),
            Some(registry) => {
                match new_registered_counter(
                    registry,
                    "rpc_calls_total",
                    "Number of rpc calls received",
                    "protocol",
                ) {
                    Ok(counter) => Ok(RpcMetrics { rpc_calls: Some(counter) }),
                    Err(e) => Err(RegistrationError { inner: e }),
                }
            },
        }
    }

    /// Adds one to the request counter under the given transport label; a
    /// no-op when no counter was registered. This is the side-effecting
    /// half of a counting decision such as the one
    /// [`RpcMiddleware::on_request`](crate::middleware::RpcMiddleware::on_request)
    /// hands back.
    pub fn inc(&self, transport_label: &str) {
        match &self.rpc_calls {
            Some(counter) => inc_by_label(counter, transport_label),
            None => (),
        }
    }
}

} // verus!
