//! The metric families of a registry, and the handles they hand out for
//! label values. Each request for a handle is logged in ghost state that only
//! this module writes, next to the call that makes it.

use vstd::prelude::*;
use crate::labels::{status_label, MetricMethod};

verus! {

/// A histogram for one label combination.
#[verifier::external_type_specification]
#[verifier::external_body]
pub struct ExHistogram(prometheus::Histogram);

/// A running duration measurement; it records into its histogram when dropped.
#[verifier::external_type_specification]
#[verifier::external_body]
pub struct ExHistogramTimer(prometheus::HistogramTimer);

/// Why the registry refused a family or a handle.
#[verifier::external_type_specification]
#[verifier::external_body]
pub struct ExRegistryError(prometheus::Error);

/// A metrics registry.
#[verifier::external_type_specification]
#[verifier::external_body]
pub struct ExRegistry(prometheus::Registry);

/// A family of histograms, one per label values (`HistogramVec`). Its
/// builder type is private to `prometheus`, so the family is held opaquely.
#[verifier::external_body]
pub struct HistogramFamily {
    vec: prometheus::HistogramVec,
}

/// A family of integer counters, one per label values (`IntCounterVec`).
#[verifier::external_body]
pub struct CounterFamily {
    vec: prometheus::IntCounterVec,
}

/// An integer counter handed out by a `CounterFamily`, held opaquely: its
/// type is generic over a `prometheus` trait.
#[verifier::external_body]
pub struct RawCounter {
    counter: prometheus::IntCounter,
}

/// Name of a histogram family.
pub uninterp spec fn histogram_family_name(f: HistogramFamily) -> Seq<char>;

/// Label names of a histogram family.
pub uninterp spec fn histogram_family_labels(f: HistogramFamily) -> Seq<Seq<char>>;

/// Name of a counter family.
pub uninterp spec fn counter_family_name(f: CounterFamily) -> Seq<char>;

/// Label names of a counter family.
pub uninterp spec fn counter_family_labels(f: CounterFamily) -> Seq<Seq<char>>;

/// Names of the families registered with a registry.
pub uninterp spec fn registered_names(r: prometheus::Registry) -> Set<Seq<char>>;

pub open spec fn strings_view(v: Seq<String>) -> Seq<Seq<char>> {
    v.map_values(|s: String| s@)
}

/// Relies on `HistogramVec::new`: a family named `name` with label names
/// `labels`, registered nowhere.
#[verifier::external_body]
fn new_histogram_family(name: &str, help: &str, labels: &Vec<String>) -> (r: Result<
    HistogramFamily,
    prometheus::Error,
>)
    ensures
        r matches Ok(f) ==> histogram_family_name(f) == name@ && histogram_family_labels(f)
            == strings_view(labels@),
{
    let names: Vec<&str> = labels.iter().map(|l| l.as_str()).collect();
    let vec = prometheus::HistogramVec::new(prometheus::HistogramOpts::new(name, help), &names)?;
    Ok(HistogramFamily { vec })
}

/// Relies on `IntCounterVec::new`: a family named `name` with label names
/// `labels`, registered nowhere.
#[verifier::external_body]
fn new_counter_family(name: &str, help: &str, labels: &Vec<String>) -> (r: Result<
    CounterFamily,
    prometheus::Error,
>)
    ensures
        r matches Ok(f) ==> counter_family_name(f) == name@ && counter_family_labels(f)
            == strings_view(labels@),
{
    let names: Vec<&str> = labels.iter().map(|l| l.as_str()).collect();
    let vec = prometheus::IntCounterVec::new(prometheus::Opts::new(name, help), &names)?;
    Ok(CounterFamily { vec })
}

/// Relies on `Registry::register`: on success the family is registered; on
/// failure the registered collectors are those of before.
#[verifier::external_body]
fn register_histogram_family(registry: &mut prometheus::Registry, f: &HistogramFamily) -> (r: Result<
    (),
    prometheus::Error,
>)
    ensures
        r is Ok ==> registered_names(*final(registry)) == registered_names(*old(registry)).insert(
            histogram_family_name(*f),
        ),
        r is Err ==> registered_names(*final(registry)) == registered_names(*old(registry)),
{
    registry.register(Box::new(f.vec.clone()))
}

/// Relies on `Registry::register`, as `register_histogram_family` does.
#[verifier::external_body]
fn register_counter_family(registry: &mut prometheus::Registry, f: &CounterFamily) -> (r: Result<
    (),
    prometheus::Error,
>)
    ensures
        r is Ok ==> registered_names(*final(registry)) == registered_names(*old(registry)).insert(
            counter_family_name(*f),
        ),
        r is Err ==> registered_names(*final(registry)) == registered_names(*old(registry)),
{
    registry.register(Box::new(f.vec.clone()))
}

/// Relies on `MetricVec::get_metric_with_label_values`: the histogram for
/// label values `(path, method)`, created on first request.
#[verifier::external_body]
fn histogram_with_labels(f: &HistogramFamily, path: &str, method: &str) -> (r: Result<
    prometheus::Histogram,
    prometheus::Error,
>) {
    f.vec.get_metric_with_label_values(&[path, method])
}

/// Relies on `MetricVec::get_metric_with_label_values`: the counter for
/// label values `(path, method, status)`, created on first request.
#[verifier::external_body]
fn counter_with_labels(f: &CounterFamily, path: &str, method: &str, status: &str) -> (r: Result<
    RawCounter,
    prometheus::Error,
>) {
    let counter = f.vec.get_metric_with_label_values(&[path, method, status])?;
    Ok(RawCounter { counter })
}

/// Relies on `GenericCounter::inc`: adds one to the counter.
#[verifier::external_body]
fn inc_counter(c: &RawCounter) {
    c.counter.inc()
}

/// Relies on `Histogram::start_timer`: starts measuring a duration that the
/// timer records into the histogram when it is dropped.
#[verifier::external_body]
pub(crate) fn start_timer(histogram: &prometheus::Histogram) -> (r: prometheus::HistogramTimer) {
    histogram.start_timer()
}

/// Label values of a duration histogram: route label and method.
pub type DurationKey = (Seq<char>, MetricMethod);

/// Label values of an outcome counter: route label, method and status code.
pub type StatusKey = (Seq<char>, MetricMethod, u16);

/// How many times handles were asked of the registry, per label values.
#[verifier::reject_recursive_types(K)]
pub struct RequestLog<K> {
    asked: Ghost<Map<K, nat>>,
}

impl<K> RequestLog<K> {
    pub closed spec fn asked(&self, key: K) -> nat {
        if self.asked@.contains_key(key) {
            self.asked@[key]
        } else {
            0
        }
    }

    /// A log of no requests.
    pub fn new() -> (r: RequestLog<K>)
        ensures
            forall|k: K| r.asked(k) == 0,
    {
        RequestLog { asked: Ghost(Map::empty()) }
    }
}

/// `after` is `before` with one more request for `key`.
pub open spec fn asked_once_more<K>(before: RequestLog<K>, after: RequestLog<K>, key: K) -> bool {
    &&& after.asked(key) == before.asked(key) + 1
    &&& forall|k: K| k != key ==> #[trigger] after.asked(k) == before.asked(k)
}

/// An outcome counter for one label combination, with the number of times
/// it was raised through this handle.
pub struct Counter {
    raw: RawCounter,
    key: Ghost<StatusKey>,
    raised: Ghost<nat>,
}

impl Counter {
    pub closed spec fn key(&self) -> StatusKey {
        self.key@
    }

    /// Increments made through this handle.
    pub closed spec fn raised(&self) -> nat {
        self.raised@
    }

    /// Adds one to the counter.
    pub fn increment(&mut self)
        ensures
            final(self).raised() == old(self).raised() + 1,
            final(self).key() == old(self).key(),
    {
        inc_counter(&self.raw);
        proof {
            self.raised@ = self.raised@ + 1;
        }
    }
}

/// The three families that route instrumentation reports into.
pub struct Metrics {
    pub duration: HistogramFamily,
    pub body_size: HistogramFamily,
    pub stats: CounterFamily,
}

pub open spec fn path_method_labels() -> Seq<Seq<char>> {
    seq!["path"@, "method"@]
}

pub open spec fn path_method_status_labels() -> Seq<Seq<char>> {
    seq!["path"@, "method"@, "status_code"@]
}

impl Metrics {
    /// `request_duration{path,method}`, `request_body_size{path,method}`
    /// and `request_stats{path,method,status_code}`.
    pub open spec fn well_named(&self) -> bool {
        &&& histogram_family_name(self.duration) == "request_duration"@
        &&& histogram_family_labels(self.duration) == path_method_labels()
        &&& histogram_family_name(self.body_size) == "request_body_size"@
        &&& histogram_family_labels(self.body_size) == path_method_labels()
        &&& counter_family_name(self.stats) == "request_stats"@
        &&& counter_family_labels(self.stats) == path_method_status_labels()
    }

    /// Builds the three families and registers them with `registry`. A
    /// registry that refuses one (one of that name is there already) gives its
    /// error back.
    pub fn new_in(registry: &mut prometheus::Registry) -> (r: Result<Metrics, prometheus::Error>)
        ensures
            r matches Ok(m) ==> m.well_named() && registered_names(*final(registry)) == registered_names(
                *old(registry),
            ).insert("request_duration"@).insert("request_body_size"@).insert("request_stats"@),
    {
        proof {
            reveal_strlit("path");
            reveal_strlit("method");
            reveal_strlit("status_code");
        }
        let two = vec![String::from_str("path"), String::from_str("method")];
        let three = vec![
            String::from_str("path"),
            String::from_str("method"),
            String::from_str("status_code"),
        ];
        assert(strings_view(two@) =~= path_method_labels());
        assert(strings_view(three@) =~= path_method_status_labels());
        let duration = match new_histogram_family("request_duration", "Request duration", &two) {
            Ok(f) => f,
            Err(e) => return Err(e),
        };
        let body_size = match new_histogram_family("request_body_size", "Request body size", &two) {
            Ok(f) => f,
            Err(e) => return Err(e),
        };
        let stats = match new_counter_family("request_stats", "Request stats", &three) {
            Ok(f) => f,
            Err(e) => return Err(e),
        };
        if let Err(e) = register_histogram_family(registry, &duration) {
            return Err(e);
        }
        if let Err(e) = register_histogram_family(registry, &body_size) {
            return Err(e);
        }
        if let Err(e) = register_counter_family(registry, &stats) {
            return Err(e);
        }
        Ok(Metrics { duration, body_size, stats })
    }

    /// The duration histogram for `(path, method)`, asked of the registry;
    /// the request is logged.
    pub fn duration_histogram(
        &self,
        log: &mut RequestLog<DurationKey>,
        path: &str,
        method: MetricMethod,
    ) -> (r: Result<prometheus::Histogram, prometheus::Error>)
        ensures
            asked_once_more(*old(log), *final(log), (path@, method)),
    {
        proof {
            let n = log.asked((path@, method));
            log.asked@ = log.asked@.insert((path@, method), n + 1);
        }
        histogram_with_labels(&self.duration, path, method.as_str())
    }

    /// The body size histogram for `(path, method)`.
    pub fn body_size_histogram(&self, path: &str, method: &str) -> (r: Result<
        prometheus::Histogram,
        prometheus::Error,
    >) {
        histogram_with_labels(&self.body_size, path, method)
    }

    /// The outcome counter for `(path, method, status)`, asked of the
    /// registry with the status code in decimal; the request is logged. A
    /// counter handed out has not been raised through its handle.
    pub fn status_counter(
        &self,
        log: &mut RequestLog<StatusKey>,
        path: &str,
        method: MetricMethod,
        status: u16,
    ) -> (r: Result<Counter, prometheus::Error>)
        requires
            100 <= status < 1000,
        ensures
            asked_once_more(*old(log), *final(log), (path@, method, status)),
            r matches Ok(c) ==> c.key() == (path@, method, status) && c.raised() == 0,
    {
        proof {
            let n = log.asked((path@, method, status));
            log.asked@ = log.asked@.insert((path@, method, status), n + 1);
        }
        let code = status_label(status);
        match counter_with_labels(&self.stats, path, method.as_str(), code.as_str()) {
            Ok(raw) => Ok(Counter { raw, key: Ghost((path@, method, status)), raised: Ghost(0) }),
            Err(e) => Err(e),
        }
    }
}

} // verus!
