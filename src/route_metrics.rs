//! Instrumentation of one route: duration histograms per method and outcome
//! counters per method and status code, each created on first use and then
//! reused.

use vstd::prelude::*;
use crate::labels::{
    lemma_stat_slot_inverse, method_at, route_label, route_label_of, slot_method, slot_status,
    stat_slot, stat_slot_of, MetricMethod, METHOD_COUNT, STAT_SLOTS,
};
use crate::registry::{
    asked_once_more, start_timer, Counter, DurationKey, Metrics, RequestLog, StatusKey,
};
use crate::slots::{
    empty_slots, lemma_first_use_counts_every_request, lemma_record_wf, record, record_all, slots_wf,
    SlotsModel,
};

verus! {

/// Metric handles of one route, each materialized on first use.
pub struct RouteMetrics {
    label: String,
    durations: Vec<Option<prometheus::Histogram>>,
    stats: Vec<Option<Counter>>,
    duration_log: RequestLog<DurationKey>,
    stats_log: RequestLog<StatusKey>,
    durations_model: Ghost<SlotsModel>,
    stats_model: Ghost<SlotsModel>,
}

impl RouteMetrics {
    /// Label of the route in every metric it reports.
    pub closed spec fn label_view(&self) -> Seq<char> {
        self.label@
    }

    /// Duration histogram slots, one per method.
    pub closed spec fn durations_model(&self) -> SlotsModel {
        self.durations_model@
    }

    /// Outcome counter slots, one per method and status code.
    pub closed spec fn stats_model(&self) -> SlotsModel {
        self.stats_model@
    }

    /// Duration histograms asked of the registry, per label values.
    pub closed spec fn duration_log(&self) -> RequestLog<DurationKey> {
        self.duration_log
    }

    /// Outcome counters asked of the registry, per label values.
    pub closed spec fn stats_log(&self) -> RequestLog<StatusKey> {
        self.stats_log
    }

    /// Increments made through the counter of slot `k`.
    pub closed spec fn stat_raised(&self, k: int) -> nat {
        match self.stats@[k] {
            Some(c) => c.raised(),
            None => 0,
        }
    }

    pub closed spec fn wf(&self) -> bool {
        &&& self.durations@.len() == METHOD_COUNT
        &&& self.stats@.len() == STAT_SLOTS
        &&& self.durations_model@.filled.len() == METHOD_COUNT
        &&& self.stats_model@.filled.len() == STAT_SLOTS
        &&& slots_wf(self.durations_model@)
        &&& slots_wf(self.stats_model@)
        &&& forall|k: int|
            0 <= k < METHOD_COUNT ==> #[trigger] self.durations_model@.filled[k] == self.durations@[k] is Some
        &&& forall|k: int|
            0 <= k < METHOD_COUNT ==> #[trigger] self.durations_model@.asked[k] == self.duration_log.asked(
                (self.label@, method_at(k)),
            )
        &&& forall|k: int|
            0 <= k < STAT_SLOTS ==> #[trigger] self.stats_model@.filled[k] == self.stats@[k] is Some
        &&& forall|k: int|
            0 <= k < STAT_SLOTS ==> #[trigger] self.stats_model@.asked[k] == self.stats_log.asked(
                (self.label@, slot_method(k), slot_status(k)),
            )
        &&& forall|k: int|
            0 <= k < STAT_SLOTS ==> #[trigger] self.stats_model@.count[k] == self.stat_raised(k)
        &&& forall|k: int|
            0 <= k < STAT_SLOTS && #[trigger] self.stats@[k] is Some ==> self.stats@[k]->Some_0.key() == (
                self.label@,
                slot_method(k),
                slot_status(k),
            )
    }

    /// The facts of `wf` that callers reason with: the models are well
    /// formed, each counter slot's count is what its counter was raised by,
    /// and each slot's requests are those the registry received for its labels.
    pub proof fn lemma_wf(&self)
        requires
            self.wf(),
        ensures
            self.durations_model().filled.len() == METHOD_COUNT,
            self.stats_model().filled.len() == STAT_SLOTS,
            slots_wf(self.durations_model()),
            slots_wf(self.stats_model()),
            forall|k: int|
                0 <= k < STAT_SLOTS ==> #[trigger] self.stats_model().count[k] == self.stat_raised(k),
            forall|k: int|
                0 <= k < STAT_SLOTS ==> #[trigger] self.stats_model().asked[k] == self.stats_log().asked(
                    (self.label_view(), slot_method(k), slot_status(k)),
                ),
            forall|k: int|
                0 <= k < METHOD_COUNT ==> #[trigger] self.durations_model().asked[k]
                    == self.duration_log().asked((self.label_view(), method_at(k))),
    {
    }

    /// Empty slots for a route: no handle is asked for before it is needed.
    pub fn new(route: &str) -> (r: RouteMetrics)
        ensures
            r.wf(),
            r.label_view() == route_label_of(route@),
            r.durations_model() == empty_slots(METHOD_COUNT as nat),
            r.stats_model() == empty_slots(STAT_SLOTS as nat),
    {
        let mut durations: Vec<Option<prometheus::Histogram>> = Vec::new();
        let mut i: usize = 0;
        while i < METHOD_COUNT
            invariant
                i <= METHOD_COUNT,
                durations@.len() == i,
                forall|k: int| 0 <= k < i ==> #[trigger] durations@[k] is None,
            decreases METHOD_COUNT - i,
        {
            durations.push(None);
            i = i + 1;
        }
        let mut stats: Vec<Option<Counter>> = Vec::new();
        let mut j: usize = 0;
        while j < STAT_SLOTS
            invariant
                j <= STAT_SLOTS,
                stats@.len() == j,
                forall|k: int| 0 <= k < j ==> #[trigger] stats@[k] is None,
            decreases STAT_SLOTS - j,
        {
            stats.push(None);
            j = j + 1;
        }
        let r = RouteMetrics {
            label: route_label(route),
            durations,
            stats,
            duration_log: RequestLog::new(),
            stats_log: RequestLog::new(),
            durations_model: Ghost(empty_slots(METHOD_COUNT as nat)),
            stats_model: Ghost(empty_slots(STAT_SLOTS as nat)),
        };
        assert(slots_wf(empty_slots(METHOD_COUNT as nat)));
        assert(slots_wf(empty_slots(STAT_SLOTS as nat)));
        r
    }

    /// The route's label.
    pub fn label(&self) -> (r: &str)
        ensures
            r@ == self.label_view(),
    {
        self.label.as_str()
    }

    /// Starts measuring a request's duration in the histogram of `method`.
    /// The histogram is asked of the registry only while the slot is empty;
    /// a registry error is handed back and nothing is measured.
    pub fn start_timer(&mut self, metrics: &Metrics, method: MetricMethod) -> (r: Result<
        prometheus::HistogramTimer,
        prometheus::Error,
    >)
        requires
            old(self).wf(),
        ensures
            final(self).wf(),
            final(self).label_view() == old(self).label_view(),
            final(self).stats_model() == old(self).stats_model(),
            final(self).stats_log() == old(self).stats_log(),
            forall|k: int| 0 <= k < STAT_SLOTS ==> final(self).stat_raised(k) == old(self).stat_raised(k),
            final(self).durations_model() == record(
                old(self).durations_model(),
                method.spec_index() as int,
                r is Ok,
            ),
            old(self).durations_model().filled[method.spec_index() as int] ==> (r is Ok
                && final(self).duration_log() == old(self).duration_log()),
            !old(self).durations_model().filled[method.spec_index() as int] ==> asked_once_more(
                old(self).duration_log(),
                final(self).duration_log(),
                (old(self).label_view(), method),
            ),
    {
        let k = method.index();
        let ghost old_model = self.durations_model@;
        proof {
            lemma_record_wf(old_model, k as int, true);
            lemma_record_wf(old_model, k as int, false);
            assert(method_at(k as int) == method);
        }
        if let Some(h) = &self.durations[k] {
            let t = start_timer(h);
            proof {
                self.durations_model@ = record(old_model, k as int, true);
            }
            return Ok(t);
        }
        match metrics.duration_histogram(&mut self.duration_log, self.label.as_str(), method) {
            Ok(h) => {
                let t = start_timer(&h);
                self.durations[k] = Some(h);
                proof {
                    self.durations_model@ = record(old_model, k as int, true);
                }
                Ok(t)
            },
            Err(e) => {
                proof {
                    self.durations_model@ = record(old_model, k as int, false);
                }
                Err(e)
            },
        }
    }

    /// Counts one response of status `status` to a `method` request. A status
    /// outside the counted range changes nothing. The counter is asked of the
    /// registry only while its slot is empty; a registry error is handed back
    /// and the response goes uncounted.
    pub fn record_status(&mut self, metrics: &Metrics, method: MetricMethod, status: u16) -> (r: Result<
        (),
        prometheus::Error,
    >)
        requires
            old(self).wf(),
        ensures
            final(self).wf(),
            final(self).label_view() == old(self).label_view(),
            final(self).durations_model() == old(self).durations_model(),
            final(self).duration_log() == old(self).duration_log(),
            stat_slot_of(method, status) is None ==> (r is Ok
                && final(self).stats_model() == old(self).stats_model() && final(self).stats_log()
                == old(self).stats_log()),
            stat_slot_of(method, status) matches Some(k) ==> final(self).stats_model() == record(
                old(self).stats_model(),
                k as int,
                r is Ok,
            ),
            stat_slot_of(method, status) matches Some(k) ==> (r is Ok ==> final(self).stat_raised(k as int)
                == old(self).stat_raised(k as int) + 1),
            stat_slot_of(method, status) matches Some(k) && old(self).stats_model().filled[k as int]
                ==> (r is Ok && final(self).stats_log() == old(self).stats_log()),
            stat_slot_of(method, status) matches Some(k) && !old(self).stats_model().filled[k as int]
                ==> asked_once_more(
                old(self).stats_log(),
                final(self).stats_log(),
                (old(self).label_view(), method, status),
            ),
    {
        let k = match stat_slot(method, status) {
            Some(k) => k,
            None => return Ok(()),
        };
        let ghost old_model = self.stats_model@;
        proof {
            lemma_stat_slot_inverse(method, status);
            lemma_record_wf(old_model, k as int, true);
            lemma_record_wf(old_model, k as int, false);
        }
        let mut slot: Option<Counter> = None;
        std::mem::swap(&mut slot, &mut self.stats[k]);
        match slot {
            Some(mut c) => {
                c.increment();
                self.stats[k] = Some(c);
                proof {
                    self.stats_model@ = record(old_model, k as int, true);
                }
                Ok(())
            },
            None => match metrics.status_counter(&mut self.stats_log, self.label.as_str(), method, status) {
                Ok(mut c) => {
                    c.increment();
                    self.stats[k] = Some(c);
                    proof {
                        self.stats_model@ = record(old_model, k as int, true);
                    }
                    Ok(())
                },
                Err(e) => {
                    proof {
                        self.stats_model@ = record(old_model, k as int, false);
                    }
                    Err(e)
                },
            },
        }
    }

    /// The body size histogram of `method` and the size to observe in it, when
    /// the request declares an upper bound of its body size. Without one the
    /// observation is skipped.
    pub fn body_size_observation(&self, metrics: &Metrics, method: &str, size_hint: Option<u64>) -> (r:
        Option<Result<(prometheus::Histogram, u64), prometheus::Error>>)
        ensures
            size_hint is None ==> r is None,
            size_hint is Some ==> (r matches Some(o) && (o matches Ok(p) ==> p.1 == size_hint->Some_0)),
    {
        match size_hint {
            None => None,
            Some(size) => match metrics.body_size_histogram(self.label.as_str(), method) {
                Ok(h) => Some(Ok((h, size))),
                Err(e) => Some(Err(e)),
            },
        }
    }
}

/// Creates the instrumentation of one route.
pub struct MetricsMiddlewareLayer {
    pub path: String,
}

impl MetricsMiddlewareLayer {
    pub fn new(path: String) -> (r: MetricsMiddlewareLayer)
        ensures
            r.path@ == path@,
    {
        MetricsMiddlewareLayer { path }
    }

    /// Fresh, empty handle slots for the layer's route.
    pub fn route_metrics(&self) -> (r: RouteMetrics)
        ensures
            r.wf(),
            r.label_view() == route_label_of(self.path@),
            r.durations_model() == empty_slots(METHOD_COUNT as nat),
            r.stats_model() == empty_slots(STAT_SLOTS as nat),
    {
        RouteMetrics::new(self.path.as_str())
    }
}

/// `n` responses of one method and status to a route that has not answered
/// with that outcome before, the first of which gets its counter from the
/// registry: one counter is created for the outcome, and it counts all `n`.
pub proof fn lemma_route_outcome_counted_once(
    rm: &RouteMetrics,
    method: MetricMethod,
    status: u16,
    grants: Seq<bool>,
)
    requires
        rm.wf(),
        stat_slot_of(method, status) is Some,
        !rm.stats_model().filled[stat_slot_of(method, status)->Some_0 as int],
        grants.len() >= 1,
        grants[0],
    ensures
        ({
            let k = stat_slot_of(method, status)->Some_0 as int;
            let after = record_all(rm.stats_model(), k, grants);
            after.created[k] == 1 && after.count[k] == grants.len() && after.asked[k]
                == rm.stats_model().asked[k] + 1
        }),
{
    rm.lemma_wf();
    let k = stat_slot_of(method, status)->Some_0 as int;
    lemma_first_use_counts_every_request(rm.stats_model(), k, grants);
}

} // verus!
