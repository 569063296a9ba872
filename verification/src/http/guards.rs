//! The account of a request from its arrival to its end.
//!
//! A request is in flight from the start of its handler until its response is
//! complete. It is queued from the start of its handler until its first token,
//! which is a part of that time.

use super::families::Family;
use super::labels::{Endpoint, RequestType, Status};
use super::metrics::{request_key, Metrics, MetricsView};
use super::observation::{Measure, MeasureView, Observation, ObservationView};
use super::series::{count_at, label_hash, level_at, next_count};
use crate::time::{clock_may_read, clock_may_show, Duration, Timer};
use vstd::prelude::*;

verus! {

/// A request that waits for its first token. It is released with
/// [`HttpQueueGuard::release`].
pub struct HttpQueueGuard {
    model: String,
}

impl View for HttpQueueGuard {
    type V = Seq<char>;

    /// The model.
    closed spec fn view(&self) -> Seq<char> {
        self.model@
    }
}

impl HttpQueueGuard {
    /// Notes that a request for `model` waits.
    pub fn new(metrics: &mut Metrics, model: String) -> (r: Self)
        requires
            old(metrics).wf(),
        ensures
            final(metrics).wf(),
            final(metrics).prefix() == old(metrics).prefix(),
            final(metrics)@ == old(metrics)@.queued_up(model@),
            r@ == model@,
    {
        metrics.inc_http_queue_gauge(model.as_str());
        HttpQueueGuard { model }
    }

    /// Notes that the request waits no longer.
    pub fn release(self, metrics: &mut Metrics)
        requires
            old(metrics).wf(),
        ensures
            final(metrics).wf(),
            final(metrics).prefix() == old(metrics).prefix(),
            final(metrics)@ == old(metrics)@.queued_down(self@),
    {
        metrics.dec_http_queue_gauge(self.model.as_str());
    }
}

/// A request that is being processed. It ends with [`InflightGuard::finish`]:
/// with [`Status::Success`] after [`InflightGuard::mark_ok`], and with
/// [`Status::Error`] otherwise.
pub struct InflightGuard {
    model: String,
    endpoint: Endpoint,
    request_type: RequestType,
    status: Status,
    timer: Timer,
}

/// What an [`InflightGuard`] knows of its request.
pub ghost struct InflightView {
    pub model: Seq<char>,
    pub endpoint: Endpoint,
    pub request_type: RequestType,
    pub status: Status,
    /// When it was taken in.
    pub started: std::time::Instant,
}

impl InflightView {
    /// The key of the counter that counts the request when it ends.
    pub open spec fn key(self) -> u64 {
        request_key(self.model, self.endpoint, self.request_type, self.status)
    }

    /// The metrics after the request ended: one request less in flight, and one
    /// more counted under its dimensions and status.
    pub open spec fn finished(self, metrics: MetricsView) -> MetricsView {
        metrics.inflight_down(self.model).request_counted(self.key())
    }
}

impl View for InflightGuard {
    type V = InflightView;

    closed spec fn view(&self) -> InflightView {
        InflightView {
            model: self.model@,
            endpoint: self.endpoint,
            request_type: self.request_type,
            status: self.status,
            started: self.timer@,
        }
    }
}

impl InflightGuard {
    /// Notes that a request is in flight, and starts its clock.
    pub fn new(
        metrics: &mut Metrics,
        model: String,
        endpoint: Endpoint,
        request_type: RequestType,
    ) -> (r: Self)
        requires
            old(metrics).wf(),
        ensures
            final(metrics).wf(),
            final(metrics).prefix() == old(metrics).prefix(),
            final(metrics)@ == old(metrics)@.inflight_up(model@),
            clock_may_show(r@.started),
            r@ == (InflightView {
                model: model@,
                endpoint,
                request_type,
                status: Status::Error,
                started: r@.started,
            }),
    {
        let timer = Timer::start();
        metrics.inc_inflight_gauge(model.as_str());
        InflightGuard { model, endpoint, request_type, status: Status::Error, timer }
    }

    /// Marks the request as a success.
    pub fn mark_ok(&mut self)
        ensures
            final(self)@ == (InflightView { status: Status::Success, ..old(self)@ }),
    {
        self.status = Status::Success;
    }

    /// Ends the request now. The observation to be recorded is its duration,
    /// as the clock shows it.
    pub fn finish(self, metrics: &mut Metrics) -> (r: Observation)
        requires
            old(metrics).wf(),
        ensures
            final(metrics).wf(),
            final(metrics).prefix() == old(metrics).prefix(),
            final(metrics)@ == self@.finished(old(metrics)@),
            exists|elapsed: nat| #[trigger]
                clock_may_read(self@.started, elapsed) && r@ == (ObservationView {
                    family: Family::RequestDuration,
                    model: self@.model,
                    value: MeasureView::Seconds(elapsed),
                    times: 1,
                }),
    {
        let elapsed = self.timer.elapsed();
        assert(clock_may_read(self@.started, elapsed@));
        self.finish_after(metrics, elapsed)
    }

    /// Ends the request, which took `elapsed`.
    pub fn finish_after(self, metrics: &mut Metrics, elapsed: Duration) -> (r: Observation)
        requires
            old(metrics).wf(),
        ensures
            final(metrics).wf(),
            final(metrics).prefix() == old(metrics).prefix(),
            final(metrics)@ == self@.finished(old(metrics)@),
            r@ == (ObservationView {
                family: Family::RequestDuration,
                model: self@.model,
                value: MeasureView::Seconds(elapsed@),
                times: 1,
            }),
    {
        metrics.dec_inflight_gauge(self.model.as_str());
        metrics.inc_request_counter(
            self.model.as_str(),
            &self.endpoint,
            &self.request_type,
            &self.status,
        );
        Observation {
            family: Family::RequestDuration,
            model: self.model,
            value: Measure::Seconds(elapsed),
            times: 1,
        }
    }
}

/// A request that was taken in and has ended leaves the number of requests in
/// flight as it was, and is counted once, under the status that it ended with.
pub proof fn request_is_balanced(before: MetricsView, request: InflightView)
    ensures
        ({
            let after = request.finished(before.inflight_up(request.model));
            let model = label_hash(request.model);
            &&& level_at(after.inflight, model) == level_at(before.inflight, model)
            &&& forall|key: u64|
                key != model ==> level_at(after.inflight, key) == level_at(before.inflight, key)
            &&& count_at(after.requests, request.key()) == next_count(
                count_at(before.requests, request.key()),
            )
            &&& forall|key: u64|
                key != request.key() ==> count_at(after.requests, key) == count_at(
                    before.requests,
                    key,
                )
            &&& after.queued == before.queued
            &&& after.disconnects == before.disconnects
        }),
{
}

/// A request that was never marked as a success is counted as an error, and one
/// that was marked as a success.
pub proof fn success_is_counted_where_marked(before: MetricsView, request: InflightView)
    requires
        request.status == Status::Error,
    ensures
        ({
            let marked = InflightView { status: Status::Success, ..request };
            let error = request_key(
                request.model,
                request.endpoint,
                request.request_type,
                Status::Error,
            );
            let success = request_key(
                request.model,
                request.endpoint,
                request.request_type,
                Status::Success,
            );
            &&& request.finished(before).requests == before.requests.insert(
                error,
                next_count(count_at(before.requests, error)),
            )
            &&& marked.finished(before).requests == before.requests.insert(
                success,
                next_count(count_at(before.requests, success)),
            )
        }),
{
}

/// A request that waited and was released leaves the queue as it was, whatever
/// was done to the other gauges.
pub proof fn queue_is_balanced(before: MetricsView, model: Seq<char>)
    ensures
        ({
            let after = before.queued_up(model).queued_down(model);
            &&& forall|key: u64| level_at(after.queued, key) == level_at(before.queued, key)
            &&& after.inflight == before.inflight
            &&& after.requests == before.requests
            &&& after.disconnects == before.disconnects
        }),
{
}

/// Requests that are taken in and ended in any interleaving: the number in
/// flight for a model is the number taken in less the number ended.
pub open spec fn inflight_after(start: MetricsView, events: Seq<(bool, Seq<char>)>) -> MetricsView
    decreases events.len(),
{
    if events.len() == 0 {
        start
    } else {
        let before = inflight_after(start, events.drop_last());
        let (arrives, model) = events.last();
        if arrives {
            before.inflight_up(model)
        } else {
            before.inflight_down(model)
        }
    }
}

/// How many requests under `key` arrived, less those that ended.
pub open spec fn balance(events: Seq<(bool, Seq<char>)>, key: u64) -> int
    decreases events.len(),
{
    if events.len() == 0 {
        0
    } else {
        let (arrives, model) = events.last();
        balance(events.drop_last(), key) + (if label_hash(model) != key {
            0int
        } else if arrives {
            1
        } else {
            -1
        })
    }
}

/// The gauge of requests in flight shows the arrivals less the ends, over any
/// sequence of them that stays within its range.
pub proof fn inflight_gauge_counts(start: MetricsView, events: Seq<(bool, Seq<char>)>, key: u64)
    requires
        forall|n: int|
            0 <= n <= events.len() ==> i64::MIN <= level_at(start.inflight, key) + #[trigger] balance(
                events.take(n),
                key,
            ) <= i64::MAX,
    ensures
        level_at(inflight_after(start, events).inflight, key) == level_at(start.inflight, key)
            + balance(events, key),
    decreases events.len(),
{
    if events.len() > 0 {
        let earlier = events.drop_last();
        assert forall|n: int| 0 <= n <= earlier.len() implies i64::MIN <= level_at(
            start.inflight,
            key,
        ) + #[trigger] balance(earlier.take(n), key) <= i64::MAX by {
            assert(earlier.take(n) == events.take(n));
        }
        inflight_gauge_counts(start, earlier, key);
        assert(events.take(events.len() as int) == events);
        assert(balance(events.take(events.len() as int), key) == balance(events, key));
    }
}

/// What the end of a request changes: the gauge of its model goes down by one, the
/// counter of its model, endpoint, way of answering and end goes up by one, and
/// nothing else moves.
pub proof fn end_of_a_request(before: MetricsView, request: InflightView)
    requires
        i64::MIN < level_at(before.inflight, label_hash(request.model)),
        count_at(
            before.requests,
            label_hash(
                request.model + request.endpoint.label() + request.request_type.label()
                    + request.status.label(),
            ),
        ) < u64::MAX,
    ensures
        ({
            let after = request.finished(before);
            let model = label_hash(request.model);
            let counter = label_hash(
                request.model + request.endpoint.label() + request.request_type.label()
                    + request.status.label(),
            );
            &&& request.key() == counter
            &&& level_at(after.inflight, model) == level_at(before.inflight, model) - 1
            &&& count_at(after.requests, counter) == count_at(before.requests, counter) + 1
            &&& forall|key: u64|
                key != model ==> #[trigger] level_at(after.inflight, key) == level_at(
                    before.inflight,
                    key,
                )
            &&& forall|key: u64|
                key != counter ==> #[trigger] count_at(after.requests, key) == count_at(
                    before.requests,
                    key,
                )
            &&& after.queued == before.queued
            &&& after.disconnects == before.disconnects
            &&& after.total_kv_blocks == before.total_kv_blocks
            &&& after.max_num_seqs == before.max_num_seqs
            &&& after.max_num_batched_tokens == before.max_num_batched_tokens
            &&& after.context_length == before.context_length
            &&& after.kv_cache_block_size == before.kv_cache_block_size
            &&& after.migration_limit == before.migration_limit
        }),
{
}

/// A request waits from when it is noted until it is released: the gauge of its model
/// goes up by one and down by one.
pub proof fn waiting_is_noted_and_released(
    metrics: &mut Metrics,
    model: String,
    made: HttpQueueGuard,
    guard: HttpQueueGuard,
)
    ensures
        HttpQueueGuard::new.ensures((metrics, model), made) ==> made@ == model@
            && final(metrics)@ == old(metrics)@.queued_up(model@),
        HttpQueueGuard::release.ensures((guard, metrics), ()) ==> final(metrics)@
            == old(metrics)@.queued_down(guard@),
{
}

/// A request that is taken in keeps what it was taken in with, and is an error until it
/// is marked as a success, which changes nothing else of it.
pub proof fn requests_are_errors_until_marked(
    metrics: &mut Metrics,
    model: String,
    endpoint: Endpoint,
    request_type: RequestType,
    made: InflightGuard,
    guard: &mut InflightGuard,
)
    ensures
        InflightGuard::new.ensures((metrics, model, endpoint, request_type), made) ==> {
            &&& made@.model == model@
            &&& made@.endpoint == endpoint
            &&& made@.request_type == request_type
            &&& made@.status is Error
            &&& clock_may_show(made@.started)
            &&& final(metrics)@ == old(metrics)@.inflight_up(model@)
        },
        InflightGuard::mark_ok.ensures((guard,), ()) ==> {
            &&& final(guard)@.status is Success
            &&& final(guard)@.model == old(guard)@.model
            &&& final(guard)@.endpoint == old(guard)@.endpoint
            &&& final(guard)@.request_type == old(guard)@.request_type
            &&& final(guard)@.started == old(guard)@.started
        },
{
}

/// A request that ends is taken off the gauge of its model and counted once under its
/// labels, and its whole time is recorded once for its model.
pub proof fn ended_requests_are_recorded(
    guard: InflightGuard,
    metrics: &mut Metrics,
    elapsed: Duration,
    r: Observation,
)
    ensures
        InflightGuard::finish_after.ensures((guard, metrics, elapsed), r) ==> {
            &&& r.family is RequestDuration
            &&& r.model@ == guard@.model
            &&& r.value@ == MeasureView::Seconds(elapsed@)
            &&& r.times == 1
            &&& final(metrics)@ == old(metrics)@.inflight_down(guard@.model).request_counted(
                label_hash(
                    guard@.model + guard@.endpoint.label() + guard@.request_type.label()
                        + guard@.status.label(),
                ),
            )
        },
        InflightGuard::finish.ensures((guard, metrics), r) ==> {
            &&& r.family is RequestDuration
            &&& r.model@ == guard@.model
            &&& r.times == 1
            &&& r.value@ matches MeasureView::Seconds(nanos) && clock_may_read(
                guard@.started,
                nanos,
            )
            &&& final(metrics)@ == old(metrics)@.inflight_down(guard@.model).request_counted(
                label_hash(
                    guard@.model + guard@.endpoint.label() + guard@.request_type.label()
                        + guard@.status.label(),
                ),
            )
        },
{
}

} // verus!
