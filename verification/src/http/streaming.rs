//! The responses of a stream: their metrics and the events that they become.

use super::events::{
    always_fails, are_one_line, build_event, built, comments_text, event_text, is_one_line,
    one_line, writable, writes_data, EventError,
};
use super::families::Family;
use super::guards::HttpQueueGuard;
use super::metrics::{Metrics, MetricsView};
use super::observation::{
    input_lengths, lemma_input_lengths_add, lemma_times_recorded_adds, observation_views,
    times_recorded, MeasureView, Observation, ObservationView,
};
use super::response::{CollectorView, ResponseMetricCollector};
use crate::text::{join_texts, joined, same_text, texts};
use crate::time::Duration;
use vstd::prelude::*;
use vstd::string::*;

verus! {

/// The metrics that a response may carry along.
#[derive(Clone, Copy, Debug)]
pub struct LLMMetricAnnotation {
    /// The length of the input.
    pub input_tokens: usize,
    /// The length of the output so far.
    pub output_tokens: usize,
    /// The tokens in this response.
    pub chunk_tokens: usize,
}

/// A response with its annotations.
#[derive(Debug)]
pub struct Annotated<T> {
    pub data: Option<T>,
    pub event: Option<String>,
    pub comment: Option<Vec<String>>,
}

/// A response that is to become an event.
pub struct EventConverter<T>(pub Annotated<T>);

impl<T> From<Annotated<T>> for EventConverter<T> {
    fn from(annotated: Annotated<T>) -> (r: Self) {
        EventConverter(annotated)
    }
}

impl<T> vstd::std_specs::convert::FromSpecImpl<Annotated<T>> for EventConverter<T> {
    open spec fn obeys_from_spec() -> bool {
        true
    }

    open spec fn from_spec(annotated: Annotated<T>) -> Self {
        EventConverter(annotated)
    }
}

/// The fields of an event besides its data.
#[derive(Debug)]
pub struct EventFields {
    pub event: Option<String>,
    pub comments: Vec<String>,
}

/// What a response becomes: its data, and either the other fields of the event
/// or the message of the error that it reports.
#[derive(Debug)]
pub struct ConvertedEvent<T> {
    pub data: Option<T>,
    pub outcome: Result<EventFields, String>,
}

/// The text of an optional string.
pub open spec fn optional_text(s: Option<String>) -> Option<Seq<char>> {
    match s {
        Some(s) => Some(s@),
        None => None,
    }
}

/// The texts of an optional list of strings.
pub open spec fn optional_texts(list: Option<Vec<String>>) -> Option<Seq<Seq<char>>> {
    match list {
        Some(list) => Some(texts(list@)),
        None => None,
    }
}

/// The outcome of a response: an event named `error` is an error, whose message
/// are its comments. Any other keeps its name and its comments.
pub open spec fn outcome_of(
    event: Option<Seq<char>>,
    comment: Option<Seq<Seq<char>>>,
    outcome: Result<EventFields, String>,
) -> bool {
    if event == Some("error"@) {
        outcome matches Err(message) && message@ == (match comment {
            Some(comments) => joined(comments, " -- "@),
            None => "unspecified error"@,
        })
    } else {
        outcome matches Ok(fields) && {
            &&& optional_text(fields.event) == event
            &&& texts(fields.comments@) == (match comment {
                Some(comments) => comments,
                None => Seq::empty(),
            })
        }
    }
}

/// Whether a response is a metrics annotation that was read, so that neither its
/// name nor its comments are passed on.
pub open spec fn is_chomped(
    event: Option<Seq<char>>,
    annotation: Option<LLMMetricAnnotation>,
    metrics_event: Seq<char>,
) -> bool {
    annotation is Some && event == Some(metrics_event)
}

/// Whether `converted` is what a response becomes.
pub open spec fn converts<T>(
    annotated: Annotated<T>,
    annotation: Option<LLMMetricAnnotation>,
    metrics_event: Seq<char>,
    converted: ConvertedEvent<T>,
) -> bool {
    &&& converted.data == annotated.data
    &&& if is_chomped(optional_text(annotated.event), annotation, metrics_event) {
        outcome_of(None, None, converted.outcome)
    } else {
        outcome_of(
            optional_text(annotated.event),
            optional_texts(annotated.comment),
            converted.outcome,
        )
    }
}

/// Whether a response can be sent as an event, as far as its name and its
/// comments go: each is one line, unless they are not passed on or it is an error.
pub open spec fn sendable<T>(
    annotated: Annotated<T>,
    annotation: Option<LLMMetricAnnotation>,
    metrics_event: Seq<char>,
) -> bool {
    ||| is_chomped(optional_text(annotated.event), annotation, metrics_event)
    ||| optional_text(annotated.event) == Some("error"@)
    ||| writable(
        optional_text(annotated.event),
        match optional_texts(annotated.comment) {
            Some(comments) => comments,
            None => Seq::empty(),
        },
    )
}

/// Turns a response into an event.
///
/// `annotation` holds the metrics that were read from the response, if any.
/// Where they were, and the event is the annotation itself, neither its name
/// nor its comments are passed on.
pub fn convert_event<T>(
    converter: EventConverter<T>,
    annotation: &Option<LLMMetricAnnotation>,
    metrics_event: &str,
) -> (r: ConvertedEvent<T>)
    ensures
        converts(converter.0, *annotation, metrics_event@, r),
{
    let annotated = converter.0;
    let chomped = match (annotation, &annotated.event) {
        (Some(_), Some(event)) => same_text(event.as_str(), metrics_event),
        _ => false,
    };
    if chomped {
        let comments: Vec<String> = Vec::new();
        proof {
            assert(texts(comments@) =~= Seq::<Seq<char>>::empty());
        }
        return ConvertedEvent {
            data: annotated.data,
            outcome: Ok(EventFields { event: None, comments }),
        };
    }
    let is_error = match &annotated.event {
        Some(event) => same_text(event.as_str(), "error"),
        None => false,
    };
    if is_error {
        let message = match &annotated.comment {
            Some(comments) => join_texts(comments, " -- "),
            None => "unspecified error".to_owned(),
        };
        return ConvertedEvent { data: annotated.data, outcome: Err(message) };
    }
    let comments: Vec<String> = match annotated.comment {
        Some(comments) => comments,
        None => {
            let none: Vec<String> = Vec::new();
            proof {
                assert(texts(none@) =~= Seq::<Seq<char>>::empty());
            }
            none
        },
    };
    ConvertedEvent {
        data: annotated.data,
        outcome: Ok(EventFields { event: annotated.event, comments }),
    }
}

/// The account of a stream: the responses so far, the model of the request that
/// still waits, and the service's metrics.
pub ghost struct StreamView {
    pub collector: CollectorView,
    pub waiting: Option<Seq<char>>,
    pub metrics: MetricsView,
}

/// The model of a request that still waits.
pub open spec fn waiting_model(guard: Option<HttpQueueGuard>) -> Option<Seq<char>> {
    match guard {
        Some(guard) => Some(guard@),
        None => None,
    }
}

/// The account of a stream, put together from its parts.
pub open spec fn stream(
    collector: CollectorView,
    guard: Option<HttpQueueGuard>,
    metrics: MetricsView,
) -> StreamView {
    StreamView { collector, waiting: waiting_model(guard), metrics }
}

impl StreamView {
    /// Whether a response with this annotation brings the first token.
    pub open spec fn first_token_comes(self, annotation: LLMMetricAnnotation) -> bool {
        self.collector.first_token && annotation.chunk_tokens > 0
    }

    /// The account after a response that came `now` after the start. Its output
    /// length is noted, the wait ends with the first token, and the tokens are
    /// noted. A response without metrics changes nothing.
    pub open spec fn responded(self, annotation: Option<LLMMetricAnnotation>, now: nat) -> Self {
        match annotation {
            None => self,
            Some(a) => StreamView {
                collector: (CollectorView { osl: a.output_tokens as nat, ..self.collector }).responded(
                    a.chunk_tokens as nat,
                    now,
                ),
                waiting: if self.first_token_comes(a) {
                    None
                } else {
                    self.waiting
                },
                metrics: match self.waiting {
                    Some(model) if self.first_token_comes(a) => self.metrics.queued_down(model),
                    _ => self.metrics,
                },
            },
        }
    }

    /// What is recorded of a response.
    pub open spec fn observations(
        self,
        annotation: Option<LLMMetricAnnotation>,
        ttft: nat,
        now: nat,
    ) -> Seq<ObservationView> {
        match annotation {
            None => Seq::empty(),
            Some(a) => self.collector.observations(
                a.input_tokens as nat,
                a.chunk_tokens as nat,
                ttft,
                now,
            ),
        }
    }
}

/// Takes the metrics of a response into account. The first token of the
/// response came after `ttft`, where it is the first of all, and the response
/// was complete after `now`, both counted from the start of the request.
pub fn process_response_at(
    annotation: &Option<LLMMetricAnnotation>,
    response_collector: &mut ResponseMetricCollector,
    http_queue_guard: &mut Option<HttpQueueGuard>,
    metrics: &mut Metrics,
    ttft: Duration,
    now: Duration,
) -> (r: Vec<Observation>)
    requires
        old(metrics).wf(),
        old(response_collector)@.not_before(now@),
    ensures
        final(metrics).wf(),
        final(metrics).prefix() == old(metrics).prefix(),
        stream(final(response_collector)@, *final(http_queue_guard), final(metrics)@) == stream(
            old(response_collector)@,
            *old(http_queue_guard),
            old(metrics)@,
        ).responded(*annotation, now@),
        observation_views(r@) == stream(
            old(response_collector)@,
            *old(http_queue_guard),
            old(metrics)@,
        ).observations(*annotation, ttft@, now@),
{
    match annotation {
        None => {
            let r: Vec<Observation> = Vec::new();
            proof {
                assert(observation_views(r@) =~= Seq::<ObservationView>::empty());
            }
            r
        },
        Some(a) => {
            response_collector.observe_current_osl(a.output_tokens);
            if response_collector.is_first_token() && a.chunk_tokens > 0 {
                if let Some(guard) = http_queue_guard.take() {
                    guard.release(metrics);
                }
            }
            response_collector.observe_response_at(a.input_tokens, a.chunk_tokens, ttft, now)
        },
    }
}

/// Takes the metrics of a response into account, at the time that the clock
/// shows.
pub fn process_response_and_observe_metrics(
    annotation: &Option<LLMMetricAnnotation>,
    response_collector: &mut ResponseMetricCollector,
    http_queue_guard: &mut Option<HttpQueueGuard>,
    metrics: &mut Metrics,
) -> (r: Vec<Observation>)
    requires
        old(metrics).wf(),
    ensures
        final(metrics).wf(),
        final(metrics).prefix() == old(metrics).prefix(),
        exists|ttft: nat, now: nat|
            {
                &&& old(response_collector)@.clock_reads(ttft, now)
                &&& old(response_collector)@.not_before(now)
                &&& stream(final(response_collector)@, *final(http_queue_guard), final(metrics)@)
                    == stream(
                    old(response_collector)@,
                    *old(http_queue_guard),
                    old(metrics)@,
                ).responded(*annotation, now)
                &&& observation_views(r@) == #[trigger] stream(
                    old(response_collector)@,
                    *old(http_queue_guard),
                    old(metrics)@,
                ).observations(*annotation, ttft, now)
            },
{
    let (ttft, now) = response_collector.read_clock();
    process_response_at(annotation, response_collector, http_queue_guard, metrics, ttft, now)
}

/// Whether a response can be sent as an event, as far as its name and its
/// comments go.
pub fn is_sendable<T>(
    annotated: &Annotated<T>,
    annotation: &Option<LLMMetricAnnotation>,
    metrics_event: &str,
) -> (r: bool)
    ensures
        r == sendable(*annotated, *annotation, metrics_event@),
{
    if let Some(event) = &annotated.event {
        if annotation.is_some() && same_text(event.as_str(), metrics_event) {
            return true;
        }
        if same_text(event.as_str(), "error") {
            return true;
        }
        if !is_one_line(event.as_str()) {
            return false;
        }
    }
    match &annotated.comment {
        Some(list) => are_one_line(list),
        None => true,
    }
}

/// Whether `r` comes of a response that was turned into an event, whose data was
/// written by `write_data`.
pub open spec fn event_comes<T, J>(
    annotated: Annotated<T>,
    annotation: Option<LLMMetricAnnotation>,
    metrics_event: Seq<char>,
    write_data: J,
    r: Result<axum::response::sse::Event, EventError>,
) -> bool where
    J: FnOnce(axum::response::sse::Event, T) -> Result<axum::response::sse::Event, axum::Error>,
 {
    exists|
        converted: ConvertedEvent<T>,
        start: axum::response::sse::Event,
        written: Result<axum::response::sse::Event, axum::Error>,
    |
        converts(annotated, annotation, metrics_event, converted) && #[trigger] built(
            converted,
            write_data,
            start,
            written,
            r,
        )
}

/// Takes the metrics of a response into account, at the time that the clock
/// shows, and turns it into an event. Its data is written by `write_data`.
pub fn process_response_using_event_converter_and_observe_metrics<T, J>(
    annotated: EventConverter<T>,
    annotation: &Option<LLMMetricAnnotation>,
    metrics_event: &str,
    write_data: J,
    response_collector: &mut ResponseMetricCollector,
    http_queue_guard: &mut Option<HttpQueueGuard>,
    metrics: &mut Metrics,
) -> (r: (Result<axum::response::sse::Event, EventError>, Vec<Observation>)) where
    J: FnOnce(axum::response::sse::Event, T) -> Result<axum::response::sse::Event, axum::Error>,

    requires
        old(metrics).wf(),
        writes_data(write_data),
        sendable(annotated.0, *annotation, metrics_event@) || (annotated.0.data matches Some(data)
            && always_fails(write_data, data)),
    ensures
        final(metrics).wf(),
        final(metrics).prefix() == old(metrics).prefix(),
        event_comes(annotated.0, *annotation, metrics_event@, write_data, r.0),
        exists|ttft: nat, now: nat|
            {
                &&& old(response_collector)@.clock_reads(ttft, now)
                &&& old(response_collector)@.not_before(now)
                &&& stream(final(response_collector)@, *final(http_queue_guard), final(metrics)@)
                    == stream(
                    old(response_collector)@,
                    *old(http_queue_guard),
                    old(metrics)@,
                ).responded(*annotation, now)
                &&& observation_views(r.1@) == #[trigger] stream(
                    old(response_collector)@,
                    *old(http_queue_guard),
                    old(metrics)@,
                ).observations(*annotation, ttft, now)
            },
{
    let observations = process_response_and_observe_metrics(
        annotation,
        response_collector,
        http_queue_guard,
        metrics,
    );
    let converted = convert_event(annotated, annotation, metrics_event);
    (build_event(converted, write_data), observations)
}

/// A response of a stream: the metrics that it carries, and the clock's readings
/// when it came.
pub ghost struct Response {
    pub annotation: Option<LLMMetricAnnotation>,
    pub ttft: nat,
    pub now: nat,
}

impl Response {
    /// The tokens that it brings.
    pub open spec fn tokens(self) -> nat {
        match self.annotation {
            Some(a) => a.chunk_tokens as nat,
            None => 0,
        }
    }
}

/// The account of a stream after some responses.
pub open spec fn stream_after(start: StreamView, responses: Seq<Response>) -> StreamView
    decreases responses.len(),
{
    if responses.len() == 0 {
        start
    } else {
        let last = responses.last();
        stream_after(start, responses.drop_last()).responded(last.annotation, last.now)
    }
}

/// Everything that is recorded of some responses.
pub open spec fn all_observations(start: StreamView, responses: Seq<Response>) -> Seq<
    ObservationView,
>
    decreases responses.len(),
{
    if responses.len() == 0 {
        Seq::empty()
    } else {
        let last = responses.last();
        let before = responses.drop_last();
        all_observations(start, before) + stream_after(start, before).observations(
            last.annotation,
            last.ttft,
            last.now,
        )
    }
}

/// The tokens that some responses bring.
pub open spec fn total_tokens(responses: Seq<Response>) -> nat
    decreases responses.len(),
{
    if responses.len() == 0 {
        0
    } else {
        total_tokens(responses.drop_last()) + responses.last().tokens()
    }
}

/// The tokens in the first response that brings any.
pub open spec fn first_tokens(responses: Seq<Response>) -> nat
    decreases responses.len(),
{
    if responses.len() == 0 {
        0
    } else if first_tokens(responses.drop_last()) > 0 {
        first_tokens(responses.drop_last())
    } else {
        responses.last().tokens()
    }
}

/// The input length that comes with the first response that brings any tokens.
pub open spec fn first_input_length(responses: Seq<Response>) -> nat
    decreases responses.len(),
{
    if responses.len() == 0 {
        0
    } else if total_tokens(responses.drop_last()) > 0 {
        first_input_length(responses.drop_last())
    } else {
        match responses.last().annotation {
            Some(a) => a.input_tokens as nat,
            None => 0,
        }
    }
}

proof fn lemma_tokens_come(start: StreamView, responses: Seq<Response>)
    requires
        start.collector.first_token,
        start.collector.last_response is None,
    ensures
        stream_after(start, responses).collector.first_token <==> total_tokens(responses) == 0,
        stream_after(start, responses).collector.last_response is None <==> total_tokens(responses)
            == 0,
        first_tokens(responses) == 0 <==> total_tokens(responses) == 0,
        first_tokens(responses) <= total_tokens(responses),
    decreases responses.len(),
{
    if responses.len() > 0 {
        lemma_tokens_come(start, responses.drop_last());
    }
}

/// A request waits until its first token, and no longer: whatever responses
/// come, it still waits exactly where none of them brought a token. The queue
/// goes down once, with the first token.
pub proof fn wait_ends_with_first_token(start: StreamView, responses: Seq<Response>)
    requires
        start.collector.first_token,
        start.collector.last_response is None,
    ensures
        ({
            let after = stream_after(start, responses);
            if total_tokens(responses) == 0 {
                after.waiting == start.waiting && after.metrics == start.metrics
            } else {
                &&& after.waiting is None
                &&& after.metrics == match start.waiting {
                    Some(model) => start.metrics.queued_down(model),
                    None => start.metrics,
                }
            }
        }),
    decreases responses.len(),
{
    if responses.len() > 0 {
        wait_ends_with_first_token(start, responses.drop_last());
        lemma_tokens_come(start, responses.drop_last());
    }
}

/// The output length of a stream is the one that its last response with metrics
/// gave.
pub proof fn output_length_is_the_last(
    start: StreamView,
    responses: Seq<Response>,
    a: LLMMetricAnnotation,
    quiet: Seq<Response>,
)
    requires
        responses.len() > 0,
        responses.last().annotation == Some(a),
        forall|i: int| 0 <= i < quiet.len() ==> (#[trigger] quiet[i]).annotation is None,
    ensures
        stream_after(start, responses + quiet).collector.osl == a.output_tokens,
    decreases quiet.len(),
{
    if quiet.len() == 0 {
        assert(responses + quiet =~= responses);
    } else {
        assert((responses + quiet).drop_last() =~= responses + quiet.drop_last());
        assert((responses + quiet).last() == quiet[quiet.len() - 1]);
        output_length_is_the_last(start, responses, a, quiet.drop_last());
    }
}

/// Of any stream the time to the first token and the input length are recorded
/// once, if a token comes at all, and the length is that of the first response
/// that brings any. The time between tokens is recorded once for each token behind
/// that response. Only before it does the account wait for the first token.
pub proof fn each_token_is_recorded_once(start: StreamView, responses: Seq<Response>)
    requires
        start.collector.first_token,
        start.collector.last_response is None,
    ensures
        ({
            let all = all_observations(start, responses);
            let once: nat = if total_tokens(responses) > 0 {
                1
            } else {
                0
            };
            &&& times_recorded(all, Family::TimeToFirstToken) == once
            &&& times_recorded(all, Family::InputSequence) == once
            &&& input_lengths(all) == (if total_tokens(responses) > 0 {
                seq![first_input_length(responses)]
            } else {
                Seq::empty()
            })
            &&& times_recorded(all, Family::InterTokenLatency) == total_tokens(responses)
                - first_tokens(responses)
            &&& stream_after(start, responses).collector.first_token == (total_tokens(responses)
                == 0)
        }),
    decreases responses.len(),
{
    if responses.len() > 0 {
        let before = responses.drop_last();
        let state = stream_after(start, before);
        let last = responses.last();
        let new = state.observations(last.annotation, last.ttft, last.now);
        each_token_is_recorded_once(start, before);
        lemma_tokens_come(start, before);
        lemma_times_recorded_adds(all_observations(start, before), new, Family::TimeToFirstToken);
        lemma_times_recorded_adds(all_observations(start, before), new, Family::InputSequence);
        lemma_times_recorded_adds(all_observations(start, before), new, Family::InterTokenLatency);
        lemma_input_lengths_add(all_observations(start, before), new);
        lemma_tokens_come(start, responses);
        reveal_with_fuel(times_recorded, 4);
        reveal_with_fuel(input_lengths, 4);
        if last.tokens() > 0 {
            let isl = last.annotation->Some_0.input_tokens as nat;
            let first = state.collector.first_observations(isl, last.ttft);
            let latency = state.collector.latency_observations(last.tokens(), last.now);
            assert(new == first + latency);
            if state.collector.first_token {
                assert(latency.len() == 0);
                assert(new =~= first);
                assert(new.drop_last() =~= seq![first[0]]);
                assert(new.drop_last().drop_last() =~= Seq::<ObservationView>::empty());
            } else {
                assert(new =~= latency);
                assert(new.drop_last() =~= Seq::<ObservationView>::empty());
            }
        }
    }
}

/// Whether the clock's readings of some responses never go back.
pub open spec fn well_timed(start: StreamView, responses: Seq<Response>) -> bool
    decreases responses.len(),
{
    responses.len() > 0 ==> {
        &&& well_timed(start, responses.drop_last())
        &&& stream_after(start, responses.drop_last()).collector.not_before(responses.last().now)
    }
}

/// When the first response came that brings any tokens.
pub open spec fn first_response_time(responses: Seq<Response>) -> nat
    decreases responses.len(),
{
    if responses.len() == 0 {
        0
    } else if total_tokens(responses.drop_last()) > 0 {
        first_response_time(responses.drop_last())
    } else {
        responses.last().now
    }
}

/// All the time between tokens that is recorded. A share that is recorded once
/// for each part counts with its whole time.
pub open spec fn latency_recorded(observations: Seq<ObservationView>) -> nat
    decreases observations.len(),
{
    if observations.len() == 0 {
        0
    } else {
        latency_recorded(observations.drop_last()) + match observations.last().value {
            MeasureView::SecondsShare(nanos, parts) if parts == observations.last().times => nanos,
            _ => 0,
        }
    }
}

proof fn lemma_latency_adds(a: Seq<ObservationView>, b: Seq<ObservationView>)
    ensures
        latency_recorded(a + b) == latency_recorded(a) + latency_recorded(b),
    decreases b.len(),
{
    if b.len() == 0 {
        assert(a + b =~= a);
    } else {
        assert((a + b).drop_last() =~= a + b.drop_last());
        lemma_latency_adds(a, b.drop_last());
    }
}

/// The times between tokens that are recorded of a stream add up to the time
/// between its first and its last tokens.
pub proof fn latencies_span_the_stream(start: StreamView, responses: Seq<Response>)
    requires
        start.collector.first_token,
        start.collector.last_response is None,
        well_timed(start, responses),
        total_tokens(responses) > 0,
    ensures
        stream_after(start, responses).collector.last_response == Some(
            first_response_time(responses) + latency_recorded(all_observations(start, responses)),
        ),
    decreases responses.len(),
{
    let before = responses.drop_last();
    let state = stream_after(start, before);
    let last = responses.last();
    let new = state.observations(last.annotation, last.ttft, last.now);
    lemma_tokens_come(start, before);
    lemma_latency_adds(all_observations(start, before), new);
    reveal_with_fuel(latency_recorded, 4);
    if total_tokens(before) > 0 {
        latencies_span_the_stream(start, before);
        if last.tokens() > 0 {
            let latency = state.collector.latency_observations(last.tokens(), last.now);
            assert(new =~= latency);
            assert(new.drop_last() =~= Seq::<ObservationView>::empty());
        }
    } else {
        lemma_quiet_stream(start, before);
        let isl = last.annotation->Some_0.input_tokens as nat;
        let first = state.collector.first_observations(isl, last.ttft);
        assert(new =~= first);
        assert(new.drop_last() =~= seq![first[0]]);
        assert(new.drop_last().drop_last() =~= Seq::<ObservationView>::empty());
    }
}

proof fn lemma_quiet_stream(start: StreamView, responses: Seq<Response>)
    requires
        start.collector.first_token,
        start.collector.last_response is None,
        total_tokens(responses) == 0,
    ensures
        all_observations(start, responses) == Seq::<ObservationView>::empty(),
    decreases responses.len(),
{
    if responses.len() > 0 {
        lemma_quiet_stream(start, responses.drop_last());
    }
}

/// What a response becomes. Its data stays. It is an error exactly where its event
/// is named `error` and is not the metrics that were read off it; the message is
/// then its comments, with dashes between them. Otherwise name and comments stay,
/// but for the metrics, of which neither does.
pub proof fn responses_become_events<T>(
    annotated: Annotated<T>,
    annotation: Option<LLMMetricAnnotation>,
    metrics_event: Seq<char>,
    converted: ConvertedEvent<T>,
)
    requires
        converts(annotated, annotation, metrics_event, converted),
    ensures
        converted.data == annotated.data,
        ({
            let metrics_read = annotation is Some && (annotated.event matches Some(e) && e@
                == metrics_event);
            let is_error = !metrics_read && (annotated.event matches Some(e) && e@ == "error"@);
            &&& converted.outcome is Err <==> is_error
            &&& is_error ==> converted.outcome->Err_0@ == (match annotated.comment {
                Some(comments) => joined(texts(comments@), " -- "@),
                None => "unspecified error"@,
            })
            &&& metrics_read ==> converted.outcome->Ok_0.event is None
                && converted.outcome->Ok_0.comments@.len() == 0
            &&& !is_error && !metrics_read ==> {
                let fields = converted.outcome->Ok_0;
                &&& fields.event is Some <==> annotated.event is Some
                &&& annotated.event matches Some(e) ==> fields.event->Some_0@ == e@
                &&& annotated.comment is None ==> fields.comments@.len() == 0
                &&& annotated.comment matches Some(comments) ==> texts(fields.comments@) == texts(
                    comments@,
                )
            }
        }),
{
    if let Ok(fields) = converted.outcome {
        assert(texts(fields.comments@).len() == fields.comments@.len());
    }
}

/// A response can be sent unless its name or one of its comments, which would be
/// written, has more than one line.
pub proof fn line_breaks_are_not_sent<T>(
    annotated: Annotated<T>,
    annotation: Option<LLMMetricAnnotation>,
    metrics_event: Seq<char>,
)
    ensures
        ({
            let metrics_read = annotation is Some && (annotated.event matches Some(e) && e@
                == metrics_event);
            let is_error = annotated.event matches Some(e) && e@ == "error"@;
            let broken_name = annotated.event matches Some(e) && (e@.contains('\n')
                || e@.contains('\r'));
            let broken_comment = annotated.comment matches Some(comments) && exists|i: int|
                0 <= i < comments@.len() && ((#[trigger] comments@[i])@.contains('\n')
                    || comments@[i]@.contains('\r'));
            sendable(annotated, annotation, metrics_event) <==> metrics_read || is_error || (
            !broken_name && !broken_comment)
        }),
{
    if let Some(comments) = annotated.comment {
        let all = texts(comments@);
        assert(forall|i: int| 0 <= i < comments@.len() ==> #[trigger] all[i] == comments@[i]@);
        if forall|i: int| 0 <= i < all.len() ==> one_line(#[trigger] all[i]) {
            assert forall|i: int| 0 <= i < comments@.len()
                implies !(#[trigger] comments@[i])@.contains(
                '\n',
            ) && !comments@[i]@.contains('\r') by {
                assert(one_line(all[i]));
            }
        } else {
            let i = choose|i: int| 0 <= i < all.len() && !one_line(#[trigger] all[i]);
            assert(all[i] == comments@[i]@);
        }
    }
}

/// What a response changes of a stream. Without metrics nothing. With metrics the
/// output length is that of the response, the account is moved by its tokens, and
/// the first token ends the wait and takes the request off the queue of its model.
pub proof fn response_moves_the_stream(
    s: StreamView,
    annotation: Option<LLMMetricAnnotation>,
    ttft: nat,
    now: nat,
)
    ensures
        ({
            let after = s.responded(annotation, now);
            let o = s.observations(annotation, ttft, now);
            &&& annotation is None ==> after == s && o.len() == 0
            &&& annotation matches Some(a) ==> {
                let first = s.collector.first_token && a.chunk_tokens > 0;
                &&& after.collector.model == s.collector.model
                &&& after.collector.started == s.collector.started
                &&& after.collector.osl == a.output_tokens
                &&& after.collector.first_token == (s.collector.first_token && a.chunk_tokens == 0)
                &&& a.chunk_tokens > 0 ==> after.collector.last_response == Some(now)
                &&& a.chunk_tokens == 0 ==> after.collector.last_response
                    == s.collector.last_response
                &&& first ==> after.waiting is None
                &&& !first ==> after.waiting == s.waiting && after.metrics == s.metrics
                &&& first && s.waiting is None ==> after.metrics == s.metrics
                &&& first ==> (s.waiting matches Some(model) ==> after.metrics
                    == s.metrics.queued_down(model))
                &&& o == s.collector.observations(
                    a.input_tokens as nat,
                    a.chunk_tokens as nat,
                    ttft,
                    now,
                )
                &&& forall|i: int| 0 <= i < o.len() ==> (#[trigger] o[i]).model
                    == s.collector.model
            }
        }),
{
}

/// A stream is put together from its account, the request that still waits, and the
/// metrics.
pub proof fn stream_has_its_parts(
    collector: CollectorView,
    guard: Option<HttpQueueGuard>,
    metrics: MetricsView,
)
    ensures
        stream(collector, guard, metrics).collector == collector,
        stream(collector, guard, metrics).metrics == metrics,
        guard is None <==> stream(collector, guard, metrics).waiting is None,
        guard matches Some(g) ==> stream(collector, guard, metrics).waiting == Some(g@),
{
}

/// Whatever responses come, everything is recorded under the model of the stream.
pub proof fn stream_keeps_the_model(start: StreamView, responses: Seq<Response>)
    ensures
        forall|i: int|
            0 <= i < all_observations(start, responses).len() ==> (#[trigger] all_observations(
                start,
                responses,
            )[i]).model == start.collector.model,
        stream_after(start, responses).collector.model == start.collector.model,
        stream_after(start, responses).collector.started == start.collector.started,
    decreases responses.len(),
{
    if responses.len() > 0 {
        stream_keeps_the_model(start, responses.drop_last());
    }
}

/// What a response is sent as: an error exactly where its data could not be written
/// or it reports one, and otherwise the data that was written, its name and its
/// comments.
pub proof fn sent_events_hold_the_response<T, J>(
    annotated: Annotated<T>,
    annotation: Option<LLMMetricAnnotation>,
    metrics_event: Seq<char>,
    write_data: J,
    r: Result<axum::response::sse::Event, EventError>,
) where
    J: FnOnce(axum::response::sse::Event, T) -> Result<axum::response::sse::Event, axum::Error>,

    requires
        event_comes(annotated, annotation, metrics_event, write_data, r),
        annotated.data is None,
        !(annotation is Some && (annotated.event matches Some(e) && e@ == metrics_event)),
    ensures
        r is Err <==> (annotated.event matches Some(e) && e@ == "error"@),
        r matches Err(e) ==> (e matches EventError::Reported(message) && message@ == (
        match annotated.comment {
            Some(comments) => joined(texts(comments@), " -- "@),
            None => "unspecified error"@,
        })),
        r matches Ok(event) ==> event_text(event) == (match annotated.event {
            Some(e) => "event"@ + seq![':', ' '] + e@ + seq!['\n'],
            None => Seq::empty(),
        }) + comments_text(
            match annotated.comment {
                Some(comments) => texts(comments@),
                None => Seq::empty(),
            },
        ),
{
    let (converted, start, written) = choose|
        converted: ConvertedEvent<T>,
        start: axum::response::sse::Event,
        written: Result<axum::response::sse::Event, axum::Error>,
    |
        converts(annotated, annotation, metrics_event, converted) && #[trigger] built(
            converted,
            write_data,
            start,
            written,
            r,
        );
    responses_become_events(annotated, annotation, metrics_event, converted);
    if let Ok(fields) = converted.outcome {
        assert(texts(fields.comments@).len() == fields.comments@.len());
        if annotated.comment is None {
            assert(texts(fields.comments@) =~= Seq::<Seq<char>>::empty());
        }
        if let Ok(event) = r {
            assert(event_text(event) =~= (match annotated.event {
                Some(e) => "event"@ + seq![':', ' '] + e@ + seq!['\n'],
                None => Seq::empty(),
            }) + comments_text(
                match annotated.comment {
                    Some(comments) => texts(comments@),
                    None => Seq::empty(),
                },
            ));
        }
    }
}

/// What a response is turned into keeps its data; it is an error exactly where it is
/// named so and is not the metrics that were read, and otherwise keeps its name and its
/// comments, which the metrics lose.
pub proof fn responses_are_converted<T>(
    converter: EventConverter<T>,
    annotation: &Option<LLMMetricAnnotation>,
    metrics_event: &str,
    r: ConvertedEvent<T>,
)
    requires
        convert_event.ensures((converter, annotation, metrics_event), r),
    ensures
        ({
            let annotated = converter.0;
            let metrics_read = annotation is Some && (annotated.event matches Some(e) && e@
                == metrics_event@);
            let is_error = !metrics_read && (annotated.event matches Some(e) && e@ == "error"@);
            &&& r.data == annotated.data
            &&& r.outcome is Err <==> is_error
            &&& is_error ==> r.outcome->Err_0@ == (match annotated.comment {
                Some(comments) => joined(texts(comments@), " -- "@),
                None => "unspecified error"@,
            })
            &&& metrics_read ==> r.outcome->Ok_0.event is None && r.outcome->Ok_0.comments@.len()
                == 0
            &&& !is_error && !metrics_read ==> {
                &&& r.outcome->Ok_0.event is Some <==> annotated.event is Some
                &&& annotated.event matches Some(e) ==> r.outcome->Ok_0.event->Some_0@ == e@
                &&& annotated.comment is None ==> r.outcome->Ok_0.comments@.len() == 0
                &&& annotated.comment matches Some(comments) ==> texts(r.outcome->Ok_0.comments@)
                    == texts(comments@)
            }
        }),
{
    responses_become_events(converter.0, *annotation, metrics_event@, r);
}

/// Whether a response can be sent is told by its name and its comments.
pub proof fn sendable_responses_are_told<T>(
    annotated: &Annotated<T>,
    annotation: &Option<LLMMetricAnnotation>,
    metrics_event: &str,
    answer: bool,
)
    requires
        is_sendable.ensures((annotated, annotation, metrics_event), answer),
    ensures
        ({
            let metrics_read = annotation is Some && (annotated.event matches Some(e) && e@
                == metrics_event@);
            let is_error = annotated.event matches Some(e) && e@ == "error"@;
            let broken_name = annotated.event matches Some(e) && (e@.contains('\n')
                || e@.contains('\r'));
            let broken_comment = annotated.comment matches Some(comments) && exists|i: int|
                0 <= i < comments@.len() && ((#[trigger] comments@[i])@.contains('\n')
                    || comments@[i]@.contains('\r'));
            answer <==> metrics_read || is_error || (!broken_name && !broken_comment)
        }),
{
    line_breaks_are_not_sent(*annotated, *annotation, metrics_event@);
}

/// What the metrics of a response change. Without metrics nothing does and nothing is
/// recorded. With metrics the length of the output is noted, all is recorded for the
/// model of the account, and the first token takes the request off the queue and ends
/// its wait.
pub proof fn metrics_of_responses_are_taken(
    annotation: &Option<LLMMetricAnnotation>,
    collector: &mut ResponseMetricCollector,
    guard: &mut Option<HttpQueueGuard>,
    metrics: &mut Metrics,
    ttft: Duration,
    now: Duration,
    r: Vec<Observation>,
)
    requires
        process_response_at.ensures((annotation, collector, guard, metrics, ttft, now), r),
    ensures
        forall|i: int| 0 <= i < r@.len() ==> (#[trigger] r@[i]).model@ == old(collector)@.model,
        final(collector)@.model == old(collector)@.model,
        final(collector)@.started == old(collector)@.started,
        annotation is None ==> {
            &&& final(collector)@ == old(collector)@
            &&& final(metrics)@ == old(metrics)@
            &&& *old(guard) is None <==> *final(guard) is None
            &&& r@.len() == 0
        },
        annotation matches Some(a) ==> {
            let first = old(collector)@.first_token && a.chunk_tokens > 0;
            &&& final(collector)@.osl == a.output_tokens
            &&& final(collector)@.first_token == (old(collector)@.first_token && a.chunk_tokens
                == 0)
            &&& a.chunk_tokens > 0 ==> final(collector)@.last_response == Some(now@)
            &&& a.chunk_tokens == 0 ==> r@.len() == 0 && final(collector)@.last_response
                == old(collector)@.last_response
            &&& first ==> *final(guard) is None
            &&& first ==> (*old(guard) matches Some(waiting) ==> final(metrics)@
                == old(metrics)@.queued_down(waiting@))
            &&& !(first && *old(guard) is Some) ==> final(metrics)@ == old(metrics)@
            &&& !first ==> (*old(guard) is None <==> *final(guard) is None)
            &&& first ==> {
                &&& r@.len() >= 2
                &&& r@[0].family is TimeToFirstToken
                &&& r@[0].value@ == MeasureView::Seconds(ttft@)
                &&& r@[1].family is InputSequence
                &&& r@[1].value@ == MeasureView::Tokens(a.input_tokens as nat)
            }
            &&& a.chunk_tokens > 0 ==> (old(collector)@.last_response matches Some(last) ==> {
                &&& r@.len() > 0
                &&& r@.last().family is InterTokenLatency
                &&& r@.last().value@ == MeasureView::SecondsShare(
                    (now@ - last) as nat,
                    a.chunk_tokens as nat,
                )
                &&& r@.last().times == a.chunk_tokens
            })
        },
{
    let before = stream(old(collector)@, *old(guard), old(metrics)@);
    let after = stream(final(collector)@, *final(guard), final(metrics)@);
    let seen = observation_views(r@);
    assert(after == before.responded(*annotation, now@));
    assert(forall|i: int| 0 <= i < r@.len() ==> (#[trigger] r@[i])@ == seen[i]);
    assert(seen.len() == r@.len());
    response_moves_the_stream(before, *annotation, ttft@, now@);
}

/// What a response is sent as, with data or without. The data is written on an empty
/// event; where that fails, its error is reported before any other. Then comes the error
/// that the response reports, where it is named so and is not the metrics that were
/// read. Otherwise the name and the comments stand behind the data, but for the metrics,
/// which lose both.
pub proof fn sent_events_hold_all_of_the_response<T, J>(
    annotated: Annotated<T>,
    annotation: Option<LLMMetricAnnotation>,
    metrics_event: Seq<char>,
    write_data: J,
    r: Result<axum::response::sse::Event, EventError>,
) where
    J: FnOnce(axum::response::sse::Event, T) -> Result<axum::response::sse::Event, axum::Error>,

    requires
        event_comes(annotated, annotation, metrics_event, write_data, r),
        annotated.data is Some,
    ensures
        ({
            let metrics_read = annotation is Some && (annotated.event matches Some(e) && e@
                == metrics_event);
            let is_error = !metrics_read && (annotated.event matches Some(e) && e@ == "error"@);
            exists|
                start: axum::response::sse::Event,
                written: Result<axum::response::sse::Event, axum::Error>,
            |
                {
                    &&& event_text(start).len() == 0
                    &&& #[trigger] write_data.ensures((start, annotated.data->Some_0), written)
                    &&& written matches Err(error) ==> (r matches Err(e) && e == EventError::Data(
                        error,
                    ))
                    &&& written is Ok && is_error ==> (r matches Err(e)
                        && e matches EventError::Reported(message) && message@ == (
                    match annotated.comment {
                        Some(comments) => joined(texts(comments@), " -- "@),
                        None => "unspecified error"@,
                    }))
                    &&& written matches Ok(data_written) ==> !is_error ==> (r matches Ok(event)
                        && event_text(event) == event_text(data_written) + (if metrics_read {
                        Seq::empty()
                    } else {
                        (match annotated.event {
                            Some(e) => "event"@ + seq![':', ' '] + e@ + seq!['\n'],
                            None => Seq::empty(),
                        }) + comments_text(
                            match annotated.comment {
                                Some(comments) => texts(comments@),
                                None => Seq::empty(),
                            },
                        )
                    }))
                }
        }),
{
    let (converted, start, written) = choose|
        converted: ConvertedEvent<T>,
        start: axum::response::sse::Event,
        written: Result<axum::response::sse::Event, axum::Error>,
    |
        converts(annotated, annotation, metrics_event, converted) && #[trigger] built(
            converted,
            write_data,
            start,
            written,
            r,
        );
    responses_become_events(annotated, annotation, metrics_event, converted);
    assert(write_data.ensures((start, annotated.data->Some_0), written));
    if let (Ok(data_written), Ok(fields)) = (written, converted.outcome) {
        assert(texts(fields.comments@).len() == fields.comments@.len());
        if fields.comments@.len() == 0 {
            assert(texts(fields.comments@) =~= Seq::<Seq<char>>::empty());
            assert(comments_text(texts(fields.comments@)) =~= Seq::<char>::empty());
        }
        if let Ok(event) = r {
            let metrics_read = annotation is Some && (annotated.event matches Some(e) && e@
                == metrics_event);
            assert(event_text(event) =~= event_text(data_written) + (if metrics_read {
                Seq::empty()
            } else {
                (match annotated.event {
                    Some(e) => "event"@ + seq![':', ' '] + e@ + seq!['\n'],
                    None => Seq::empty(),
                }) + comments_text(
                    match annotated.comment {
                        Some(comments) => texts(comments@),
                        None => Seq::empty(),
                    },
                )
            }));
        }
    }
}

/// A response that is to become an event is taken as it is.
pub proof fn converters_hold_the_response<T>(annotated: Annotated<T>, r: EventConverter<T>)
    requires
        EventConverter::<T>::from.ensures((annotated,), r),
    ensures
        r.0 == annotated,
{
}

/// A response that is timed by the clock is recorded for the account's model. Without
/// metrics nothing changes; with them the length of the output is noted, and the first
/// token ends the wait and takes the request off the queue of its model.
pub proof fn timed_responses_are_taken(
    annotation: &Option<LLMMetricAnnotation>,
    collector: &mut ResponseMetricCollector,
    guard: &mut Option<HttpQueueGuard>,
    metrics: &mut Metrics,
    r: Vec<Observation>,
)
    requires
        process_response_and_observe_metrics.ensures((annotation, collector, guard, metrics), r),
    ensures
        forall|i: int| 0 <= i < r@.len() ==> (#[trigger] r@[i]).model@ == old(collector)@.model,
        final(collector)@.model == old(collector)@.model,
        final(collector)@.started == old(collector)@.started,
        final(metrics).prefix() == old(metrics).prefix(),
        annotation is None ==> final(collector)@ == old(collector)@ && final(metrics)@
            == old(metrics)@ && r@.len() == 0,
        annotation matches Some(a) ==> {
            let first = old(collector)@.first_token && a.chunk_tokens > 0;
            &&& final(collector)@.osl == a.output_tokens
            &&& final(collector)@.first_token == (old(collector)@.first_token && a.chunk_tokens
                == 0)
            &&& first ==> *final(guard) is None
            &&& first ==> (*old(guard) matches Some(waiting) ==> final(metrics)@
                == old(metrics)@.queued_down(waiting@))
            &&& !(first && *old(guard) is Some) ==> final(metrics)@ == old(metrics)@
        },
{
    let before = stream(old(collector)@, *old(guard), old(metrics)@);
    let after = stream(final(collector)@, *final(guard), final(metrics)@);
    let seen = observation_views(r@);
    let (ttft, now) = choose|ttft: nat, now: nat|
        after == before.responded(*annotation, now) && seen == #[trigger] before.observations(
            *annotation,
            ttft,
            now,
        );
    assert(seen == before.observations(*annotation, ttft, now));
    assert(forall|i: int| 0 <= i < r@.len() ==> (#[trigger] r@[i])@ == seen[i]);
    assert(seen.len() == r@.len());
    response_moves_the_stream(before, *annotation, ttft, now);
}

/// A response that is taken into account and sent: what is sent is the response, and what
/// is recorded is recorded for the account's model.
pub proof fn responses_are_taken_and_sent<T, J>(
    annotated: EventConverter<T>,
    annotation: &Option<LLMMetricAnnotation>,
    metrics_event: &str,
    write_data: J,
    collector: &mut ResponseMetricCollector,
    guard: &mut Option<HttpQueueGuard>,
    metrics: &mut Metrics,
    r: (Result<axum::response::sse::Event, EventError>, Vec<Observation>),
) where
    J: FnOnce(axum::response::sse::Event, T) -> Result<axum::response::sse::Event, axum::Error>,

    requires
        process_response_using_event_converter_and_observe_metrics.ensures(
            (annotated, annotation, metrics_event, write_data, collector, guard, metrics),
            r,
        ),
    ensures
        event_comes(annotated.0, *annotation, metrics_event@, write_data, r.0),
        forall|i: int| 0 <= i < r.1@.len() ==> (#[trigger] r.1@[i]).model@ == old(collector)@.model,
        final(collector)@.model == old(collector)@.model,
        final(metrics).prefix() == old(metrics).prefix(),
        annotation is None ==> final(collector)@ == old(collector)@ && final(metrics)@
            == old(metrics)@ && r.1@.len() == 0,
        annotation matches Some(a) ==> final(collector)@.osl == a.output_tokens,
        annotation matches Some(a) ==> (old(collector)@.first_token && a.chunk_tokens > 0 ==> (
        *final(guard) is None && (*old(guard) matches Some(waiting) ==> final(metrics)@
            == old(metrics)@.queued_down(waiting@)))),
{
    let before = stream(old(collector)@, *old(guard), old(metrics)@);
    let after = stream(final(collector)@, *final(guard), final(metrics)@);
    let seen = observation_views(r.1@);
    let (ttft, now) = choose|ttft: nat, now: nat|
        after == before.responded(*annotation, now) && seen == #[trigger] before.observations(
            *annotation,
            ttft,
            now,
        );
    assert(seen == before.observations(*annotation, ttft, now));
    assert(forall|i: int| 0 <= i < r.1@.len() ==> (#[trigger] r.1@[i])@ == seen[i]);
    assert(seen.len() == r.1@.len());
    response_moves_the_stream(before, *annotation, ttft, now);
}

} // verus!
