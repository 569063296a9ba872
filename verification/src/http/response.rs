//! The account of the responses to a request: time to the first token, time
//! between tokens and lengths.

use super::families::Family;
use super::observation::{
    input_lengths, lemma_input_lengths_add, lemma_times_recorded_adds, observation_views,
    times_recorded, Measure, MeasureView, Observation, ObservationView,
};
use crate::time::{clock_may_read, clock_may_show, Duration, Timer};
use vstd::prelude::*;

verus! {

/// The account of the responses to one request.
pub struct ResponseMetricCollector {
    model: String,
    start_time: Timer,
    // Set until the first token comes: it tells the time to the first token
    // from the time between tokens.
    is_first_token: bool,
    // When the last tokens came, counted from the start.
    last_response_time: Option<Duration>,
    osl: usize,
}

/// What a [`ResponseMetricCollector`] knows.
pub ghost struct CollectorView {
    pub model: Seq<char>,
    /// When the account started.
    pub started: std::time::Instant,
    pub first_token: bool,
    pub last_response: Option<nat>,
    pub osl: nat,
}

impl CollectorView {
    /// A collector before the first response.
    pub open spec fn fresh(model: Seq<char>, started: std::time::Instant) -> Self {
        CollectorView { model, started, first_token: true, last_response: None, osl: 0 }
    }

    /// The time of a response where the clock shows `reading`: not before the
    /// last response.
    pub open spec fn response_time(self, reading: nat) -> nat {
        match self.last_response {
            Some(last) if reading < last => last,
            _ => reading,
        }
    }

    /// Whether the clock may show, since the start of the account, `ttft` for the
    /// first token and then a reading that makes `now` the time of the response.
    pub open spec fn clock_reads(self, ttft: nat, now: nat) -> bool {
        &&& clock_may_read(self.started, ttft)
        &&& exists|reading: nat| #[trigger]
            clock_may_read(self.started, reading) && now == self.response_time(reading)
    }

    /// Whether `now` is not before the last response.
    pub open spec fn not_before(self, now: nat) -> bool {
        match self.last_response {
            Some(last) => last <= now,
            None => true,
        }
    }

    /// The collector after `num_tokens` tokens came `now` after the start.
    pub open spec fn responded(self, num_tokens: nat, now: nat) -> Self {
        if num_tokens == 0 {
            self
        } else {
            CollectorView { first_token: false, last_response: Some(now), ..self }
        }
    }

    /// What is recorded when the first token comes: the time until then and the
    /// length of the input.
    pub open spec fn first_observations(self, isl: nat, ttft: nat) -> Seq<ObservationView> {
        if self.first_token {
            seq![
                ObservationView {
                    family: Family::TimeToFirstToken,
                    model: self.model,
                    value: MeasureView::Seconds(ttft),
                    times: 1,
                },
                ObservationView {
                    family: Family::InputSequence,
                    model: self.model,
                    value: MeasureView::Tokens(isl),
                    times: 1,
                },
            ]
        } else {
            Seq::empty()
        }
    }

    /// What is recorded of the time between tokens: the time since the last
    /// response in equal parts, once for each token.
    pub open spec fn latency_observations(self, num_tokens: nat, now: nat) -> Seq<ObservationView> {
        match self.last_response {
            Some(last) => seq![
                ObservationView {
                    family: Family::InterTokenLatency,
                    model: self.model,
                    value: MeasureView::SecondsShare((now - last) as nat, num_tokens),
                    times: num_tokens,
                },
            ],
            None => Seq::empty(),
        }
    }

    /// What is recorded when `num_tokens` tokens come; nothing without tokens.
    pub open spec fn observations(
        self,
        isl: nat,
        num_tokens: nat,
        ttft: nat,
        now: nat,
    ) -> Seq<ObservationView> {
        if num_tokens == 0 {
            Seq::empty()
        } else {
            self.first_observations(isl, ttft) + self.latency_observations(num_tokens, now)
        }
    }
}

impl View for ResponseMetricCollector {
    type V = CollectorView;

    closed spec fn view(&self) -> CollectorView {
        CollectorView {
            model: self.model@,
            started: self.start_time@,
            first_token: self.is_first_token,
            last_response: match self.last_response_time {
                Some(d) => Some(d@),
                None => None,
            },
            osl: self.osl as nat,
        }
    }
}

impl ResponseMetricCollector {
    /// Starts the account of the responses to a request for `model`.
    pub fn new(model: String) -> (r: Self)
        ensures
            r@ == CollectorView::fresh(model@, r@.started),
            clock_may_show(r@.started),
    {
        ResponseMetricCollector {
            model,
            start_time: Timer::start(),
            is_first_token: true,
            last_response_time: None,
            osl: 0,
        }
    }

    /// Notes the length of the output so far.
    pub fn observe_current_osl(&mut self, osl: usize)
        ensures
            final(self)@ == (CollectorView { osl: osl as nat, ..old(self)@ }),
    {
        self.osl = osl;
    }

    /// Whether no token has come yet.
    pub fn is_first_token(&self) -> (r: bool)
        ensures
            r == self@.first_token,
    {
        self.is_first_token
    }

    /// Reads the clock twice: for the time to the first token and for the time
    /// of the response. The second reading is not taken to be before the last
    /// response.
    pub(crate) fn read_clock(&self) -> (r: (Duration, Duration))
        ensures
            self@.clock_reads(r.0@, r.1@),
            self@.not_before(r.1@),
    {
        let ttft = self.start_time.elapsed();
        let reading = self.start_time.elapsed();
        assert(clock_may_read(self@.started, reading@));
        let now = match &self.last_response_time {
            Some(last) => reading.at_least(last),
            None => reading,
        };
        (ttft, now)
    }

    /// Notes that `num_tokens` tokens came in answer to an input of `isl`
    /// tokens, at the time that the clock shows.
    pub fn observe_response(&mut self, isl: usize, num_tokens: usize) -> (r: Vec<Observation>)
        ensures
            exists|ttft: nat, now: nat|
                {
                    &&& old(self)@.clock_reads(ttft, now)
                    &&& old(self)@.not_before(now)
                    &&& final(self)@ == old(self)@.responded(num_tokens as nat, now)
                    &&& observation_views(r@) == #[trigger] old(self)@.observations(
                        isl as nat,
                        num_tokens as nat,
                        ttft,
                        now,
                    )
                },
    {
        let (ttft, now) = self.read_clock();
        self.observe_response_at(isl, num_tokens, ttft, now)
    }

    /// Notes that `num_tokens` tokens came in answer to an input of `isl`
    /// tokens. Counted from the start, the first token came after `ttft`, where
    /// there was none before, and the response was complete after `now`.
    pub fn observe_response_at(
        &mut self,
        isl: usize,
        num_tokens: usize,
        ttft: Duration,
        now: Duration,
    ) -> (r: Vec<Observation>)
        requires
            old(self)@.not_before(now@),
        ensures
            final(self)@ == old(self)@.responded(num_tokens as nat, now@),
            observation_views(r@) == old(self)@.observations(
                isl as nat,
                num_tokens as nat,
                ttft@,
                now@,
            ),
    {
        let mut r: Vec<Observation> = Vec::new();
        if num_tokens == 0 {
            assert(observation_views(r@) =~= Seq::<ObservationView>::empty());
            return r;
        }
        if self.is_first_token {
            // Where several tokens come in the first response, its whole time is
            // the time to the first token.
            self.is_first_token = false;
            r.push(
                Observation {
                    family: Family::TimeToFirstToken,
                    model: self.model.clone(),
                    value: Measure::Seconds(ttft),
                    times: 1,
                },
            );
            r.push(
                Observation {
                    family: Family::InputSequence,
                    model: self.model.clone(),
                    value: Measure::Tokens(isl),
                    times: 1,
                },
            );
        }
        assert(observation_views(r@) =~= old(self)@.first_observations(isl as nat, ttft@));
        let ghost first = r@;
        if let Some(last) = &self.last_response_time {
            r.push(
                Observation {
                    family: Family::InterTokenLatency,
                    model: self.model.clone(),
                    value: Measure::SecondsShare(now.minus(last), num_tokens),
                    times: num_tokens,
                },
            );
        }
        assert(observation_views(r@) =~= observation_views(first)
            + old(self)@.latency_observations(num_tokens as nat, now@));
        self.last_response_time = Some(now);
        r
    }

    /// Ends the account. The observation to be recorded is the length of the
    /// output.
    pub fn finish(self) -> (r: Observation)
        ensures
            r@ == (ObservationView {
                family: Family::OutputSequence,
                model: self@.model,
                value: MeasureView::Tokens(self@.osl),
                times: 1,
            }),
    {
        Observation {
            family: Family::OutputSequence,
            model: self.model,
            value: Measure::Tokens(self.osl),
            times: 1,
        }
    }
}

/// A response that a collector is told of: the input length, the tokens that it
/// brings, and the clock's readings.
pub ghost struct ResponseCall {
    pub isl: nat,
    pub tokens: nat,
    pub ttft: nat,
    pub now: nat,
}

/// A collector after some responses.
pub open spec fn collector_after(start: CollectorView, calls: Seq<ResponseCall>) -> CollectorView
    decreases calls.len(),
{
    if calls.len() == 0 {
        start
    } else {
        collector_after(start, calls.drop_last()).responded(calls.last().tokens, calls.last().now)
    }
}

/// Everything that is recorded of some responses.
pub open spec fn recorded_of(start: CollectorView, calls: Seq<ResponseCall>) -> Seq<ObservationView>
    decreases calls.len(),
{
    if calls.len() == 0 {
        Seq::empty()
    } else {
        let last = calls.last();
        recorded_of(start, calls.drop_last()) + collector_after(
            start,
            calls.drop_last(),
        ).observations(last.isl, last.tokens, last.ttft, last.now)
    }
}

/// The tokens that some responses bring.
pub open spec fn tokens_of(calls: Seq<ResponseCall>) -> nat
    decreases calls.len(),
{
    if calls.len() == 0 {
        0
    } else {
        tokens_of(calls.drop_last()) + calls.last().tokens
    }
}

/// The first response that brings any tokens.
pub open spec fn first_with_tokens(calls: Seq<ResponseCall>) -> ResponseCall
    recommends
        tokens_of(calls) > 0,
    decreases calls.len(),
{
    if calls.len() == 0 || tokens_of(calls.drop_last()) == 0 {
        calls.last()
    } else {
        first_with_tokens(calls.drop_last())
    }
}

/// Whatever responses a new collector is told of: without tokens nothing is
/// recorded. Otherwise the time to the first token and the input length are each
/// recorded once, the length is that of the first response with tokens, and the
/// time between tokens is recorded once for each token behind that response.
pub proof fn responses_are_recorded_once(start: CollectorView, calls: Seq<ResponseCall>)
    requires
        start.first_token,
        start.last_response is None,
    ensures
        ({
            let all = recorded_of(start, calls);
            let after = collector_after(start, calls);
            if tokens_of(calls) == 0 {
                &&& all == Seq::<ObservationView>::empty()
                &&& after == start
            } else {
                let first = first_with_tokens(calls);
                &&& 0 < first.tokens <= tokens_of(calls)
                &&& !after.first_token
                &&& after.last_response is Some
                &&& times_recorded(all, Family::TimeToFirstToken) == 1
                &&& times_recorded(all, Family::InputSequence) == 1
                &&& input_lengths(all) == seq![first.isl]
                &&& times_recorded(all, Family::InterTokenLatency) == tokens_of(calls)
                    - first.tokens
            }
        }),
    decreases calls.len(),
{
    if calls.len() > 0 {
        let earlier = calls.drop_last();
        let last = calls.last();
        let state = collector_after(start, earlier);
        let before = recorded_of(start, earlier);
        let new = state.observations(last.isl, last.tokens, last.ttft, last.now);
        responses_are_recorded_once(start, earlier);
        lemma_times_recorded_adds(before, new, Family::TimeToFirstToken);
        lemma_times_recorded_adds(before, new, Family::InputSequence);
        lemma_times_recorded_adds(before, new, Family::InterTokenLatency);
        lemma_input_lengths_add(before, new);
        reveal_with_fuel(times_recorded, 4);
        reveal_with_fuel(input_lengths, 4);
        if last.tokens > 0 {
            let first = state.first_observations(last.isl, last.ttft);
            let latency = state.latency_observations(last.tokens, last.now);
            if state.first_token {
                assert(new =~= first);
                assert(new.drop_last() =~= seq![first[0]]);
                assert(new.drop_last().drop_last() =~= Seq::<ObservationView>::empty());
            } else {
                assert(new =~= latency);
                assert(new.drop_last() =~= Seq::<ObservationView>::empty());
            }
        }
    }
}

/// What is recorded of one response. Without tokens nothing is. The first response
/// with tokens gives its time to the first token and its input length, once each.
/// A later one gives the time since the last, once for each token as one of so many
/// parts. Everything is recorded under the model of the account.
pub proof fn response_is_recorded(c: CollectorView, isl: nat, tokens: nat, ttft: nat, now: nat)
    requires
        c.not_before(now),
    ensures
        ({
            let o = c.observations(isl, tokens, ttft, now);
            let later = if c.first_token {
                2int
            } else {
                0
            };
            &&& forall|i: int| 0 <= i < o.len() ==> (#[trigger] o[i]).model == c.model
            &&& tokens == 0 ==> o.len() == 0
            &&& tokens > 0 ==> o.len() == later + (if c.last_response is Some {
                1int
            } else {
                0
            })
            &&& tokens > 0 && c.first_token ==> {
                &&& o[0].family == Family::TimeToFirstToken
                &&& o[0].value == MeasureView::Seconds(ttft)
                &&& o[0].times == 1
                &&& o[1].family == Family::InputSequence
                &&& o[1].value == MeasureView::Tokens(isl)
                &&& o[1].times == 1
            }
            &&& tokens > 0 && c.last_response is Some ==> {
                &&& o[later].family == Family::InterTokenLatency
                &&& o[later].times == tokens
                &&& o[later].value matches MeasureView::SecondsShare(nanos, parts) && parts
                    == tokens && nanos + c.last_response->Some_0 == now
            }
        }),
{
}

/// What a response changes of the account: with tokens, the time of the last
/// response and that a token has come; without, nothing.
pub proof fn response_moves_the_account(c: CollectorView, tokens: nat, now: nat)
    ensures
        ({
            let after = c.responded(tokens, now);
            &&& after.model == c.model
            &&& after.started == c.started
            &&& after.osl == c.osl
            &&& after.first_token == (c.first_token && tokens == 0)
            &&& tokens == 0 ==> after.last_response == c.last_response
            &&& tokens > 0 ==> after.last_response == Some(now)
        }),
{
}

/// A new account knows its model and its start, waits for the first token, and has
/// no output.
pub proof fn new_account_waits(model: Seq<char>, started: std::time::Instant)
    ensures
        ({
            let c = CollectorView::fresh(model, started);
            &&& c.model == model
            &&& c.started == started
            &&& c.first_token
            &&& c.last_response is None
            &&& c.osl == 0
        }),
{
}

/// The times of a response are the clock's readings since the start of the account;
/// the second is put off to the last response where the clock shows less.
pub proof fn response_times_come_off_the_clock(c: CollectorView, reading: nat, ttft: nat, now: nat)
    ensures
        c.response_time(reading) >= reading,
        c.not_before(c.response_time(reading)),
        c.response_time(reading) == reading || c.last_response == Some(c.response_time(reading)),
        c.last_response is None ==> c.not_before(now),
        c.last_response matches Some(last) ==> (c.not_before(now) <==> last <= now),
        c.clock_reads(ttft, now) ==> clock_may_read(c.started, ttft) && (clock_may_read(
            c.started,
            now,
        ) || c.last_response == Some(now)),
        clock_may_read(c.started, ttft) && clock_may_read(c.started, reading) ==> c.clock_reads(
            ttft,
            c.response_time(reading),
        ),
{
}

/// Whatever responses come, everything is recorded under the model of the account,
/// which keeps its model and its start.
pub proof fn responses_keep_the_model(start: CollectorView, calls: Seq<ResponseCall>)
    ensures
        forall|i: int|
            0 <= i < recorded_of(start, calls).len() ==> (#[trigger] recorded_of(
                start,
                calls,
            )[i]).model == start.model,
        collector_after(start, calls).model == start.model,
        collector_after(start, calls).started == start.started,
        collector_after(start, calls).osl == start.osl,
    decreases calls.len(),
{
    if calls.len() > 0 {
        responses_keep_the_model(start, calls.drop_last());
    }
}

/// Two responses with tokens, one behind the other: the second records the time
/// between them, in as many parts as it brings tokens, under the same model.
pub proof fn second_response_records_the_gap(
    c: CollectorView,
    first: ResponseCall,
    second: ResponseCall,
)
    requires
        first.tokens > 0,
        second.tokens > 0,
        first.now <= second.now,
    ensures
        ({
            let o = c.responded(first.tokens, first.now).observations(
                second.isl,
                second.tokens,
                second.ttft,
                second.now,
            );
            &&& o.len() == 1
            &&& o[0].family == Family::InterTokenLatency
            &&& o[0].model == c.model
            &&& o[0].value == MeasureView::SecondsShare(
                (second.now - first.now) as nat,
                second.tokens,
            )
            &&& o[0].times == second.tokens
        }),
{
}

/// What is recorded of a response, whatever came before: everything for the model of the
/// account. Of the first tokens it is the time until then and the length of the input,
/// each once. Of later tokens it is the time since the last response, shared among the
/// tokens and recorded once for each. Of a response without tokens it is nothing.
pub proof fn tokens_are_recorded(
    collector: &mut ResponseMetricCollector,
    isl: usize,
    tokens: usize,
    ttft: Duration,
    now: Duration,
    r: Vec<Observation>,
)
    requires
        ResponseMetricCollector::observe_response_at.ensures(
            (collector, isl, tokens, ttft, now),
            r,
        ),
    ensures
        ({
            let before = old(collector)@;
            let after = final(collector)@;
            let first = tokens > 0 && before.first_token;
            &&& after.model == before.model
            &&& after.started == before.started
            &&& after.osl == before.osl
            &&& tokens == 0 ==> after == before && r@.len() == 0
            &&& tokens > 0 ==> !after.first_token && after.last_response == Some(now@)
            &&& forall|i: int| 0 <= i < r@.len() ==> (#[trigger] r@[i]).model@ == before.model
            &&& first ==> {
                &&& r@.len() >= 2
                &&& r@[0].family is TimeToFirstToken
                &&& r@[0].value@ == MeasureView::Seconds(ttft@)
                &&& r@[0].times == 1
                &&& r@[1].family is InputSequence
                &&& r@[1].value@ == MeasureView::Tokens(isl as nat)
                &&& r@[1].times == 1
            }
            &&& tokens > 0 ==> (before.last_response matches Some(last) ==> {
                &&& r@.len() == if first {
                    3int
                } else {
                    1
                }
                &&& r@.last().family is InterTokenLatency
                &&& r@.last().value@ == MeasureView::SecondsShare(
                    (now@ - last) as nat,
                    tokens as nat,
                )
                &&& r@.last().times == tokens
            })
            &&& tokens > 0 && before.last_response is None ==> r@.len() == if first {
                2int
            } else {
                0
            }
        }),
{
    let seen = observation_views(r@);
    assert(forall|i: int| 0 <= i < r@.len() ==> (#[trigger] r@[i])@ == seen[i]);
    assert(seen.len() == r@.len());
}

/// The other steps of an account: it starts empty for its model, notes the length of the
/// output and nothing else, tells whether a token has come, and ends with the length of
/// the output, recorded once for its model.
pub proof fn accounts_keep_their_model(
    model: String,
    made: ResponseMetricCollector,
    collector: &mut ResponseMetricCollector,
    osl: usize,
    other: &ResponseMetricCollector,
    answer: bool,
    ended: ResponseMetricCollector,
    r: Observation,
)
    ensures
        ResponseMetricCollector::new.ensures((model,), made) ==> {
            &&& made@.model == model@
            &&& made@.first_token
            &&& made@.last_response is None
            &&& made@.osl == 0
            &&& clock_may_show(made@.started)
        },
        ResponseMetricCollector::observe_current_osl.ensures((collector, osl), ()) ==> {
            &&& final(collector)@.osl == osl
            &&& final(collector)@.model == old(collector)@.model
            &&& final(collector)@.started == old(collector)@.started
            &&& final(collector)@.first_token == old(collector)@.first_token
            &&& final(collector)@.last_response == old(collector)@.last_response
        },
        ResponseMetricCollector::is_first_token.ensures((other,), answer) ==> answer
            == other@.first_token,
        ResponseMetricCollector::finish.ensures((ended,), r) ==> {
            &&& r.family is OutputSequence
            &&& r.model@ == ended@.model
            &&& r.value@ == MeasureView::Tokens(ended@.osl)
            &&& r.times == 1
        },
{
}

/// A response that is timed by the clock is recorded for the account's model, with times
/// that the clock shows since the account started.
pub proof fn timed_tokens_are_recorded(
    collector: &mut ResponseMetricCollector,
    isl: usize,
    tokens: usize,
    r: Vec<Observation>,
)
    requires
        ResponseMetricCollector::observe_response.ensures((collector, isl, tokens), r),
    ensures
        ({
            let before = old(collector)@;
            let after = final(collector)@;
            &&& after.model == before.model
            &&& after.started == before.started
            &&& after.osl == before.osl
            &&& tokens == 0 ==> after == before && r@.len() == 0
            &&& tokens > 0 ==> !after.first_token
            &&& forall|i: int| 0 <= i < r@.len() ==> (#[trigger] r@[i]).model@ == before.model
            &&& tokens > 0 ==> (after.last_response matches Some(now) && (clock_may_read(
                before.started,
                now,
            ) || before.last_response == Some(now)))
            &&& tokens > 0 && before.first_token ==> {
                &&& r@.len() >= 2
                &&& r@[0].family is TimeToFirstToken
                &&& r@[0].value@ matches MeasureView::Seconds(ttft) && clock_may_read(
                    before.started,
                    ttft,
                )
                &&& r@[1].family is InputSequence
                &&& r@[1].value@ == MeasureView::Tokens(isl as nat)
            }
        }),
{
    let seen = observation_views(r@);
    assert(forall|i: int| 0 <= i < r@.len() ==> (#[trigger] r@[i])@ == seen[i]);
    assert(seen.len() == r@.len());
}

/// The clock is read for the first token and again for the response, which is not taken
/// to be before the last one.
pub(crate) proof fn clock_is_read_for_a_response(
    collector: &ResponseMetricCollector,
    r: (Duration, Duration),
)
    requires
        ResponseMetricCollector::read_clock.ensures((collector,), r),
    ensures
        clock_may_read(collector@.started, r.0@),
        clock_may_read(collector@.started, r.1@) || collector@.last_response == Some(r.1@),
        collector@.last_response matches Some(last) ==> last <= r.1@,
{
}

} // verus!
