//! What is to be recorded in a histogram.

use super::families::Family;
use crate::time::Duration;
use vstd::prelude::*;

verus! {

/// A measured value.
#[derive(Clone, Copy, Debug)]
pub enum Measure {
    /// A length of time, recorded in seconds.
    Seconds(Duration),
    /// A number of tokens.
    Tokens(usize),
    /// A length of time in equal parts, of which one is recorded in seconds.
    SecondsShare(Duration, usize),
}

/// A value that is to be recorded.
#[derive(Clone, Debug)]
pub struct Observation {
    /// The histogram that records it.
    pub family: Family,
    /// The model that it belongs to.
    pub model: String,
    /// The value.
    pub value: Measure,
    /// How many times it is recorded.
    pub times: usize,
}

/// A measured value in whole numbers: nanoseconds, tokens and parts.
pub ghost enum MeasureView {
    Seconds(nat),
    Tokens(nat),
    SecondsShare(nat, nat),
}

/// What an [`Observation`] says.
pub ghost struct ObservationView {
    pub family: Family,
    pub model: Seq<char>,
    pub value: MeasureView,
    pub times: nat,
}

impl View for Measure {
    type V = MeasureView;

    open spec fn view(&self) -> MeasureView {
        match *self {
            Measure::Seconds(d) => MeasureView::Seconds(d@),
            Measure::Tokens(n) => MeasureView::Tokens(n as nat),
            Measure::SecondsShare(d, n) => MeasureView::SecondsShare(d@, n as nat),
        }
    }
}

impl View for Observation {
    type V = ObservationView;

    open spec fn view(&self) -> ObservationView {
        ObservationView {
            family: self.family,
            model: self.model@,
            value: self.value@,
            times: self.times as nat,
        }
    }
}

/// The contents of a list of observations.
pub open spec fn observation_views(list: Seq<Observation>) -> Seq<ObservationView> {
    list.map_values(|o: Observation| o@)
}

/// How often a histogram records something.
pub open spec fn times_recorded(observations: Seq<ObservationView>, family: Family) -> nat
    decreases observations.len(),
{
    if observations.len() == 0 {
        0
    } else {
        times_recorded(observations.drop_last(), family) + (if observations.last().family
            == family {
            observations.last().times
        } else {
            0
        })
    }
}

/// The input lengths that are recorded, in order.
pub open spec fn input_lengths(observations: Seq<ObservationView>) -> Seq<nat>
    decreases observations.len(),
{
    if observations.len() == 0 {
        Seq::empty()
    } else {
        let before = input_lengths(observations.drop_last());
        match observations.last().value {
            MeasureView::Tokens(tokens) if observations.last().family == Family::InputSequence => {
                before.push(tokens)
            },
            _ => before,
        }
    }
}

pub(crate) proof fn lemma_input_lengths_add(a: Seq<ObservationView>, b: Seq<ObservationView>)
    ensures
        input_lengths(a + b) == input_lengths(a) + input_lengths(b),
    decreases b.len(),
{
    if b.len() == 0 {
        assert(a + b =~= a);
    } else {
        assert((a + b).drop_last() =~= a + b.drop_last());
        lemma_input_lengths_add(a, b.drop_last());
    }
}

pub(crate) proof fn lemma_times_recorded_adds(
    a: Seq<ObservationView>,
    b: Seq<ObservationView>,
    family: Family,
)
    ensures
        times_recorded(a + b, family) == times_recorded(a, family) + times_recorded(b, family),
    decreases b.len(),
{
    if b.len() == 0 {
        assert(a + b =~= a);
    } else {
        assert((a + b).drop_last() =~= a + b.drop_last());
        lemma_times_recorded_adds(a, b.drop_last(), family);
    }
}

/// An observation says what its fields say, and so does each of a list.
pub proof fn observations_say_their_fields(list: Seq<Observation>, i: int)
    requires
        0 <= i < list.len(),
    ensures
        observation_views(list).len() == list.len(),
        observation_views(list)[i].family == list[i].family,
        observation_views(list)[i].model == list[i].model@,
        observation_views(list)[i].times == list[i].times,
        list[i].value matches Measure::Seconds(d) ==> observation_views(list)[i].value
            == MeasureView::Seconds(d@),
        list[i].value matches Measure::Tokens(n) ==> observation_views(list)[i].value
            == MeasureView::Tokens(n as nat),
        list[i].value matches Measure::SecondsShare(d, n) ==> observation_views(list)[i].value
            == MeasureView::SecondsShare(d@, n as nat),
{
}

/// What is recorded under a family is counted with its times, and nothing else is.
pub proof fn recordings_are_counted(before: Seq<ObservationView>, one: ObservationView, family: Family)
    ensures
        times_recorded(Seq::empty(), family) == 0,
        times_recorded(before.push(one), family) == times_recorded(before, family) + if one.family
            == family {
            one.times
        } else {
            0
        },
        input_lengths(Seq::empty()) == Seq::<nat>::empty(),
        one.family != Family::InputSequence ==> input_lengths(before.push(one)) == input_lengths(
            before,
        ),
        one.family == Family::InputSequence ==> (one.value matches MeasureView::Tokens(n)
            ==> input_lengths(before.push(one)) == input_lengths(before).push(n)),
{
    assert(before.push(one).drop_last() =~= before);
    assert(before.push(one).last() == one);
}

} // verus!
