//! Lengths of time and the monotonic clock.

use crate::calls::{answer_of, answer_to};
use vstd::prelude::*;

verus! {

/// Nanoseconds in a second.
pub const NANOS_PER_SEC: u32 = 1_000_000_000;

/// A length of time, exact to the nanosecond.
#[derive(Clone, Copy, Debug)]
pub struct Duration {
    secs: u64,
    nanos: u32,
}

impl View for Duration {
    type V = nat;

    /// The whole length in nanoseconds.
    closed spec fn view(&self) -> nat {
        (self.secs * 1_000_000_000 + self.nanos) as nat
    }
}

impl Duration {
    #[verifier::type_invariant]
    spec fn below_one_second(self) -> bool {
        self.nanos < 1_000_000_000
    }

    /// A duration of `secs` seconds and `nanos` nanoseconds.
    pub fn new(secs: u64, nanos: u32) -> (r: Self)
        requires
            nanos < 1_000_000_000,
        ensures
            r@ == secs * 1_000_000_000 + nanos,
    {
        Duration { secs, nanos }
    }

    /// A duration of `millis` milliseconds.
    pub fn from_millis(millis: u64) -> (r: Self)
        ensures
            r@ == millis * 1_000_000,
    {
        Duration { secs: millis / 1000, nanos: ((millis % 1000) as u32) * 1_000_000 }
    }

    /// A duration of `micros` microseconds.
    pub fn from_micros(micros: u64) -> (r: Self)
        ensures
            r@ == micros * 1000,
    {
        Duration { secs: micros / 1_000_000, nanos: ((micros % 1_000_000) as u32) * 1000 }
    }

    /// A duration of `nanos` nanoseconds.
    pub fn from_nanos(nanos: u64) -> (r: Self)
        ensures
            r@ == nanos,
    {
        Duration { secs: nanos / 1_000_000_000, nanos: (nanos % 1_000_000_000) as u32 }
    }

    /// The whole seconds.
    pub fn as_secs(&self) -> (r: u64)
        ensures
            r == self@ / 1_000_000_000,
    {
        proof {
            use_type_invariant(self);
        }
        self.secs
    }

    /// The nanoseconds beyond the whole seconds.
    pub fn subsec_nanos(&self) -> (r: u32)
        ensures
            r == self@ % 1_000_000_000,
            r < 1_000_000_000,
    {
        proof {
            use_type_invariant(self);
        }
        self.nanos
    }

    /// The whole length in nanoseconds.
    pub fn as_nanos(&self) -> (r: u128)
        ensures
            r == self@,
    {
        proof {
            use_type_invariant(self);
        }
        self.secs as u128 * 1_000_000_000 + self.nanos as u128
    }

    /// The whole microseconds.
    pub fn as_micros(&self) -> (r: u128)
        ensures
            r == self@ / 1000,
    {
        self.as_nanos() / 1000
    }

    /// What is left of this duration after `earlier` is taken off.
    pub fn minus(&self, earlier: &Duration) -> (r: Duration)
        requires
            earlier@ <= self@,
        ensures
            r@ == self@ - earlier@,
    {
        proof {
            use_type_invariant(self);
            use_type_invariant(earlier);
        }
        if self.nanos >= earlier.nanos {
            Duration { secs: self.secs - earlier.secs, nanos: self.nanos - earlier.nanos }
        } else {
            Duration {
                secs: self.secs - earlier.secs - 1,
                nanos: NANOS_PER_SEC + self.nanos - earlier.nanos,
            }
        }
    }

    /// The longer of two durations.
    pub fn at_least(&self, other: &Duration) -> (r: Duration)
        ensures
            r@ == if self@ < other@ {
                other@
            } else {
                self@
            },
    {
        if self.as_nanos() < other.as_nanos() {
            *other
        } else {
            *self
        }
    }
}

/// A point on the monotonic clock.
#[verifier::external_type_specification]
#[verifier::external_body]
pub struct ExInstant(std::time::Instant);

/// Reads the clock: `std::time::Instant::now`. Nothing is promised of the
/// instant.
#[verifier::external_body]
pub(crate) fn instant_now() -> (r: std::time::Instant) {
    std::time::Instant::now()
}

/// How long ago `start` was, as whole seconds and the nanoseconds beyond them:
/// `std::time::Instant::elapsed`. The length depends on when the call is made;
/// only the range of the second part, which `Duration::subsec_nanos` documents
/// as below one billion, is promised.
#[verifier::external_body]
pub(crate) fn instant_elapsed(start: &std::time::Instant) -> (r: (u64, u32))
    ensures
        r.1 < 1_000_000_000,
{
    let elapsed = start.elapsed();
    (elapsed.as_secs(), elapsed.subsec_nanos())
}

/// Whether `now` is an instant that the clock may show.
pub closed spec fn clock_may_show(now: std::time::Instant) -> bool {
    instant_now.ensures((), now)
}

/// Whether the clock may show that `start` was `nanos` nanoseconds ago.
pub closed spec fn clock_may_read(start: std::time::Instant, nanos: nat) -> bool {
    exists|secs: u64, subsec: u32|
        nanos == secs * 1_000_000_000 + subsec && #[trigger] instant_elapsed.ensures(
            (&start,),
            (secs, subsec),
        )
}

/// A running stopwatch.
pub(crate) struct Timer {
    start: std::time::Instant,
}

impl View for Timer {
    type V = std::time::Instant;

    /// The point on the clock from which it counts.
    closed spec fn view(&self) -> std::time::Instant {
        self.start
    }
}

impl Timer {
    /// Starts a stopwatch: it counts from the instant that the clock shows.
    pub(crate) fn start() -> (r: Self)
        ensures
            clock_may_show(r@),
    {
        Timer { start: answer_of(instant_now) }
    }

    /// The time since the start, exactly as the clock shows it. Every reading of
    /// the clock is possible.
    pub(crate) fn elapsed(&self) -> (r: Duration)
        ensures
            clock_may_read(self@, r@),
    {
        let (secs, nanos) = answer_to(instant_elapsed, &self.start);
        Duration::new(secs, nanos)
    }
}

/// What is read off the clock is its whole answer: the seconds and the nanoseconds
/// beyond them.
pub(crate) proof fn clock_reading_is_whole(start: std::time::Instant, nanos: nat)
    ensures
        clock_may_read(start, nanos) <==> exists|secs: u64, subsec: u32| #[trigger]
            instant_elapsed.ensures((&start,), (secs, subsec)) && nanos == secs * 1_000_000_000
                + subsec,
        clock_may_read(start, nanos) ==> nanos / 1_000_000_000 <= u64::MAX
            && instant_elapsed.ensures(
            (&start,),
            ((nanos / 1_000_000_000) as u64, (nanos % 1_000_000_000) as u32),
        ),
{
    if clock_may_read(start, nanos) {
        let (secs, subsec) = choose|secs: u64, subsec: u32| #[trigger]
            instant_elapsed.ensures((&start,), (secs, subsec)) && nanos == secs * 1_000_000_000
                + subsec;
        assert(instant_elapsed.ensures((&start,), (secs, subsec)));
        assert(subsec < 1_000_000_000);
        assert(nanos / 1_000_000_000 == secs);
        assert(nanos % 1_000_000_000 == subsec);
    }
}

/// What the clock may show is what it answers.
pub(crate) proof fn clock_shows_its_answer(now: std::time::Instant)
    ensures
        clock_may_show(now) <==> instant_now.ensures((), now),
{
}

/// A stopwatch starts at what the clock answers, and reads its whole answer: the
/// seconds and the nanoseconds beyond them.
pub(crate) proof fn stopwatch_reads_the_clock(timer: &Timer, r: Duration)
    ensures
        Timer::start.ensures((), *timer) ==> instant_now.ensures((), timer@),
        Timer::elapsed.ensures((timer,), r) ==> exists|secs: u64, subsec: u32| #[trigger]
            instant_elapsed.ensures((&timer@,), (secs, subsec)) && r@ == secs * 1_000_000_000
                + subsec,
{
}

/// Durations are made of seconds and nanoseconds, of milliseconds, of microseconds and
/// of nanoseconds.
pub proof fn durations_are_made_of_their_units(n: u64, nanos: u32, r: Duration)
    ensures
        Duration::new.ensures((n, nanos), r) ==> r@ == n * 1_000_000_000 + nanos,
        Duration::from_millis.ensures((n,), r) ==> r@ == n * 1_000_000,
        Duration::from_micros.ensures((n,), r) ==> r@ == n * 1_000,
        Duration::from_nanos.ensures((n,), r) ==> r@ == n,
{
}

/// A duration is read as whole seconds and the nanoseconds beyond them, as nanoseconds,
/// and as microseconds rounded down.
pub proof fn durations_are_read_whole(d: &Duration, secs: u64, subsec: u32, whole: u128)
    ensures
        Duration::as_secs.ensures((d,), secs) && Duration::subsec_nanos.ensures((d,), subsec)
            ==> d@ == secs * 1_000_000_000 + subsec && subsec < 1_000_000_000,
        Duration::as_nanos.ensures((d,), whole) ==> whole == d@,
        Duration::as_micros.ensures((d,), whole) ==> whole * 1000 <= d@ < (whole + 1) * 1000,
{
}

/// What is left after a shorter duration is taken off gives the whole together with
/// it, and the longer of two is one of them and not shorter than either.
pub proof fn durations_are_compared(a: &Duration, b: &Duration, r: Duration)
    ensures
        Duration::minus.ensures((a, b), r) ==> r@ + b@ == a@,
        Duration::at_least.ensures((a, b), r) ==> r@ >= a@ && r@ >= b@ && (r@ == a@ || r@ == b@),
{
}

} // verus!
