//! Checks whether tasks were sorted into the right size by the time that they
//! took.

use crate::time::Duration;
use vstd::prelude::*;
use vstd::string::*;

verus! {

/// Small tasks take no longer than this, in microseconds.
pub const SMALL_THRESHOLD_US: u64 = 100;

/// Medium tasks take no longer than this, in microseconds.
pub const MEDIUM_THRESHOLD_US: u64 = 1000;

/// How many tasks of each size were sorted wrongly.
#[derive(Clone, Copy, Debug, PartialEq, Eq, Structural)]
pub struct MisclassificationMetrics {
    pub small: u64,
    pub medium: u64,
    pub large: u64,
}

/// What to do about a task that was sorted wrongly.
#[derive(Clone, Copy, Debug, PartialEq, Eq, Structural)]
pub enum Advice {
    /// A small task took too long for one.
    SmallExceeded,
    /// A medium task was too short for one.
    MediumBelow,
    /// A medium task took too long for one.
    MediumExceeded,
    /// A large task was too short for one.
    LargeBelow,
}

impl Advice {
    /// The advice for a reader.
    pub open spec fn text(self) -> Seq<char> {
        match self {
            Advice::SmallExceeded => {
                "compute_small! task exceeded threshold. Consider using compute_medium!"@
            },
            Advice::MediumBelow => {
                "compute_medium! task below small threshold. Consider using compute_small!"@
            },
            Advice::MediumExceeded => {
                "compute_medium! task exceeded threshold. Consider using compute_large!"@
            },
            Advice::LargeBelow => {
                "compute_large! task below medium threshold. Consider using compute_medium! or compute_small!"@
            },
        }
    }

    /// The threshold that the task was on the wrong side of, in microseconds.
    pub open spec fn threshold(self) -> u64 {
        match self {
            Advice::SmallExceeded | Advice::MediumBelow => SMALL_THRESHOLD_US,
            Advice::MediumExceeded | Advice::LargeBelow => MEDIUM_THRESHOLD_US,
        }
    }

    /// The advice for a reader.
    pub fn message(&self) -> (r: &'static str)
        ensures
            r@ == self.text(),
    {
        match self {
            Advice::SmallExceeded => {
                "compute_small! task exceeded threshold. Consider using compute_medium!"
            },
            Advice::MediumBelow => {
                "compute_medium! task below small threshold. Consider using compute_small!"
            },
            Advice::MediumExceeded => {
                "compute_medium! task exceeded threshold. Consider using compute_large!"
            },
            Advice::LargeBelow => {
                "compute_large! task below medium threshold. Consider using compute_medium! or compute_small!"
            },
        }
    }

    /// The threshold that the task was on the wrong side of, in microseconds.
    pub fn threshold_us(&self) -> (r: u64)
        ensures
            r == self.threshold(),
    {
        match self {
            Advice::SmallExceeded | Advice::MediumBelow => SMALL_THRESHOLD_US,
            Advice::MediumExceeded | Advice::LargeBelow => MEDIUM_THRESHOLD_US,
        }
    }
}

/// What is wrong with a task of `nanos` nanoseconds as a small one.
pub open spec fn small_advice(nanos: nat) -> Option<Advice> {
    if nanos > SMALL_THRESHOLD_US * 1000 {
        Some(Advice::SmallExceeded)
    } else {
        None
    }
}

/// What is wrong with a task of `nanos` nanoseconds as a medium one.
pub open spec fn medium_advice(nanos: nat) -> Option<Advice> {
    if nanos < SMALL_THRESHOLD_US * 1000 {
        Some(Advice::MediumBelow)
    } else if nanos > MEDIUM_THRESHOLD_US * 1000 {
        Some(Advice::MediumExceeded)
    } else {
        None
    }
}

/// What is wrong with a task of `nanos` nanoseconds as a large one.
pub open spec fn large_advice(nanos: nat) -> Option<Advice> {
    if nanos < MEDIUM_THRESHOLD_US * 1000 {
        Some(Advice::LargeBelow)
    } else {
        None
    }
}

/// A count after one more, where there is advice; it starts again at zero behind
/// the largest number.
pub open spec fn counted(count: u64, advice: Option<Advice>) -> u64 {
    if advice is None {
        count
    } else if count == u64::MAX {
        0
    } else {
        (count + 1) as u64
    }
}

/// Checks a task that was run as a small one, and counts it if it took longer
/// than 100 µs.
pub fn validate_small(metrics: &mut MisclassificationMetrics, elapsed: Duration) -> (r: Option<
    Advice,
>)
    ensures
        r == small_advice(elapsed@),
        *final(metrics) == (MisclassificationMetrics {
            small: counted(old(metrics).small, r),
            ..*old(metrics)
        }),
{
    if elapsed.as_nanos() > SMALL_THRESHOLD_US as u128 * 1000 {
        metrics.small = metrics.small.wrapping_add(1);
        Some(Advice::SmallExceeded)
    } else {
        None
    }
}

/// Checks a task that was run as a medium one, and counts it if it took less
/// than 100 µs or longer than 1 ms.
pub fn validate_medium(metrics: &mut MisclassificationMetrics, elapsed: Duration) -> (r: Option<
    Advice,
>)
    ensures
        r == medium_advice(elapsed@),
        *final(metrics) == (MisclassificationMetrics {
            medium: counted(old(metrics).medium, r),
            ..*old(metrics)
        }),
{
    if elapsed.as_nanos() < SMALL_THRESHOLD_US as u128 * 1000 {
        metrics.medium = metrics.medium.wrapping_add(1);
        Some(Advice::MediumBelow)
    } else if elapsed.as_nanos() > MEDIUM_THRESHOLD_US as u128 * 1000 {
        metrics.medium = metrics.medium.wrapping_add(1);
        Some(Advice::MediumExceeded)
    } else {
        None
    }
}

/// Checks a task that was run as a large one, and counts it if it took less than
/// 1 ms.
pub fn validate_large(metrics: &mut MisclassificationMetrics, elapsed: Duration) -> (r: Option<
    Advice,
>)
    ensures
        r == large_advice(elapsed@),
        *final(metrics) == (MisclassificationMetrics {
            large: counted(old(metrics).large, r),
            ..*old(metrics)
        }),
{
    if elapsed.as_nanos() < MEDIUM_THRESHOLD_US as u128 * 1000 {
        metrics.large = metrics.large.wrapping_add(1);
        Some(Advice::LargeBelow)
    } else {
        None
    }
}

/// How many tasks were sorted wrongly: small, medium and large ones.
pub fn get_misclassification_metrics(metrics: &MisclassificationMetrics) -> (r: (u64, u64, u64))
    ensures
        r == (metrics.small, metrics.medium, metrics.large),
{
    (metrics.small, metrics.medium, metrics.large)
}

/// Forgets the tasks that were sorted wrongly.
pub fn reset_misclassification_metrics(metrics: &mut MisclassificationMetrics)
    ensures
        *final(metrics) == (MisclassificationMetrics { small: 0, medium: 0, large: 0 }),
{
    metrics.small = 0;
    metrics.medium = 0;
    metrics.large = 0;
}

/// Every task has a right size.
pub proof fn some_size_fits(nanos: nat)
    ensures
        small_advice(nanos) is None || medium_advice(nanos) is None || large_advice(nanos) is None,
{
}

/// Following the advice leads to a size that fits, or to the next size in the
/// same direction, and from there to one that fits.
pub proof fn advice_leads_to_a_fit(nanos: nat)
    ensures
        small_advice(nanos) is Some && medium_advice(nanos) is Some ==> medium_advice(nanos)
            == Some(Advice::MediumExceeded) && large_advice(nanos) is None,
        medium_advice(nanos) == Some(Advice::MediumBelow) ==> small_advice(nanos) is None,
        medium_advice(nanos) == Some(Advice::MediumExceeded) ==> large_advice(nanos) is None,
        large_advice(nanos) is Some ==> medium_advice(nanos) is None || small_advice(nanos) is None,
{
}

/// A task is small up to 100 microseconds, medium from there to 1 millisecond, and
/// large from there on; the bounds themselves belong to both sides.
pub proof fn sizes_have_their_bounds(nanos: nat)
    ensures
        small_advice(nanos) is None <==> nanos <= 100_000,
        medium_advice(nanos) is None <==> 100_000 <= nanos <= 1_000_000,
        large_advice(nanos) is None <==> nanos >= 1_000_000,
        nanos > 100_000 ==> small_advice(nanos) == Some(Advice::SmallExceeded),
        nanos < 100_000 ==> medium_advice(nanos) == Some(Advice::MediumBelow),
        nanos > 1_000_000 ==> medium_advice(nanos) == Some(Advice::MediumExceeded),
        nanos < 1_000_000 ==> large_advice(nanos) == Some(Advice::LargeBelow),
{
}

/// The advice names the bound that the task is on the wrong side of.
pub proof fn advice_names_its_bound(nanos: nat)
    ensures
        small_advice(nanos) matches Some(a) ==> nanos > a.threshold() * 1000 && a.threshold()
            == 100,
        medium_advice(nanos) matches Some(a) ==> if nanos < 100_000 {
            a.threshold() == 100
        } else {
            a.threshold() == 1000 && nanos > 1_000_000
        },
        large_advice(nanos) matches Some(a) ==> nanos < a.threshold() * 1000 && a.threshold()
            == 1000,
{
}

/// What is advised.
pub proof fn advice_has_its_message(advice: Advice)
    ensures
        advice is SmallExceeded ==> advice.text()
            == "compute_small! task exceeded threshold. Consider using compute_medium!"@,
        advice is MediumBelow ==> advice.text()
            == "compute_medium! task below small threshold. Consider using compute_small!"@,
        advice is MediumExceeded ==> advice.text()
            == "compute_medium! task exceeded threshold. Consider using compute_large!"@,
        advice is LargeBelow ==> advice.text()
            == "compute_large! task below medium threshold. Consider using compute_medium! or compute_small!"@,
{
}

/// A task is counted where there is advice for it, and only there. The count wraps
/// round.
pub proof fn advice_is_counted(count: u64, advice: Option<Advice>)
    ensures
        advice is None ==> counted(count, advice) == count,
        advice is Some ==> counted(count, advice) == (count + 1) % 0x1_0000_0000_0000_0000,
{
}

/// A task is counted under the size that it was run as, exactly where it is on the wrong
/// side of a bound of that size, and nothing else is counted.
pub proof fn wrong_sizes_are_counted(
    metrics: &mut MisclassificationMetrics,
    elapsed: Duration,
    r: Option<Advice>,
)
    ensures
        validate_small.ensures((metrics, elapsed), r) ==> {
            &&& r is Some <==> elapsed@ > 100_000
            &&& r is Some && old(metrics).small < u64::MAX ==> final(metrics).small
                == old(metrics).small
                + 1
            &&& r is None ==> final(metrics).small == old(metrics).small
            &&& final(metrics).medium == old(metrics).medium
            &&& final(metrics).large == old(metrics).large
        },
        validate_medium.ensures((metrics, elapsed), r) ==> {
            &&& r is Some <==> elapsed@ < 100_000 || elapsed@ > 1_000_000
            &&& r is Some && old(metrics).medium < u64::MAX ==> final(metrics).medium
                == old(metrics).medium
                + 1
            &&& r is None ==> final(metrics).medium == old(metrics).medium
            &&& final(metrics).small == old(metrics).small
            &&& final(metrics).large == old(metrics).large
        },
        validate_large.ensures((metrics, elapsed), r) ==> {
            &&& r is Some <==> elapsed@ < 1_000_000
            &&& r is Some && old(metrics).large < u64::MAX ==> final(metrics).large
                == old(metrics).large
                + 1
            &&& r is None ==> final(metrics).large == old(metrics).large
            &&& final(metrics).small == old(metrics).small
            &&& final(metrics).medium == old(metrics).medium
        },
{
}

/// What was counted is read by size, and forgotten all at once.
pub proof fn counts_are_read_by_size(
    metrics: &MisclassificationMetrics,
    r: (u64, u64, u64),
    cleared: &mut MisclassificationMetrics,
)
    ensures
        get_misclassification_metrics.ensures((metrics,), r) ==> r.0 == metrics.small && r.1
            == metrics.medium && r.2 == metrics.large,
        reset_misclassification_metrics.ensures((cleared,), ()) ==> final(cleared).small == 0
            && final(cleared).medium == 0 && final(cleared).large == 0,
{
}

/// Advice is told with the bound that it is about.
pub proof fn advice_is_told(advice: &Advice, bound: u64, message: &'static str)
    ensures
        Advice::threshold_us.ensures((advice,), bound) ==> bound == if advice is SmallExceeded
            || advice is MediumBelow {
            100u64
        } else {
            1000
        },
        Advice::message.ensures((advice,), message) ==> message@ == advice.text(),
{
}

} // verus!
