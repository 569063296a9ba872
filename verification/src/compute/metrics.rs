//! Metrics of the pool.

use crate::time::Duration;
use vstd::prelude::*;

verus! {

/// A task that takes longer than this, in nanoseconds (100 ms), is slow.
pub const SLOW_TASK_NANOS: u128 = 100_000_000;

/// Counts and times of the pool's tasks.
#[derive(Debug)]
pub struct ComputeMetrics {
    tasks_total: u64,
    tasks_active: usize,
    total_compute_time_us: u64,
    max_task_duration_us: u64,
    slow_tasks: u64,
}

/// What [`ComputeMetrics`] holds.
pub ghost struct ComputeMetricsView {
    /// The tasks that completed.
    pub tasks_total: u64,
    /// The tasks that are running.
    pub tasks_active: usize,
    /// The time of all tasks together, in microseconds.
    pub total_compute_time_us: u64,
    /// The longest task, in microseconds.
    pub max_task_duration_us: u64,
    /// The tasks that took longer than 100 ms.
    pub slow_tasks: u64,
}

/// A duration in whole microseconds, at most the largest 64-bit number.
pub open spec fn micros_saturated(nanos: nat) -> u64 {
    if nanos / 1000 > u64::MAX {
        u64::MAX
    } else {
        (nanos / 1000) as u64
    }
}

/// The larger of two numbers.
pub open spec fn larger(a: u64, b: u64) -> u64 {
    if a < b {
        b
    } else {
        a
    }
}

/// A sum of 64-bit numbers, which starts again at zero behind the largest.
pub open spec fn sum_wrapped(a: u64, b: u64) -> u64 {
    if a + b > u64::MAX {
        (a + b - 0x1_0000_0000_0000_0000) as u64
    } else {
        (a + b) as u64
    }
}

/// A number of running tasks after one more started.
pub open spec fn one_more(active: usize) -> usize {
    if active == usize::MAX {
        0
    } else {
        (active + 1) as usize
    }
}

/// A number of running tasks after one of them completed.
pub open spec fn one_less(active: usize) -> usize {
    if active == 0 {
        usize::MAX
    } else {
        (active - 1) as usize
    }
}

impl ComputeMetricsView {
    /// No task has run.
    pub open spec fn fresh() -> Self {
        ComputeMetricsView {
            tasks_total: 0,
            tasks_active: 0,
            total_compute_time_us: 0,
            max_task_duration_us: 0,
            slow_tasks: 0,
        }
    }

    /// A task started.
    pub open spec fn started(self) -> Self {
        ComputeMetricsView { tasks_active: one_more(self.tasks_active), ..self }
    }

    /// A task completed that took `nanos` nanoseconds.
    pub open spec fn completed(self, nanos: nat) -> Self {
        ComputeMetricsView {
            tasks_total: sum_wrapped(self.tasks_total, 1),
            tasks_active: one_less(self.tasks_active),
            total_compute_time_us: sum_wrapped(self.total_compute_time_us, micros_saturated(nanos)),
            max_task_duration_us: larger(self.max_task_duration_us, micros_saturated(nanos)),
            slow_tasks: if nanos > SLOW_TASK_NANOS {
                sum_wrapped(self.slow_tasks, 1)
            } else {
                self.slow_tasks
            },
        }
    }
}

impl View for ComputeMetrics {
    type V = ComputeMetricsView;

    closed spec fn view(&self) -> ComputeMetricsView {
        ComputeMetricsView {
            tasks_total: self.tasks_total,
            tasks_active: self.tasks_active,
            total_compute_time_us: self.total_compute_time_us,
            max_task_duration_us: self.max_task_duration_us,
            slow_tasks: self.slow_tasks,
        }
    }
}

impl ComputeMetrics {
    /// Metrics of a pool that has run no task.
    pub fn new() -> (r: Self)
        ensures
            r@ == ComputeMetricsView::fresh(),
    {
        ComputeMetrics {
            tasks_total: 0,
            tasks_active: 0,
            total_compute_time_us: 0,
            max_task_duration_us: 0,
            slow_tasks: 0,
        }
    }

    /// Notes that a task started.
    pub fn record_task_start(&mut self)
        ensures
            final(self)@ == old(self)@.started(),
    {
        self.tasks_active = self.tasks_active.wrapping_add(1);
    }

    /// Notes that a task completed that took `duration`.
    pub fn record_task_completion(&mut self, duration: Duration)
        ensures
            final(self)@ == old(self)@.completed(duration@),
    {
        self.tasks_active = self.tasks_active.wrapping_sub(1);
        self.tasks_total = self.tasks_total.wrapping_add(1);
        let micros: u128 = duration.as_micros();
        let duration_us: u64 = if micros > u64::MAX as u128 {
            u64::MAX
        } else {
            micros as u64
        };
        self.total_compute_time_us = self.total_compute_time_us.wrapping_add(duration_us);
        if duration_us > self.max_task_duration_us {
            self.max_task_duration_us = duration_us;
        }
        if duration.as_nanos() > SLOW_TASK_NANOS {
            self.slow_tasks = self.slow_tasks.wrapping_add(1);
        }
    }

    /// The tasks that completed.
    pub fn tasks_total(&self) -> (r: u64)
        ensures
            r == self@.tasks_total,
    {
        self.tasks_total
    }

    /// The tasks that are running.
    pub fn tasks_active(&self) -> (r: usize)
        ensures
            r == self@.tasks_active,
    {
        self.tasks_active
    }

    /// The time of all tasks together, in microseconds.
    pub fn total_compute_time_us(&self) -> (r: u64)
        ensures
            r == self@.total_compute_time_us,
    {
        self.total_compute_time_us
    }

    /// The longest task, in microseconds.
    pub fn max_task_duration_us(&self) -> (r: u64)
        ensures
            r == self@.max_task_duration_us,
    {
        self.max_task_duration_us
    }

    /// The tasks that took longer than 100 ms.
    pub fn slow_tasks(&self) -> (r: u64)
        ensures
            r == self@.slow_tasks,
    {
        self.slow_tasks
    }

    /// Forgets everything.
    pub fn reset(&mut self)
        ensures
            final(self)@ == ComputeMetricsView::fresh(),
    {
        self.tasks_total = 0;
        self.tasks_active = 0;
        self.total_compute_time_us = 0;
        self.max_task_duration_us = 0;
        self.slow_tasks = 0;
    }
}

impl Default for ComputeMetrics {
    fn default() -> (r: Self)
        ensures
            r@ == ComputeMetricsView::fresh(),
    {
        ComputeMetrics::new()
    }
}

/// Metrics after tasks that ran one behind the other, each of them as long as
/// its entry in nanoseconds.
pub open spec fn after_tasks(start: ComputeMetricsView, tasks: Seq<nat>) -> ComputeMetricsView
    decreases tasks.len(),
{
    if tasks.len() == 0 {
        start
    } else {
        after_tasks(start, tasks.drop_last()).started().completed(tasks.last())
    }
}

/// The tasks that took longer than 100 ms.
pub open spec fn slow_among(tasks: Seq<nat>) -> nat
    decreases tasks.len(),
{
    if tasks.len() == 0 {
        0
    } else {
        slow_among(tasks.drop_last()) + (if tasks.last() > SLOW_TASK_NANOS {
            1nat
        } else {
            0
        })
    }
}

/// The time of all tasks together, in microseconds.
pub open spec fn micros_of(tasks: Seq<nat>) -> nat
    decreases tasks.len(),
{
    if tasks.len() == 0 {
        0
    } else {
        micros_of(tasks.drop_last()) + micros_saturated(tasks.last()) as nat
    }
}

/// A task that started and completed leaves the number of running tasks as it
/// was, whatever other tasks did.
pub proof fn task_is_balanced(before: ComputeMetricsView, nanos: nat)
    ensures
        before.started().completed(nanos).tasks_active == before.tasks_active,
{
}

/// The order in which a start and a completion are noted does not matter.
pub proof fn start_and_completion_commute(before: ComputeMetricsView, nanos: nat)
    ensures
        before.started().completed(nanos) == before.completed(nanos).started(),
{
}

/// The order in which two completions are noted does not matter.
pub proof fn completions_commute(before: ComputeMetricsView, a: nat, b: nat)
    ensures
        before.completed(a).completed(b) == before.completed(b).completed(a),
{
}

/// Metrics after tasks completed that took so many nanoseconds each.
pub open spec fn after_completions(
    start: ComputeMetricsView,
    tasks: Seq<nat>,
) -> ComputeMetricsView {
    tasks.fold_left(start, |m: ComputeMetricsView, nanos: nat| m.completed(nanos))
}

/// The order in which completions are noted does not matter: any two orders of
/// the same durations give the same metrics.
pub proof fn completions_in_any_order(start: ComputeMetricsView, a: Seq<nat>, b: Seq<nat>)
    requires
        a.to_multiset() == b.to_multiset(),
    ensures
        after_completions(start, a) == after_completions(start, b),
{
    let note = |m: ComputeMetricsView, nanos: nat| m.completed(nanos);
    assert forall|x: nat, y: nat, m: ComputeMetricsView| #[trigger] note(note(m, x), y) == note(
        note(m, y),
        x,
    ) by {
        completions_commute(m, x, y);
    }
    vstd::seq_lib::lemma_fold_left_permutation(a, b, note, start);
}

/// Something that a pool notes.
pub ghost enum TaskEvent {
    /// A task started.
    Started,
    /// A task completed that took so many nanoseconds.
    Completed(nat),
}

/// Metrics after some events.
pub open spec fn after_events(start: ComputeMetricsView, events: Seq<TaskEvent>) -> ComputeMetricsView
    decreases events.len(),
{
    if events.len() == 0 {
        start
    } else {
        let before = after_events(start, events.drop_last());
        match events.last() {
            TaskEvent::Started => before.started(),
            TaskEvent::Completed(nanos) => before.completed(nanos),
        }
    }
}

/// The starts among some events.
pub open spec fn starts(events: Seq<TaskEvent>) -> nat
    decreases events.len(),
{
    if events.len() == 0 {
        0
    } else {
        starts(events.drop_last()) + (if events.last() is Started {
            1nat
        } else {
            0
        })
    }
}

/// The durations of the completions among some events.
pub open spec fn completions(events: Seq<TaskEvent>) -> Seq<nat>
    decreases events.len(),
{
    if events.len() == 0 {
        Seq::empty()
    } else {
        match events.last() {
            TaskEvent::Started => completions(events.drop_last()),
            TaskEvent::Completed(nanos) => completions(events.drop_last()).push(nanos),
        }
    }
}

/// Whether tasks complete only after they started, and no more run at once than
/// can be counted.
pub open spec fn in_step(events: Seq<TaskEvent>) -> bool {
    forall|n: int|
        0 <= n <= events.len() ==> 0 <= starts(#[trigger] events.take(n)) - completions(
            events.take(n),
        ).len() <= usize::MAX
}

/// Whatever order tasks start and complete in, of one thread or many: the running
/// tasks are those that started less those that completed, the total is those
/// that completed, and the slow ones are those among them, so never more.
pub proof fn metrics_follow_events(events: Seq<TaskEvent>)
    requires
        in_step(events),
        completions(events).len() <= u64::MAX,
    ensures
        ({
            let after = after_events(ComputeMetricsView::fresh(), events);
            &&& after.tasks_active == starts(events) - completions(events).len()
            &&& after.tasks_total == completions(events).len()
            &&& after.slow_tasks == slow_among(completions(events))
            &&& after.slow_tasks <= after.tasks_total
        }),
    decreases events.len(),
{
    if events.len() > 0 {
        let earlier = events.drop_last();
        assert forall|n: int| 0 <= n <= earlier.len() implies 0 <= starts(
            #[trigger] earlier.take(n),
        ) - completions(earlier.take(n)).len() <= usize::MAX by {
            assert(earlier.take(n) == events.take(n));
        }
        metrics_follow_events(earlier);
        assert(events.take(events.len() as int) == events);
        if let TaskEvent::Completed(nanos) = events.last() {
            assert(completions(events).drop_last() == completions(earlier));
        }
    }
}

/// The metrics of a pool that ran some tasks: their number, their time, the
/// longest of them and how many were slow; and none is running. This holds
/// until a sum exceeds its range.
pub proof fn metrics_follow_tasks(tasks: Seq<nat>)
    requires
        tasks.len() <= u64::MAX,
        micros_of(tasks) <= u64::MAX,
    ensures
        ({
            let after = after_tasks(ComputeMetricsView::fresh(), tasks);
            &&& after.tasks_active == 0
            &&& after.tasks_total == tasks.len()
            &&& after.total_compute_time_us == micros_of(tasks)
            &&& after.slow_tasks == slow_among(tasks)
            &&& forall|i: int|
                0 <= i < tasks.len() ==> micros_saturated(#[trigger] tasks[i])
                    <= after.max_task_duration_us
            &&& tasks.len() > 0 ==> exists|i: int|
                0 <= i < tasks.len() && micros_saturated(#[trigger] tasks[i])
                    == after.max_task_duration_us
            &&& slow_among(tasks) <= tasks.len()
        }),
    decreases tasks.len(),
{
    if tasks.len() > 0 {
        let earlier = tasks.drop_last();
        let before = after_tasks(ComputeMetricsView::fresh(), earlier);
        let after = after_tasks(ComputeMetricsView::fresh(), tasks);
        metrics_follow_tasks(earlier);
        assert forall|i: int| 0 <= i < tasks.len() implies micros_saturated(#[trigger] tasks[i])
            <= after.max_task_duration_us by {
            if i < earlier.len() {
                assert(earlier[i] == tasks[i]);
            }
        }
        if after.max_task_duration_us == micros_saturated(tasks.last()) {
            assert(tasks[tasks.len() - 1] == tasks.last());
        } else {
            let i = choose|i: int|
                0 <= i < earlier.len() && micros_saturated(#[trigger] earlier[i])
                    == before.max_task_duration_us;
            assert(tasks[i] == earlier[i]);
        }
    }
}

/// A new pool has run nothing.
pub proof fn new_pool_has_run_nothing()
    ensures
        ({
            let m = ComputeMetricsView::fresh();
            &&& m.tasks_total == 0
            &&& m.tasks_active == 0
            &&& m.total_compute_time_us == 0
            &&& m.max_task_duration_us == 0
            &&& m.slow_tasks == 0
        }),
{
}

/// A task that starts is one more that runs, and changes nothing else. The count
/// wraps round.
pub proof fn start_counts_one(before: ComputeMetricsView)
    ensures
        ({
            let after = before.started();
            &&& before.tasks_active < usize::MAX ==> after.tasks_active == before.tasks_active + 1
            &&& before.tasks_active == usize::MAX ==> after.tasks_active == 0
            &&& after.tasks_total == before.tasks_total
            &&& after.total_compute_time_us == before.total_compute_time_us
            &&& after.max_task_duration_us == before.max_task_duration_us
            &&& after.slow_tasks == before.slow_tasks
        }),
{
}

/// A time in microseconds is the time in nanoseconds rounded down, as long as it
/// fits, and otherwise the largest number.
pub proof fn micros_are_rounded_down(nanos: nat)
    ensures
        nanos < 1000 * 0x1_0000_0000_0000_0000 ==> micros_saturated(nanos) * 1000 <= nanos < (
        micros_saturated(nanos) + 1) * 1000,
        nanos >= 1000 * 0x1_0000_0000_0000_0000 ==> micros_saturated(nanos) == u64::MAX,
{
}

/// A task that completes is one less that runs and one more that completed, and its
/// time is added. It is the longest where no other took longer, and slow where it
/// took longer than 100 milliseconds. Counts and sums wrap round.
pub proof fn completion_counts_one(before: ComputeMetricsView, nanos: nat, micros: u64)
    requires
        micros * 1000 <= nanos < (micros + 1) * 1000 || (micros == u64::MAX && nanos >= micros
            * 1000),
    ensures
        ({
            let after = before.completed(nanos);
            &&& before.tasks_active > 0 ==> after.tasks_active == before.tasks_active - 1
            &&& before.tasks_active == 0 ==> after.tasks_active == usize::MAX
            &&& after.tasks_total == (before.tasks_total + 1) % 0x1_0000_0000_0000_0000
            &&& after.total_compute_time_us == (before.total_compute_time_us + micros)
                % 0x1_0000_0000_0000_0000
            &&& after.max_task_duration_us >= before.max_task_duration_us
            &&& after.max_task_duration_us >= micros
            &&& after.max_task_duration_us == before.max_task_duration_us
                || after.max_task_duration_us == micros
            &&& nanos > 100_000_000 ==> after.slow_tasks == (before.slow_tasks + 1)
                % 0x1_0000_0000_0000_0000
            &&& nanos <= 100_000_000 ==> after.slow_tasks == before.slow_tasks
        }),
{
    assert(micros_saturated(nanos) == micros);
}

/// A task that starts is noted as running, and nothing else changes.
pub proof fn starts_are_noted(metrics: &mut ComputeMetrics)
    requires
        ComputeMetrics::record_task_start.ensures((metrics,), ()),
        old(metrics)@.tasks_active < usize::MAX,
    ensures
        final(metrics)@.tasks_active == old(metrics)@.tasks_active + 1,
        final(metrics)@.tasks_total == old(metrics)@.tasks_total,
        final(metrics)@.total_compute_time_us == old(metrics)@.total_compute_time_us,
        final(metrics)@.max_task_duration_us == old(metrics)@.max_task_duration_us,
        final(metrics)@.slow_tasks == old(metrics)@.slow_tasks,
{
}

/// A task that completes is noted with its time in whole microseconds, and as slow where
/// it took longer than 100 milliseconds.
pub proof fn completions_are_noted(metrics: &mut ComputeMetrics, duration: Duration)
    requires
        ComputeMetrics::record_task_completion.ensures((metrics, duration), ()),
        old(metrics)@.tasks_active > 0,
        old(metrics)@.tasks_total < u64::MAX,
        old(metrics)@.slow_tasks < u64::MAX,
        old(metrics)@.total_compute_time_us + duration@ / 1000 <= u64::MAX,
    ensures
        final(metrics)@.tasks_active == old(metrics)@.tasks_active - 1,
        final(metrics)@.tasks_total == old(metrics)@.tasks_total + 1,
        final(metrics)@.total_compute_time_us == old(metrics)@.total_compute_time_us + duration@
            / 1000,
        final(metrics)@.max_task_duration_us >= duration@ / 1000,
        final(metrics)@.max_task_duration_us >= old(metrics)@.max_task_duration_us,
        final(metrics)@.max_task_duration_us == duration@ / 1000
            || final(metrics)@.max_task_duration_us == old(metrics)@.max_task_duration_us,
        duration@ > 100_000_000 ==> final(metrics)@.slow_tasks == old(metrics)@.slow_tasks + 1,
        duration@ <= 100_000_000 ==> final(metrics)@.slow_tasks == old(metrics)@.slow_tasks,
{
}

/// What is read is what was noted, new metrics and metrics that were reset show nothing.
pub proof fn metrics_are_read(
    metrics: &ComputeMetrics,
    count: u64,
    active: usize,
    made: ComputeMetrics,
    cleared: &mut ComputeMetrics,
)
    ensures
        ComputeMetrics::tasks_total.ensures((metrics,), count) ==> count == metrics@.tasks_total,
        ComputeMetrics::tasks_active.ensures((metrics,), active) ==> active
            == metrics@.tasks_active,
        ComputeMetrics::total_compute_time_us.ensures((metrics,), count) ==> count
            == metrics@.total_compute_time_us,
        ComputeMetrics::max_task_duration_us.ensures((metrics,), count) ==> count
            == metrics@.max_task_duration_us,
        ComputeMetrics::slow_tasks.ensures((metrics,), count) ==> count == metrics@.slow_tasks,
        ComputeMetrics::new.ensures((), made) ==> made@.tasks_total == 0 && made@.tasks_active == 0
            && made@.total_compute_time_us == 0 && made@.max_task_duration_us == 0
            && made@.slow_tasks == 0,
        ComputeMetrics::reset.ensures((cleared,), ()) ==> final(cleared)@.tasks_total == 0
            && final(cleared)@.tasks_active == 0 && final(cleared)@.total_compute_time_us == 0
            && final(cleared)@.max_task_duration_us == 0 && final(cleared)@.slow_tasks == 0,
{
}

} // verus!
