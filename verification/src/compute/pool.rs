//! The pool.

use super::config::{
    may_start, pool_threads, threads_for, threads_of, ComputeConfig, PoolError, PoolThreads,
    DEFAULT_STACK_SIZE,
};
use super::metrics::{ComputeMetrics, ComputeMetricsView};
use super::parallel::{
    batch_on_pool, batch_size_does_not_show, batched, batched_on, is_batch, joined_on, map_on_pool,
    mapped, mapped_on, mapping_goes_item_by_item, ran_on, scope_fifo_gives, scope_fifo_ready,
    scope_gives, scope_ready, scoped_fifo_on, scoped_on,
};
use crate::calls::{answer_to_both, answer_to_three};
use crate::time::{clock_may_read, clock_may_show, Timer};
use std::sync::Arc;
use vstd::prelude::*;
use vstd::string::*;

verus! {

/// A pool for CPU-bound work.
pub struct ComputePool {
    pool: Arc<rayon::ThreadPool>,
    metrics: ComputeMetrics,
    config: ComputeConfig,
}

/// What a [`ComputePool`] consists of.
pub ghost struct PoolView {
    pub pool: rayon::ThreadPool,
    pub metrics: ComputeMetricsView,
    pub config: ComputeConfig,
}

impl PoolView {
    /// The threads of the pool.
    pub open spec fn threads(self) -> PoolThreads {
        pool_threads(self.pool)
    }

    /// The pool after a task ran that took `nanos` nanoseconds.
    pub open spec fn after_task(self, nanos: nat) -> Self {
        PoolView { metrics: self.metrics.started().completed(nanos), ..self }
    }

    /// Whether `later` is the pool after a task that ran from `start` and took
    /// `nanos` nanoseconds, both as the clock may show them.
    pub open spec fn timed_task(
        self,
        later: Self,
        start: std::time::Instant,
        nanos: nat,
    ) -> bool {
        &&& clock_may_show(start)
        &&& clock_may_read(start, nanos)
        &&& later == self.after_task(nanos)
    }

    /// Whether `later` is the pool after a task that took the time that the clock
    /// showed between its start and its end.
    pub open spec fn ran_task(self, later: Self) -> bool {
        exists|start: std::time::Instant, nanos: nat| #[trigger]
            self.timed_task(later, start, nanos)
    }
}

impl View for ComputePool {
    type V = PoolView;

    closed spec fn view(&self) -> PoolView {
        PoolView { pool: *self.pool, metrics: self.metrics@, config: self.config }
    }
}

/// The threads of a pool, for work to be run on. Work that is run here is not
/// counted.
pub struct PoolHandle {
    pool: Arc<rayon::ThreadPool>,
}

impl View for PoolHandle {
    type V = rayon::ThreadPool;

    /// The pool.
    closed spec fn view(&self) -> rayon::ThreadPool {
        *self.pool
    }
}

/// A task that has started: it knows since when it runs. It is to be handed back
/// to its pool with [`ComputePool::finish_task`].
pub struct ComputeTask {
    timer: Timer,
}

impl View for ComputeTask {
    type V = std::time::Instant;

    /// When it started.
    closed spec fn view(&self) -> std::time::Instant {
        self.timer@
    }
}

proof fn lemma_ran_task(before: PoolView, later: PoolView, start: std::time::Instant)
    requires
        clock_may_show(start),
        exists|nanos: nat| #[trigger]
            clock_may_read(start, nanos) && later == (PoolView {
                metrics: before.metrics.started().completed(nanos),
                ..before
            }),
    ensures
        before.ran_task(later),
{
    let nanos = choose|nanos: nat| #[trigger]
        clock_may_read(start, nanos) && later == (PoolView {
            metrics: before.metrics.started().completed(nanos),
            ..before
        });
    assert(before.timed_task(later, start, nanos));
}

/// Something that runs work in a scope.
pub trait ScopeExecutor {
    /// Runs `f` with a scope in which it can start more tasks, all of which end
    /// before it returns.
    fn execute_in_scope<F, R>(&self, f: F) -> (r: R) where
        F: FnOnce(&rayon::Scope) -> R + Send,
        R: Send,

        requires
            scope_ready(f),
        ensures
            scope_gives(f, r),
    ;
}

impl ScopeExecutor for PoolHandle {
    fn execute_in_scope<F, R>(&self, f: F) -> (r: R) where
        F: FnOnce(&rayon::Scope) -> R + Send,
        R: Send,

        ensures
            scoped_on(self@, f, r),
    {
        answer_to_both(rayon::ThreadPool::scope::<F, R>, &*self.pool, f)
    }
}

impl PoolHandle {
    /// Runs `f` on the threads.
    pub fn run<F, R>(&self, f: F) -> (r: R) where F: FnOnce() -> R + Send, R: Send
        requires
            f.requires(()),
        ensures
            f.ensures((), r),
            ran_on(self@, f, r),
    {
        answer_to_both(rayon::ThreadPool::install::<F, R>, &*self.pool, f)
    }

    /// Runs `f` on the threads, with a first-in first-out scope in which it can
    /// start more tasks.
    pub fn run_scoped_fifo<F, R>(&self, f: F) -> (r: R) where
        F: FnOnce(&rayon::ScopeFifo) -> R + Send,
        R: Send,

        requires
            scope_fifo_ready(f),
        ensures
            scope_fifo_gives(f, r),
            scoped_fifo_on(self@, f, r),
    {
        answer_to_both(rayon::ThreadPool::scope_fifo::<F, R>, &*self.pool, f)
    }

    /// Runs two closures in parallel on the threads.
    pub fn run_both<F1, F2, R1, R2>(&self, f1: F1, f2: F2) -> (r: (R1, R2)) where
        F1: FnOnce() -> R1 + Send,
        F2: FnOnce() -> R2 + Send,
        R1: Send,
        R2: Send,

        requires
            f1.requires(()),
            f2.requires(()),
        ensures
            f1.ensures((), r.0),
            f2.ensures((), r.1),
            joined_on(self@, f1, f2, r),
    {
        answer_to_three(rayon::ThreadPool::join::<F1, F2, R1, R2>, &*self.pool, f1, f2)
    }

    /// Applies `f` to every item on the threads. The results stand in the order
    /// of the items.
    pub fn run_map<T, F, R>(&self, items: Vec<T>, f: F) -> (r: Vec<R>) where
        T: Send,
        F: Fn(T) -> R + Sync + Send,
        R: Send,

        requires
            forall|i: int| 0 <= i < items@.len() ==> f.requires((#[trigger] items@[i],)),
        ensures
            mapped(items@, f, r@),
            mapped_on(self@, items, f, r),
    {
        map_on_pool(&*self.pool, items, f)
    }

    /// Applies `f` to batches of `batch_size` items on the threads, and puts the
    /// results one behind the other in the order of the batches.
    pub fn run_batches<T, F, R>(&self, items: Vec<T>, batch_size: usize, f: F) -> (r: Vec<
        R,
    >) where T: Send + Sync, F: Fn(&[T]) -> Vec<R> + Send + Sync, R: Send
        requires
            batch_size > 0,
            forall|part: &[T]|
                is_batch(items@, batch_size as nat, part@) ==> #[trigger] f.requires((part,)),
        ensures
            batched(items@, batch_size as nat, f, r@),
            batched_on(self@, items, batch_size, f, r),
    {
        batch_on_pool(&*self.pool, items, batch_size, f)
    }
}

impl ComputePool {
    /// Starts a pool by `config` on a machine whose number of cores was found
    /// to be `cores`. No task has run on it yet.
    pub fn new(config: ComputeConfig, cores: Option<usize>) -> (r: Result<Self, PoolError>)
        requires
            config.problem() is None ==> config.nameable(),
        ensures
            match config.problem() {
                Some(error) => r matches Err(PoolError::Config(e)) && e == error,
                None => match r {
                    Ok(pool) => {
                        &&& pool@.threads() == config.threads_on(cores)
                        &&& config.may_start(cores, Ok(pool@.pool))
                        &&& pool@.metrics == ComputeMetricsView::fresh()
                        &&& pool@.config == config
                    },
                    Err(e) => e matches PoolError::Build(error) && config.may_start(
                        cores,
                        Err(error),
                    ),
                },
            },
    {
        match config.build_pool(cores) {
            Ok(pool) => Ok(
                ComputePool { pool: Arc::new(pool), metrics: ComputeMetrics::new(), config },
            ),
            Err(error) => Err(error),
        }
    }

    /// Starts a pool by the default configuration.
    pub fn with_defaults(cores: Option<usize>) -> (r: Result<Self, PoolError>)
        ensures
            match r {
                Ok(pool) => {
                    &&& pool@.threads() == threads_of(
                        threads_for(cores),
                        Some(DEFAULT_STACK_SIZE),
                        "compute"@,
                    )
                    &&& may_start(
                        threads_for(cores),
                        Some(DEFAULT_STACK_SIZE),
                        "compute"@,
                        Ok(pool@.pool),
                    )
                    &&& pool@.metrics == ComputeMetricsView::fresh()
                    &&& pool@.config.num_threads is None
                    &&& pool@.config.stack_size == Some(DEFAULT_STACK_SIZE)
                    &&& pool@.config.thread_prefix@ == "compute"@
                    &&& !pool@.config.pin_threads
                },
                Err(e) => e matches PoolError::Build(error) && may_start(
                    threads_for(cores),
                    Some(DEFAULT_STACK_SIZE),
                    "compute"@,
                    Err(error),
                ),
            },
    {
        proof {
            reveal_strlit("compute");
            assert("compute"@ =~= seq!['c', 'o', 'm', 'p', 'u', 't', 'e']);
        }
        ComputePool::new(ComputeConfig::default(), cores)
    }

    /// Runs `f` on the pool's threads and waits for it. The task is not
    /// counted.
    pub fn execute_sync<F, R>(&self, f: F) -> (r: R) where F: FnOnce() -> R + Send, R: Send
        requires
            f.requires(()),
        ensures
            f.ensures((), r),
            ran_on(self@.pool, f, r),
    {
        self.handle().run(f)
    }

    /// The threads of the pool, for work to be run on.
    pub fn handle(&self) -> (r: PoolHandle)
        ensures
            r@ == self@.pool,
    {
        PoolHandle { pool: self.pool.clone() }
    }

    /// Notes that a task starts, at the instant that the clock shows.
    pub fn begin_task(&mut self) -> (r: ComputeTask)
        ensures
            clock_may_show(r@),
            final(self)@ == (PoolView { metrics: old(self)@.metrics.started(), ..old(self)@ }),
    {
        self.metrics.record_task_start();
        ComputeTask { timer: Timer::start() }
    }

    /// Notes that a task has completed, after the time that the clock shows.
    pub fn finish_task(&mut self, task: ComputeTask)
        ensures
            exists|nanos: nat| #[trigger]
                clock_may_read(task@, nanos) && final(self)@ == (PoolView {
                    metrics: old(self)@.metrics.completed(nanos),
                    ..old(self)@
                }),
    {
        let elapsed = task.timer.elapsed();
        self.metrics.record_task_completion(elapsed);
        assert(clock_may_read(task@, elapsed@));
    }

    /// Runs `f` as a task.
    pub fn execute<F, R>(&mut self, f: F) -> (r: Result<R, PoolError>) where
        F: FnOnce() -> R + Send,
        R: Send,

        requires
            f.requires(()),
        ensures
            r matches Ok(v) && f.ensures((), v),
            r matches Ok(v) && ran_on(old(self)@.pool, f, v),
            old(self)@.ran_task(final(self)@),
    {
        let task = self.begin_task();
        let ghost start = task@;
        let result = self.handle().run(f);
        self.finish_task(task);
        proof {
            lemma_ran_task(old(self)@, self@, start);
        }
        Ok(result)
    }

    /// Runs `f` as a task, with a scope in which it can start more tasks, all of
    /// which end before it returns.
    pub fn execute_scoped<F, R>(&mut self, f: F) -> (r: Result<R, PoolError>) where
        F: FnOnce(&rayon::Scope) -> R + Send,
        R: Send,

        requires
            scope_ready(f),
        ensures
            r matches Ok(v) && scope_gives(f, v),
            r matches Ok(v) && scoped_on(old(self)@.pool, f, v),
            old(self)@.ran_task(final(self)@),
    {
        let task = self.begin_task();
        let ghost start = task@;
        let result = self.handle().execute_in_scope(f);
        self.finish_task(task);
        proof {
            lemma_ran_task(old(self)@, self@, start);
        }
        Ok(result)
    }

    /// Runs `f` as a task, with a scope whose tasks are taken up in the order in
    /// which they were started.
    pub fn execute_scoped_fifo<F, R>(&mut self, f: F) -> (r: Result<R, PoolError>) where
        F: FnOnce(&rayon::ScopeFifo) -> R + Send,
        R: Send,

        requires
            scope_fifo_ready(f),
        ensures
            r matches Ok(v) && scope_fifo_gives(f, v),
            r matches Ok(v) && scoped_fifo_on(old(self)@.pool, f, v),
            old(self)@.ran_task(final(self)@),
    {
        let task = self.begin_task();
        let ghost start = task@;
        let result = self.handle().run_scoped_fifo(f);
        self.finish_task(task);
        proof {
            lemma_ran_task(old(self)@, self@, start);
        }
        Ok(result)
    }

    /// Runs two closures in parallel, as one task.
    pub fn join<F1, F2, R1, R2>(&mut self, f1: F1, f2: F2) -> (r: Result<
        (R1, R2),
        PoolError,
    >) where F1: FnOnce() -> R1 + Send, F2: FnOnce() -> R2 + Send, R1: Send, R2: Send
        requires
            f1.requires(()),
            f2.requires(()),
        ensures
            r matches Ok(v) && f1.ensures((), v.0) && f2.ensures((), v.1),
            r matches Ok(v) && joined_on(old(self)@.pool, f1, f2, v),
            old(self)@.ran_task(final(self)@),
    {
        let task = self.begin_task();
        let ghost start = task@;
        let result = self.handle().run_both(f1, f2);
        self.finish_task(task);
        proof {
            lemma_ran_task(old(self)@, self@, start);
        }
        Ok(result)
    }

    /// Runs `f` as a task in which the parallel operations use this pool.
    pub fn install<F, R>(&mut self, f: F) -> (r: Result<R, PoolError>) where
        F: FnOnce() -> R + Send,
        R: Send,

        requires
            f.requires(()),
        ensures
            r matches Ok(v) && f.ensures((), v),
            r matches Ok(v) && ran_on(old(self)@.pool, f, v),
            old(self)@.ran_task(final(self)@),
    {
        let task = self.begin_task();
        let ghost start = task@;
        let result = self.handle().run(f);
        self.finish_task(task);
        proof {
            lemma_ran_task(old(self)@, self@, start);
        }
        Ok(result)
    }

    /// The metrics of the pool.
    pub fn metrics(&self) -> (r: &ComputeMetrics)
        ensures
            r@ == self@.metrics,
    {
        &self.metrics
    }

    /// The configuration that the pool was made by.
    pub fn config(&self) -> (r: &ComputeConfig)
        ensures
            *r == self@.config,
    {
        &self.config
    }

    /// The number of threads in the pool.
    pub fn num_threads(&self) -> (r: usize)
        ensures
            r == self@.threads().names.len(),
    {
        self.pool.current_num_threads()
    }
}

/// Parallel work on lists.
pub trait ComputePoolExt {
    /// The pool that does the work.
    spec fn pool_view(&self) -> PoolView;

    /// Applies `f` to batches of `batch_size` items, the last of which may be
    /// smaller, and puts the results one behind the other in the order of the
    /// batches.
    fn parallel_batch<T, F, R>(&mut self, items: Vec<T>, batch_size: usize, f: F) -> (r: Result<
        Vec<R>,
        PoolError,
    >) where T: Send + Sync, F: Fn(&[T]) -> Vec<R> + Send + Sync, R: Send
        requires
            batch_size > 0,
            forall|part: &[T]|
                is_batch(items@, batch_size as nat, part@) ==> #[trigger] f.requires((part,)),
        ensures
            r matches Ok(out) && batched(items@, batch_size as nat, f, out@),
            old(self).pool_view().ran_task(final(self).pool_view()),
    ;

    /// Applies `f` to every item. The results stand in the order of the items.
    fn parallel_map<T, F, R>(&mut self, items: Vec<T>, f: F) -> (r: Result<
        Vec<R>,
        PoolError,
    >) where T: Send + Sync, F: Fn(T) -> R + Send + Sync, R: Send
        requires
            forall|i: int| 0 <= i < items@.len() ==> f.requires((#[trigger] items@[i],)),
        ensures
            r matches Ok(out) && mapped(items@, f, out@),
            old(self).pool_view().ran_task(final(self).pool_view()),
    ;
}

impl ComputePoolExt for ComputePool {
    open spec fn pool_view(&self) -> PoolView {
        self@
    }

    fn parallel_batch<T, F, R>(&mut self, items: Vec<T>, batch_size: usize, f: F) -> (r: Result<
        Vec<R>,
        PoolError,
    >) where T: Send + Sync, F: Fn(&[T]) -> Vec<R> + Send + Sync, R: Send
        ensures
            r matches Ok(out) && batched_on(old(self)@.pool, items, batch_size, f, out),
    {
        let task = self.begin_task();
        let ghost start = task@;
        let result = self.handle().run_batches(items, batch_size, f);
        self.finish_task(task);
        proof {
            lemma_ran_task(old(self)@, self@, start);
        }
        Ok(result)
    }

    fn parallel_map<T, F, R>(&mut self, items: Vec<T>, f: F) -> (r: Result<
        Vec<R>,
        PoolError,
    >) where T: Send + Sync, F: Fn(T) -> R + Send + Sync, R: Send
        ensures
            r matches Ok(out) && mapped_on(old(self)@.pool, items, f, out),
    {
        parallel_map(self, items, f)
    }
}

/// Runs two closures in parallel, as one task of `pool`.
pub fn parallel_join<F1, F2, R1, R2>(pool: &mut ComputePool, f1: F1, f2: F2) -> (r: Result<
    (R1, R2),
    PoolError,
>) where F1: FnOnce() -> R1 + Send, F2: FnOnce() -> R2 + Send, R1: Send, R2: Send
    requires
        f1.requires(()),
        f2.requires(()),
    ensures
        r matches Ok(v) && f1.ensures((), v.0) && f2.ensures((), v.1),
        r matches Ok(v) && joined_on(old(pool)@.pool, f1, f2, v),
        old(pool)@.ran_task(final(pool)@),
{
    pool.join(f1, f2)
}

/// Applies `f` to every item in parallel, as one task of `pool`. The results
/// stand in the order of the items.
pub fn parallel_map<F, T, R>(pool: &mut ComputePool, items: Vec<T>, f: F) -> (r: Result<
    Vec<R>,
    PoolError,
>) where F: Fn(T) -> R + Sync + Send, T: Send, R: Send
    requires
        forall|i: int| 0 <= i < items@.len() ==> f.requires((#[trigger] items@[i],)),
    ensures
        r matches Ok(out) && mapped(items@, f, out@),
        r matches Ok(out) && mapped_on(old(pool)@.pool, items, f, out),
        old(pool)@.ran_task(final(pool)@),
{
    let ghost before = pool@;
    let task = pool.begin_task();
    let ghost start = task@;
    let result = pool.handle().run_map(items, f);
    pool.finish_task(task);
    proof {
        lemma_ran_task(before, pool@, start);
    }
    Ok(result)
}

/// A task leaves the pool's threads and its configuration as they are. It is counted
/// once, with the time that the clock shows between its start and its end, and is
/// no longer running.
pub proof fn task_is_counted_once(before: PoolView, later: PoolView)
    requires
        before.ran_task(later),
    ensures
        later.pool == before.pool,
        later.config == before.config,
        later.threads() == pool_threads(before.pool),
        later.metrics.tasks_active == before.metrics.tasks_active,
        later.metrics.tasks_total == (before.metrics.tasks_total + 1) % 0x1_0000_0000_0000_0000,
        exists|start: std::time::Instant, nanos: nat|
            {
                &&& clock_may_show(start)
                &&& #[trigger] clock_may_read(start, nanos)
                &&& later.metrics == before.metrics.started().completed(nanos)
            },
{
    let (start, nanos) = choose|start: std::time::Instant, nanos: nat| #[trigger]
        before.timed_task(later, start, nanos);
    assert(clock_may_read(start, nanos));
}

/// A new pool is made by its configuration, keeps it, and has run nothing.
pub proof fn pools_are_made_by_their_configuration(
    config: ComputeConfig,
    cores: Option<usize>,
    r: Result<ComputePool, PoolError>,
)
    requires
        ComputePool::new.ensures((config, cores), r),
    ensures
        r matches Err(e) && e is Config <==> config.num_threads == Some(0usize) || (
        config.stack_size matches Some(stack) && stack < 128 * 1024),
        r matches Ok(pool) ==> {
            &&& pool@.config == config
            &&& pool@.metrics.tasks_total == 0
            &&& pool@.metrics.tasks_active == 0
            &&& pool_threads(pool@.pool).stack_size == config.stack_size
            &&& (config.num_threads matches Some(n) && n <= 255) ==> pool_threads(
                pool@.pool,
            ).names.len() == config.num_threads->Some_0
        },
{
}

/// A pool hands out its own threads, its own metrics and its own configuration.
pub proof fn pools_hand_out_their_own(
    pool: &ComputePool,
    handle: PoolHandle,
    metrics: &ComputeMetrics,
    config: &ComputeConfig,
    n: usize,
)
    ensures
        ComputePool::handle.ensures((pool,), handle) ==> handle@ == pool@.pool,
        ComputePool::metrics.ensures((pool,), metrics) ==> metrics@ == pool@.metrics,
        ComputePool::config.ensures((pool,), config) ==> *config == pool@.config,
        ComputePool::num_threads.ensures((pool,), n) ==> n == pool_threads(pool@.pool).names.len(),
{
}

/// A task that starts and one that ends are noted by the pool, with the time that the
/// clock shows in between, and the pool's threads and configuration stay.
pub proof fn tasks_are_noted_by_their_pool(
    pool: &mut ComputePool,
    started: ComputeTask,
    ended: ComputeTask,
)
    ensures
        ComputePool::begin_task.ensures((pool,), started) ==> {
            &&& clock_may_show(started@)
            &&& final(pool)@.pool == old(pool)@.pool
            &&& final(pool)@.config == old(pool)@.config
            &&& final(pool)@.metrics == old(pool)@.metrics.started()
        },
        ComputePool::finish_task.ensures((pool, ended), ()) ==> {
            &&& final(pool)@.pool == old(pool)@.pool
            &&& final(pool)@.config == old(pool)@.config
            &&& exists|nanos: nat| #[trigger]
                clock_may_read(ended@, nanos) && final(pool)@.metrics
                    == old(pool)@.metrics.completed(nanos)
        },
{
}

/// Work that is executed or installed runs on the pool's own threads, gives what the work
/// gives, and is counted once. Work that is run at once is not counted.
pub proof fn work_is_run_and_counted<F, R>(
    pool: &mut ComputePool,
    f: F,
    r: Result<R, PoolError>,
    at_once: &ComputePool,
    given: R,
) where F: FnOnce() -> R + Send, R: Send
    ensures
        ComputePool::execute.ensures((pool, f), r) || ComputePool::install.ensures((pool, f), r)
            ==> {
            &&& r is Ok
            &&& f.ensures((), r->Ok_0)
            &&& ran_on(old(pool)@.pool, f, r->Ok_0)
            &&& old(pool)@.ran_task(final(pool)@)
        },
        ComputePool::execute_sync.ensures((at_once, f), given) ==> f.ensures((), given) && ran_on(
            at_once@.pool,
            f,
            given,
        ),
{
}

/// Two closures that are joined run on the pool's own threads, each gives its own result,
/// and they are counted as one task.
pub proof fn two_are_run_and_counted_once<F1, F2, R1, R2>(
    pool: &mut ComputePool,
    f1: F1,
    f2: F2,
    r: Result<(R1, R2), PoolError>,
) where F1: FnOnce() -> R1 + Send, F2: FnOnce() -> R2 + Send, R1: Send, R2: Send
    requires
        ComputePool::join.ensures((pool, f1, f2), r) || parallel_join.ensures((pool, f1, f2), r),
    ensures
        r is Ok,
        f1.ensures((), r->Ok_0.0),
        f2.ensures((), r->Ok_0.1),
        joined_on(old(pool)@.pool, f1, f2, r->Ok_0),
        old(pool)@.ran_task(final(pool)@),
{
}

/// Items that are mapped give one result each, in their order, and the whole is counted
/// as one task.
pub proof fn items_are_mapped_and_counted_once<F, T, R>(
    pool: &mut ComputePool,
    items: Vec<T>,
    f: F,
    r: Result<Vec<R>, PoolError>,
) where F: Fn(T) -> R + Sync + Send, T: Send, R: Send
    requires
        parallel_map.ensures((pool, items, f), r),
    ensures
        r is Ok,
        r->Ok_0@.len() == items@.len(),
        forall|i: int|
            0 <= i < items@.len() ==> f.ensures((items@[i],), #[trigger] r->Ok_0@[i]),
        old(pool)@.ran_task(final(pool)@),
{
}

/// Work that is handed to the threads of a pool runs there, and gives what the work gives;
/// two closures in the order in which they were handed over.
pub proof fn handles_run_on_their_pool<F1, F2, R1, R2>(
    handle: &PoolHandle,
    f1: F1,
    f2: F2,
    first: R1,
    both: (R1, R2),
) where F1: FnOnce() -> R1 + Send, F2: FnOnce() -> R2 + Send, R1: Send, R2: Send
    ensures
        PoolHandle::run.ensures((handle, f1), first) ==> f1.ensures((), first) && ran_on(
            handle@,
            f1,
            first,
        ),
        PoolHandle::run_both.ensures((handle, f1, f2), both) ==> f1.ensures((), both.0)
            && f2.ensures((), both.1) && joined_on(handle@, f1, f2, both),
{
}

/// Items that are handed to the threads of a pool give one result each, in their order.
pub proof fn handles_map_in_order<T, F, R>(
    handle: &PoolHandle,
    items: Vec<T>,
    f: F,
    g: spec_fn(T) -> R,
    r: Vec<R>,
) where T: Send, F: Fn(T) -> R + Sync + Send, R: Send
    requires
        PoolHandle::run_map.ensures((handle, items, f), r),
        forall|item: T, given: R| #[trigger] f.ensures((item,), given) ==> given == g(item),
    ensures
        r@ == items@.map_values(g),
        mapped_on(handle@, items, f, r),
{
    mapping_goes_item_by_item(items@, f, g, r@);
}

/// Batches that are handed to the threads of a pool give what their items give, in the
/// order of the items, whatever the size of the batches.
pub proof fn batches_keep_the_order<T, F, R>(
    handle: &PoolHandle,
    items: Vec<T>,
    batch_size: usize,
    f: F,
    g: spec_fn(T) -> R,
    r: Vec<R>,
) where T: Send + Sync, F: Fn(&[T]) -> Vec<R> + Send + Sync, R: Send
    requires
        PoolHandle::run_batches.ensures((handle, items, batch_size, f), r),
        batch_size > 0,
        forall|part: &[T], list: Vec<R>| #[trigger]
            f.ensures((part,), list) ==> list@ == part@.map_values(g),
    ensures
        r@ == items@.map_values(g),
        batched_on(handle@, items, batch_size, f, r),
{
    batch_size_does_not_show(items@, batch_size as nat, f, g, r@);
}

/// Work with a scope runs on the pool's own threads, gives what it gives in some scope,
/// and is counted once.
pub proof fn scoped_work_is_run_and_counted<F, R>(
    pool: &mut ComputePool,
    f: F,
    r: Result<R, PoolError>,
) where F: FnOnce(&rayon::Scope) -> R + Send, R: Send
    requires
        ComputePool::execute_scoped.ensures((pool, f), r),
    ensures
        r is Ok,
        scope_gives(f, r->Ok_0),
        scoped_on(old(pool)@.pool, f, r->Ok_0),
        old(pool)@.ran_task(final(pool)@),
{
}

/// The same of a scope whose tasks are taken up in the order in which they were started,
/// which is not counted where it is run on the threads alone.
pub proof fn ordered_scoped_work_is_run_and_counted<F, R>(
    pool: &mut ComputePool,
    f: F,
    r: Result<R, PoolError>,
    handle: &PoolHandle,
    given: R,
) where F: FnOnce(&rayon::ScopeFifo) -> R + Send, R: Send
    ensures
        ComputePool::execute_scoped_fifo.ensures((pool, f), r) ==> {
            &&& r is Ok
            &&& scope_fifo_gives(f, r->Ok_0)
            &&& scoped_fifo_on(old(pool)@.pool, f, r->Ok_0)
            &&& old(pool)@.ran_task(final(pool)@)
        },
        PoolHandle::run_scoped_fifo.ensures((handle, f), given) ==> scope_fifo_gives(f, given)
            && scoped_fifo_on(handle@, f, given),
{
}

/// A pool by the default configuration leaves the number of threads to the machine.
pub proof fn default_pools_follow_the_machine(
    cores: Option<usize>,
    r: Result<ComputePool, PoolError>,
)
    requires
        ComputePool::with_defaults.ensures((cores,), r),
    ensures
        r matches Err(e) ==> e is Build,
        r matches Ok(pool) ==> {
            &&& pool@.config.num_threads is None
            &&& pool@.config.stack_size == Some(2_097_152usize)
            &&& pool@.config.thread_prefix@ == "compute"@
            &&& !pool@.config.pin_threads
            &&& pool@.metrics.tasks_total == 0
            &&& pool@.metrics.tasks_active == 0
            &&& pool_threads(pool@.pool).stack_size == Some(2_097_152usize)
            &&& cores is None ==> pool_threads(pool@.pool).names.len() == 2
            &&& (cores matches Some(found) && found <= 4) ==> pool_threads(
                pool@.pool,
            ).names.len() == 2
            &&& (cores matches Some(found) && 4 <= found <= 510) ==> pool_threads(
                pool@.pool,
            ).names.len() == cores->Some_0 / 2
        },
{
}

} // verus!
