//! Where a task runs, by its size.
//!
//! Small tasks (below 100 µs) run where they stand. Medium tasks (100 µs to
//! 1 ms) block the thread in place, as far as there are permits for that. Large
//! tasks (above 1 ms) are handed to the pool.

use vstd::prelude::*;

verus! {

/// Where a task runs.
#[derive(Clone, Copy, Debug, PartialEq, Eq, Structural)]
pub enum Strategy {
    /// Where it stands.
    Inline,
    /// Where it stands, though it may hold up the asynchronous runtime: there is
    /// nothing better, and a warning is due.
    InlineBlocking,
    /// On this thread, which the asynchronous runtime gives up meanwhile.
    BlockInPlace,
    /// On the pool.
    Offload,
}

/// Where a small task runs.
pub fn small_strategy() -> (r: Strategy)
    ensures
        r == Strategy::Inline,
{
    Strategy::Inline
}

/// Where a medium task runs: in place if there was a permit, else on the pool,
/// and without one where it stands.
pub open spec fn medium_choice(got_permit: bool, has_pool: bool) -> Strategy {
    if got_permit {
        Strategy::BlockInPlace
    } else if has_pool {
        Strategy::Offload
    } else {
        Strategy::InlineBlocking
    }
}

/// Where a large task runs: on the pool, and without one where it stands.
pub open spec fn large_choice(has_pool: bool) -> Strategy {
    if has_pool {
        Strategy::Offload
    } else {
        Strategy::InlineBlocking
    }
}

/// Where a medium task runs. The pool is the one at hand, or else the thread's.
pub fn medium_strategy(got_permit: bool, has_pool: bool) -> (r: Strategy)
    ensures
        r == medium_choice(got_permit, has_pool),
{
    if got_permit {
        Strategy::BlockInPlace
    } else if has_pool {
        Strategy::Offload
    } else {
        Strategy::InlineBlocking
    }
}

/// Where a large task runs. The pool is the one at hand, or else the thread's.
pub fn large_strategy(has_pool: bool) -> (r: Strategy)
    ensures
        r == large_choice(has_pool),
{
    if has_pool {
        Strategy::Offload
    } else {
        Strategy::InlineBlocking
    }
}

/// A medium or large task runs where it stands, and may hold up the asynchronous
/// runtime, exactly on a thread without compute resources. A permit is only had
/// with such resources, and so is the thread's pool.
pub proof fn resources_decide(has_resources: bool, got_permit: bool)
    requires
        got_permit ==> has_resources,
    ensures
        medium_choice(got_permit, has_resources) == Strategy::InlineBlocking <==> !has_resources,
        large_choice(has_resources) == Strategy::InlineBlocking <==> !has_resources,
{
}

/// A task blocks in place exactly where it is a medium one that got a permit. It goes
/// to the pool where there is one and it does not block in place, and otherwise runs
/// where it stands.
pub proof fn tasks_run_where_they_can(got_permit: bool, has_pool: bool)
    ensures
        medium_choice(got_permit, has_pool) == Strategy::BlockInPlace <==> got_permit,
        medium_choice(got_permit, has_pool) == Strategy::Offload <==> has_pool && !got_permit,
        medium_choice(got_permit, has_pool) == Strategy::InlineBlocking <==> !has_pool
            && !got_permit,
        large_choice(has_pool) == Strategy::Offload <==> has_pool,
        large_choice(has_pool) == Strategy::InlineBlocking <==> !has_pool,
{
}

/// Small tasks run where they stand. A medium one blocks in place with a permit, and
/// goes to the pool without one, as a large one does. Without a pool they run where they
/// stand.
pub proof fn tasks_are_sent_where_they_can(got_permit: bool, has_pool: bool, r: Strategy)
    ensures
        small_strategy.ensures((), r) ==> r is Inline,
        medium_strategy.ensures((got_permit, has_pool), r) ==> {
            &&& r is BlockInPlace <==> got_permit
            &&& r is Offload <==> has_pool && !got_permit
            &&& r is InlineBlocking <==> !has_pool && !got_permit
        },
        large_strategy.ensures((has_pool,), r) ==> {
            &&& r is Offload <==> has_pool
            &&& r is InlineBlocking <==> !has_pool
        },
{
}

} // verus!
