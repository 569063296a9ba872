//! The compute resources of a worker thread.
//!
//! Each worker thread of the asynchronous runtime has a slot. Once the slot is
//! filled, work on that thread finds the pool and the permits for blocking in
//! place without having them passed along.

use crate::calls::answer_to;
use std::sync::Arc;
use vstd::prelude::*;
use vstd::string::*;

verus! {

/// A number of permits that are handed out and given back.
#[verifier::external_type_specification]
#[verifier::external_body]
pub struct ExSemaphore(tokio::sync::Semaphore);

/// A permit that was handed out.
#[verifier::external_type_specification]
#[verifier::external_body]
pub struct ExOwnedSemaphorePermit(tokio::sync::OwnedSemaphorePermit);

/// Why no permit was handed out.
#[verifier::external_type_specification]
#[verifier::external_body]
pub struct ExTryAcquireError(tokio::sync::TryAcquireError);

/// The compute resources of a worker thread: a pool, and the permits for
/// blocking in place.
pub struct ComputeContext<P> {
    pub pool: Arc<P>,
    pub block_in_place_permits: Arc<tokio::sync::Semaphore>,
}

impl<P> Clone for ComputeContext<P> {
    /// The same pool and the same permits.
    fn clone(&self) -> (r: Self)
        ensures
            r == *self,
    {
        ComputeContext {
            pool: self.pool.clone(),
            block_in_place_permits: self.block_in_place_permits.clone(),
        }
    }
}

/// The place where a thread keeps its compute resources.
pub struct ContextSlot<P> {
    context: Option<ComputeContext<P>>,
}

impl<P> View for ContextSlot<P> {
    type V = Option<ComputeContext<P>>;

    closed spec fn view(&self) -> Option<ComputeContext<P>> {
        self.context
    }
}

impl<P> ContextSlot<P> {
    /// The slot of a thread that has no compute resources.
    pub fn new() -> (r: Self)
        ensures
            r@ is None,
    {
        ContextSlot { context: None }
    }
}

/// Takes a permit if one is left: `tokio::sync::Semaphore::try_acquire_owned`.
/// Nothing is promised of the result: it depends on the permits that others
/// hold at that moment.
#[verifier::external_body]
pub(crate) fn try_acquire(permits: Arc<tokio::sync::Semaphore>) -> (r: Result<
    tokio::sync::OwnedSemaphorePermit,
    tokio::sync::TryAcquireError,
>) {
    permits.try_acquire_owned()
}

/// Fills a thread's slot.
pub fn initialize_context<P>(
    slot: &mut ContextSlot<P>,
    pool: Arc<P>,
    permits: Arc<tokio::sync::Semaphore>,
)
    ensures
        final(slot)@ == Some(ComputeContext { pool, block_in_place_permits: permits }),
{
    slot.context = Some(ComputeContext { pool, block_in_place_permits: permits });
}

/// Applies `f` to the thread's compute resources, if it has any.
pub fn with_context<P, F, R>(slot: &ContextSlot<P>, f: F) -> (r: Option<R>) where
    F: FnOnce(&ComputeContext<P>) -> R,

    requires
        slot@ matches Some(context) ==> f.requires((&context,)),
    ensures
        match slot@ {
            Some(context) => r matches Some(v) && f.ensures((&context,), v),
            None => r is None,
        },
{
    match &slot.context {
        Some(context) => Some(f(context)),
        None => None,
    }
}

/// What a thread is told that asked for a permit: `None` stands for a thread
/// without compute resources, and otherwise the semaphore has answered.
pub fn block_permit<T, E>(acquired: Option<Result<T, E>>) -> (r: Result<T, &'static str>)
    ensures
        match acquired {
            Some(Ok(permit)) => r == Ok::<T, &'static str>(permit),
            Some(Err(_)) => r matches Err(message) && message@ == "No permits available"@,
            None => r matches Err(message) && message@ == "No compute context on this thread"@,
        },
{
    match acquired {
        Some(Ok(permit)) => Ok(permit),
        Some(Err(_)) => Err("No permits available"),
        None => Err("No compute context on this thread"),
    }
}

/// Whether a semaphore may answer `answer` when it is asked for a permit.
pub closed spec fn may_acquire(
    permits: Arc<tokio::sync::Semaphore>,
    answer: Result<tokio::sync::OwnedSemaphorePermit, tokio::sync::TryAcquireError>,
) -> bool {
    try_acquire.ensures((permits,), answer)
}

/// Takes a permit for blocking in place, if the thread has compute resources
/// and a permit is left. The thread's own semaphore is asked, and its answer
/// decides.
pub fn try_acquire_block_permit<P>(slot: &ContextSlot<P>) -> (r: Result<
    tokio::sync::OwnedSemaphorePermit,
    &'static str,
>)
    ensures
        match slot@ {
            Some(context) => exists|
                answer: Result<tokio::sync::OwnedSemaphorePermit, tokio::sync::TryAcquireError>,
            | #[trigger]
                may_acquire(context.block_in_place_permits, answer) && match answer {
                    Ok(permit) => r == Ok::<tokio::sync::OwnedSemaphorePermit, &'static str>(
                        permit,
                    ),
                    Err(_) => r matches Err(message) && message@ == "No permits available"@,
                },
            None => r matches Err(message) && message@ == "No compute context on this thread"@,
        },
{
    let acquired = match &slot.context {
        Some(context) => {
            let answer = answer_to(try_acquire, context.block_in_place_permits.clone());
            assert(may_acquire(context.block_in_place_permits, answer));
            Some(answer)
        },
        None => None,
    };
    block_permit(acquired)
}

/// The thread's pool, if it has one.
pub fn get_pool<P>(slot: &ContextSlot<P>) -> (r: Option<Arc<P>>)
    ensures
        r == match slot@ {
            Some(context) => Some(context.pool),
            None => None,
        },
{
    match &slot.context {
        Some(context) => Some(context.pool.clone()),
        None => None,
    }
}

/// Whether the thread has compute resources.
pub fn has_compute_context<P>(slot: &ContextSlot<P>) -> (r: bool)
    ensures
        r == slot@ is Some,
{
    slot.context.is_some()
}

/// What to tell a thread that relies on compute resources and has none.
pub fn check_compute_context<P>(slot: &ContextSlot<P>) -> (r: Result<(), &'static str>)
    ensures
        match slot@ {
            Some(_) => r is Ok,
            None => r matches Err(message) && message@
                == "Thread-local compute context not initialized! Compute macros will fall back to inline execution. Call Runtime::initialize_thread_local() on worker threads."@,
        },
{
    if has_compute_context(slot) {
        Ok(())
    } else {
        Err("Thread-local compute context not initialized! Compute macros will fall back to inline execution. Call Runtime::initialize_thread_local() on worker threads.")
    }
}

/// States that the thread has compute resources, and hands them out.
pub fn assert_compute_context<P>(slot: &ContextSlot<P>) -> (r: &ComputeContext<P>)
    requires
        slot@ is Some,
    ensures
        slot@ == Some(*r),
{
    slot.context.as_ref().unwrap()
}

/// What a semaphore may answer is what it answers when a permit is asked for.
pub(crate) proof fn semaphore_is_asked(
    permits: Arc<tokio::sync::Semaphore>,
    answer: Result<tokio::sync::OwnedSemaphorePermit, tokio::sync::TryAcquireError>,
)
    ensures
        may_acquire(permits, answer) <==> try_acquire.ensures((permits,), answer),
{
}

/// A thread's resources are those that its slot was filled with, and it has none before.
pub proof fn slots_hold_what_they_were_filled_with<P>(
    slot: &mut ContextSlot<P>,
    pool: Arc<P>,
    permits: Arc<tokio::sync::Semaphore>,
    other: &ContextSlot<P>,
    found: Option<Arc<P>>,
    answer: bool,
    made: ContextSlot<P>,
)
    ensures
        ContextSlot::<P>::new.ensures((), made) ==> made@ is None,
        initialize_context.ensures((slot, pool, permits), ()) ==> {
            &&& final(slot)@ is Some
            &&& final(slot)@->Some_0.pool == pool
            &&& final(slot)@->Some_0.block_in_place_permits == permits
        },
        get_pool.ensures((other,), found) ==> {
            &&& found is Some <==> other@ is Some
            &&& found matches Some(p) ==> p == other@->Some_0.pool
        },
        has_compute_context.ensures((other,), answer) ==> (answer <==> other@ is Some),
{
}

/// A thread gets a permit exactly where its own semaphore hands one out, that permit,
/// and is told otherwise whether it has no resources or no permit was left.
pub(crate) proof fn permits_come_from_the_own_semaphore<P>(
    slot: &ContextSlot<P>,
    r: Result<tokio::sync::OwnedSemaphorePermit, &'static str>,
)
    requires
        try_acquire_block_permit.ensures((slot,), r),
    ensures
        slot@ is None ==> r is Err && r->Err_0@ == "No compute context on this thread"@,
        slot@ matches Some(context) ==> exists|
            answer: Result<tokio::sync::OwnedSemaphorePermit, tokio::sync::TryAcquireError>,
        |
            {
                &&& #[trigger] try_acquire.ensures((context.block_in_place_permits,), answer)
                &&& r is Ok <==> answer is Ok
                &&& answer matches Ok(permit) ==> r->Ok_0 == permit
                &&& answer is Err ==> r->Err_0@ == "No permits available"@
            },
{
    if let Some(context) = slot@ {
        let answer = choose|
            answer: Result<tokio::sync::OwnedSemaphorePermit, tokio::sync::TryAcquireError>,
        | #[trigger]
            may_acquire(context.block_in_place_permits, answer) && match answer {
                Ok(permit) => r == Ok::<tokio::sync::OwnedSemaphorePermit, &'static str>(permit),
                Err(_) => r matches Err(message) && message@ == "No permits available"@,
            };
        assert(try_acquire.ensures((context.block_in_place_permits,), answer));
    }
}

/// A permit that was handed out is passed on, and without one the reason is told.
pub proof fn permits_are_passed_on<T, E>(
    acquired: Option<Result<T, E>>,
    r: Result<T, &'static str>,
)
    requires
        block_permit.ensures((acquired,), r),
    ensures
        r is Ok <==> (acquired matches Some(answer) && answer is Ok),
        acquired matches Some(Ok(permit)) ==> r->Ok_0 == permit,
        acquired matches Some(Err(_)) ==> r->Err_0@ == "No permits available"@,
        acquired is None ==> r->Err_0@ == "No compute context on this thread"@,
{
}

/// Work is given the thread's own resources, and is not run without any. A thread that
/// relies on resources is refused exactly where it has none.
pub proof fn work_is_given_the_own_resources<P, F, R>(
    slot: &ContextSlot<P>,
    f: F,
    r: Option<R>,
    checked: Result<(), &'static str>,
    context: &ComputeContext<P>,
) where F: FnOnce(&ComputeContext<P>) -> R
    ensures
        with_context.ensures((slot, f), r) ==> {
            &&& r is Some <==> slot@ is Some
            &&& slot@ matches Some(own) ==> f.ensures((&own,), r->Some_0)
        },
        check_compute_context.ensures((slot,), checked) ==> (checked is Ok <==> slot@ is Some),
        assert_compute_context.ensures((slot,), context) ==> slot@ is Some && slot@->Some_0
            == *context,
{
}

/// A copy of a thread's resources is the same pool and the same permits.
pub proof fn copies_share_the_resources<P>(context: &ComputeContext<P>, r: ComputeContext<P>)
    requires
        ComputeContext::<P>::clone.ensures((context,), r),
    ensures
        r.pool == context.pool,
        r.block_in_place_permits == context.block_in_place_permits,
{
}

} // verus!
