//! The parallel operations of the pool's library.

use crate::calls::{answer_to_four, answer_to_three};
use rayon::iter::{IntoParallelIterator, ParallelIterator};
use rayon::slice::ParallelSlice;
use vstd::prelude::*;

verus! {

/// A scope in which tasks can be started that end with it.
#[verifier::external_type_specification]
#[verifier::external_body]
pub struct ExScope<'scope>(rayon::Scope<'scope>);

/// A scope whose tasks are taken up in the order in which they were started.
#[verifier::external_type_specification]
#[verifier::external_body]
pub struct ExScopeFifo<'scope>(rayon::ScopeFifo<'scope>);

/// `rayon::ThreadPool::join`: runs two closures on threads of the pool, possibly
/// in parallel, and returns what each of them returned.
pub assume_specification<A, B, RA, RB>[ rayon::ThreadPool::join::<A, B, RA, RB> ](
    pool: &rayon::ThreadPool,
    oper_a: A,
    oper_b: B,
) -> (r: (RA, RB)) where
    A: FnOnce() -> RA + Send,
    B: FnOnce() -> RB + Send,
    RA: Send,
    RB: Send,

    requires
        oper_a.requires(()),
        oper_b.requires(()),
    ensures
        oper_a.ensures((), r.0),
        oper_b.ensures((), r.1),
;

/// `rayon::ThreadPool::install`: runs a closure on a thread of the pool, and
/// returns what it returned.
pub assume_specification<OP, R>[ rayon::ThreadPool::install::<OP, R> ](
    pool: &rayon::ThreadPool,
    op: OP,
) -> (r: R) where OP: FnOnce() -> R + Send, R: Send
    requires
        op.requires(()),
    ensures
        op.ensures((), r),
;

/// `rayon::ThreadPool::scope`: runs a closure on a thread of the pool with some
/// scope, and returns what it returned when every task of the scope has ended.
pub assume_specification<'scope, OP, R>[ rayon::ThreadPool::scope::<OP, R> ](
    pool: &rayon::ThreadPool,
    op: OP,
) -> (r: R) where OP: FnOnce(&rayon::Scope<'scope>) -> R + Send, R: Send
    requires
        forall|s: &rayon::Scope<'scope>| op.requires((s,)),
    ensures
        exists|s: &rayon::Scope<'scope>| op.ensures((s,), r),
;

/// `rayon::ThreadPool::scope_fifo`: as `rayon::ThreadPool::scope`, with a
/// first-in first-out scope.
pub assume_specification<'scope, OP, R>[ rayon::ThreadPool::scope_fifo::<OP, R> ](
    pool: &rayon::ThreadPool,
    op: OP,
) -> (r: R) where OP: FnOnce(&rayon::ScopeFifo<'scope>) -> R + Send, R: Send
    requires
        forall|s: &rayon::ScopeFifo<'scope>| op.requires((s,)),
    ensures
        exists|s: &rayon::ScopeFifo<'scope>| op.ensures((s,), r),
;

/// Whether `r` may come of `op`, run on the threads of `pool`.
pub open spec fn ran_on<OP, R>(pool: rayon::ThreadPool, op: OP, r: R) -> bool where
    OP: FnOnce() -> R + Send,
    R: Send,
 {
    call_ensures(rayon::ThreadPool::install::<OP, R>, (&pool, op), r)
}

/// Whether `r` may come of two closures, run on the threads of `pool`.
pub open spec fn joined_on<A, B, RA, RB>(
    pool: rayon::ThreadPool,
    a: A,
    b: B,
    r: (RA, RB),
) -> bool where
    A: FnOnce() -> RA + Send,
    B: FnOnce() -> RB + Send,
    RA: Send,
    RB: Send,
 {
    call_ensures(rayon::ThreadPool::join::<A, B, RA, RB>, (&pool, a, b), r)
}

/// Whether `r` may come of `op`, run on the threads of `pool` with a scope.
pub open spec fn scoped_on<OP, R>(pool: rayon::ThreadPool, op: OP, r: R) -> bool where
    OP: FnOnce(&rayon::Scope) -> R + Send,
    R: Send,
 {
    call_ensures(rayon::ThreadPool::scope::<OP, R>, (&pool, op), r)
}

/// Whether `r` may come of `op`, run on the threads of `pool` with a first-in
/// first-out scope.
pub open spec fn scoped_fifo_on<OP, R>(pool: rayon::ThreadPool, op: OP, r: R) -> bool where
    OP: FnOnce(&rayon::ScopeFifo) -> R + Send,
    R: Send,
 {
    call_ensures(rayon::ThreadPool::scope_fifo::<OP, R>, (&pool, op), r)
}

/// Whether `f` can run in any scope.
pub open spec fn scope_ready<F, R>(f: F) -> bool where F: FnOnce(&rayon::Scope) -> R {
    forall|s: &rayon::Scope| f.requires((s,))
}

/// Whether `f` may return `r` in some scope.
pub open spec fn scope_gives<F, R>(f: F, r: R) -> bool where F: FnOnce(&rayon::Scope) -> R {
    exists|s: &rayon::Scope| f.ensures((s,), r)
}

/// Whether `f` can run in any first-in first-out scope.
pub open spec fn scope_fifo_ready<F, R>(f: F) -> bool where F: FnOnce(&rayon::ScopeFifo) -> R {
    forall|s: &rayon::ScopeFifo| f.requires((s,))
}

/// Whether `f` may return `r` in some first-in first-out scope.
pub open spec fn scope_fifo_gives<F, R>(f: F, r: R) -> bool where
    F: FnOnce(&rayon::ScopeFifo) -> R,
 {
    exists|s: &rayon::ScopeFifo| f.ensures((s,), r)
}

/// Whether `out` is what `f` may make of `items`, item by item.
pub open spec fn mapped<T, F, R>(items: Seq<T>, f: F, out: Seq<R>) -> bool where F: Fn(T) -> R {
    &&& out.len() == items.len()
    &&& forall|i: int| 0 <= i < items.len() ==> f.ensures((items[i],), #[trigger] out[i])
}

/// Applies `f` to every item: `into_par_iter`, `map` and `collect` of rayon's
/// parallel iterators. The results stand in the order of the items.
#[verifier::external_body]
fn map_in_parallel<T, F, R>(items: Vec<T>, f: F) -> (r: Vec<R>) where
    T: Send,
    F: Fn(T) -> R + Sync + Send,
    R: Send,

    requires
        forall|i: int| 0 <= i < items@.len() ==> f.requires((#[trigger] items@[i],)),
    ensures
        mapped(items@, f, r@),
{
    items.into_par_iter().map(f).collect()
}

/// Applies `f` to every item, on the threads that are at hand.
fn map_items<T, F, R>(items: Vec<T>, f: F) -> (r: Vec<R>) where
    T: Send,
    F: Fn(T) -> R + Sync + Send,
    R: Send,

    requires
        forall|i: int| 0 <= i < items@.len() ==> f.requires((#[trigger] items@[i],)),
    ensures
        mapped(items@, f, r@),
{
    map_in_parallel(items, f)
}

/// Applies `f` to every item on the threads of `pool`, where it installs
/// [`map_items`].
pub(crate) fn install_map<T, F, R>(pool: &rayon::ThreadPool, items: Vec<T>, f: F) -> (r: Vec<R>) where
    T: Send,
    F: Fn(T) -> R + Sync + Send,
    R: Send,

    requires
        forall|i: int| 0 <= i < items@.len() ==> f.requires((#[trigger] items@[i],)),
    ensures
        mapped(items@, f, r@),
{
    let work = move || -> (out: Vec<R>)
        requires
            forall|i: int| 0 <= i < items@.len() ==> f.requires((#[trigger] items@[i],)),
        ensures
            mapped(items@, f, out@),
        {
            map_items(items, f)
        };
    pool.install(work)
}

/// Whether `r` may come of applying `f` to `items` on the threads of `pool`.
pub closed spec fn mapped_on<T, F, R>(
    pool: rayon::ThreadPool,
    items: Vec<T>,
    f: F,
    r: Vec<R>,
) -> bool where T: Send, F: Fn(T) -> R + Sync + Send, R: Send {
    call_ensures(install_map::<T, F, R>, (&pool, items, f), r)
}

/// Applies `f` to every item on the threads of `pool`.
pub(crate) fn map_on_pool<T, F, R>(pool: &rayon::ThreadPool, items: Vec<T>, f: F) -> (r: Vec<
    R,
>) where T: Send, F: Fn(T) -> R + Sync + Send, R: Send
    requires
        forall|i: int| 0 <= i < items@.len() ==> f.requires((#[trigger] items@[i],)),
    ensures
        mapped(items@, f, r@),
        mapped_on(*pool, items, f, r),
{
    answer_to_three(install_map::<T, F, R>, pool, items, f)
}

/// The number of batches of at most `size` items that `len` items make.
pub open spec fn batch_count(len: nat, size: nat) -> nat
    recommends
        size > 0,
{
    (len + size - 1) as nat / size
}

/// The batch `i` of `items`: `size` of them, or what is left.
pub open spec fn batch<T>(items: Seq<T>, size: nat, i: int) -> Seq<T> {
    items.subrange(
        i * size,
        if (i + 1) * size < items.len() {
            (i + 1) * size
        } else {
            items.len() as int
        },
    )
}

/// Whether `part` is one of the batches of `items`.
pub open spec fn is_batch<T>(items: Seq<T>, size: nat, part: Seq<T>) -> bool {
    exists|i: int|
        0 <= i < batch_count(items.len(), size) && part == #[trigger] batch(items, size, i)
}

/// The contents of lists one behind the other.
pub open spec fn concatenated<R>(lists: Seq<Vec<R>>) -> Seq<R> {
    lists.map_values(|list: Vec<R>| list@).flatten()
}

/// Whether `f` may return `list` for some items.
pub open spec fn gives_for<T, F, R>(f: F, items: Seq<T>, list: Vec<R>) -> bool where
    F: Fn(&[T]) -> Vec<R>,
 {
    exists|part: &[T]| part@ == items && #[trigger] f.ensures((part,), list)
}

/// Whether `lists` are what `f` may return for the batches of `items`.
pub open spec fn batch_lists<T, F, R>(items: Seq<T>, size: nat, f: F, lists: Seq<Vec<R>>) -> bool where
    F: Fn(&[T]) -> Vec<R>,
 {
    &&& lists.len() == batch_count(items.len(), size)
    &&& forall|i: int|
        0 <= i < lists.len() ==> gives_for(f, batch(items, size, i), #[trigger] lists[i])
}

/// Whether `out` is what `f` may make of the batches of `items`: for each batch
/// a list, and these one behind the other.
pub open spec fn batched<T, F, R>(items: Seq<T>, size: nat, f: F, out: Seq<R>) -> bool where
    F: Fn(&[T]) -> Vec<R>,
 {
    exists|lists: Seq<Vec<R>>|
        batch_lists(items, size, f, lists) && out == #[trigger] concatenated(lists)
}

/// Applies `f` to batches of items and puts the results one behind the other:
/// `par_chunks`, `flat_map` and `collect` of rayon's parallel iterators. The
/// results stand in the order of the batches.
#[verifier::external_body]
fn batch_in_parallel<T, F, R>(items: Vec<T>, batch_size: usize, f: F) -> (r: Vec<
    R,
>) where T: Send + Sync, F: Fn(&[T]) -> Vec<R> + Send + Sync, R: Send
    requires
        batch_size > 0,
        forall|part: &[T]|
            is_batch(items@, batch_size as nat, part@) ==> #[trigger] f.requires((part,)),
    ensures
        batched(items@, batch_size as nat, f, r@),
{
    items.par_chunks(batch_size).flat_map(f).collect()
}

/// Applies `f` to batches of items, on the threads that are at hand.
fn batch_items<T, F, R>(items: Vec<T>, batch_size: usize, f: F) -> (r: Vec<R>) where
    T: Send + Sync,
    F: Fn(&[T]) -> Vec<R> + Send + Sync,
    R: Send,

    requires
        batch_size > 0,
        forall|part: &[T]|
            is_batch(items@, batch_size as nat, part@) ==> #[trigger] f.requires((part,)),
    ensures
        batched(items@, batch_size as nat, f, r@),
{
    batch_in_parallel(items, batch_size, f)
}

/// Applies `f` to batches of items on the threads of `pool`, where it installs
/// [`batch_items`].
pub(crate) fn install_batches<T, F, R>(
    pool: &rayon::ThreadPool,
    items: Vec<T>,
    batch_size: usize,
    f: F,
) -> (r: Vec<R>) where T: Send + Sync, F: Fn(&[T]) -> Vec<R> + Send + Sync, R: Send
    requires
        batch_size > 0,
        forall|part: &[T]|
            is_batch(items@, batch_size as nat, part@) ==> #[trigger] f.requires((part,)),
    ensures
        batched(items@, batch_size as nat, f, r@),
{
    let work = move || -> (out: Vec<R>)
        requires
            batch_size > 0,
            forall|part: &[T]|
                is_batch(items@, batch_size as nat, part@) ==> #[trigger] f.requires((part,)),
        ensures
            batched(items@, batch_size as nat, f, out@),
        {
            batch_items(items, batch_size, f)
        };
    pool.install(work)
}

/// Whether `r` may come of applying `f` to batches of `items` on the threads of
/// `pool`.
pub closed spec fn batched_on<T, F, R>(
    pool: rayon::ThreadPool,
    items: Vec<T>,
    batch_size: usize,
    f: F,
    r: Vec<R>,
) -> bool where T: Send + Sync, F: Fn(&[T]) -> Vec<R> + Send + Sync, R: Send {
    call_ensures(install_batches::<T, F, R>, (&pool, items, batch_size, f), r)
}

/// Applies `f` to batches of items on the threads of `pool`.
pub(crate) fn batch_on_pool<T, F, R>(
    pool: &rayon::ThreadPool,
    items: Vec<T>,
    batch_size: usize,
    f: F,
) -> (r: Vec<R>) where T: Send + Sync, F: Fn(&[T]) -> Vec<R> + Send + Sync, R: Send
    requires
        batch_size > 0,
        forall|part: &[T]|
            is_batch(items@, batch_size as nat, part@) ==> #[trigger] f.requires((part,)),
    ensures
        batched(items@, batch_size as nat, f, r@),
        batched_on(*pool, items, batch_size, f, r),
{
    answer_to_four(install_batches::<T, F, R>, pool, items, batch_size, f)
}

/// All batches of some items.
pub open spec fn batches<T>(items: Seq<T>, size: nat) -> Seq<Seq<T>> {
    Seq::new(batch_count(items.len(), size), |i: int| batch(items, size, i))
}

/// The last batch starts within the items, and ends with them.
proof fn lemma_batch_count(len: nat, size: nat)
    requires
        size > 0,
    ensures
        len <= batch_count(len, size) * size,
        forall|i: int| 0 <= i < batch_count(len, size) ==> #[trigger] (i * size) < len,
{
    let count = batch_count(len, size) as int;
    let top = len + size - 1;
    vstd::arithmetic::div_mod::lemma_fundamental_div_mod(top, size as int);
    assert(size * count == count * size) by (nonlinear_arith);
    assert forall|i: int| 0 <= i < count implies #[trigger] (i * size) < len by {
        assert(i * size + size <= count * size) by (nonlinear_arith)
            requires
                i + 1 <= count,
                size > 0,
        ;
    }
}

proof fn lemma_first_batches<T>(items: Seq<T>, size: nat, n: nat)
    requires
        size > 0,
        n <= batch_count(items.len(), size),
    ensures
        batches(items, size).take(n as int).flatten() == items.take(
            if n * size < items.len() {
                (n * size) as int
            } else {
                items.len() as int
            },
        ),
    decreases n,
{
    let all = batches(items, size);
    if n == 0 {
        assert(all.take(0).flatten() =~= Seq::<T>::empty());
        assert(items.take(0) =~= Seq::<T>::empty());
    } else {
        let m = (n - 1) as nat;
        lemma_first_batches(items, size, m);
        lemma_batch_count(items.len(), size);
        assert(m * size < items.len());
        assert((m + 1) * size == m * size + size) by (nonlinear_arith);
        assert(all.take(n as int) =~= all.take(m as int).push(all[m as int]));
        all.take(m as int).lemma_flatten_push(all[m as int]);
    }
}

/// The batches of some items, one behind the other, are the items: none is left
/// out, none comes twice, and the order stays.
pub proof fn batches_cover_items<T>(items: Seq<T>, size: nat)
    requires
        size > 0,
    ensures
        batches(items, size).flatten() == items,
{
    let count = batch_count(items.len(), size);
    lemma_batch_count(items.len(), size);
    lemma_first_batches(items, size, count);
    assert(batches(items, size).take(count as int) =~= batches(items, size));
    assert(items.take(items.len() as int) =~= items);
}

/// Every batch is as long as was asked for, but for the last, which holds what
/// is left; none is empty.
pub proof fn batches_are_full<T>(items: Seq<T>, size: nat, i: int)
    requires
        size > 0,
        0 <= i < batch_count(items.len(), size),
    ensures
        0 < batch(items, size, i).len() <= size,
        i + 1 < batch_count(items.len(), size) ==> batch(items, size, i).len() == size,
{
    lemma_batch_count(items.len(), size);
    assert(i * size < items.len());
    assert(0 <= i * size) by (nonlinear_arith)
        requires
            0 <= i,
    ;
    assert((i + 1) * size == i * size + size) by (nonlinear_arith);
    if i + 1 < batch_count(items.len(), size) {
        assert((i + 1) * size < items.len());
    }
}

proof fn lemma_mapped_batches<T, R>(items: Seq<T>, size: nat, g: spec_fn(T) -> R, n: nat)
    requires
        size > 0,
        n <= batch_count(items.len(), size),
    ensures
        batches(items, size).take(n as int).map_values(|b: Seq<T>| b.map_values(g)).flatten()
            == batches(items, size).take(n as int).flatten().map_values(g),
    decreases n,
{
    let all = batches(items, size);
    let each = |b: Seq<T>| b.map_values(g);
    if n == 0 {
        assert(all.take(0).map_values(each).flatten() =~= Seq::<R>::empty());
        assert(all.take(0).flatten().map_values(g) =~= Seq::<R>::empty());
    } else {
        let m = (n - 1) as nat;
        let last = all[m as int];
        lemma_mapped_batches(items, size, g, m);
        assert(all.take(n as int) =~= all.take(m as int).push(last));
        assert(all.take(n as int).map_values(each) =~= all.take(m as int).map_values(each).push(
            last.map_values(g),
        ));
        all.take(m as int).lemma_flatten_push(last);
        all.take(m as int).map_values(each).lemma_flatten_push(last.map_values(g));
        assert((all.take(m as int).flatten() + last).map_values(g) =~= all.take(
            m as int,
        ).flatten().map_values(g) + last.map_values(g));
    }
}

/// How items are split into batches does not show: where a batch is worked on
/// item by item, the results are those of the items, in their order, whatever
/// the size of the batches.
pub proof fn batch_size_does_not_show<T, F, R>(
    items: Seq<T>,
    size: nat,
    f: F,
    g: spec_fn(T) -> R,
    out: Seq<R>,
) where F: Fn(&[T]) -> Vec<R>
    requires
        size > 0,
        batched(items, size, f, out),
        forall|part: &[T], list: Vec<R>| #[trigger]
            f.ensures((part,), list) ==> list@ == part@.map_values(g),
    ensures
        out == items.map_values(g),
{
    let lists = choose|lists: Seq<Vec<R>>|
        batch_lists(items, size, f, lists) && out == #[trigger] concatenated(lists);
    let all = batches(items, size);
    let each = |b: Seq<T>| b.map_values(g);
    assert forall|i: int| 0 <= i < lists.len() implies #[trigger] lists[i]@ == each(all[i]) by {
        assert(gives_for(f, batch(items, size, i), lists[i]));
    }
    assert(lists.map_values(|list: Vec<R>| list@) =~= all.map_values(each));
    assert(all.take(all.len() as int) =~= all);
    lemma_mapped_batches(items, size, g, all.len());
    batches_cover_items(items, size);
}

/// What comes of mapping items by a function is the function's value for each item,
/// in the order of the items.
pub proof fn mapping_goes_item_by_item<T, F, R>(
    items: Seq<T>,
    f: F,
    g: spec_fn(T) -> R,
    out: Seq<R>,
) where F: Fn(T) -> R
    requires
        mapped(items, f, out),
        forall|item: T, r: R| #[trigger] f.ensures((item,), r) ==> r == g(item),
    ensures
        out == items.map_values(g),
{
    assert(out =~= items.map_values(g));
}

/// Work that ran on a pool was handed to that pool, and gave what the work gives.
pub proof fn work_runs_on_its_pool<OP, R>(pool: rayon::ThreadPool, op: OP, r: R) where
    OP: FnOnce() -> R + Send,
    R: Send,

    ensures
        ran_on(pool, op, r) <==> call_ensures(
            rayon::ThreadPool::install::<OP, R>,
            (&pool, op),
            r,
        ),
        ran_on(pool, op, r) ==> op.ensures((), r),
{
}

/// Two closures that ran on a pool were handed to that pool, and each gave what it
/// gives, in its own place.
pub proof fn two_run_on_their_pool<A, B, RA, RB>(
    pool: rayon::ThreadPool,
    a: A,
    b: B,
    r: (RA, RB),
) where A: FnOnce() -> RA + Send, B: FnOnce() -> RB + Send, RA: Send, RB: Send
    ensures
        joined_on(pool, a, b, r) <==> call_ensures(
            rayon::ThreadPool::join::<A, B, RA, RB>,
            (&pool, a, b),
            r,
        ),
        joined_on(pool, a, b, r) ==> a.ensures((), r.0) && b.ensures((), r.1),
{
}

/// Work that ran in a scope of a pool was handed to that pool. It can run where it
/// takes every scope, and it gives what it gives in some scope.
pub proof fn scopes_run_on_their_pool<OP, R>(pool: rayon::ThreadPool, op: OP, r: R) where
    OP: FnOnce(&rayon::Scope) -> R + Send,
    R: Send,

    ensures
        scoped_on(pool, op, r) <==> call_ensures(
            rayon::ThreadPool::scope::<OP, R>,
            (&pool, op),
            r,
        ),
        scope_ready(op) <==> forall|s: &rayon::Scope| op.requires((s,)),
        scope_gives(op, r) <==> exists|s: &rayon::Scope| op.ensures((s,), r),
{
}

/// The same of a scope whose tasks are taken up in the order in which they were
/// started.
pub proof fn ordered_scopes_run_on_their_pool<OP, R>(pool: rayon::ThreadPool, op: OP, r: R) where
    OP: FnOnce(&rayon::ScopeFifo) -> R + Send,
    R: Send,

    ensures
        scoped_fifo_on(pool, op, r) <==> call_ensures(
            rayon::ThreadPool::scope_fifo::<OP, R>,
            (&pool, op),
            r,
        ),
        scope_fifo_ready(op) <==> forall|s: &rayon::ScopeFifo| op.requires((s,)),
        scope_fifo_gives(op, r) <==> exists|s: &rayon::ScopeFifo| op.ensures((s,), r),
{
}

/// What may come of mapping on a pool is what may come of installing the work
/// there.
pub(crate) proof fn maps_run_on_their_pool<T, F, R>(
    pool: rayon::ThreadPool,
    items: Vec<T>,
    f: F,
    r: Vec<R>,
) where T: Send, F: Fn(T) -> R + Sync + Send, R: Send
    ensures
        mapped_on(pool, items, f, r) <==> call_ensures(
            install_map::<T, F, R>,
            (&pool, items, f),
            r,
        ),
{
}

/// What may come of batches on a pool is what may come of installing the work
/// there.
pub(crate) proof fn batches_run_on_their_pool<T, F, R>(
    pool: rayon::ThreadPool,
    items: Vec<T>,
    batch_size: usize,
    f: F,
    r: Vec<R>,
) where T: Send + Sync, F: Fn(&[T]) -> Vec<R> + Send + Sync, R: Send
    ensures
        batched_on(pool, items, batch_size, f, r) <==> call_ensures(
            install_batches::<T, F, R>,
            (&pool, items, batch_size, f),
            r,
        ),
{
}

/// There are as many batches as it takes to hold the items, and no more.
pub proof fn batches_are_as_few_as_can_be(len: nat, size: nat)
    requires
        size > 0,
    ensures
        len <= batch_count(len, size) * size,
        len > 0 ==> (batch_count(len, size) - 1) * size < len,
        len == 0 ==> batch_count(len, size) == 0,
{
    lemma_batch_count(len, size);
    if len > 0 {
        let last = batch_count(len, size) - 1;
        if batch_count(len, size) == 0 {
            assert(batch_count(len, size) * size == 0) by (nonlinear_arith)
                requires
                    batch_count(len, size) == 0,
            ;
        }
        assert(last * size < len);
    } else if batch_count(len, size) > 0 {
        assert(0 * size < len);
    }
}

/// A batch is a run of the items that starts at a multiple of the size, and ends
/// after as many, or with the items.
pub proof fn batch_is_a_run_of_items<T>(items: Seq<T>, size: nat, part: Seq<T>)
    requires
        size > 0,
        is_batch(items, size, part),
    ensures
        exists|start: int, end: int|
            {
                &&& 0 <= start < items.len()
                &&& start % (size as int) == 0
                &&& start + size < items.len() ==> end == start + size
                &&& start + size >= items.len() ==> end == items.len()
                &&& part == #[trigger] items.subrange(start, end)
            },
{
    let i = choose|i: int|
        0 <= i < batch_count(items.len(), size) && part == #[trigger] batch(items, size, i);
    let start = i * size;
    lemma_batch_count(items.len(), size);
    assert(start < items.len());
    assert(0 <= start) by (nonlinear_arith)
        requires
            0 <= i,
            start == i * size,
    ;
    assert((i + 1) * size == start + size) by (nonlinear_arith)
        requires
            start == i * size,
    ;
    vstd::arithmetic::div_mod::lemma_mod_multiples_basic(i, size as int);
    let end = if start + size < items.len() {
        start + size
    } else {
        items.len() as int
    };
    assert(part == items.subrange(start, end));
}

} // verus!
