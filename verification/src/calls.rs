//! Calls of functions whose answer no contract can give. What such a function
//! may answer is a relation between its arguments and the answer; these helpers
//! keep hold of it.

use vstd::prelude::*;

verus! {

/// The answer of `f`.
pub(crate) fn answer_of<R, G: FnOnce() -> R>(f: G) -> (r: R)
    requires
        f.requires(()),
    ensures
        f.ensures((), r),
{
    f()
}

/// The answer of `f` to `a`.
pub(crate) fn answer_to<A, R, G: FnOnce(A) -> R>(f: G, a: A) -> (r: R)
    requires
        f.requires((a,)),
    ensures
        f.ensures((a,), r),
{
    f(a)
}

/// The answer of `f` to `a` and `b`.
pub(crate) fn answer_to_both<A, B, R, G: FnOnce(A, B) -> R>(f: G, a: A, b: B) -> (r: R)
    requires
        f.requires((a, b)),
    ensures
        f.ensures((a, b), r),
{
    f(a, b)
}

/// The answer of `f` to `a`, `b` and `c`.
pub(crate) fn answer_to_three<A, B, C, R, G: FnOnce(A, B, C) -> R>(f: G, a: A, b: B, c: C) -> (r: R)
    requires
        f.requires((a, b, c)),
    ensures
        f.ensures((a, b, c), r),
{
    f(a, b, c)
}

/// The answer of `f` to `a`, `b`, `c` and `d`.
pub(crate) fn answer_to_four<A, B, C, D, R, G: FnOnce(A, B, C, D) -> R>(
    f: G,
    a: A,
    b: B,
    c: C,
    d: D,
) -> (r: R)
    requires
        f.requires((a, b, c, d)),
    ensures
        f.ensures((a, b, c, d), r),
{
    f(a, b, c, d)
}

} // verus!
