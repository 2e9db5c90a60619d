//! Computations that run over every index of a list and stop at the first
//! index that fails.

use vstd::prelude::*;
use crate::error::TransitionError;

verus! {

/// Whether `f` succeeds at every index below `n`.
pub open spec fn all_succeed<T>(n: nat, f: spec_fn(int) -> Result<T, TransitionError>) -> bool {
    forall|i: int| 0 <= i < n ==> (#[trigger] f(i)) is Ok
}

/// The least index below `n` at which `f` fails, or `n` where there is none.
pub open spec fn first_failure<T>(n: nat, f: spec_fn(int) -> Result<T, TransitionError>) -> int
    decreases n,
{
    if n == 0 {
        0
    } else {
        let before = first_failure((n - 1) as nat, f);
        if before < n - 1 {
            before
        } else if f(n - 1) is Err {
            n - 1
        } else {
            n as int
        }
    }
}

/// What `f` gives at each index below `n`, or the error of the least index
/// at which it fails.
pub open spec fn for_each_index<T>(n: nat, f: spec_fn(int) -> Result<T, TransitionError>) -> Result<
    Seq<T>,
    TransitionError,
> {
    if all_succeed(n, f) {
        Ok(Seq::new(n, |i: int| f(i)->Ok_0))
    } else {
        Err(f(first_failure(n, f))->Err_0)
    }
}

/// `first_failure` is the least failing index.
pub proof fn lemma_first_failure<T>(n: nat, f: spec_fn(int) -> Result<T, TransitionError>)
    ensures
        0 <= first_failure(n, f) <= n,
        forall|i: int| 0 <= i < first_failure(n, f) ==> (#[trigger] f(i)) is Ok,
        first_failure(n, f) < n ==> f(first_failure(n, f)) is Err,
    decreases n,
{
    if n > 0 {
        lemma_first_failure((n - 1) as nat, f);
    }
}

/// Where `f` fails at `i` and at no index before it, the whole computation
/// fails with the error of `i`.
pub proof fn lemma_fails_at<T>(n: nat, f: spec_fn(int) -> Result<T, TransitionError>, i: int)
    requires
        0 <= i < n,
        f(i) is Err,
        forall|j: int| 0 <= j < i ==> (#[trigger] f(j)) is Ok,
    ensures
        for_each_index(n, f) == Err::<Seq<T>, TransitionError>(f(i)->Err_0),
{
    lemma_first_failure(n, f);
    let k = first_failure(n, f);
    if k < i {
        assert(f(k) is Ok);
    } else if k > i {
        assert(f(i) is Ok);
    }
}

/// Where `f` succeeds everywhere and `out` holds what it gives, `out` is the
/// result of the whole computation.
pub proof fn lemma_succeeds<T>(n: nat, f: spec_fn(int) -> Result<T, TransitionError>, out: Seq<T>)
    requires
        out.len() == n,
        forall|j: int| 0 <= j < n ==> (#[trigger] f(j)) == Ok::<T, TransitionError>(out[j]),
    ensures
        for_each_index(n, f) == Ok::<Seq<T>, TransitionError>(out),
{
    assert(all_succeed(n, f));
    assert(Seq::new(n, |i: int| f(i)->Ok_0) =~= out);
}

} // verus!
