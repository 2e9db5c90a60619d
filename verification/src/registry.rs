//! Entry to and exit from the validator registry.

use vstd::prelude::*;
use crate::context::Context;
use crate::error::TransitionError;
use crate::helpers::{
    activation_exit_epoch, active_at, compute_activation_exit_epoch, current_epoch,
    eligible_for_activation, eligible_for_activation_queue, get_current_epoch,
    get_validator_churn_limit, is_active_validator, is_eligible_for_activation,
    is_eligible_for_activation_queue, validator_churn_limit,
};
use crate::primitives::{checked_add, copy_vec, sum_of, Epoch, ValidatorIndex, FAR_FUTURE_EPOCH};
use crate::state::{registry_moves_on, validator_moves_on, same_finality, follows, wf, BeaconState, StateView, Validator};

verus! {

/// The latest exit epoch among the first `n` validators that have one, and
/// no earlier than `floor`.
pub open spec fn exit_queue_epoch(validators: Seq<Validator>, n: int, floor: Epoch) -> Epoch
    decreases n,
{
    if n <= 0 {
        floor
    } else {
        let rest = exit_queue_epoch(validators, n - 1, floor);
        let e = validators[n - 1].exit_epoch;
        if e != FAR_FUTURE_EPOCH && e > rest {
            e
        } else {
            rest
        }
    }
}

/// How many of the first `n` validators exit in `epoch`.
pub open spec fn exit_queue_churn(validators: Seq<Validator>, n: int, epoch: Epoch) -> int
    decreases n,
{
    if n <= 0 {
        0
    } else {
        exit_queue_churn(validators, n - 1, epoch) + if validators[n - 1].exit_epoch == epoch {
            1int
        } else {
            0int
        }
    }
}

proof fn lemma_exit_queue_churn_bounds(validators: Seq<Validator>, n: int, epoch: Epoch)
    requires
        0 <= n,
    ensures
        0 <= exit_queue_churn(validators, n, epoch) <= n,
    decreases n,
{
    if n > 0 {
        lemma_exit_queue_churn_bounds(validators, n - 1, epoch);
    }
}

/// The state after the validator at `index` was sent to the exit queue. A
/// validator that already has an exit epoch keeps it. Another exits in the
/// last epoch of the queue, which is no earlier than the epoch in which a
/// change made now takes effect, or in the epoch after that where the last
/// one has its share of exits already; it can withdraw after the configured
/// delay.
pub open spec fn exit_initiated(s: StateView, index: int, c: Context) -> Result<
    StateView,
    TransitionError,
> {
    let v = s.validators[index];
    if v.exit_epoch != FAR_FUTURE_EPOCH {
        Ok(s)
    } else {
        match activation_exit_epoch(current_epoch(s, c), c) {
            Err(e) => Err(e),
            Ok(floor) => {
                let last = exit_queue_epoch(s.validators, s.validators.len() as int, floor);
                let churn = exit_queue_churn(s.validators, s.validators.len() as int, last);
                let exit_epoch = if churn >= validator_churn_limit(s, c) {
                    sum_of(last, 1)
                } else {
                    Ok(last)
                };
                match exit_epoch {
                    Err(e) => Err(e),
                    Ok(exit_epoch) => match sum_of(
                        exit_epoch,
                        c.min_validator_withdrawability_delay,
                    ) {
                        Err(e) => Err(e),
                        Ok(withdrawable_epoch) => Ok(
                            StateView {
                                validators: s.validators.update(
                                    index,
                                    Validator { exit_epoch, withdrawable_epoch, ..v },
                                ),
                                ..s
                            },
                        ),
                    },
                }
            },
        }
    }
}

/// Sends a validator to the exit queue.
pub fn initiate_validator_exit(state: &mut BeaconState, index: ValidatorIndex, context: &Context) -> (r:
    Result<(), TransitionError>)
    requires
        context.valid(),
        index < old(state).validators@.len(),
    ensures
        follows(old(state)@, final(state)@, r, exit_initiated(old(state)@, index as int, *context)),
        final(state)@.validators.len() == old(state)@.validators.len(),
        final(state)@ == (StateView { validators: final(state)@.validators, ..old(state)@ }),
        forall|j: int|
            0 <= j < old(state)@.validators.len() ==> (#[trigger] final(state)@.validators[j]).effective_balance
                == old(state)@.validators[j].effective_balance,
        registry_moves_on(old(state)@, final(state)@),
{
    if state.validators[index].exit_epoch != FAR_FUTURE_EPOCH {
        return Ok(());
    }
    let floor = compute_activation_exit_epoch(get_current_epoch(state, context), context)?;
    let n = state.validators.len();
    let mut last = floor;
    let mut i: usize = 0;
    while i < n
        invariant
            i <= n,
            n == state.validators@.len(),
            state@ == old(state)@,
            last == exit_queue_epoch(state@.validators, i as int, floor),
        decreases n - i,
    {
        let e = state.validators[i].exit_epoch;
        if e != FAR_FUTURE_EPOCH && e > last {
            last = e;
        }
        i += 1;
    }
    let mut churn: usize = 0;
    let mut k: usize = 0;
    while k < n
        invariant
            k <= n,
            n == state.validators@.len(),
            state@ == old(state)@,
            churn == exit_queue_churn(state@.validators, k as int, last),
            churn <= k,
        decreases n - k,
    {
        if state.validators[k].exit_epoch == last {
            churn += 1;
        }
        k += 1;
    }
    let limit = get_validator_churn_limit(state, context);
    let exit_epoch = if churn as u64 >= limit {
        checked_add(last, 1)?
    } else {
        last
    };
    let withdrawable_epoch = checked_add(exit_epoch, context.min_validator_withdrawability_delay)?;
    state.validators[index].exit_epoch = exit_epoch;
    state.validators[index].withdrawable_epoch = withdrawable_epoch;
    proof {
        assert(state@.validators =~= exit_initiated(
            old(state)@,
            index as int,
            *context,
        )->Ok_0.validators);
    }
    Ok(())
}

/// What the end of an epoch does to the validator at `i`: one that has the
/// full effective balance and never asked for activation is marked eligible
/// as of the next epoch, and one that is active with an effective balance at
/// or below the ejection balance is sent to the exit queue.
pub open spec fn registry_step(s: StateView, i: int, epoch: Epoch, c: Context) -> Result<
    StateView,
    TransitionError,
> {
    let v = s.validators[i];
    let marked = if eligible_for_activation_queue(v, c) {
        match sum_of(epoch, 1) {
            Ok(next) => Ok(
                StateView {
                    validators: s.validators.update(
                        i,
                        Validator { activation_eligibility_epoch: next, ..v },
                    ),
                    ..s
                },
            ),
            Err(e) => Err(e),
        }
    } else {
        Ok(s)
    };
    match marked {
        Err(e) => Err(e),
        Ok(t) => if active_at(t.validators[i], epoch) && t.validators[i].effective_balance
            <= c.ejection_balance {
            exit_initiated(t, i, c)
        } else {
            Ok(t)
        },
    }
}

/// The state after `registry_step` was taken for the first `n` validators
/// in turn.
pub open spec fn registry_pass(s: StateView, n: int, c: Context) -> Result<
    StateView,
    TransitionError,
>
    decreases n,
{
    if n <= 0 {
        Ok(s)
    } else {
        match registry_pass(s, n - 1, c) {
            Ok(t) => registry_step(t, n - 1, current_epoch(s, c), c),
            Err(e) => Err(e),
        }
    }
}

/// Whether the validator at `i` comes before the one at `j` in the
/// activation queue: it became eligible earlier, or in the same epoch and
/// has the lower index.
pub open spec fn queue_order(validators: Seq<Validator>, i: int, j: int) -> bool {
    validators[i].activation_eligibility_epoch < validators[j].activation_eligibility_epoch || (
    validators[i].activation_eligibility_epoch == validators[j].activation_eligibility_epoch && i
        < j)
}

/// Whether the validator at `i` waits in the activation queue behind the
/// one at `prev`, or anywhere in it where there is no `prev`.
pub open spec fn queued_after(s: StateView, prev: Option<int>, i: int) -> bool {
    &&& 0 <= i < s.validators.len()
    &&& eligible_for_activation(s, s.validators[i])
    &&& (prev matches Some(p) ==> queue_order(s.validators, p, i))
}

/// Whether the validator at `i` is the first in the activation queue behind
/// the one at `prev`.
pub open spec fn next_in_queue(s: StateView, prev: Option<int>, i: int) -> bool {
    &&& queued_after(s, prev, i)
    &&& forall|j: int| #[trigger] queued_after(s, prev, j) && j != i ==> queue_order(s.validators, i, j)
}

/// The last of a list of positions, where it has one.
pub open spec fn last_of(q: Seq<int>) -> Option<int> {
    if q.len() == 0 {
        None
    } else {
        Some(q.last())
    }
}

/// The first validator in the activation queue behind the one at `prev`,
/// where there is one.
pub open spec fn first_in_queue(s: StateView, prev: Option<int>) -> int {
    choose|i: int| next_in_queue(s, prev, i)
}

/// The first `limit` validators of the activation queue, in the order of
/// the queue: ascending by the epoch in which they became eligible, and by
/// index within one epoch.
pub open spec fn activation_queue(s: StateView, limit: nat) -> Seq<int>
    decreases limit,
{
    if limit == 0 {
        Seq::empty()
    } else {
        let q = activation_queue(s, (limit - 1) as nat);
        if q.len() < limit - 1 {
            q
        } else {
            if exists|i: int| next_in_queue(s, last_of(q), i) {
                q.push(first_in_queue(s, last_of(q)))
            } else {
                q
            }
        }
    }
}

/// The state with the validators of `queue` due to become active in
/// `epoch`.
pub open spec fn activated(s: StateView, queue: Seq<int>, epoch: Epoch) -> StateView {
    StateView {
        validators: Seq::new(
            s.validators.len(),
            |i: int|
                if queue.contains(i) {
                    Validator { activation_epoch: epoch, ..s.validators[i] }
                } else {
                    s.validators[i]
                },
        ),
        ..s
    }
}

/// The state after the registry was brought up to date: every validator
/// was marked eligible or sent to the exit queue where that was due, and
/// then as many validators as the churn limit allows were admitted from the
/// head of the activation queue.
pub open spec fn registry_updates(s: StateView, c: Context) -> Result<StateView, TransitionError> {
    match registry_pass(s, s.validators.len() as int, c) {
        Err(e) => Err(e),
        Ok(t) => match activation_exit_epoch(current_epoch(s, c), c) {
            Err(e) => Err(e),
            Ok(epoch) => Ok(
                activated(t, activation_queue(t, validator_churn_limit(t, c) as nat), epoch),
            ),
        },
    }
}

proof fn lemma_next_in_queue_unique(s: StateView, prev: Option<int>, a: int, b: int)
    requires
        next_in_queue(s, prev, a),
        next_in_queue(s, prev, b),
    ensures
        a == b,
{
    if a != b {
        assert(queued_after(s, prev, a));
        assert(queued_after(s, prev, b));
        assert(queue_order(s.validators, a, b));
        assert(queue_order(s.validators, b, a));
    }
}

/// An index as a position in the registry.
pub open spec fn position(index: Option<usize>) -> Option<int> {
    match index {
        Some(p) => Some(p as int),
        None => None,
    }
}

/// The first validator of the activation queue behind the one at `prev`.
fn find_next_in_queue(state: &BeaconState, prev: Option<usize>) -> (r: Option<usize>)
    requires
        prev matches Some(p) ==> p < state.validators@.len(),
    ensures
        r matches Some(i) ==> next_in_queue(state@, position(prev), i as int) && i
            < state.validators@.len(),
        r is None ==> forall|i: int| !#[trigger] next_in_queue(state@, position(prev), i),
{
    let ghost gprev: Option<int> = position(prev);
    let n = state.validators.len();
    let mut best: Option<usize> = None;
    let mut j: usize = 0;
    while j < n
        invariant
            j <= n,
            n == state.validators@.len(),
            prev matches Some(p) ==> p < n,
            gprev == position(prev),
            best matches Some(b) ==> b < j && queued_after(state@, gprev, b as int) && forall|
                k: int,
            |
                0 <= k < j && #[trigger] queued_after(state@, gprev, k) && k != b ==> queue_order(
                    state@.validators,
                    b as int,
                    k,
                ),
            best is None ==> forall|k: int| 0 <= k < j ==> !#[trigger] queued_after(state@, gprev, k),
        decreases n - j,
    {
        let v = &state.validators[j];
        let behind = match prev {
            Some(p) => {
                let pv = &state.validators[p];
                pv.activation_eligibility_epoch < v.activation_eligibility_epoch || (
                pv.activation_eligibility_epoch == v.activation_eligibility_epoch && p < j)
            },
            None => true,
        };
        if is_eligible_for_activation(state, v) && behind {
            match best {
                Some(b) => {
                    let bv = &state.validators[b];
                    if v.activation_eligibility_epoch < bv.activation_eligibility_epoch {
                        best = Some(j);
                    }
                },
                None => {
                    best = Some(j);
                },
            }
        }
        j += 1;
    }
    proof {
        match best {
            Some(b) => {
                assert(next_in_queue(state@, gprev, b as int));
            },
            None => {
                assert forall|i: int| !#[trigger] next_in_queue(state@, gprev, i) by {
                    if next_in_queue(state@, gprev, i) {
                        assert(queued_after(state@, gprev, i));
                    }
                }
            },
        }
    }
    best
}

/// The first `limit` validators of the activation queue.
fn collect_activation_queue(state: &BeaconState, limit: u64) -> (r: Vec<usize>)
    ensures
        r@.len() <= limit,
        r@.map_values(|i: usize| i as int) == activation_queue(state@, limit as nat),
        forall|k: int| 0 <= k < r@.len() ==> (#[trigger] r@[k]) < state.validators@.len(),
        forall|k: int|
            0 <= k < r@.len() ==> eligible_for_activation(
                state@,
                state@.validators[(#[trigger] r@[k]) as int],
            ),
{
    let ghost as_int = |i: usize| i as int;
    let mut queue: Vec<usize> = Vec::new();
    let mut taken: u64 = 0;
    let mut exhausted = false;
    while taken < limit && !exhausted
        invariant
            taken <= limit,
            as_int == (|i: usize| i as int),
            queue@.len() <= taken,
            exhausted ==> queue@.len() < taken,
            !exhausted ==> queue@.len() == taken,
            queue@.map_values(as_int) == activation_queue(state@, taken as nat),
            exhausted ==> queue@.map_values(as_int) == activation_queue(state@, limit as nat),
            forall|k: int| 0 <= k < queue@.len() ==> (#[trigger] queue@[k]) < state.validators@.len(),
            forall|k: int|
                0 <= k < queue@.len() ==> eligible_for_activation(
                    state@,
                    state@.validators[(#[trigger] queue@[k]) as int],
                ),
        decreases limit - taken + if exhausted { 0int } else { 1int },
    {
        let prev = if queue.len() == 0 {
            None
        } else {
            Some(queue[queue.len() - 1])
        };
        let ghost gprev: Option<int> = position(prev);
        let ghost q = activation_queue(state@, taken as nat);
        let ghost sprev: Option<int> = last_of(q);
        proof {
            if q.len() > 0 {
                assert(q.last() == queue@.map_values(as_int)[queue@.len() - 1]);
            }
            assert(gprev == sprev);
        }
        match find_next_in_queue(state, prev) {
            Some(i) => {
                proof {
                    assert(next_in_queue(state@, sprev, i as int));
                    assert(q.len() == taken);
                    let chosen = first_in_queue(state@, sprev);
                    lemma_next_in_queue_unique(state@, sprev, i as int, chosen);
                    assert(queue@.push(i).map_values(as_int) =~= q.push(i as int));
                    assert(activation_queue(state@, (taken + 1) as nat) == q.push(chosen));
                }
                queue.push(i);
                taken += 1;
            },
            None => {
                proof {
                    assert(!exists|i: int| next_in_queue(state@, sprev, i));
                    assert(activation_queue(state@, (taken + 1) as nat) == q);
                    lemma_queue_stays(state@, (taken + 1) as nat, limit as nat);
                }
                taken += 1;
                exhausted = true;
            },
        }
    }
    proof {
        if !exhausted {
            assert(taken == limit);
        }
    }
    queue
}

/// A queue that came out shorter than asked for does not grow when more is
/// asked for.
proof fn lemma_queue_stays(s: StateView, m: nat, n: nat)
    requires
        m <= n,
        activation_queue(s, m).len() < m,
    ensures
        activation_queue(s, n) == activation_queue(s, m),
    decreases n,
{
    if m < n {
        lemma_queue_stays(s, m, (n - 1) as nat);
    }
}

/// Marks, ejects and activates validators at the end of an epoch.
pub fn process_registry_updates(state: &mut BeaconState, context: &Context) -> (r: Result<
    (),
    TransitionError,
>)
    requires
        context.valid(),
        wf(old(state)@, *context),
    ensures
        follows(old(state)@, final(state)@, r, registry_updates(old(state)@, *context)),
        wf(final(state)@, *context),
        same_finality(old(state)@, final(state)@),
        registry_moves_on(old(state)@, final(state)@),
        final(state)@.current_epoch_participation == old(state)@.current_epoch_participation,
{
    let now = get_current_epoch(state, context);
    let backup = copy_vec(&state.validators);
    let n = state.validators.len();
    let mut i: usize = 0;
    while i < n
        invariant
            i <= n,
            n == old(state)@.validators.len(),
            context.valid(),
            wf(old(state)@, *context),
            backup@ == old(state)@.validators,
            now == current_epoch(old(state)@, *context),
            state@ == (StateView { validators: state@.validators, ..old(state)@ }),
            state@.validators.len() == n,
            registry_pass(old(state)@, i as int, *context) == Ok::<StateView, TransitionError>(
                state@,
            ),
            registry_moves_on(old(state)@, state@),
            forall|j: int|
                0 <= j < n ==> (#[trigger] state@.validators[j]).effective_balance == old(
                    state,
                )@.validators[j].effective_balance,
        decreases n - i,
    {
        let ghost before = state@;
        if is_eligible_for_activation_queue(&state.validators[i], context) {
            match checked_add(now, 1) {
                Ok(next) => {
                    state.validators[i].activation_eligibility_epoch = next;
                    assert(state@.validators =~= before.validators.update(
                        i as int,
                        Validator {
                            activation_eligibility_epoch: next,
                            ..before.validators[i as int]
                        },
                    ));
                },
                Err(e) => {
                    proof {
                        lemma_pass_fails(old(state)@, i as int + 1, n as int, *context);
                    }
                    state.validators = backup;
                    return Err(e);
                },
            }
        }
        let v = &state.validators[i];
        if is_active_validator(v, now) && v.effective_balance
            <= context.ejection_balance {
            match initiate_validator_exit(state, i, context) {
                Ok(()) => {},
                Err(e) => {
                    proof {
                        lemma_pass_fails(old(state)@, i as int + 1, n as int, *context);
                    }
                    state.validators = backup;
                    return Err(e);
                },
            }
        }
        i += 1;
    }
    let epoch = match compute_activation_exit_epoch(now, context) {
        Ok(epoch) => epoch,
        Err(e) => {
            state.validators = backup;
            return Err(e);
        },
    };
    let limit = get_validator_churn_limit(state, context);
    let queue = collect_activation_queue(state, limit);
    let ghost t = state@;
    let ghost gqueue = queue@.map_values(|i: usize| i as int);
    let mut k: usize = 0;
    while k < queue.len()
        invariant
            k <= queue.len(),
            n == t.validators.len(),
            gqueue == queue@.map_values(|i: usize| i as int),
            forall|m: int| 0 <= m < queue@.len() ==> (#[trigger] queue@[m]) < n,
            state@ == (StateView { validators: state@.validators, ..t }),
            state@.validators.len() == n,
            forall|j: int|
                0 <= j < n ==> #[trigger] state@.validators[j] == if gqueue.subrange(
                    0,
                    k as int,
                ).contains(j) {
                    Validator { activation_epoch: epoch, ..t.validators[j] }
                } else {
                    t.validators[j]
                },
        decreases queue.len() - k,
    {
        let q = queue[k];
        let ghost before = state@.validators;
        state.validators[q].activation_epoch = epoch;
        proof {
            let next = gqueue.subrange(0, k as int + 1);
            let prev = gqueue.subrange(0, k as int);
            assert(next =~= prev.push(q as int));
            assert forall|j: int| 0 <= j < n implies #[trigger] state@.validators[j] == if next.contains(
                j,
            ) {
                Validator { activation_epoch: epoch, ..t.validators[j] }
            } else {
                t.validators[j]
            } by {
                if j == q {
                    assert(next[k as int] == j);
                } else {
                    if prev.contains(j) {
                        let w = choose|w: int| 0 <= w < prev.len() && prev[w] == j;
                        assert(next[w] == j);
                    }
                    if next.contains(j) {
                        let w = choose|w: int| 0 <= w < next.len() && next[w] == j;
                        assert(w < k);
                        assert(prev[w] == j);
                    }
                }
            }
        }
        k += 1;
    }
    proof {
        assert(gqueue.subrange(0, queue@.len() as int) =~= gqueue);
        assert(state@.validators =~= activated(t, gqueue, epoch).validators);
        assert forall|i: int| 0 <= i < t.validators.len() implies validator_moves_on(
            #[trigger] t.validators[i],
            state@.validators[i],
        ) by {
            if gqueue.contains(i) {
                let w = choose|w: int| 0 <= w < gqueue.len() && gqueue[w] == i;
                assert(queue@[w] == i);
            }
        }
        assert(registry_moves_on(t, state@));
    }
    Ok(())
}

/// Once the pass over the registry has failed it stays failed.
proof fn lemma_pass_fails(s: StateView, m: int, n: int, c: Context)
    requires
        0 <= m <= n,
        registry_pass(s, m, c) is Err,
    ensures
        registry_pass(s, n, c) == registry_pass(s, m, c),
    decreases n,
{
    if m < n {
        lemma_pass_fails(s, m, n - 1, c);
    }
}

} // verus!
