//! Queries over a state that the rules share: epochs, validator
//! predicates, balances and history.

use vstd::prelude::*;
use crate::context::Context;
use crate::error::TransitionError;
use crate::primitives::{
    checked_add, checked_mul, product_of, sum_of, Bytes32, Epoch, Gwei, ParticipationFlags, Root,
    Slot, ValidatorIndex, FAR_FUTURE_EPOCH, GENESIS_EPOCH,
};
use crate::state::{wf, BeaconState, StateView, Validator};

verus! {

/// The epoch that a slot belongs to.
pub open spec fn epoch_at_slot(slot: Slot, c: Context) -> Epoch {
    slot / c.slots_per_epoch
}

/// The epoch that a slot belongs to.
pub fn compute_epoch_at_slot(slot: Slot, context: &Context) -> (epoch: Epoch)
    requires
        context.valid(),
    ensures
        epoch == epoch_at_slot(slot, *context),
{
    slot / context.slots_per_epoch
}

/// The first slot of an epoch.
pub open spec fn start_slot_at_epoch(epoch: Epoch, c: Context) -> Result<Slot, TransitionError> {
    product_of(epoch, c.slots_per_epoch)
}

/// The first slot of an epoch.
pub fn compute_start_slot_at_epoch(epoch: Epoch, context: &Context) -> (r: Result<
    Slot,
    TransitionError,
>)
    ensures
        r == start_slot_at_epoch(epoch, *context),
{
    checked_mul(epoch, context.slots_per_epoch)
}

/// The epoch in which a change to the registry made in `epoch` takes effect.
pub open spec fn activation_exit_epoch(epoch: Epoch, c: Context) -> Result<
    Epoch,
    TransitionError,
> {
    if epoch + 1 + c.max_seed_lookahead > u64::MAX {
        Err(TransitionError::Overflow)
    } else {
        Ok((epoch + 1 + c.max_seed_lookahead) as u64)
    }
}

/// The epoch in which a change to the registry made in `epoch` takes effect.
pub fn compute_activation_exit_epoch(epoch: Epoch, context: &Context) -> (r: Result<
    Epoch,
    TransitionError,
>)
    ensures
        r == activation_exit_epoch(epoch, *context),
{
    let next = checked_add(epoch, 1)?;
    checked_add(next, context.max_seed_lookahead)
}

/// The epoch of the state's slot.
pub open spec fn current_epoch(s: StateView, c: Context) -> Epoch {
    epoch_at_slot(s.slot, c)
}

/// The epoch of the state's slot.
pub fn get_current_epoch(state: &BeaconState, context: &Context) -> (epoch: Epoch)
    requires
        context.valid(),
    ensures
        epoch == current_epoch(state@, *context),
{
    compute_epoch_at_slot(state.slot, context)
}

/// The epoch before the current one, or the genesis epoch where there is
/// none before.
pub open spec fn previous_epoch(s: StateView, c: Context) -> Epoch {
    if current_epoch(s, c) == GENESIS_EPOCH {
        GENESIS_EPOCH
    } else {
        (current_epoch(s, c) - 1) as u64
    }
}

/// The epoch before the current one.
pub fn get_previous_epoch(state: &BeaconState, context: &Context) -> (epoch: Epoch)
    requires
        context.valid(),
    ensures
        epoch == previous_epoch(state@, *context),
{
    let current = get_current_epoch(state, context);
    if current == GENESIS_EPOCH {
        GENESIS_EPOCH
    } else {
        current - 1
    }
}

/// Whether a validator attests and proposes in `epoch`.
pub open spec fn active_at(v: Validator, epoch: Epoch) -> bool {
    v.activation_epoch <= epoch && epoch < v.exit_epoch
}

/// Whether a validator is active in `epoch`.
pub fn is_active_validator(validator: &Validator, epoch: Epoch) -> (r: bool)
    ensures
        r == active_at(*validator, epoch),
{
    validator.activation_epoch <= epoch && epoch < validator.exit_epoch
}

/// Whether a validator may enter the queue for activation.
pub open spec fn eligible_for_activation_queue(v: Validator, c: Context) -> bool {
    v.activation_eligibility_epoch == FAR_FUTURE_EPOCH && v.effective_balance
        == c.max_effective_balance
}

/// Whether a validator may enter the queue for activation.
pub fn is_eligible_for_activation_queue(validator: &Validator, context: &Context) -> (r: bool)
    ensures
        r == eligible_for_activation_queue(*validator, *context),
{
    validator.activation_eligibility_epoch == FAR_FUTURE_EPOCH && validator.effective_balance
        == context.max_effective_balance
}

/// Whether a validator waits in the queue and its place there is final.
pub open spec fn eligible_for_activation(s: StateView, v: Validator) -> bool {
    v.activation_eligibility_epoch <= s.finalized_checkpoint.epoch && v.activation_epoch
        == FAR_FUTURE_EPOCH
}

/// Whether a validator waits in the activation queue at a final place.
pub fn is_eligible_for_activation(state: &BeaconState, validator: &Validator) -> (r: bool)
    ensures
        r == eligible_for_activation(state@, *validator),
{
    validator.activation_eligibility_epoch <= state.finalized_checkpoint.epoch
        && validator.activation_epoch == FAR_FUTURE_EPOCH
}

/// Whether a validator can still be slashed in `epoch`.
pub open spec fn slashable_at(v: Validator, epoch: Epoch) -> bool {
    !v.slashed && v.activation_epoch <= epoch && epoch < v.withdrawable_epoch
}

/// Whether a validator can still be slashed in `epoch`.
pub fn is_slashable_validator(validator: &Validator, epoch: Epoch) -> (r: bool)
    ensures
        r == slashable_at(*validator, epoch),
{
    !validator.slashed && validator.activation_epoch <= epoch && epoch
        < validator.withdrawable_epoch
}

/// The bit that stands for a timeliness flag.
pub open spec fn flag_mask(flag_index: int) -> u8 {
    if flag_index == 0 {
        1
    } else if flag_index == 1 {
        2
    } else {
        4
    }
}

/// Whether a participation record has a flag set.
pub open spec fn flag_set(flags: ParticipationFlags, flag_index: int) -> bool {
    flags & flag_mask(flag_index) == flag_mask(flag_index)
}

/// A participation record with one more flag set.
pub open spec fn with_flag(flags: ParticipationFlags, flag_index: int) -> ParticipationFlags {
    flags | flag_mask(flag_index)
}

fn mask_of(flag_index: usize) -> (m: u8)
    ensures
        m == flag_mask(flag_index as int),
{
    if flag_index == 0 {
        1
    } else if flag_index == 1 {
        2
    } else {
        4
    }
}

/// Whether a participation record has a flag set.
pub fn has_flag(flags: ParticipationFlags, flag_index: usize) -> (r: bool)
    ensures
        r == flag_set(flags, flag_index as int),
{
    let m = mask_of(flag_index);
    flags & m == m
}

/// A participation record with one more flag set.
pub fn add_flag(flags: ParticipationFlags, flag_index: usize) -> (r: ParticipationFlags)
    ensures
        r == with_flag(flags, flag_index as int),
{
    flags | mask_of(flag_index)
}

/// The indices below `n` that satisfy `pred`, in ascending order.
pub open spec fn indices_where(n: nat, pred: spec_fn(int) -> bool) -> Seq<ValidatorIndex>
    decreases n,
{
    if n == 0 {
        Seq::empty()
    } else {
        let rest = indices_where((n - 1) as nat, pred);
        if pred(n - 1) {
            rest.push((n - 1) as usize)
        } else {
            rest
        }
    }
}

/// Every index that `indices_where` lists is below the bound and satisfies
/// the predicate, and the list is no longer than the bound.
pub proof fn lemma_indices_where(n: nat, pred: spec_fn(int) -> bool)
    requires
        n <= usize::MAX,
    ensures
        indices_where(n, pred).len() <= n,
        forall|k: int|
            0 <= k < indices_where(n, pred).len() ==> (#[trigger] indices_where(n, pred)[k]) < n
                && pred(indices_where(n, pred)[k] as int),
    decreases n,
{
    if n > 0 {
        lemma_indices_where((n - 1) as nat, pred);
    }
}

/// The indices of the validators that are active in `epoch`.
pub open spec fn active_indices(s: StateView, epoch: Epoch) -> Seq<ValidatorIndex> {
    indices_where(s.validators.len(), |i: int| active_at(s.validators[i], epoch))
}

/// The validators that are active in `epoch`, in ascending order.
pub fn get_active_validator_indices(state: &BeaconState, epoch: Epoch) -> (r: Vec<ValidatorIndex>)
    ensures
        r@ == active_indices(state@, epoch),
        r@.len() <= state.validators@.len(),
        forall|k: int| 0 <= k < r@.len() ==> (#[trigger] r@[k]) < state.validators@.len(),
{
    let ghost pred = |i: int| active_at(state@.validators[i], epoch);
    let mut r: Vec<ValidatorIndex> = Vec::new();
    let mut i: usize = 0;
    while i < state.validators.len()
        invariant
            i <= state.validators.len(),
            pred == (|i: int| active_at(state@.validators[i], epoch)),
            r@ == indices_where(i as nat, pred),
        decreases state.validators.len() - i,
    {
        if is_active_validator(&state.validators[i], epoch) {
            r.push(i);
        }
        i += 1;
    }
    proof {
        lemma_indices_where(state.validators@.len(), pred);
    }
    r
}

/// The sum of the effective balances of the validators that the first `n`
/// of `indices` name.
pub open spec fn balance_sum(validators: Seq<Validator>, indices: Seq<ValidatorIndex>, n: int) -> int
    decreases n,
{
    if n <= 0 {
        0
    } else {
        balance_sum(validators, indices, n - 1) + validators[indices[n - 1] as int].effective_balance
    }
}

proof fn lemma_balance_sum_monotone(
    validators: Seq<Validator>,
    indices: Seq<ValidatorIndex>,
    m: int,
    n: int,
)
    requires
        0 <= m <= n,
    ensures
        0 <= balance_sum(validators, indices, m) <= balance_sum(validators, indices, n),
    decreases n,
{
    if n > 0 {
        if m < n {
            lemma_balance_sum_monotone(validators, indices, m, n - 1);
        } else {
            lemma_balance_sum_monotone(validators, indices, m - 1, n - 1);
        }
    }
}

/// The combined effective balance of the validators that `indices` name,
/// and at least one increment.
pub open spec fn total_balance(s: StateView, indices: Seq<ValidatorIndex>, c: Context) -> Result<
    Gwei,
    TransitionError,
> {
    let sum = balance_sum(s.validators, indices, indices.len() as int);
    if sum > u64::MAX {
        Err(TransitionError::Overflow)
    } else if sum < c.effective_balance_increment {
        Ok(c.effective_balance_increment)
    } else {
        Ok(sum as u64)
    }
}

/// The combined effective balance of the validators named, and at least one increment.
pub fn get_total_balance(
    state: &BeaconState,
    indices: &Vec<ValidatorIndex>,
    context: &Context,
) -> (r: Result<Gwei, TransitionError>)
    requires
        forall|k: int| 0 <= k < indices@.len() ==> (#[trigger] indices@[k]) < state.validators@.len(),
    ensures
        r == total_balance(state@, indices@, *context),
{
    let mut sum: u64 = 0;
    let mut i: usize = 0;
    while i < indices.len()
        invariant
            i <= indices.len(),
            forall|k: int|
                0 <= k < indices@.len() ==> (#[trigger] indices@[k]) < state.validators@.len(),
            sum == balance_sum(state@.validators, indices@, i as int),
        decreases indices.len() - i,
    {
        proof {
            lemma_balance_sum_monotone(
                state@.validators,
                indices@,
                i + 1,
                indices@.len() as int,
            );
        }
        sum = checked_add(sum, state.validators[indices[i]].effective_balance)?;
        i += 1;
    }
    if sum < context.effective_balance_increment {
        Ok(context.effective_balance_increment)
    } else {
        Ok(sum)
    }
}

/// The combined effective balance of the validators active in the current
/// epoch.
pub open spec fn total_active_balance(s: StateView, c: Context) -> Result<Gwei, TransitionError> {
    total_balance(s, active_indices(s, current_epoch(s, c)), c)
}

/// The combined effective balance of the active validators.
pub fn get_total_active_balance(state: &BeaconState, context: &Context) -> (r: Result<
    Gwei,
    TransitionError,
>)
    requires
        context.valid(),
    ensures
        r == total_active_balance(state@, *context),
        r matches Ok(b) ==> b >= context.effective_balance_increment,
{
    let indices = get_active_validator_indices(state, get_current_epoch(state, context));
    get_total_balance(state, &indices, context)
}

/// Whether the validator at `i` was active in `epoch`, is not slashed, and
/// has the flag set in `participation`.
pub open spec fn unslashed_participating(
    s: StateView,
    participation: Seq<ParticipationFlags>,
    i: int,
    flag_index: int,
    epoch: Epoch,
) -> bool {
    active_at(s.validators[i], epoch) && flag_set(participation[i], flag_index)
        && !s.validators[i].slashed
}

/// The participation records that speak of `epoch`: those of the current
/// epoch for the current epoch, those of the previous epoch otherwise.
pub open spec fn participation_of(s: StateView, epoch: Epoch, c: Context) -> Seq<
    ParticipationFlags,
> {
    if epoch == current_epoch(s, c) {
        s.current_epoch_participation
    } else {
        s.previous_epoch_participation
    }
}

/// The unslashed validators that were active in `epoch` and have the flag
/// set in the records of that epoch.
pub open spec fn unslashed_participating_indices(
    s: StateView,
    flag_index: int,
    epoch: Epoch,
    c: Context,
) -> Seq<ValidatorIndex> {
    indices_where(
        s.validators.len(),
        |i: int| unslashed_participating(s, participation_of(s, epoch, c), i, flag_index, epoch),
    )
}

/// The unslashed validators that have a flag set for an epoch.
pub fn get_unslashed_participating_indices(
    state: &BeaconState,
    flag_index: usize,
    epoch: Epoch,
    context: &Context,
) -> (r: Vec<ValidatorIndex>)
    requires
        context.valid(),
        wf(state@, *context),
    ensures
        r@ == unslashed_participating_indices(state@, flag_index as int, epoch, *context),
        forall|k: int| 0 <= k < r@.len() ==> (#[trigger] r@[k]) < state.validators@.len(),
{
    let current = epoch == get_current_epoch(state, context);
    let ghost participation = participation_of(state@, epoch, *context);
    let ghost pred = |i: int|
        unslashed_participating(state@, participation, i, flag_index as int, epoch);
    let mut r: Vec<ValidatorIndex> = Vec::new();
    let mut i: usize = 0;
    while i < state.validators.len()
        invariant
            i <= state.validators.len(),
            wf(state@, *context),
            participation == participation_of(state@, epoch, *context),
            current == (epoch == current_epoch(state@, *context)),
            pred == (|i: int|
                unslashed_participating(state@, participation, i, flag_index as int, epoch)),
            r@ == indices_where(i as nat, pred),
        decreases state.validators.len() - i,
    {
        let flags = if current {
            state.current_epoch_participation[i]
        } else {
            state.previous_epoch_participation[i]
        };
        let v = &state.validators[i];
        if is_active_validator(v, epoch) && has_flag(flags, flag_index) && !v.slashed {
            r.push(i);
        }
        i += 1;
    }
    proof {
        lemma_indices_where(state.validators@.len(), pred);
    }
    r
}

/// Whether the validator at `i` is judged at the end of the current epoch:
/// it was active in the previous epoch, or is slashed and not yet
/// withdrawable.
pub open spec fn eligible(s: StateView, i: int, c: Context) -> bool {
    let v = s.validators[i];
    active_at(v, previous_epoch(s, c)) || (v.slashed && previous_epoch(s, c) + 1
        < v.withdrawable_epoch)
}

/// Whether a validator is judged at the end of the current epoch.
pub fn is_eligible(state: &BeaconState, index: ValidatorIndex, context: &Context) -> (r: bool)
    requires
        context.valid(),
        index < state.validators@.len(),
    ensures
        r == eligible(state@, index as int, *context),
{
    let previous = get_previous_epoch(state, context);
    let v = &state.validators[index];
    is_active_validator(v, previous) || (v.slashed && previous < v.withdrawable_epoch && previous
        + 1 < v.withdrawable_epoch)
}

/// The validators that are judged at the end of the current epoch.
pub open spec fn eligible_indices(s: StateView, c: Context) -> Seq<ValidatorIndex> {
    indices_where(s.validators.len(), |i: int| eligible(s, i, c))
}

/// The validators that are judged at the end of the current epoch.
pub fn get_eligible_validator_indices(state: &BeaconState, context: &Context) -> (r: Vec<
    ValidatorIndex,
>)
    requires
        context.valid(),
    ensures
        r@ == eligible_indices(state@, *context),
        forall|k: int| 0 <= k < r@.len() ==> (#[trigger] r@[k]) < state.validators@.len(),
{
    let ghost pred = |i: int| eligible(state@, i, *context);
    let mut r: Vec<ValidatorIndex> = Vec::new();
    let mut i: usize = 0;
    while i < state.validators.len()
        invariant
            i <= state.validators.len(),
            context.valid(),
            pred == (|i: int| eligible(state@, i, *context)),
            r@ == indices_where(i as nat, pred),
        decreases state.validators.len() - i,
    {
        if is_eligible(state, i, context) {
            r.push(i);
        }
        i += 1;
    }
    proof {
        lemma_indices_where(state.validators@.len(), pred);
    }
    r
}

/// How many validators may enter or leave in one epoch: a share of those
/// active, and no fewer than the configured minimum.
pub open spec fn validator_churn_limit(s: StateView, c: Context) -> u64 {
    let share = active_indices(s, current_epoch(s, c)).len() / c.churn_limit_quotient as nat;
    if share < c.min_per_epoch_churn_limit {
        c.min_per_epoch_churn_limit
    } else {
        share as u64
    }
}

/// How many validators may enter or leave in one epoch.
pub fn get_validator_churn_limit(state: &BeaconState, context: &Context) -> (r: u64)
    requires
        context.valid(),
    ensures
        r == validator_churn_limit(state@, *context),
{
    let active = get_active_validator_indices(state, get_current_epoch(state, context));
    let share = active.len() as u64 / context.churn_limit_quotient;
    if share < context.min_per_epoch_churn_limit {
        context.min_per_epoch_churn_limit
    } else {
        share
    }
}

/// The randao mix that the state remembers for `epoch`.
pub open spec fn randao_mix(s: StateView, epoch: Epoch) -> Bytes32 {
    s.randao_mixes[epoch as int % s.randao_mixes.len() as int]
}

/// The randao mix that the state remembers for `epoch`.
pub fn get_randao_mix(state: &BeaconState, epoch: Epoch) -> (mix: Bytes32)
    requires
        state.randao_mixes@.len() > 0,
    ensures
        mix == randao_mix(state@, epoch),
{
    let n = state.randao_mixes.len() as u64;
    state.randao_mixes[(epoch % n) as usize]
}

/// The root of the block at `slot`, which must lie behind the state's slot
/// and within the history that the state remembers.
pub open spec fn block_root_at_slot(s: StateView, slot: Slot) -> Result<Root, TransitionError> {
    if slot < s.slot && s.slot <= slot + s.block_roots.len() {
        Ok(s.block_roots[slot as int % s.block_roots.len() as int])
    } else {
        Err(
            TransitionError::SlotOutOfRange {
                requested: slot,
                lower_bound: saturating_lower_bound(s),
                upper_bound: s.slot,
            },
        )
    }
}

/// The oldest slot whose block root the state may still remember.
pub open spec fn saturating_lower_bound(s: StateView) -> Slot {
    if s.slot < s.block_roots.len() {
        0
    } else {
        (s.slot - s.block_roots.len()) as u64
    }
}

/// The root of the block at `slot`, where the state remembers it.
pub fn get_block_root_at_slot(state: &BeaconState, slot: Slot) -> (r: Result<
    Root,
    TransitionError,
>)
    requires
        state.block_roots@.len() > 0,
    ensures
        r == block_root_at_slot(state@, slot),
{
    let n = state.block_roots.len() as u64;
    let lower_bound = if state.slot < n {
        0
    } else {
        state.slot - n
    };
    if slot < state.slot && lower_bound <= slot {
        Ok(state.block_roots[(slot % n) as usize])
    } else {
        Err(TransitionError::SlotOutOfRange { requested: slot, lower_bound, upper_bound: state.slot })
    }
}

/// The root of the block at the first slot of `epoch`.
pub open spec fn block_root(s: StateView, epoch: Epoch, c: Context) -> Result<
    Root,
    TransitionError,
> {
    match start_slot_at_epoch(epoch, c) {
        Ok(slot) => block_root_at_slot(s, slot),
        Err(e) => Err(e),
    }
}

/// The root of the block at the first slot of `epoch`.
pub fn get_block_root(state: &BeaconState, epoch: Epoch, context: &Context) -> (r: Result<
    Root,
    TransitionError,
>)
    requires
        state.block_roots@.len() > 0,
    ensures
        r == block_root(state@, epoch, *context),
{
    let slot = compute_start_slot_at_epoch(epoch, context)?;
    get_block_root_at_slot(state, slot)
}

/// The state with the balance at `index` raised by `delta`.
pub open spec fn increased(s: StateView, index: int, delta: Gwei) -> Result<
    StateView,
    TransitionError,
> {
    match sum_of(s.balances[index], delta) {
        Ok(b) => Ok(StateView { balances: s.balances.update(index, b), ..s }),
        Err(e) => Err(e),
    }
}

/// Raises the balance of a validator.
pub fn increase_balance(state: &mut BeaconState, index: ValidatorIndex, delta: Gwei) -> (r: Result<
    (),
    TransitionError,
>)
    requires
        index < old(state).balances@.len(),
    ensures
        crate::state::follows(old(state)@, final(state)@, r, increased(old(state)@, index as int, delta)),
{
    let b = checked_add(state.balances[index], delta)?;
    state.balances[index] = b;
    Ok(())
}

/// The state with the balance at `index` lowered by `delta`, and to zero
/// where it holds less than that.
pub open spec fn decreased(s: StateView, index: int, delta: Gwei) -> StateView {
    StateView {
        balances: s.balances.update(
            index,
            crate::primitives::saturating_difference(s.balances[index], delta),
        ),
        ..s
    }
}

/// Lowers the balance of a validator, to zero at most.
pub fn decrease_balance(state: &mut BeaconState, index: ValidatorIndex, delta: Gwei)
    requires
        index < old(state).balances@.len(),
    ensures
        final(state)@ == decreased(old(state)@, index as int, delta),
{
    let b = crate::primitives::saturating_sub(state.balances[index], delta);
    state.balances[index] = b;
}

} // verus!
