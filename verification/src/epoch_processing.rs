//! What happens to a state at the end of every epoch.

use vstd::prelude::*;
use crate::context::Context;
use crate::error::TransitionError;
use crate::committees::{get_next_sync_committee, next_sync_committee};
use crate::helpers::{
    current_epoch, get_current_epoch, get_randao_mix, get_total_active_balance, previous_epoch,
    randao_mix, total_active_balance,
};
use crate::justification::{
    checkpoints_ordered, justification_and_finalization, lemma_justification_keeps_finality,
};
use crate::registry::registry_updates;
use crate::rewards::{inactivity_updates, rewards_and_penalties};
use crate::ssz::{hash_tree_root_historical_batch, historical_batch_root};

pub use crate::justification::{
    process_justification_and_finalization, weigh_justification_and_finalization,
};
pub use crate::registry::process_registry_updates;
pub use crate::rewards::{
    get_base_reward, get_finality_delay, get_proposer_reward, is_in_inactivity_leak,
    process_inactivity_updates, process_rewards_and_penalties,
};
use crate::outcomes::{for_each_index, lemma_fails_at, lemma_succeeds};
use crate::primitives::{
    checked_mul, product_of, saturating_difference, saturating_sub, successor_is_multiple,
    successor_modulo, wide_mul, Gwei, ParticipationFlags,
};
use crate::state::{registry_moves_on, same_finality, follows, quantized, wf, BeaconState, StateView, Validator};

verus! {

/// The state after the votes on eth1 data were reset: empty where the next
/// epoch starts a voting period, unchanged otherwise.
pub open spec fn eth1_data_reset(s: StateView, c: Context) -> StateView {
    if (current_epoch(s, c) + 1) % (c.epochs_per_eth1_voting_period as int) == 0 {
        StateView { eth1_data_votes: Seq::empty(), ..s }
    } else {
        s
    }
}

/// Clears the votes on eth1 data where a voting period ends.
pub fn process_eth1_data_reset(state: &mut BeaconState, context: &Context)
    requires
        context.valid(),
        wf(old(state)@, *context),
    ensures
        final(state)@ == eth1_data_reset(old(state)@, *context),
        wf(final(state)@, *context),
        same_finality(old(state)@, final(state)@),
        registry_moves_on(old(state)@, final(state)@),
        final(state)@.current_epoch_participation == old(state)@.current_epoch_participation,
{
    let epoch = get_current_epoch(state, context);
    if successor_is_multiple(epoch, context.epochs_per_eth1_voting_period) {
        state.eth1_data_votes.clear();
    }
}

/// The effective balance of a validator that holds `balance`: the balance
/// rounded down to whole increments and capped, where it has left the band
/// around the old effective balance, and the old one otherwise.
pub open spec fn effective_balance_after(v: Validator, balance: Gwei, c: Context) -> Gwei {
    let hysteresis_increment = c.effective_balance_increment / c.hysteresis_quotient;
    let downward_threshold = hysteresis_increment * c.hysteresis_downward_multiplier;
    let upward_threshold = hysteresis_increment * c.hysteresis_upward_multiplier;
    if balance + downward_threshold < v.effective_balance || v.effective_balance + upward_threshold
        < balance {
        let rounded = (balance - balance % c.effective_balance_increment) as u64;
        if rounded < c.max_effective_balance {
            rounded
        } else {
            c.max_effective_balance
        }
    } else {
        v.effective_balance
    }
}

/// The state after every effective balance was brought up to date.
pub open spec fn effective_balance_updates(s: StateView, c: Context) -> StateView {
    StateView {
        validators: Seq::new(
            s.validators.len(),
            |i: int|
                Validator {
                    effective_balance: effective_balance_after(s.validators[i], s.balances[i], c),
                    ..s.validators[i]
                },
        ),
        ..s
    }
}

/// A balance rounded down to whole increments and capped is quantized.
pub proof fn lemma_effective_balance_quantized(v: Validator, balance: Gwei, c: Context)
    requires
        c.valid(),
        quantized(v.effective_balance, c),
    ensures
        quantized(effective_balance_after(v, balance, c), c),
{
    let inc = c.effective_balance_increment as int;
    vstd::arithmetic::div_mod::lemma_fundamental_div_mod(balance as int, inc);
    vstd::arithmetic::div_mod::lemma_mod_multiples_basic(balance as int / inc, inc);
    assert(inc * (balance as int / inc) == (balance as int / inc) * inc) by (nonlinear_arith);
}

/// Brings every effective balance up to date with its balance.
pub fn process_effective_balance_updates(state: &mut BeaconState, context: &Context)
    requires
        context.valid(),
        wf(old(state)@, *context),
    ensures
        final(state)@ == effective_balance_updates(old(state)@, *context),
        wf(final(state)@, *context),
        forall|i: int|
            0 <= i < final(state)@.validators.len() ==> quantized(
                (#[trigger] final(state)@.validators[i]).effective_balance,
                *context,
            ),
        final(state)@.current_epoch_participation == old(state)@.current_epoch_participation,
{
    let hysteresis_increment = context.effective_balance_increment / context.hysteresis_quotient;
    let downward_threshold = wide_mul(hysteresis_increment, context.hysteresis_downward_multiplier);
    let upward_threshold = wide_mul(hysteresis_increment, context.hysteresis_upward_multiplier);
    let ghost pre = state@;
    let n = state.validators.len();
    let mut i: usize = 0;
    while i < n
        invariant
            i <= n,
            n == pre.validators.len(),
            context.valid(),
            wf(pre, *context),
            hysteresis_increment == context.effective_balance_increment
                / context.hysteresis_quotient,
            downward_threshold == hysteresis_increment * context.hysteresis_downward_multiplier,
            upward_threshold == hysteresis_increment * context.hysteresis_upward_multiplier,
            downward_threshold <= 0xffff_ffff_ffff_ffff * 0xffff_ffff_ffff_ffff,
            upward_threshold <= 0xffff_ffff_ffff_ffff * 0xffff_ffff_ffff_ffff,
            state@ == (StateView { validators: state@.validators, ..pre }),
            state@.validators.len() == n,
            forall|j: int|
                0 <= j < i ==> state@.validators[j] == (Validator {
                    effective_balance: effective_balance_after(
                        pre.validators[j],
                        pre.balances[j],
                        *context,
                    ),
                    ..pre.validators[j]
                }),
            forall|j: int| i <= j < n ==> state@.validators[j] == pre.validators[j],
        decreases n - i,
    {
        let balance = state.balances[i];
        let effective_balance = state.validators[i].effective_balance;
        if balance as u128 + downward_threshold < effective_balance as u128
            || effective_balance as u128 + upward_threshold < balance as u128 {
            proof {
                vstd::arithmetic::div_mod::lemma_mod_decreases(
                    balance as nat,
                    context.effective_balance_increment as nat,
                );
            }
            let rounded = balance - balance % context.effective_balance_increment;
            let updated = if rounded < context.max_effective_balance {
                rounded
            } else {
                context.max_effective_balance
            };
            state.validators[i].effective_balance = updated;
        }
        i += 1;
    }
    proof {
        assert(state@.validators =~= effective_balance_updates(pre, *context).validators);
        assert forall|k: int| 0 <= k < state@.validators.len() implies quantized(
            (#[trigger] state@.validators[k]).effective_balance,
            *context,
        ) by {
            lemma_effective_balance_quantized(pre.validators[k], pre.balances[k], *context);
        }
    }
}

/// The state with the slot of the slashings buffer that the next epoch
/// will use set to zero.
pub open spec fn slashings_reset(s: StateView, c: Context) -> StateView {
    StateView {
        slashings: s.slashings.update(
            (current_epoch(s, c) + 1) % (c.epochs_per_slashings_vector as int),
            0,
        ),
        ..s
    }
}

/// Clears the slashings of the epoch that the next epoch overwrites.
pub fn process_slashings_reset(state: &mut BeaconState, context: &Context)
    requires
        context.valid(),
        wf(old(state)@, *context),
    ensures
        final(state)@ == slashings_reset(old(state)@, *context),
        wf(final(state)@, *context),
        same_finality(old(state)@, final(state)@),
        registry_moves_on(old(state)@, final(state)@),
        final(state)@.current_epoch_participation == old(state)@.current_epoch_participation,
{
    let epoch = get_current_epoch(state, context);
    let index = successor_modulo(epoch, context.epochs_per_slashings_vector);
    assert(index < state.slashings.len());
    let slot = index as usize;
    state.slashings[slot] = 0;
    assert(state@.slashings =~= slashings_reset(old(state)@, *context).slashings);
}

/// The state with the current randao mix copied into the slot of the next
/// epoch.
pub open spec fn randao_mixes_reset(s: StateView, c: Context) -> StateView {
    StateView {
        randao_mixes: s.randao_mixes.update(
            (current_epoch(s, c) + 1) % (c.epochs_per_historical_vector as int),
            randao_mix(s, current_epoch(s, c)),
        ),
        ..s
    }
}

/// Carries the current randao mix over to the next epoch.
pub fn process_randao_mixes_reset(state: &mut BeaconState, context: &Context)
    requires
        context.valid(),
        wf(old(state)@, *context),
    ensures
        final(state)@ == randao_mixes_reset(old(state)@, *context),
        wf(final(state)@, *context),
        same_finality(old(state)@, final(state)@),
        registry_moves_on(old(state)@, final(state)@),
        final(state)@.current_epoch_participation == old(state)@.current_epoch_participation,
{
    let epoch = get_current_epoch(state, context);
    let index = successor_modulo(epoch, context.epochs_per_historical_vector);
    let mix = get_randao_mix(state, epoch);
    assert(index < state.randao_mixes.len());
    let slot = index as usize;
    state.randao_mixes[slot] = mix;
    assert(state@.randao_mixes =~= randao_mixes_reset(old(state)@, *context).randao_mixes);
}

/// The state after the participation records were rotated: those of the
/// current epoch become those of the previous epoch, and the current epoch
/// starts with an empty record for every validator.
pub open spec fn participation_flag_updates(s: StateView) -> StateView {
    StateView {
        previous_epoch_participation: s.current_epoch_participation,
        current_epoch_participation: Seq::new(s.validators.len(), |i: int| 0u8),
        ..s
    }
}

/// Rotates the participation records.
pub fn process_participation_flag_updates(state: &mut BeaconState) -> (r: Result<
    (),
    TransitionError,
>)
    ensures
        r is Ok,
        final(state)@ == participation_flag_updates(old(state)@),
        same_finality(old(state)@, final(state)@),
        registry_moves_on(old(state)@, final(state)@),
{
    let n = state.validators.len();
    let mut fresh: Vec<ParticipationFlags> = Vec::new();
    let mut i: usize = 0;
    while i < n
        invariant
            i <= n,
            fresh@.len() == i,
            forall|j: int| 0 <= j < i ==> fresh@[j] == 0u8,
        decreases n - i,
    {
        fresh.push(0u8);
        i += 1;
    }
    let mut current: Vec<ParticipationFlags> = fresh;
    std::mem::swap(&mut current, &mut state.current_epoch_participation);
    state.previous_epoch_participation = current;
    proof {
        assert(state@.current_epoch_participation =~= participation_flag_updates(
            old(state)@,
        ).current_epoch_participation);
    }
    Ok(())
}

/// The sum of the first `n` entries of the slashings buffer.
pub open spec fn slashings_sum(slashings: Seq<Gwei>, n: int) -> int
    decreases n,
{
    if n <= 0 {
        0
    } else {
        slashings_sum(slashings, n - 1) + slashings[n - 1]
    }
}

proof fn lemma_slashings_sum_monotone(slashings: Seq<Gwei>, m: int, n: int)
    requires
        0 <= m <= n,
    ensures
        0 <= slashings_sum(slashings, m) <= slashings_sum(slashings, n),
    decreases n,
{
    if n > 0 {
        if m < n {
            lemma_slashings_sum_monotone(slashings, m, n - 1);
        } else {
            lemma_slashings_sum_monotone(slashings, m - 1, n - 1);
        }
    }
}

/// The balance slashed over the remembered epochs, times the multiplier of
/// the current fork, and no more than `total_balance`.
pub open spec fn adjusted_total_slashing_balance(
    s: StateView,
    total_balance: Gwei,
    c: Context,
) -> Result<Gwei, TransitionError> {
    let sum = slashings_sum(s.slashings, s.slashings.len() as int);
    if sum > u64::MAX {
        Err(TransitionError::Overflow)
    } else {
        match product_of(sum as u64, c.slashing_multiplier_at(current_epoch(s, c))) {
            Ok(p) => Ok(
                if p < total_balance {
                    p
                } else {
                    total_balance
                },
            ),
            Err(e) => Err(e),
        }
    }
}

/// The penalty of a slashed validator: its effective balance in increments,
/// times the adjusted slashed balance, over the total balance, in whole
/// increments.
pub open spec fn slashing_penalty(
    v: Validator,
    adjusted_total_slashing_balance: Gwei,
    total_balance: Gwei,
    c: Context,
) -> Result<Gwei, TransitionError> {
    match product_of(
        v.effective_balance / c.effective_balance_increment,
        adjusted_total_slashing_balance,
    ) {
        Ok(numerator) => product_of(numerator / total_balance, c.effective_balance_increment),
        Err(e) => Err(e),
    }
}

/// Whether the validator at `i` pays its slashing penalty at the end of the
/// current epoch: it is slashed and half the slashings buffer away from
/// being withdrawable.
pub open spec fn slashing_due(s: StateView, i: int, c: Context) -> bool {
    s.validators[i].slashed && current_epoch(s, c) + c.epochs_per_slashings_vector / 2
        == s.validators[i].withdrawable_epoch
}

/// The balance of each validator after the slashing penalties.
pub open spec fn balance_after_slashing(
    s: StateView,
    adjusted_total_slashing_balance: Gwei,
    total_balance: Gwei,
    c: Context,
) -> spec_fn(int) -> Result<Gwei, TransitionError> {
    |i: int|
        if slashing_due(s, i, c) {
            match slashing_penalty(
                s.validators[i],
                adjusted_total_slashing_balance,
                total_balance,
                c,
            ) {
                Ok(penalty) => Ok(saturating_difference(s.balances[i], penalty)),
                Err(e) => Err(e),
            }
        } else {
            Ok(s.balances[i])
        }
}

/// The state after the slashing penalties of this epoch were taken.
pub open spec fn slashings(s: StateView, c: Context) -> Result<StateView, TransitionError> {
    match total_active_balance(s, c) {
        Err(e) => Err(e),
        Ok(total_balance) => match adjusted_total_slashing_balance(s, total_balance, c) {
            Err(e) => Err(e),
            Ok(adjusted) => match for_each_index(
                s.validators.len(),
                balance_after_slashing(s, adjusted, total_balance, c),
            ) {
                Err(e) => Err(e),
                Ok(balances) => Ok(StateView { balances, ..s }),
            },
        },
    }
}

/// Takes the slashing penalties that are due in this epoch.
pub fn process_slashings(state: &mut BeaconState, context: &Context) -> (r: Result<
    (),
    TransitionError,
>)
    requires
        context.valid(),
        wf(old(state)@, *context),
    ensures
        follows(old(state)@, final(state)@, r, slashings(old(state)@, *context)),
        wf(final(state)@, *context),
        same_finality(old(state)@, final(state)@),
        registry_moves_on(old(state)@, final(state)@),
        final(state)@.current_epoch_participation == old(state)@.current_epoch_participation,
{
    let epoch = get_current_epoch(state, context);
    let total_balance = get_total_active_balance(state, context)?;
    let multiplier = context.proportional_slashing_multiplier(epoch);
    let mut sum: u64 = 0;
    let mut k: usize = 0;
    while k < state.slashings.len()
        invariant
            k <= state.slashings.len(),
            state@ == old(state)@,
            wf(state@, *context),
            sum == slashings_sum(state@.slashings, k as int),
            total_active_balance(state@, *context) == Ok::<Gwei, TransitionError>(total_balance),
        decreases state.slashings.len() - k,
    {
        proof {
            lemma_slashings_sum_monotone(
                state@.slashings,
                k + 1,
                state@.slashings.len() as int,
            );
        }
        sum = crate::primitives::checked_add(sum, state.slashings[k])?;
        k += 1;
    }
    let scaled = checked_mul(sum, multiplier)?;
    let adjusted = if scaled < total_balance {
        scaled
    } else {
        total_balance
    };
    let increment = context.effective_balance_increment;
    let half = context.epochs_per_slashings_vector / 2;
    let ghost f = balance_after_slashing(state@, adjusted, total_balance, *context);
    let n = state.validators.len();
    let mut balances: Vec<Gwei> = Vec::new();
    let mut i: usize = 0;
    while i < n
        invariant
            i <= n,
            n == state@.validators.len(),
            context.valid(),
            wf(state@, *context),
            state@ == old(state)@,
            total_balance >= context.effective_balance_increment,
            increment == context.effective_balance_increment,
            half == context.epochs_per_slashings_vector / 2,
            epoch == current_epoch(state@, *context),
            f == balance_after_slashing(state@, adjusted, total_balance, *context),
            slashings(state@, *context) == match for_each_index(n as nat, f) {
                Err(e) => Err::<StateView, TransitionError>(e),
                Ok(balances) => Ok(StateView { balances, ..state@ }),
            },
            balances@.len() == i,
            forall|j: int| 0 <= j < i ==> (#[trigger] f(j)) == Ok::<Gwei, TransitionError>(balances@[j]),
        decreases n - i,
    {
        let v = &state.validators[i];
        let balance = state.balances[i];
        if v.slashed && epoch as u128 + half as u128 == v.withdrawable_epoch as u128 {
            let numerator = match checked_mul(v.effective_balance / increment, adjusted) {
                Ok(x) => x,
                Err(e) => {
                    proof {
                        lemma_fails_at(n as nat, f, i as int);
                    }
                    return Err(e);
                },
            };
            let penalty = match checked_mul(numerator / total_balance, increment) {
                Ok(x) => x,
                Err(e) => {
                    proof {
                        lemma_fails_at(n as nat, f, i as int);
                    }
                    return Err(e);
                },
            };
            balances.push(saturating_sub(balance, penalty));
        } else {
            balances.push(balance);
        }
        i += 1;
    }
    proof {
        lemma_succeeds(n as nat, f, balances@);
    }
    state.balances = balances;
    Ok(())
}

/// How many epochs a stretch of remembered history covers.
pub open spec fn epochs_per_historical_root(c: Context) -> u64 {
    c.slots_per_historical_root / c.slots_per_epoch
}

/// The state after the remembered roots were summed up: where the next
/// epoch starts a new stretch of history, the root of the block roots and
/// state roots that the state remembers joins the historical roots, which
/// must have room for it.
pub open spec fn historical_roots_update(s: StateView, c: Context) -> Result<
    StateView,
    TransitionError,
> {
    if (current_epoch(s, c) + 1) % (epochs_per_historical_root(c) as int) == 0 {
        if s.historical_roots.len() >= c.historical_roots_limit {
            Err(TransitionError::ListFull { capacity: c.historical_roots_limit })
        } else {
            Ok(
                StateView {
                    historical_roots: s.historical_roots.push(
                        historical_batch_root(s.block_roots, s.state_roots),
                    ),
                    ..s
                },
            )
        }
    } else {
        Ok(s)
    }
}

/// Sums up the remembered roots where a stretch of history ends.
pub fn process_historical_roots_update(state: &mut BeaconState, context: &Context) -> (r: Result<
    (),
    TransitionError,
>)
    requires
        context.valid(),
        wf(old(state)@, *context),
    ensures
        follows(old(state)@, final(state)@, r, historical_roots_update(old(state)@, *context)),
        wf(final(state)@, *context),
        same_finality(old(state)@, final(state)@),
        registry_moves_on(old(state)@, final(state)@),
        final(state)@.current_epoch_participation == old(state)@.current_epoch_participation,
{
    let epoch = get_current_epoch(state, context);
    let period = context.slots_per_historical_root / context.slots_per_epoch;
    assert(period >= 1) by (nonlinear_arith)
        requires
            period == context.slots_per_historical_root / context.slots_per_epoch,
            context.slots_per_historical_root >= context.slots_per_epoch,
            context.slots_per_epoch > 0,
    ;
    if successor_is_multiple(epoch, period) {
        if state.historical_roots.len() as u64 >= context.historical_roots_limit {
            return Err(TransitionError::ListFull { capacity: context.historical_roots_limit });
        }
        let root = hash_tree_root_historical_batch(&state.block_roots, &state.state_roots);
        state.historical_roots.push(root);
    }
    Ok(())
}

/// The state after the sync committees were rotated: where the next epoch
/// starts a new sync-committee period, the next committee becomes the
/// current one and a new next committee is sampled.
pub open spec fn sync_committee_updates(s: StateView, c: Context) -> Result<
    StateView,
    TransitionError,
> {
    if (current_epoch(s, c) + 1) % (c.epochs_per_sync_committee_period as int) == 0 {
        match next_sync_committee(s, c) {
            Err(e) => Err(e),
            Ok(next) => Ok(
                StateView {
                    current_sync_committee: s.next_sync_committee,
                    next_sync_committee: next,
                    ..s
                },
            ),
        }
    } else {
        Ok(s)
    }
}

/// Rotates the sync committees where a sync-committee period ends.
pub fn process_sync_committee_updates(state: &mut BeaconState, context: &Context) -> (r: Result<
    (),
    TransitionError,
>)
    requires
        context.valid(),
        wf(old(state)@, *context),
    ensures
        follows(old(state)@, final(state)@, r, sync_committee_updates(old(state)@, *context)),
        wf(final(state)@, *context),
        same_finality(old(state)@, final(state)@),
        registry_moves_on(old(state)@, final(state)@),
        final(state)@.current_epoch_participation == old(state)@.current_epoch_participation,
{
    let epoch = get_current_epoch(state, context);
    if successor_is_multiple(epoch, context.epochs_per_sync_committee_period) {
        let mut next = get_next_sync_committee(state, context)?;
        std::mem::swap(&mut next, &mut state.next_sync_committee);
        state.current_sync_committee = next;
    }
    Ok(())
}

/// The state after the bookkeeping that cannot fail: the votes on eth1
/// data, the effective balances, the slashings buffer and the randao
/// buffer.
pub open spec fn resets(s: StateView, c: Context) -> StateView {
    randao_mixes_reset(
        slashings_reset(effective_balance_updates(eth1_data_reset(s, c), c), c),
        c,
    )
}

/// The state after the accounting of an epoch that can fail: justification
/// and finalization, inactivity scores, rewards and penalties, the registry
/// and the slashing penalties, in this order.
pub open spec fn accounting(s: StateView, c: Context) -> Result<StateView, TransitionError> {
    match justification_and_finalization(s, c) {
        Err(e) => Err(e),
        Ok(s1) => match inactivity_updates(s1, c) {
            Err(e) => Err(e),
            Ok(s2) => match rewards_and_penalties(s2, c) {
                Err(e) => Err(e),
                Ok(s3) => match registry_updates(s3, c) {
                    Err(e) => Err(e),
                    Ok(s4) => slashings(s4, c),
                },
            },
        },
    }
}

/// The state at the end of an epoch: after the accounting, the resets, the
/// update of the historical roots, the rotation of the participation
/// records and the rotation of the sync committees, in this order.
pub open spec fn epoch_processed(s: StateView, c: Context) -> Result<StateView, TransitionError> {
    match accounting(s, c) {
        Err(e) => Err(e),
        Ok(s5) => match historical_roots_update(resets(s5, c), c) {
            Err(e) => Err(e),
            Ok(s10) => sync_committee_updates(participation_flag_updates(s10), c),
        },
    }
}

/// Whether the checkpoints of a state are in order and what is justified
/// is not ahead of the previous epoch, as it is between any two epoch
/// transitions.
pub open spec fn finality_settled(s: StateView, c: Context) -> bool {
    checkpoints_ordered(s) && s.current_justified_checkpoint.epoch <= previous_epoch(s, c)
}

fn account(state: &mut BeaconState, context: &Context) -> (r: Result<(), TransitionError>)
    requires
        context.valid(),
        wf(old(state)@, *context),
    ensures
        r is Ok ==> accounting(old(state)@, *context) == Ok::<StateView, TransitionError>(
            final(state)@,
        ),
        r matches Err(e) ==> accounting(old(state)@, *context) == Err::<StateView, TransitionError>(
            e,
        ),
        wf(final(state)@, *context),
        final(state)@.slot == old(state)@.slot,
        final(state)@.justification_bits < 16,
        finality_settled(old(state)@, *context) ==> checkpoints_ordered(final(state)@)
            && final(state)@.current_justified_checkpoint.epoch <= current_epoch(
            final(state)@,
            *context,
        ) && final(state)@.finalized_checkpoint.epoch >= old(state)@.finalized_checkpoint.epoch,
        final(state)@.current_epoch_participation == old(state)@.current_epoch_participation,
        registry_moves_on(old(state)@, final(state)@),
{
    process_justification_and_finalization(state, context)?;
    proof {
        if finality_settled(old(state)@, *context) {
            lemma_justification_keeps_finality(old(state)@, *context);
        }
    }
    process_inactivity_updates(state, context)?;
    process_rewards_and_penalties(state, context)?;
    process_registry_updates(state, context)?;
    process_slashings(state, context)?;
    Ok(())
}

/// Runs every stage of the end of an epoch in order, or none where one fails.
pub fn process_epoch(state: &mut BeaconState, context: &Context) -> (r: Result<(), TransitionError>)
    requires
        context.valid(),
        wf(old(state)@, *context),
    ensures
        follows(old(state)@, final(state)@, r, epoch_processed(old(state)@, *context)),
        wf(final(state)@, *context),
        final(state)@.slot == old(state)@.slot,
        final(state)@.justification_bits < 16,
        finality_settled(old(state)@, *context) ==> checkpoints_ordered(final(state)@)
            && final(state)@.current_justified_checkpoint.epoch <= current_epoch(
            final(state)@,
            *context,
        ) && final(state)@.finalized_checkpoint.epoch >= old(state)@.finalized_checkpoint.epoch,
        r is Ok ==> final(state)@.previous_epoch_participation == old(
            state,
        )@.current_epoch_participation && final(state)@.current_epoch_participation == Seq::new(
            final(state)@.validators.len(),
            |i: int| 0u8,
        ),
        registry_moves_on(old(state)@, final(state)@),
{
    let backup = state.duplicate();
    if let Err(e) = account(state, context) {
        state.restore(backup);
        return Err(e);
    }
    process_eth1_data_reset(state, context);
    process_effective_balance_updates(state, context);
    process_slashings_reset(state, context);
    process_randao_mixes_reset(state, context);
    if let Err(e) = process_historical_roots_update(state, context) {
        state.restore(backup);
        return Err(e);
    }
    let _ = process_participation_flag_updates(state);
    if let Err(e) = process_sync_committee_updates(state, context) {
        state.restore(backup);
        return Err(e);
    }
    Ok(())
}

/// Rotating the participation records makes those of the current epoch
/// the records of the previous epoch and leaves an empty record for each
/// validator; rotating twice with nothing in between leaves two lists of
/// empty records.
pub proof fn lemma_participation_rotation(s: StateView)
    ensures
        participation_flag_updates(s).previous_epoch_participation
            == s.current_epoch_participation,
        participation_flag_updates(s).current_epoch_participation == Seq::new(
            s.validators.len(),
            |i: int| 0u8,
        ),
        participation_flag_updates(participation_flag_updates(s)).previous_epoch_participation
            == Seq::new(s.validators.len(), |i: int| 0u8),
        participation_flag_updates(s).validators == s.validators,
{
}

} // verus!
