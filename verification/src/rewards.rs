//! Rewards, penalties and inactivity scores at the end of an epoch.

use vstd::prelude::*;
use crate::context::Context;
use crate::crypto::{integer_square_root, isqrt};
use crate::error::TransitionError;
use crate::helpers::{
    current_epoch, eligible, get_current_epoch, get_previous_epoch, get_total_active_balance,
    get_total_balance, get_unslashed_participating_indices, has_flag, is_active_validator,
    is_eligible, participation_of, previous_epoch, total_active_balance, total_balance,
    unslashed_participating, unslashed_participating_indices,
};
use crate::outcomes::{for_each_index, lemma_fails_at, lemma_succeeds};
use crate::primitives::{
    checked_add, checked_mul, checked_sub, difference_of, flag_weight, participation_flag_weight,
    product_of, saturating_difference, saturating_sub, sum_of, Epoch, Gwei, ValidatorIndex,
    BASE_REWARDS_PER_EPOCH, GENESIS_EPOCH, TIMELY_HEAD_FLAG_INDEX, TIMELY_TARGET_FLAG_INDEX,
    WEIGHT_DENOMINATOR,
};
use crate::state::{registry_moves_on, same_finality, follows, wf, BeaconState, StateView};

verus! {

/// The reward that one attestation duty is measured in: the effective
/// balance of the validator times the reward factor, over the square root of
/// the total active balance and the number of duties per epoch.
pub open spec fn base_reward(s: StateView, index: int, c: Context) -> Result<
    Gwei,
    TransitionError,
> {
    match total_active_balance(s, c) {
        Err(e) => Err(e),
        Ok(total) => match product_of(s.validators[index].effective_balance, c.base_reward_factor) {
            Err(e) => Err(e),
            Ok(p) => Ok((p as int / isqrt(total as nat) as int / BASE_REWARDS_PER_EPOCH as int) as u64),
        },
    }
}

/// The reward that one attestation duty of a validator is measured in.
pub fn get_base_reward(state: &BeaconState, index: ValidatorIndex, context: &Context) -> (r: Result<
    Gwei,
    TransitionError,
>)
    requires
        context.valid(),
        index < state.validators@.len(),
    ensures
        r == base_reward(state@, index as int, *context),
{
    let total_balance = get_total_active_balance(state, context)?;
    let effective_balance = state.validators[index].effective_balance;
    let scaled = checked_mul(effective_balance, context.base_reward_factor)?;
    let root = integer_square_root(total_balance);
    Ok(scaled / root / BASE_REWARDS_PER_EPOCH)
}

/// The share of the base reward that goes to the proposer who includes the
/// attestation.
pub open spec fn proposer_reward(s: StateView, attesting_index: int, c: Context) -> Result<
    Gwei,
    TransitionError,
> {
    match base_reward(s, attesting_index, c) {
        Ok(b) => Ok(b / c.proposer_reward_quotient),
        Err(e) => Err(e),
    }
}

/// The share of a base reward that goes to the proposer.
pub fn get_proposer_reward(
    state: &BeaconState,
    attesting_index: ValidatorIndex,
    context: &Context,
) -> (r: Result<Gwei, TransitionError>)
    requires
        context.valid(),
        attesting_index < state.validators@.len(),
    ensures
        r == proposer_reward(state@, attesting_index as int, *context),
{
    Ok(get_base_reward(state, attesting_index, context)? / context.proposer_reward_quotient)
}

/// How many epochs the previous epoch is ahead of the finalized one.
pub open spec fn finality_delay(s: StateView, c: Context) -> Result<Epoch, TransitionError> {
    difference_of(previous_epoch(s, c), s.finalized_checkpoint.epoch)
}

/// How many epochs the previous epoch is ahead of the finalized one.
pub fn get_finality_delay(state: &BeaconState, context: &Context) -> (r: Result<
    Epoch,
    TransitionError,
>)
    requires
        context.valid(),
    ensures
        r == finality_delay(state@, *context),
{
    checked_sub(get_previous_epoch(state, context), state.finalized_checkpoint.epoch)
}

/// Whether the chain has gone without finality for longer than it
/// tolerates.
pub open spec fn in_inactivity_leak(s: StateView, c: Context) -> Result<bool, TransitionError> {
    match finality_delay(s, c) {
        Ok(d) => Ok(d > c.min_epochs_to_inactivity_penalty),
        Err(e) => Err(e),
    }
}

/// Whether the chain has gone without finality for too long.
pub fn is_in_inactivity_leak(state: &BeaconState, context: &Context) -> (r: Result<
    bool,
    TransitionError,
>)
    requires
        context.valid(),
    ensures
        r == in_inactivity_leak(state@, *context),
{
    Ok(get_finality_delay(state, context)? > context.min_epochs_to_inactivity_penalty)
}

/// The reward for one increment of effective balance: the increment times
/// the reward factor, over the square root of the total active balance.
pub open spec fn base_reward_per_increment(s: StateView, c: Context) -> Result<
    Gwei,
    TransitionError,
> {
    match total_active_balance(s, c) {
        Err(e) => Err(e),
        Ok(total) => match product_of(c.effective_balance_increment, c.base_reward_factor) {
            Err(e) => Err(e),
            Ok(p) => Ok((p as int / isqrt(total as nat) as int) as u64),
        },
    }
}

/// The reward for one increment of effective balance.
pub fn get_base_reward_per_increment(state: &BeaconState, context: &Context) -> (r: Result<
    Gwei,
    TransitionError,
>)
    requires
        context.valid(),
    ensures
        r == base_reward_per_increment(state@, *context),
{
    let total_balance = get_total_active_balance(state, context)?;
    let scaled = checked_mul(context.effective_balance_increment, context.base_reward_factor)?;
    Ok(scaled / integer_square_root(total_balance))
}

/// The base reward of a validator: the reward per increment for each
/// increment of its effective balance.
pub open spec fn increment_base_reward(
    s: StateView,
    index: int,
    per_increment: Gwei,
    c: Context,
) -> Result<Gwei, TransitionError> {
    product_of(s.validators[index].effective_balance / c.effective_balance_increment, per_increment)
}

/// The base reward of the validator at `index`.
pub open spec fn base_reward_by_increments(s: StateView, index: int, c: Context) -> Result<
    Gwei,
    TransitionError,
> {
    match base_reward_per_increment(s, c) {
        Ok(per_increment) => increment_base_reward(s, index, per_increment, c),
        Err(e) => Err(e),
    }
}

/// The base reward of a validator, counted by its increments.
pub fn get_base_reward_by_increments(
    state: &BeaconState,
    index: ValidatorIndex,
    context: &Context,
) -> (r: Result<Gwei, TransitionError>)
    requires
        context.valid(),
        index < state.validators@.len(),
    ensures
        r == base_reward_by_increments(state@, index as int, *context),
{
    let per_increment = get_base_reward_per_increment(state, context)?;
    checked_mul(
        state.validators[index].effective_balance / context.effective_balance_increment,
        per_increment,
    )
}

/// What the deltas of one flag are computed from.
pub struct FlagTotals {
    pub flag_index: int,
    pub participating_increments: u64,
    pub active_increments: u64,
    pub per_increment: Result<Gwei, TransitionError>,
    pub leak: Result<bool, TransitionError>,
}

/// The reward of a validator that has the flag: its base reward, weighted
/// by the flag and by the share of the active balance that has the flag
/// too. There is none during an inactivity leak.
pub open spec fn flag_reward(base: Gwei, t: FlagTotals) -> Result<Gwei, TransitionError> {
    match t.leak {
        Err(e) => Err(e),
        Ok(true) => Ok(0),
        Ok(false) => match product_of(base, flag_weight(t.flag_index)) {
            Err(e) => Err(e),
            Ok(weighted) => match product_of(weighted, t.participating_increments) {
                Err(e) => Err(e),
                Ok(numerator) => match product_of(t.active_increments, WEIGHT_DENOMINATOR) {
                    Err(e) => Err(e),
                    Ok(denominator) => Ok(numerator / denominator),
                },
            },
        },
    }
}

/// The penalty of a validator that lacks the flag: its base reward,
/// weighted by the flag. The head flag carries no penalty.
pub open spec fn flag_penalty(base: Gwei, t: FlagTotals) -> Result<Gwei, TransitionError> {
    if t.flag_index == TIMELY_HEAD_FLAG_INDEX {
        Ok(0)
    } else {
        match product_of(base, flag_weight(t.flag_index)) {
            Err(e) => Err(e),
            Ok(weighted) => Ok(weighted / WEIGHT_DENOMINATOR),
        }
    }
}

/// The reward and the penalty of each validator for one flag.
pub open spec fn flag_delta(s: StateView, t: FlagTotals, c: Context) -> spec_fn(int) -> Result<
    (Gwei, Gwei),
    TransitionError,
> {
    |i: int|
        if !eligible(s, i, c) {
            Ok((0u64, 0u64))
        } else {
            match t.per_increment {
                Err(e) => Err(e),
                Ok(per_increment) => match increment_base_reward(s, i, per_increment, c) {
                    Err(e) => Err(e),
                    Ok(base) => if unslashed_participating(
                        s,
                        participation_of(s, previous_epoch(s, c), c),
                        i,
                        t.flag_index,
                        previous_epoch(s, c),
                    ) {
                        match flag_reward(base, t) {
                            Ok(reward) => Ok((reward, 0u64)),
                            Err(e) => Err(e),
                        }
                    } else {
                        match flag_penalty(base, t) {
                            Ok(penalty) => Ok((0u64, penalty)),
                            Err(e) => Err(e),
                        }
                    },
                },
            }
        }
}

/// What the deltas of the flag `flag_index` are computed from.
pub open spec fn flag_totals(s: StateView, flag_index: int, c: Context) -> Result<
    FlagTotals,
    TransitionError,
> {
    match total_balance(
        s,
        unslashed_participating_indices(s, flag_index, previous_epoch(s, c), c),
        c,
    ) {
        Err(e) => Err(e),
        Ok(participating) => match total_active_balance(s, c) {
            Err(e) => Err(e),
            Ok(active) => Ok(
                FlagTotals {
                    flag_index,
                    participating_increments: participating / c.effective_balance_increment,
                    active_increments: active / c.effective_balance_increment,
                    per_increment: base_reward_per_increment(s, c),
                    leak: in_inactivity_leak(s, c),
                },
            ),
        },
    }
}

/// The reward and the penalty of every validator for the flag `flag_index`.
pub open spec fn flag_index_deltas(s: StateView, flag_index: int, c: Context) -> Result<
    Seq<(Gwei, Gwei)>,
    TransitionError,
> {
    match flag_totals(s, flag_index, c) {
        Err(e) => Err(e),
        Ok(t) => for_each_index(s.validators.len(), flag_delta(s, t, c)),
    }
}

/// The rewards of a list of deltas.
pub open spec fn rewards_of(deltas: Seq<(Gwei, Gwei)>) -> Seq<Gwei> {
    Seq::new(deltas.len(), |i: int| deltas[i].0)
}

/// The penalties of a list of deltas.
pub open spec fn penalties_of(deltas: Seq<(Gwei, Gwei)>) -> Seq<Gwei> {
    Seq::new(deltas.len(), |i: int| deltas[i].1)
}

/// How a pair of lists relates to the deltas that the rules prescribe.
pub open spec fn deltas_follow(
    r: Result<(Vec<Gwei>, Vec<Gwei>), TransitionError>,
    prescribed: Result<Seq<(Gwei, Gwei)>, TransitionError>,
) -> bool {
    match prescribed {
        Ok(d) => r matches Ok(p) && p.0@ == rewards_of(d) && p.1@ == penalties_of(d),
        Err(e) => r matches Err(x) && x == e,
    }
}

fn is_unslashed_participating(
    state: &BeaconState,
    index: ValidatorIndex,
    flag_index: usize,
    epoch: Epoch,
    context: &Context,
) -> (r: bool)
    requires
        context.valid(),
        wf(state@, *context),
        index < state.validators@.len(),
    ensures
        r == unslashed_participating(
            state@,
            participation_of(state@, epoch, *context),
            index as int,
            flag_index as int,
            epoch,
        ),
{
    let flags = if epoch == get_current_epoch(state, context) {
        state.current_epoch_participation[index]
    } else {
        state.previous_epoch_participation[index]
    };
    let v = &state.validators[index];
    is_active_validator(v, epoch) && has_flag(flags, flag_index) && !v.slashed
}

/// The rewards and penalties of every validator for one flag.
pub fn get_flag_index_deltas(state: &BeaconState, flag_index: usize, context: &Context) -> (r:
    Result<(Vec<Gwei>, Vec<Gwei>), TransitionError>)
    requires
        context.valid(),
        wf(state@, *context),
    ensures
        deltas_follow(r, flag_index_deltas(state@, flag_index as int, *context)),
{
    let previous = get_previous_epoch(state, context);
    let participating_indices = get_unslashed_participating_indices(
        state,
        flag_index,
        previous,
        context,
    );
    let weight = participation_flag_weight(flag_index);
    let participating_balance = get_total_balance(state, &participating_indices, context)?;
    let participating_increments = participating_balance / context.effective_balance_increment;
    let active_balance = get_total_active_balance(state, context)?;
    let active_increments = active_balance / context.effective_balance_increment;
    assert(active_increments >= 1) by (nonlinear_arith)
        requires
            active_increments == active_balance / context.effective_balance_increment,
            active_balance >= context.effective_balance_increment,
            context.effective_balance_increment > 0,
    ;
    let per_increment = get_base_reward_per_increment(state, context);
    let leak = is_in_inactivity_leak(state, context);
    let ghost t = FlagTotals {
        flag_index: flag_index as int,
        participating_increments,
        active_increments,
        per_increment,
        leak,
    };
    let ghost f = flag_delta(state@, t, *context);
    let n = state.validators.len();
    let mut rewards: Vec<Gwei> = Vec::new();
    let mut penalties: Vec<Gwei> = Vec::new();
    let ghost mut deltas: Seq<(Gwei, Gwei)> = Seq::empty();
    let mut i: usize = 0;
    while i < n
        invariant
            i <= n,
            n == state.validators@.len(),
            context.valid(),
            wf(state@, *context),
            previous == previous_epoch(state@, *context),
            weight == flag_weight(flag_index as int),
            t == (FlagTotals {
                flag_index: flag_index as int,
                participating_increments,
                active_increments,
                per_increment,
                leak,
            }),
            active_increments >= 1,
            flag_totals(state@, flag_index as int, *context) == Ok::<FlagTotals, TransitionError>(
                t,
            ),
            f == flag_delta(state@, t, *context),
            rewards@.len() == i,
            penalties@.len() == i,
            deltas.len() == i,
            forall|j: int|
                0 <= j < i ==> (#[trigger] f(j)) == Ok::<(Gwei, Gwei), TransitionError>(deltas[j]),
            forall|j: int| 0 <= j < i ==> rewards@[j] == deltas[j].0 && penalties@[j] == deltas[j].1,
        decreases n - i,
    {
        let mut reward: Gwei = 0;
        let mut penalty: Gwei = 0;
        if is_eligible(state, i, context) {
            let per = match per_increment {
                Ok(per) => per,
                Err(e) => {
                    proof {
                        lemma_fails_at(n as nat, f, i as int);
                    }
                    return Err(e);
                },
            };
            let increments = state.validators[i].effective_balance
                / context.effective_balance_increment;
            let base = match checked_mul(increments, per) {
                Ok(base) => base,
                Err(e) => {
                    proof {
                        lemma_fails_at(n as nat, f, i as int);
                    }
                    return Err(e);
                },
            };
            if is_unslashed_participating(state, i, flag_index, previous, context) {
                match flag_reward_of(base, weight, participating_increments, active_increments, leak, Ghost(t)) {
                    Ok(x) => {
                        reward = x;
                    },
                    Err(e) => {
                        proof {
                            lemma_fails_at(n as nat, f, i as int);
                        }
                        return Err(e);
                    },
                }
            } else if flag_index != TIMELY_HEAD_FLAG_INDEX {
                match checked_mul(base, weight) {
                    Ok(weighted) => {
                        penalty = weighted / WEIGHT_DENOMINATOR;
                    },
                    Err(e) => {
                        proof {
                            lemma_fails_at(n as nat, f, i as int);
                        }
                        return Err(e);
                    },
                }
            }
        }
        rewards.push(reward);
        penalties.push(penalty);
        proof {
            deltas = deltas.push((reward, penalty));
        }
        i += 1;
    }
    proof {
        lemma_succeeds(n as nat, f, deltas);
        assert(rewards@ =~= rewards_of(deltas));
        assert(penalties@ =~= penalties_of(deltas));
    }
    Ok((rewards, penalties))
}

fn flag_reward_of(
    base: Gwei,
    weight: u64,
    participating_increments: u64,
    active_increments: u64,
    leak: Result<bool, TransitionError>,
    Ghost(t): Ghost<FlagTotals>,
) -> (r: Result<Gwei, TransitionError>)
    requires
        weight == flag_weight(t.flag_index),
        t.participating_increments == participating_increments,
        t.active_increments == active_increments,
        t.leak == leak,
        active_increments >= 1,
    ensures
        r == flag_reward(base, t),
{
    match leak {
        Err(e) => Err(e),
        Ok(true) => Ok(0),
        Ok(false) => {
            let weighted = checked_mul(base, weight)?;
            let numerator = checked_mul(weighted, participating_increments)?;
            let denominator = checked_mul(active_increments, WEIGHT_DENOMINATOR)?;
            Ok(numerator / denominator)
        },
    }
}

/// The denominator of the inactivity penalty: the score bias times the
/// penalty quotient of the current fork.
pub open spec fn inactivity_denominator(s: StateView, c: Context) -> Result<u64, TransitionError> {
    product_of(c.inactivity_score_bias, c.inactivity_quotient_at(current_epoch(s, c)))
}

/// The penalty of each validator for inactivity: for one that is eligible
/// and did not vote for the target in time, its effective balance times its
/// inactivity score, over the denominator.
pub open spec fn inactivity_delta(s: StateView, c: Context) -> spec_fn(int) -> Result<
    (Gwei, Gwei),
    TransitionError,
> {
    |i: int|
        if eligible(s, i, c) && !unslashed_participating(
            s,
            participation_of(s, previous_epoch(s, c), c),
            i,
            TIMELY_TARGET_FLAG_INDEX as int,
            previous_epoch(s, c),
        ) {
            match product_of(s.validators[i].effective_balance, s.inactivity_scores[i]) {
                Err(e) => Err(e),
                Ok(numerator) => match inactivity_denominator(s, c) {
                    Err(e) => Err(e),
                    Ok(denominator) => Ok((0u64, numerator / denominator)),
                },
            }
        } else {
            Ok((0u64, 0u64))
        }
}

/// The reward (none) and the penalty of every validator for inactivity.
pub open spec fn inactivity_penalty_deltas(s: StateView, c: Context) -> Result<
    Seq<(Gwei, Gwei)>,
    TransitionError,
> {
    for_each_index(s.validators.len(), inactivity_delta(s, c))
}

/// The penalties of every validator for inactivity.
pub fn get_inactivity_penalty_deltas(state: &BeaconState, context: &Context) -> (r: Result<
    (Vec<Gwei>, Vec<Gwei>),
    TransitionError,
>)
    requires
        context.valid(),
        wf(state@, *context),
    ensures
        deltas_follow(r, inactivity_penalty_deltas(state@, *context)),
{
    let previous = get_previous_epoch(state, context);
    let quotient = context.inactivity_penalty_quotient_for(get_current_epoch(state, context));
    let ghost f = inactivity_delta(state@, *context);
    let n = state.validators.len();
    let mut rewards: Vec<Gwei> = Vec::new();
    let mut penalties: Vec<Gwei> = Vec::new();
    let ghost mut deltas: Seq<(Gwei, Gwei)> = Seq::empty();
    let mut i: usize = 0;
    while i < n
        invariant
            i <= n,
            n == state.validators@.len(),
            context.valid(),
            wf(state@, *context),
            previous == previous_epoch(state@, *context),
            quotient == context.inactivity_quotient_at(current_epoch(state@, *context)),
            quotient > 0,
            f == inactivity_delta(state@, *context),
            rewards@.len() == i,
            penalties@.len() == i,
            deltas.len() == i,
            forall|j: int|
                0 <= j < i ==> (#[trigger] f(j)) == Ok::<(Gwei, Gwei), TransitionError>(deltas[j]),
            forall|j: int| 0 <= j < i ==> rewards@[j] == deltas[j].0 && penalties@[j] == deltas[j].1,
        decreases n - i,
    {
        let mut penalty: Gwei = 0;
        if is_eligible(state, i, context) && !is_unslashed_participating(
            state,
            i,
            TIMELY_TARGET_FLAG_INDEX,
            previous,
            context,
        ) {
            let numerator = match checked_mul(
                state.validators[i].effective_balance,
                state.inactivity_scores[i],
            ) {
                Ok(x) => x,
                Err(e) => {
                    proof {
                        lemma_fails_at(n as nat, f, i as int);
                    }
                    return Err(e);
                },
            };
            let denominator = match checked_mul(context.inactivity_score_bias, quotient) {
                Ok(x) => x,
                Err(e) => {
                    proof {
                        lemma_fails_at(n as nat, f, i as int);
                    }
                    return Err(e);
                },
            };
            assert(denominator > 0) by (nonlinear_arith)
                requires
                    denominator == context.inactivity_score_bias * quotient,
                    context.inactivity_score_bias > 0,
                    quotient > 0,
            ;
            penalty = numerator / denominator;
        }
        rewards.push(0);
        penalties.push(penalty);
        proof {
            deltas = deltas.push((0u64, penalty));
        }
        i += 1;
    }
    proof {
        lemma_succeeds(n as nat, f, deltas);
        assert(rewards@ =~= rewards_of(deltas));
        assert(penalties@ =~= penalties_of(deltas));
    }
    Ok((rewards, penalties))
}

/// A balance after one reward was added and one penalty taken, the
/// penalty down to zero at most.
pub open spec fn balance_after_delta(
    balance: Result<Gwei, TransitionError>,
    delta: (Gwei, Gwei),
) -> Result<Gwei, TransitionError> {
    match balance {
        Err(e) => Err(e),
        Ok(b) => match sum_of(b, delta.0) {
            Err(e) => Err(e),
            Ok(raised) => Ok(saturating_difference(raised, delta.1)),
        },
    }
}

/// The balance of each validator after the deltas of the three flags and of
/// inactivity were applied in turn.
pub open spec fn balance_after_deltas(
    balances: Seq<Gwei>,
    source: Seq<(Gwei, Gwei)>,
    target: Seq<(Gwei, Gwei)>,
    head: Seq<(Gwei, Gwei)>,
    inactivity: Seq<(Gwei, Gwei)>,
) -> spec_fn(int) -> Result<Gwei, TransitionError> {
    |i: int|
        balance_after_delta(
            balance_after_delta(
                balance_after_delta(balance_after_delta(Ok(balances[i]), source[i]), target[i]),
                head[i],
            ),
            inactivity[i],
        )
}

/// The state after rewards and penalties. There are none at the end of the
/// genesis epoch.
pub open spec fn rewards_and_penalties(s: StateView, c: Context) -> Result<
    StateView,
    TransitionError,
> {
    if current_epoch(s, c) == GENESIS_EPOCH {
        Ok(s)
    } else {
        match flag_index_deltas(s, 0, c) {
            Err(e) => Err(e),
            Ok(source) => match flag_index_deltas(s, 1, c) {
                Err(e) => Err(e),
                Ok(target) => match flag_index_deltas(s, 2, c) {
                    Err(e) => Err(e),
                    Ok(head) => match inactivity_penalty_deltas(s, c) {
                        Err(e) => Err(e),
                        Ok(inactivity) => match for_each_index(
                            s.validators.len(),
                            balance_after_deltas(s.balances, source, target, head, inactivity),
                        ) {
                            Err(e) => Err(e),
                            Ok(balances) => Ok(StateView { balances, ..s }),
                        },
                    },
                },
            },
        }
    }
}

fn apply_delta(balance: Gwei, reward: Gwei, penalty: Gwei) -> (r: Result<Gwei, TransitionError>)
    ensures
        r == balance_after_delta(Ok(balance), (reward, penalty)),
{
    let raised = checked_add(balance, reward)?;
    Ok(saturating_sub(raised, penalty))
}

/// Applies the rewards and penalties of the epoch to the balances.
pub fn process_rewards_and_penalties(state: &mut BeaconState, context: &Context) -> (r: Result<
    (),
    TransitionError,
>)
    requires
        context.valid(),
        wf(old(state)@, *context),
    ensures
        follows(old(state)@, final(state)@, r, rewards_and_penalties(old(state)@, *context)),
        wf(final(state)@, *context),
        same_finality(old(state)@, final(state)@),
        registry_moves_on(old(state)@, final(state)@),
        final(state)@.current_epoch_participation == old(state)@.current_epoch_participation,
{
    let now = get_current_epoch(state, context);
    if now == GENESIS_EPOCH {
        return Ok(());
    }
    let source = get_flag_index_deltas(state, 0, context)?;
    let target = get_flag_index_deltas(state, 1, context)?;
    let head = get_flag_index_deltas(state, 2, context)?;
    let inactivity = get_inactivity_penalty_deltas(state, context)?;
    let ghost d0 = flag_index_deltas(state@, 0, *context)->Ok_0;
    let ghost d1 = flag_index_deltas(state@, 1, *context)->Ok_0;
    let ghost d2 = flag_index_deltas(state@, 2, *context)->Ok_0;
    let ghost d3 = inactivity_penalty_deltas(state@, *context)->Ok_0;
    let ghost f = balance_after_deltas(state@.balances, d0, d1, d2, d3);
    let n = state.validators.len();
    let mut balances: Vec<Gwei> = Vec::new();
    let mut i: usize = 0;
    while i < n
        invariant
            i <= n,
            n == state@.validators.len(),
            wf(state@, *context),
            state@ == old(state)@,
            current_epoch(state@, *context) != GENESIS_EPOCH,
            flag_index_deltas(state@, 0, *context) == Ok::<Seq<(Gwei, Gwei)>, TransitionError>(d0),
            flag_index_deltas(state@, 1, *context) == Ok::<Seq<(Gwei, Gwei)>, TransitionError>(d1),
            flag_index_deltas(state@, 2, *context) == Ok::<Seq<(Gwei, Gwei)>, TransitionError>(d2),
            inactivity_penalty_deltas(state@, *context) == Ok::<
                Seq<(Gwei, Gwei)>,
                TransitionError,
            >(d3),
            d0.len() == n && d1.len() == n && d2.len() == n && d3.len() == n,
            source.0@ == rewards_of(d0) && source.1@ == penalties_of(d0),
            target.0@ == rewards_of(d1) && target.1@ == penalties_of(d1),
            head.0@ == rewards_of(d2) && head.1@ == penalties_of(d2),
            inactivity.0@ == rewards_of(d3) && inactivity.1@ == penalties_of(d3),
            f == balance_after_deltas(state@.balances, d0, d1, d2, d3),
            balances@.len() == i,
            forall|j: int| 0 <= j < i ==> (#[trigger] f(j)) == Ok::<Gwei, TransitionError>(balances@[j]),
        decreases n - i,
    {
        let mut b = state.balances[i];
        let step = apply_delta(b, source.0[i], source.1[i]);
        let step = match step {
            Ok(b) => apply_delta(b, target.0[i], target.1[i]),
            Err(e) => Err(e),
        };
        let step = match step {
            Ok(b) => apply_delta(b, head.0[i], head.1[i]),
            Err(e) => Err(e),
        };
        let step = match step {
            Ok(b) => apply_delta(b, inactivity.0[i], inactivity.1[i]),
            Err(e) => Err(e),
        };
        match step {
            Ok(x) => {
                b = x;
            },
            Err(e) => {
                proof {
                    lemma_fails_at(n as nat, f, i as int);
                }
                return Err(e);
            },
        }
        balances.push(b);
        i += 1;
    }
    proof {
        lemma_succeeds(n as nat, f, balances@);
    }
    state.balances = balances;
    Ok(())
}

/// A score lowered by one, and not below zero.
pub open spec fn recovered(score: u64) -> u64 {
    if score == 0 {
        0
    } else {
        (score - 1) as u64
    }
}

/// The inactivity score of each validator after this epoch. The score of a
/// validator that is not eligible stays. That of another goes down by one
/// where it voted for the target of the previous epoch in time, and up by
/// the bias where it did not; and then down by one more unless the chain is
/// in an inactivity leak.
pub open spec fn inactivity_score_after(s: StateView, c: Context) -> spec_fn(int) -> Result<
    u64,
    TransitionError,
> {
    |i: int|
        if !eligible(s, i, c) {
            Ok(s.inactivity_scores[i])
        } else {
            let first = if unslashed_participating(
                s,
                participation_of(s, previous_epoch(s, c), c),
                i,
                TIMELY_TARGET_FLAG_INDEX as int,
                previous_epoch(s, c),
            ) {
                Ok(recovered(s.inactivity_scores[i]))
            } else {
                sum_of(s.inactivity_scores[i], c.inactivity_score_bias)
            };
            match first {
                Err(e) => Err(e),
                Ok(score) => match in_inactivity_leak(s, c) {
                    Err(e) => Err(e),
                    Ok(true) => Ok(score),
                    Ok(false) => Ok(recovered(score)),
                },
            }
        }
}

/// The state after the inactivity scores were brought up to date. Nothing
/// happens at the end of the genesis epoch.
pub open spec fn inactivity_updates(s: StateView, c: Context) -> Result<StateView, TransitionError> {
    if current_epoch(s, c) == GENESIS_EPOCH {
        Ok(s)
    } else {
        match for_each_index(s.validators.len(), inactivity_score_after(s, c)) {
            Err(e) => Err(e),
            Ok(inactivity_scores) => Ok(StateView { inactivity_scores, ..s }),
        }
    }
}

fn recover(score: u64) -> (r: u64)
    ensures
        r == recovered(score),
{
    if score == 0 {
        0
    } else {
        score - 1
    }
}

/// Brings the inactivity scores up to date.
pub fn process_inactivity_updates(state: &mut BeaconState, context: &Context) -> (r: Result<
    (),
    TransitionError,
>)
    requires
        context.valid(),
        wf(old(state)@, *context),
    ensures
        follows(old(state)@, final(state)@, r, inactivity_updates(old(state)@, *context)),
        wf(final(state)@, *context),
        same_finality(old(state)@, final(state)@),
        registry_moves_on(old(state)@, final(state)@),
        final(state)@.current_epoch_participation == old(state)@.current_epoch_participation,
{
    let now = get_current_epoch(state, context);
    if now == GENESIS_EPOCH {
        return Ok(());
    }
    let previous = get_previous_epoch(state, context);
    let leak = is_in_inactivity_leak(state, context);
    let ghost f = inactivity_score_after(state@, *context);
    let n = state.validators.len();
    let mut scores: Vec<u64> = Vec::new();
    let mut i: usize = 0;
    while i < n
        invariant
            i <= n,
            n == state@.validators.len(),
            context.valid(),
            wf(state@, *context),
            state@ == old(state)@,
            previous == previous_epoch(state@, *context),
            leak == in_inactivity_leak(state@, *context),
            current_epoch(state@, *context) != GENESIS_EPOCH,
            f == inactivity_score_after(state@, *context),
            scores@.len() == i,
            forall|j: int| 0 <= j < i ==> (#[trigger] f(j)) == Ok::<u64, TransitionError>(scores@[j]),
        decreases n - i,
    {
        let mut score = state.inactivity_scores[i];
        if is_eligible(state, i, context) {
            if is_unslashed_participating(
                state,
                i,
                TIMELY_TARGET_FLAG_INDEX,
                previous,
                context,
            ) {
                score = recover(score);
            } else {
                match checked_add(score, context.inactivity_score_bias) {
                    Ok(x) => {
                        score = x;
                    },
                    Err(e) => {
                        proof {
                            lemma_fails_at(n as nat, f, i as int);
                        }
                        return Err(e);
                    },
                }
            }
            match leak {
                Ok(true) => {},
                Ok(false) => {
                    score = recover(score);
                },
                Err(e) => {
                    proof {
                        lemma_fails_at(n as nat, f, i as int);
                    }
                    return Err(e);
                },
            }
        }
        scores.push(score);
        i += 1;
    }
    proof {
        lemma_succeeds(n as nat, f, scores@);
    }
    state.inactivity_scores = scores;
    Ok(())
}

} // verus!
