//! The aggregate signature of the sync committee and what it pays.

use vstd::prelude::*;
use crate::attestations::{domain_array, lemma_domain_array};
use crate::committees::{beacon_proposer_index, get_beacon_proposer_index};
use crate::context::Context;
use crate::crypto::{aggregate_signature_valid, fast_aggregate_verify};
use crate::deposits::{find_validator, key_position};
use crate::domains::{compute_signing_root, get_domain, signing_root, state_domain, DomainType};
use crate::error::{InvalidOperation, InvalidSyncAggregate, TransitionError};
use crate::helpers::{
    block_root_at_slot, compute_epoch_at_slot, epoch_at_slot, get_block_root_at_slot,
    get_total_active_balance, total_active_balance,
};
use crate::operations::SyncAggregate;
use crate::outcomes::{for_each_index, lemma_fails_at, lemma_succeeds};
use crate::primitives::{
    checked_add, checked_mul, copy_vec, product_of, saturating_difference, saturating_sub, sum_of,
    BlsPublicKey, BlsSignature, Gwei, Root, Slot, ValidatorIndex, PROPOSER_WEIGHT,
    SYNC_REWARD_WEIGHT, WEIGHT_DENOMINATOR,
};
use crate::rewards::{base_reward_per_increment, get_base_reward_per_increment};
use crate::state::{registry_moves_on, same_finality, follows, wf, BeaconState, StateView};

verus! {

/// The keys among the first `n` whose bit is set, in order.
pub open spec fn participant_keys(keys: Seq<BlsPublicKey>, bits: Seq<bool>, n: int) -> Seq<
    BlsPublicKey,
>
    decreases n,
{
    if n <= 0 {
        Seq::empty()
    } else if bits[n - 1] {
        participant_keys(keys, bits, n - 1).push(keys[n - 1])
    } else {
        participant_keys(keys, bits, n - 1)
    }
}

/// The slot before the state's slot, or the first slot where there is none
/// before.
pub open spec fn previous_slot(s: StateView) -> Slot {
    if s.slot == 0 {
        0
    } else {
        (s.slot - 1) as u64
    }
}

/// What the sync committee signs: the block root of the previous slot under
/// the sync-committee domain of that slot's epoch.
pub open spec fn sync_signing_root(s: StateView, c: Context) -> Result<Root, TransitionError> {
    match block_root_at_slot(s, previous_slot(s)) {
        Err(e) => Err(e),
        Ok(root) => Ok(
            signing_root(
                root,
                domain_array(
                    state_domain(
                        s,
                        DomainType::SyncCommittee,
                        Some(epoch_at_slot(previous_slot(s), c)),
                        c,
                    ),
                ),
            ),
        ),
    }
}

/// The reward of one member of the sync committee for one slot, and the
/// reward of the proposer for including it.
pub open spec fn sync_rewards(s: StateView, c: Context) -> Result<(Gwei, Gwei), TransitionError> {
    match total_active_balance(s, c) {
        Err(e) => Err(e),
        Ok(total) => match base_reward_per_increment(s, c) {
            Err(e) => Err(e),
            Ok(per_increment) => match product_of(
                per_increment,
                total / c.effective_balance_increment,
            ) {
                Err(e) => Err(e),
                Ok(total_base_rewards) => match product_of(total_base_rewards, SYNC_REWARD_WEIGHT) {
                    Err(e) => Err(e),
                    Ok(weighted) => {
                        let max_participant_rewards = weighted / WEIGHT_DENOMINATOR
                            / c.slots_per_epoch;
                        let participant_reward = (max_participant_rewards as int
                            / c.sync_committee_size as int) as u64;
                        match product_of(participant_reward, PROPOSER_WEIGHT) {
                            Err(e) => Err(e),
                            Ok(p) => Ok(
                                (
                                    participant_reward,
                                    (p as int / (WEIGHT_DENOMINATOR - PROPOSER_WEIGHT)) as u64,
                                ),
                            ),
                        }
                    },
                },
            },
        }
    }
}

/// The validator behind each member of the current sync committee: the
/// first that holds the member's key.
pub open spec fn member_index(s: StateView) -> spec_fn(int) -> Result<
    ValidatorIndex,
    TransitionError,
> {
    |k: int|
        match key_position(
            s.validators,
            s.current_sync_committee.public_keys[k],
            s.validators.len() as int,
        ) {
            Some(i) => Ok(i as usize),
            None => Err(
                TransitionError::InvalidOperation(
                    InvalidOperation::SyncAggregate(
                        InvalidSyncAggregate::UnknownMember { position: k as usize },
                    ),
                ),
            ),
        }
}

/// The balances after the first `n` members of the sync committee were
/// paid in turn: a member whose bit is set earns the participant reward,
/// and the proposer earns the proposer reward for it; a member whose bit is
/// clear loses the participant reward, down to zero at most.
pub open spec fn sync_balances(
    balances: Seq<Gwei>,
    members: Seq<ValidatorIndex>,
    bits: Seq<bool>,
    participant_reward: Gwei,
    proposer_reward: Gwei,
    proposer: Result<ValidatorIndex, TransitionError>,
    n: int,
) -> Result<Seq<Gwei>, TransitionError>
    decreases n,
{
    if n <= 0 {
        Ok(balances)
    } else {
        match sync_balances(
            balances,
            members,
            bits,
            participant_reward,
            proposer_reward,
            proposer,
            n - 1,
        ) {
            Err(e) => Err(e),
            Ok(b) => {
                let member = members[n - 1] as int;
                if bits[n - 1] {
                    match sum_of(b[member], participant_reward) {
                        Err(e) => Err(e),
                        Ok(raised) => match proposer {
                            Err(e) => Err(e),
                            Ok(p) => match sum_of(b.update(member, raised)[p as int], proposer_reward) {
                                Err(e) => Err(e),
                                Ok(paid) => Ok(b.update(member, raised).update(p as int, paid)),
                            },
                        },
                    }
                } else {
                    Ok(b.update(member, saturating_difference(b[member], participant_reward)))
                }
            },
        }
    }
}

proof fn lemma_sync_balances_fail(
    balances: Seq<Gwei>,
    members: Seq<ValidatorIndex>,
    bits: Seq<bool>,
    participant_reward: Gwei,
    proposer_reward: Gwei,
    proposer: Result<ValidatorIndex, TransitionError>,
    m: int,
    n: int,
)
    requires
        0 <= m <= n,
        sync_balances(balances, members, bits, participant_reward, proposer_reward, proposer, m)
            is Err,
    ensures
        sync_balances(balances, members, bits, participant_reward, proposer_reward, proposer, n)
            == sync_balances(
            balances,
            members,
            bits,
            participant_reward,
            proposer_reward,
            proposer,
            m,
        ),
    decreases n,
{
    if m < n {
        lemma_sync_balances_fail(
            balances,
            members,
            bits,
            participant_reward,
            proposer_reward,
            proposer,
            m,
            n - 1,
        );
    }
}

/// The state after every member of the current sync committee was found
/// in the registry and paid.
pub open spec fn sync_payout(
    s: StateView,
    bits: Seq<bool>,
    participant_reward: Gwei,
    proposer_reward: Gwei,
    c: Context,
) -> Result<StateView, TransitionError> {
    match for_each_index(s.current_sync_committee.public_keys.len(), member_index(s)) {
        Err(e) => Err(e),
        Ok(members) => match sync_balances(
            s.balances,
            members,
            bits,
            participant_reward,
            proposer_reward,
            beacon_proposer_index(s, c),
            s.current_sync_committee.public_keys.len() as int,
        ) {
            Err(e) => Err(e),
            Ok(balances) => Ok(StateView { balances, ..s }),
        },
    }
}

/// The state after a sync aggregate was processed. The aggregate has one
/// bit for each member of the current sync committee, and its signature is
/// that of the members whose bit is set over `sync_signing_root`. Every
/// member is a validator. The members and the proposer are paid as
/// `sync_balances` says.
pub open spec fn sync_aggregate_processed(
    s: StateView,
    bits: Seq<bool>,
    signature: BlsSignature,
    c: Context,
) -> Result<StateView, TransitionError> {
    let keys = s.current_sync_committee.public_keys;
    if bits.len() != keys.len() {
        Err(
            TransitionError::InvalidOperation(
                InvalidOperation::SyncAggregate(
                    InvalidSyncAggregate::InvalidBitsLength {
                        expected_length: keys.len() as usize,
                        length: bits.len() as usize,
                    },
                ),
            ),
        )
    } else {
        match sync_signing_root(s, c) {
            Err(e) => Err(e),
            Ok(root) => if !aggregate_signature_valid(
                participant_keys(keys, bits, keys.len() as int),
                root@,
                signature,
            ) {
                Err(
                    TransitionError::InvalidOperation(
                        InvalidOperation::SyncAggregate(
                            InvalidSyncAggregate::InvalidSignature { signature, root },
                        ),
                    ),
                )
            } else {
                match sync_rewards(s, c) {
                    Err(e) => Err(e),
                    Ok((participant_reward, proposer_reward)) => sync_payout(
                        s,
                        bits,
                        participant_reward,
                        proposer_reward,
                        c,
                    ),
                }
            },
        }
    }
}

fn get_sync_rewards(state: &BeaconState, context: &Context) -> (r: Result<
    (Gwei, Gwei),
    TransitionError,
>)
    requires
        context.valid(),
    ensures
        r == sync_rewards(state@, *context),
{
    let total = get_total_active_balance(state, context)?;
    let total_active_increments = total / context.effective_balance_increment;
    let per_increment = get_base_reward_per_increment(state, context)?;
    let total_base_rewards = checked_mul(per_increment, total_active_increments)?;
    let weighted = checked_mul(total_base_rewards, SYNC_REWARD_WEIGHT)?;
    let max_participant_rewards = weighted / WEIGHT_DENOMINATOR / context.slots_per_epoch;
    let participant_reward = max_participant_rewards / (context.sync_committee_size as u64);
    let p = checked_mul(participant_reward, PROPOSER_WEIGHT)?;
    Ok((participant_reward, p / (WEIGHT_DENOMINATOR - PROPOSER_WEIGHT)))
}

/// Checks the signature of the sync committee and pays its members.
pub fn process_sync_aggregate(
    state: &mut BeaconState,
    sync_aggregate: &SyncAggregate,
    context: &Context,
) -> (r: Result<(), TransitionError>)
    requires
        context.valid(),
        wf(old(state)@, *context),
    ensures
        follows(
            old(state)@,
            final(state)@,
            r,
            sync_aggregate_processed(
                old(state)@,
                sync_aggregate.sync_committee_bits@,
                sync_aggregate.sync_committee_signature,
                *context,
            ),
        ),
        wf(final(state)@, *context),
        same_finality(old(state)@, final(state)@),
        registry_moves_on(old(state)@, final(state)@),
{
    let size = state.current_sync_committee.public_keys.len();
    let bits = &sync_aggregate.sync_committee_bits;
    if bits.len() != size {
        return Err(
            TransitionError::InvalidOperation(
                InvalidOperation::SyncAggregate(
                    InvalidSyncAggregate::InvalidBitsLength {
                        expected_length: size,
                        length: bits.len(),
                    },
                ),
            ),
        );
    }
    let mut participants: Vec<BlsPublicKey> = Vec::new();
    let mut k: usize = 0;
    while k < size
        invariant
            k <= size,
            size == state@.current_sync_committee.public_keys.len(),
            bits@.len() == size,
            state@ == old(state)@,
            wf(state@, *context),
            participants@ == participant_keys(
                state@.current_sync_committee.public_keys,
                bits@,
                k as int,
            ),
        decreases size - k,
    {
        if bits[k] {
            participants.push(state.current_sync_committee.public_keys[k]);
        }
        k += 1;
    }
    let previous_slot = if state.slot == 0 {
        0
    } else {
        state.slot - 1
    };
    let domain = get_domain(
        state,
        DomainType::SyncCommittee,
        Some(compute_epoch_at_slot(previous_slot, context)),
        context,
    );
    proof {
        lemma_domain_array(domain);
    }
    let root_at_slot = get_block_root_at_slot(state, previous_slot)?;
    let signing_root = compute_signing_root(root_at_slot, domain);
    if !fast_aggregate_verify(
        &participants,
        signing_root.as_slice(),
        &sync_aggregate.sync_committee_signature,
    ) {
        return Err(
            TransitionError::InvalidOperation(
                InvalidOperation::SyncAggregate(
                    InvalidSyncAggregate::InvalidSignature {
                        signature: sync_aggregate.sync_committee_signature,
                        root: signing_root,
                    },
                ),
            ),
        );
    }
    let (participant_reward, proposer_reward) = get_sync_rewards(state, context)?;
    let ghost f = member_index(state@);
    let mut members: Vec<ValidatorIndex> = Vec::new();
    let mut m: usize = 0;
    while m < size
        invariant
            m <= size,
            size == state@.current_sync_committee.public_keys.len(),
            state@ == old(state)@,
            wf(state@, *context),
            f == member_index(state@),
            sync_aggregate_processed(
                state@,
                sync_aggregate.sync_committee_bits@,
                sync_aggregate.sync_committee_signature,
                *context,
            ) == sync_payout(state@, bits@, participant_reward, proposer_reward, *context),
            members@.len() == m,
            forall|j: int|
                0 <= j < m ==> (#[trigger] f(j)) == Ok::<ValidatorIndex, TransitionError>(
                    members@[j],
                ),
            forall|j: int| 0 <= j < m ==> (#[trigger] members@[j]) < state@.validators.len(),
        decreases size - m,
    {
        match find_validator(state, &state.current_sync_committee.public_keys[m]) {
            Some(i) => {
                members.push(i);
            },
            None => {
                proof {
                    lemma_fails_at(size as nat, f, m as int);
                }
                return Err(
                    TransitionError::InvalidOperation(
                        InvalidOperation::SyncAggregate(
                            InvalidSyncAggregate::UnknownMember { position: m },
                        ),
                    ),
                );
            },
        }
        m += 1;
    }
    proof {
        lemma_succeeds(size as nat, f, members@);
    }
    let proposer = get_beacon_proposer_index(state, context);
    let mut balances = copy_vec(&state.balances);
    let mut j: usize = 0;
    while j < size
        invariant
            j <= size,
            size == state@.current_sync_committee.public_keys.len(),
            bits@.len() == size,
            members@.len() == size,
            state@ == old(state)@,
            wf(state@, *context),
            forall|i: int| 0 <= i < size ==> (#[trigger] members@[i]) < state@.validators.len(),
            proposer == beacon_proposer_index(state@, *context),
            proposer matches Ok(p) ==> p < state@.validators.len(),
            sync_aggregate_processed(
                state@,
                sync_aggregate.sync_committee_bits@,
                sync_aggregate.sync_committee_signature,
                *context,
            ) == sync_payout(state@, bits@, participant_reward, proposer_reward, *context),
            for_each_index(size as nat, member_index(state@)) == Ok::<
                Seq<ValidatorIndex>,
                TransitionError,
            >(members@),
            balances@.len() == state@.validators.len(),
            sync_balances(
                state@.balances,
                members@,
                bits@,
                participant_reward,
                proposer_reward,
                proposer,
                j as int,
            ) == Ok::<Seq<Gwei>, TransitionError>(balances@),
        decreases size - j,
    {
        let member = members[j];
        if bits[j] {
            let step = match checked_add(balances[member], participant_reward) {
                Err(e) => Err(e),
                Ok(raised) => match proposer {
                    Err(e) => Err(e),
                    Ok(p) => {
                        let held = if p == member {
                            raised
                        } else {
                            balances[p]
                        };
                        match checked_add(held, proposer_reward) {
                            Err(e) => Err(e),
                            Ok(paid) => Ok((raised, p, paid)),
                        }
                    },
                },
            };
            match step {
                Ok((raised, p, paid)) => {
                    balances[member] = raised;
                    balances[p] = paid;
                },
                Err(e) => {
                    proof {
                        lemma_sync_balances_fail(
                            state@.balances,
                            members@,
                            bits@,
                            participant_reward,
                            proposer_reward,
                            proposer,
                            j as int + 1,
                            size as int,
                        );
                    }
                    return Err(e);
                },
            }
        } else {
            let lowered = saturating_sub(balances[member], participant_reward);
            balances[member] = lowered;
        }
        j += 1;
    }
    state.balances = balances;
    Ok(())
}

} // verus!
