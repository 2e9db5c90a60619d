//! Slashings and voluntary exits.

use vstd::prelude::*;
use crate::attestations::{
    attestation_data_equal, check_indexed_attestation, domain_array, indexed_attestation_fault,
    lemma_domain_array,
};
use crate::committees::{beacon_proposer_index, get_beacon_proposer_index};
use crate::context::Context;
use crate::crypto::{signature_valid, verify_signature};
use crate::domains::{compute_signing_root, get_domain, signing_root, state_domain, DomainType};
use crate::error::{
    InvalidAttesterSlashing, InvalidOperation, InvalidProposerSlashing, InvalidVoluntaryExit,
    TransitionError,
};
use crate::helpers::{
    active_at, compute_epoch_at_slot, current_epoch, decreased, epoch_at_slot, get_current_epoch,
    increased, is_active_validator, is_slashable_validator, slashable_at,
};
use crate::operations::{
    AttestationData, AttesterSlashing, IndexedAttestation, ProposerSlashing, SignedBeaconBlockHeader,
    SignedVoluntaryExit, VoluntaryExit,
};
use crate::primitives::{
    bytes_equal, checked_add, saturating_sub, sum_of, wide_mul, Epoch, Gwei,
    Root, ValidatorIndex, FAR_FUTURE_EPOCH, PROPOSER_WEIGHT, WEIGHT_DENOMINATOR,
};
use crate::registry::{exit_initiated, initiate_validator_exit};
use crate::ssz::{header_root, voluntary_exit_root};
use crate::state::{registry_moves_on, same_finality, follows, wf, BeaconBlockHeader, BeaconState, StateView, Validator};

verus! {

/// What a slashing pays to who reported it, and the part of that which
/// goes to the proposer.
pub open spec fn slashing_rewards(effective_balance: Gwei, c: Context) -> (Gwei, Gwei) {
    let whistleblower_reward = effective_balance / c.whistleblower_reward_quotient;
    (
        whistleblower_reward,
        (whistleblower_reward * PROPOSER_WEIGHT / WEIGHT_DENOMINATOR as int) as u64,
    )
}

/// The state after the validator at `index` was slashed. The validator is
/// sent to the exit queue and marked as slashed; it cannot withdraw before
/// the slashings buffer has gone round once. Its effective balance is added
/// to the slashings of the current epoch, and a share of it is taken from
/// its balance at once. The proposer of the state's slot and the
/// whistleblower, who is the proposer where none is named, share the
/// whistleblower reward.
pub open spec fn slashed(
    s: StateView,
    index: int,
    whistleblower: Option<ValidatorIndex>,
    c: Context,
) -> Result<StateView, TransitionError> {
    let epoch = current_epoch(s, c);
    match beacon_proposer_index(s, c) {
        Err(e) => Err(e),
        Ok(proposer) => match exit_initiated(s, index, c) {
            Err(e) => Err(e),
            Ok(exited) => match sum_of(epoch, c.epochs_per_slashings_vector) {
                Err(e) => Err(e),
                Ok(earliest) => {
                    let v = exited.validators[index];
                    let position = epoch as int % c.epochs_per_slashings_vector as int;
                    match sum_of(s.slashings[position], v.effective_balance) {
                        Err(e) => Err(e),
                        Ok(total) => {
                            let marked = StateView {
                                validators: exited.validators.update(
                                    index,
                                    Validator {
                                        slashed: true,
                                        withdrawable_epoch: if v.withdrawable_epoch < earliest {
                                            earliest
                                        } else {
                                            v.withdrawable_epoch
                                        },
                                        ..v
                                    },
                                ),
                                slashings: s.slashings.update(position, total),
                                ..exited
                            };
                            let penalized = decreased(
                                marked,
                                index,
                                v.effective_balance / c.min_slashing_quotient_at(epoch),
                            );
                            let (whistleblower_reward, proposer_reward) = slashing_rewards(
                                v.effective_balance,
                                c,
                            );
                            match increased(penalized, proposer as int, proposer_reward) {
                                Err(e) => Err(e),
                                Ok(paid) => increased(
                                    paid,
                                    match whistleblower {
                                        Some(w) => w as int,
                                        None => proposer as int,
                                    },
                                    (whistleblower_reward - proposer_reward) as u64,
                                ),
                            }
                        },
                    }
                },
            },
        },
    }
}

/// Slashes a validator and rewards the proposer and the whistleblower.
pub fn slash_validator(
    state: &mut BeaconState,
    slashed_index: ValidatorIndex,
    whistleblower_index: Option<ValidatorIndex>,
    context: &Context,
) -> (r: Result<(), TransitionError>)
    requires
        context.valid(),
        wf(old(state)@, *context),
        slashed_index < old(state)@.validators.len(),
        whistleblower_index matches Some(w) ==> w < old(state)@.validators.len(),
    ensures
        follows(
            old(state)@,
            final(state)@,
            r,
            slashed(old(state)@, slashed_index as int, whistleblower_index, *context),
        ),
        wf(final(state)@, *context),
        same_finality(old(state)@, final(state)@),
        registry_moves_on(old(state)@, final(state)@),
{
    let epoch = get_current_epoch(state, context);
    let proposer = get_beacon_proposer_index(state, context)?;
    let saved = state.validators[slashed_index];
    initiate_validator_exit(state, slashed_index, context)?;
    let ghost exited = state@;
    let v = state.validators[slashed_index];
    let earliest = match checked_add(epoch, context.epochs_per_slashings_vector) {
        Ok(x) => x,
        Err(e) => {
            state.validators[slashed_index] = saved;
            assert(state@.validators =~= old(state)@.validators);
            return Err(e);
        },
    };
    let length = state.slashings.len();
    let position = (epoch % (length as u64)) as usize;
    let total = match checked_add(state.slashings[position], v.effective_balance) {
        Ok(x) => x,
        Err(e) => {
            state.validators[slashed_index] = saved;
            assert(state@.validators =~= old(state)@.validators);
            return Err(e);
        },
    };
    let quotient = context.min_slashing_penalty_quotient_for(epoch);
    let lowered = saturating_sub(state.balances[slashed_index], v.effective_balance / quotient);
    let whistleblower_reward = v.effective_balance / context.whistleblower_reward_quotient;
    let proposer_reward = (wide_mul(whistleblower_reward, PROPOSER_WEIGHT) / (
    WEIGHT_DENOMINATOR as u128)) as u64;
    let whistleblower = match whistleblower_index {
        Some(w) => w,
        None => proposer,
    };
    let held = if proposer == slashed_index {
        lowered
    } else {
        state.balances[proposer]
    };
    let paid = match checked_add(held, proposer_reward) {
        Ok(x) => x,
        Err(e) => {
            state.validators[slashed_index] = saved;
            assert(state@.validators =~= old(state)@.validators);
            return Err(e);
        },
    };
    let held_by_whistleblower = if whistleblower == proposer {
        paid
    } else if whistleblower == slashed_index {
        lowered
    } else {
        state.balances[whistleblower]
    };
    let rewarded = match checked_add(
        held_by_whistleblower,
        whistleblower_reward - proposer_reward,
    ) {
        Ok(x) => x,
        Err(e) => {
            state.validators[slashed_index] = saved;
            assert(state@.validators =~= old(state)@.validators);
            return Err(e);
        },
    };
    state.validators[slashed_index].slashed = true;
    if v.withdrawable_epoch < earliest {
        state.validators[slashed_index].withdrawable_epoch = earliest;
    }
    state.slashings[position] = total;
    state.balances[slashed_index] = lowered;
    state.balances[proposer] = paid;
    state.balances[whistleblower] = rewarded;
    proof {
        let marked = StateView {
            validators: exited.validators.update(
                slashed_index as int,
                Validator {
                    slashed: true,
                    withdrawable_epoch: if v.withdrawable_epoch < earliest {
                        earliest
                    } else {
                        v.withdrawable_epoch
                    },
                    ..v
                },
            ),
            slashings: old(state)@.slashings.update(position as int, total),
            ..exited
        };
        let penalized = decreased(
            marked,
            slashed_index as int,
            v.effective_balance / context.min_slashing_quotient_at(epoch),
        );
        let paid_state = increased(penalized, proposer as int, proposer_reward);
        assert(paid_state is Ok);
        let rewarded_state = increased(
            paid_state->Ok_0,
            whistleblower as int,
            (whistleblower_reward - proposer_reward) as u64,
        );
        assert(rewarded_state is Ok);
        assert(slashed(old(state)@, slashed_index as int, whistleblower_index, *context)
            == rewarded_state);
        let expected = rewarded_state->Ok_0;
        assert(state@.validators =~= expected.validators);
        assert(state@.slashings =~= expected.slashings);
        assert(state@.balances =~= expected.balances);
        assert(state@ == expected);
    }
    Ok(())
}

/// Whether two block headers are the same.
pub fn headers_equal(a: &BeaconBlockHeader, b: &BeaconBlockHeader) -> (r: bool)
    ensures
        r == (*a == *b),
{
    a.slot == b.slot && a.proposer_index == b.proposer_index && bytes_equal(
        &a.parent_root,
        &b.parent_root,
    ) && bytes_equal(&a.state_root, &b.state_root) && bytes_equal(&a.body_root, &b.body_root)
}

/// What the proposer of a block signs: the root of its header under the
/// proposer domain of its slot's epoch.
pub open spec fn header_signing_root(s: StateView, header: BeaconBlockHeader, c: Context) -> Root {
    signing_root(
        header_root(header),
        domain_array(
            state_domain(
                s,
                DomainType::BeaconProposer,
                Some(epoch_at_slot(header.slot, c)),
                c,
            ),
        ),
    )
}

/// Whether a signed header carries the signature of the validator that it
/// names as proposer.
pub open spec fn header_signed(s: StateView, signed: SignedBeaconBlockHeader, c: Context) -> bool {
    signature_valid(
        s.validators[signed.message.proposer_index as int].public_key,
        header_signing_root(s, signed.message, c)@,
        signed.signature,
    )
}

fn is_header_signed(state: &BeaconState, signed: &SignedBeaconBlockHeader, context: &Context) -> (r:
    bool)
    requires
        context.valid(),
        signed.message.proposer_index < state@.validators.len(),
    ensures
        r == header_signed(state@, *signed, *context),
{
    let domain = get_domain(
        state,
        DomainType::BeaconProposer,
        Some(compute_epoch_at_slot(signed.message.slot, context)),
        context,
    );
    proof {
        lemma_domain_array(domain);
    }
    let root = compute_signing_root(signed.message.hash_tree_root(), domain);
    verify_signature(
        &state.validators[signed.message.proposer_index].public_key,
        root.as_slice(),
        &signed.signature,
    )
}

/// The first reason for which a proposer slashing is not valid, if any:
/// its headers are for different slots, or by different proposers, or the
/// same; the proposer is no validator, or cannot be slashed any more; or
/// one of the signatures is not the proposer's.
pub open spec fn proposer_slashing_fault(s: StateView, p: ProposerSlashing, c: Context) -> Option<
    InvalidProposerSlashing,
> {
    let h1 = p.signed_header_1.message;
    let h2 = p.signed_header_2.message;
    if h1.slot != h2.slot {
        Some(InvalidProposerSlashing::SlotMismatch(h1.slot, h2.slot))
    } else if h1.proposer_index != h2.proposer_index {
        Some(InvalidProposerSlashing::ProposerMismatch(h1.proposer_index, h2.proposer_index))
    } else if h1 == h2 {
        Some(InvalidProposerSlashing::HeadersAreEqual)
    } else if h1.proposer_index >= s.validators.len() {
        Some(InvalidProposerSlashing::InvalidIndex(h1.proposer_index))
    } else if !slashable_at(s.validators[h1.proposer_index as int], current_epoch(s, c)) {
        Some(InvalidProposerSlashing::ProposerIsNotSlashable(h1.proposer_index))
    } else if !header_signed(s, p.signed_header_1, c) {
        Some(InvalidProposerSlashing::InvalidSignature(p.signed_header_1.signature))
    } else if !header_signed(s, p.signed_header_2, c) {
        Some(InvalidProposerSlashing::InvalidSignature(p.signed_header_2.signature))
    } else {
        None
    }
}

/// The state after a proposer slashing was processed: where it is valid,
/// the proposer is slashed.
pub open spec fn proposer_slashing_processed(s: StateView, p: ProposerSlashing, c: Context) -> Result<
    StateView,
    TransitionError,
> {
    match proposer_slashing_fault(s, p, c) {
        Some(fault) => Err(
            TransitionError::InvalidOperation(InvalidOperation::ProposerSlashing(fault)),
        ),
        None => slashed(s, p.signed_header_1.message.proposer_index as int, None, c),
    }
}

fn invalid_proposer_slashing(fault: InvalidProposerSlashing) -> (r: Result<(), TransitionError>)
    ensures
        r == Err::<(), TransitionError>(
            TransitionError::InvalidOperation(InvalidOperation::ProposerSlashing(fault)),
        ),
{
    Err(TransitionError::InvalidOperation(InvalidOperation::ProposerSlashing(fault)))
}

/// Checks a proposer slashing and slashes the proposer.
pub fn process_proposer_slashing(
    state: &mut BeaconState,
    proposer_slashing: &ProposerSlashing,
    context: &Context,
) -> (r: Result<(), TransitionError>)
    requires
        context.valid(),
        wf(old(state)@, *context),
    ensures
        follows(
            old(state)@,
            final(state)@,
            r,
            proposer_slashing_processed(old(state)@, *proposer_slashing, *context),
        ),
        wf(final(state)@, *context),
        same_finality(old(state)@, final(state)@),
        registry_moves_on(old(state)@, final(state)@),
{
    let h1 = &proposer_slashing.signed_header_1.message;
    let h2 = &proposer_slashing.signed_header_2.message;
    if h1.slot != h2.slot {
        return invalid_proposer_slashing(InvalidProposerSlashing::SlotMismatch(h1.slot, h2.slot));
    }
    if h1.proposer_index != h2.proposer_index {
        return invalid_proposer_slashing(
            InvalidProposerSlashing::ProposerMismatch(h1.proposer_index, h2.proposer_index),
        );
    }
    if headers_equal(h1, h2) {
        return invalid_proposer_slashing(InvalidProposerSlashing::HeadersAreEqual);
    }
    let index = h1.proposer_index;
    if index >= state.validators.len() {
        return invalid_proposer_slashing(InvalidProposerSlashing::InvalidIndex(index));
    }
    if !is_slashable_validator(&state.validators[index], get_current_epoch(state, context)) {
        return invalid_proposer_slashing(InvalidProposerSlashing::ProposerIsNotSlashable(index));
    }
    if !is_header_signed(state, &proposer_slashing.signed_header_1, context) {
        return invalid_proposer_slashing(
            InvalidProposerSlashing::InvalidSignature(proposer_slashing.signed_header_1.signature),
        );
    }
    if !is_header_signed(state, &proposer_slashing.signed_header_2, context) {
        return invalid_proposer_slashing(
            InvalidProposerSlashing::InvalidSignature(proposer_slashing.signed_header_2.signature),
        );
    }
    slash_validator(state, index, None, context)
}

/// Whether two attestations by one validator contradict each other: they
/// differ and have the same target epoch, or the first surrounds the
/// second.
pub open spec fn slashable_attestation_data(a: AttestationData, b: AttestationData) -> bool {
    (a != b && a.target.epoch == b.target.epoch) || (a.source.epoch < b.source.epoch
        && b.target.epoch < a.target.epoch)
}

/// Whether two attestations by one validator contradict each other.
pub fn is_slashable_attestation_data(a: &AttestationData, b: &AttestationData) -> (r: bool)
    ensures
        r == slashable_attestation_data(*a, *b),
{
    (!attestation_data_equal(a, b) && a.target.epoch == b.target.epoch) || (a.source.epoch
        < b.source.epoch && b.target.epoch < a.target.epoch)
}

/// The state after one attester of the first attestation was looked at, and
/// whether it was slashed: it is where it attested to the second attestation
/// too and can still be slashed in `epoch`.
#[verifier::opaque]
pub open spec fn attester_slashed(
    s: StateView,
    index: ValidatorIndex,
    second: Seq<ValidatorIndex>,
    epoch: Epoch,
    c: Context,
) -> Result<(StateView, bool), TransitionError> {
    if second.contains(index) && slashable_at(s.validators[index as int], epoch) {
        match slashed(s, index as int, None, c) {
            Err(e) => Err(e),
            Ok(u) => Ok((u, true)),
        }
    } else {
        Ok((s, false))
    }
}

/// The state after the first `n` attesters of the first attestation were
/// looked at in turn, and whether one of them was slashed: each that
/// attested to the second attestation too and can still be slashed is
/// slashed.
pub open spec fn attesters_slashed(
    s: StateView,
    first: Seq<ValidatorIndex>,
    second: Seq<ValidatorIndex>,
    n: int,
    c: Context,
) -> Result<(StateView, bool), TransitionError>
    decreases n,
{
    if n <= 0 {
        Ok((s, false))
    } else {
        match attesters_slashed(s, first, second, n - 1, c) {
            Err(e) => Err(e),
            Ok((t, any)) => match attester_slashed(t, first[n - 1], second, current_epoch(s, c), c) {
                Err(e) => Err(e),
                Ok((u, now)) => Ok((u, any || now)),
            },
        }
    }
}

proof fn lemma_attesters_slashed_fails(
    s: StateView,
    first: Seq<ValidatorIndex>,
    second: Seq<ValidatorIndex>,
    m: int,
    n: int,
    c: Context,
)
    requires
        0 <= m <= n,
        attesters_slashed(s, first, second, m, c) is Err,
    ensures
        attesters_slashed(s, first, second, n, c) == attesters_slashed(s, first, second, m, c),
    decreases n,
{
    if m < n {
        lemma_attesters_slashed_fails(s, first, second, m, n - 1, c);
    }
}

/// The state after an attester slashing was processed. The data of its two
/// attestations must contradict each other and both attestations must be
/// valid. Every validator that attested to both and can still be slashed is
/// slashed, and there must be one.
pub open spec fn attester_slashing_processed(
    s: StateView,
    first: IndexedAttestation,
    second: IndexedAttestation,
    c: Context,
) -> Result<StateView, TransitionError> {
    if !slashable_attestation_data(first.data, second.data) {
        Err(
            TransitionError::InvalidOperation(
                InvalidOperation::AttesterSlashing(InvalidAttesterSlashing::NotSlashable),
            ),
        )
    } else {
        match indexed_attestation_fault(
            s,
            first.attesting_indices@,
            first.data,
            first.signature,
            c,
        ) {
            Some(e) => Err(e),
            None => match indexed_attestation_fault(
                s,
                second.attesting_indices@,
                second.data,
                second.signature,
                c,
            ) {
                Some(e) => Err(e),
                None => match attesters_slashed(
                    s,
                    first.attesting_indices@,
                    second.attesting_indices@,
                    first.attesting_indices@.len() as int,
                    c,
                ) {
                    Err(e) => Err(e),
                    Ok((t, any)) => if any {
                        Ok(t)
                    } else {
                        Err(
                            TransitionError::InvalidOperation(
                                InvalidOperation::AttesterSlashing(
                                    InvalidAttesterSlashing::NoSlashings,
                                ),
                            ),
                        )
                    },
                },
            },
        }
    }
}

fn contains_index(indices: &Vec<ValidatorIndex>, index: ValidatorIndex) -> (r: bool)
    ensures
        r == indices@.contains(index),
{
    let mut k: usize = 0;
    while k < indices.len()
        invariant
            k <= indices.len(),
            forall|j: int| 0 <= j < k ==> indices@[j] != index,
        decreases indices.len() - k,
    {
        if indices[k] == index {
            return true;
        }
        k += 1;
    }
    false
}

fn slash_attester(
    state: &mut BeaconState,
    index: ValidatorIndex,
    second: &Vec<ValidatorIndex>,
    epoch: Epoch,
    context: &Context,
) -> (r: Result<bool, TransitionError>)
    requires
        context.valid(),
        wf(old(state)@, *context),
        index < old(state)@.validators.len(),
    ensures
        match attester_slashed(old(state)@, index, second@, epoch, *context) {
            Ok((u, now)) => r == Ok::<bool, TransitionError>(now) && final(state)@ == u,
            Err(e) => r == Err::<bool, TransitionError>(e) && final(state)@ == old(state)@,
        },
        wf(final(state)@, *context),
        final(state)@.validators.len() == old(state)@.validators.len(),
        same_finality(old(state)@, final(state)@),
        registry_moves_on(old(state)@, final(state)@),
{
    reveal(attester_slashed);
    if contains_index(second, index) && is_slashable_validator(&state.validators[index], epoch) {
        match slash_validator(state, index, None, context) {
            Ok(()) => Ok(true),
            Err(e) => Err(e),
        }
    } else {
        Ok(false)
    }
}

/// Checks an attester slashing and slashes who attested twice.
pub fn process_attester_slashing(
    state: &mut BeaconState,
    attester_slashing: &AttesterSlashing,
    context: &Context,
) -> (r: Result<(), TransitionError>)
    requires
        context.valid(),
        wf(old(state)@, *context),
    ensures
        follows(
            old(state)@,
            final(state)@,
            r,
            attester_slashing_processed(
                old(state)@,
                attester_slashing.attestation_1,
                attester_slashing.attestation_2,
                *context,
            ),
        ),
        wf(final(state)@, *context),
        same_finality(old(state)@, final(state)@),
        registry_moves_on(old(state)@, final(state)@),
{
    let first = &attester_slashing.attestation_1;
    let second = &attester_slashing.attestation_2;
    if !is_slashable_attestation_data(&first.data, &second.data) {
        return Err(
            TransitionError::InvalidOperation(
                InvalidOperation::AttesterSlashing(InvalidAttesterSlashing::NotSlashable),
            ),
        );
    }
    check_indexed_attestation(
        state,
        &first.attesting_indices,
        &first.data,
        &first.signature,
        context,
    )?;
    check_indexed_attestation(
        state,
        &second.attesting_indices,
        &second.data,
        &second.signature,
        context,
    )?;
    let epoch = get_current_epoch(state, context);
    let backup = state.duplicate();
    let n = first.attesting_indices.len();
    let mut any = false;
    let mut k: usize = 0;
    while k < n
        invariant
            k <= n,
            n == first.attesting_indices@.len(),
            *first == attester_slashing.attestation_1,
            *second == attester_slashing.attestation_2,
            context.valid(),
            wf(state@, *context),
            wf(old(state)@, *context),
            backup@ == old(state)@,
            epoch == current_epoch(old(state)@, *context),
            state@.validators.len() == old(state)@.validators.len(),
            same_finality(old(state)@, state@),
            registry_moves_on(old(state)@, state@),
            forall|j: int|
                0 <= j < n ==> (#[trigger] first.attesting_indices@[j]) < old(
                    state,
                )@.validators.len(),
            attesters_slashed(
                old(state)@,
                first.attesting_indices@,
                second.attesting_indices@,
                k as int,
                *context,
            ) == Ok::<(StateView, bool), TransitionError>((state@, any)),
            attester_slashing_processed(old(state)@, *first, *second, *context)
                == match attesters_slashed(
                old(state)@,
                first.attesting_indices@,
                second.attesting_indices@,
                n as int,
                *context,
            ) {
                Err(e) => Err::<StateView, TransitionError>(e),
                Ok((t, any)) => if any {
                    Ok(t)
                } else {
                    Err(
                        TransitionError::InvalidOperation(
                            InvalidOperation::AttesterSlashing(InvalidAttesterSlashing::NoSlashings),
                        ),
                    )
                },
            },
        decreases n - k,
    {
        let index = first.attesting_indices[k];
        match slash_attester(state, index, &second.attesting_indices, epoch, context) {
            Ok(now) => {
                any = any || now;
            },
            Err(e) => {
                proof {
                    lemma_attesters_slashed_fails(
                        old(state)@,
                        first.attesting_indices@,
                        second.attesting_indices@,
                        k as int + 1,
                        n as int,
                        *context,
                    );
                }
                state.restore(backup);
                return Err(e);
            },
        }
        k += 1;
    }
    if !any {
        state.restore(backup);
        return Err(
            TransitionError::InvalidOperation(
                InvalidOperation::AttesterSlashing(InvalidAttesterSlashing::NoSlashings),
            ),
        );
    }
    Ok(())
}

/// What a validator signs to exit: the root of the exit under the exit
/// domain of the exit's epoch.
pub open spec fn exit_signing_root(s: StateView, exit: VoluntaryExit, c: Context) -> Root {
    signing_root(
        voluntary_exit_root(exit),
        domain_array(state_domain(s, DomainType::VoluntaryExit, Some(exit.epoch), c)),
    )
}

/// The first reason for which a voluntary exit is not valid, if any: it
/// names no validator; the validator is not active, or has an exit epoch
/// already; the exit is not yet due; the validator has not been active for
/// long enough; or the signature is not the validator's.
pub open spec fn voluntary_exit_fault(s: StateView, signed: SignedVoluntaryExit, c: Context) -> Option<
    InvalidVoluntaryExit,
> {
    let exit = signed.message;
    let now = current_epoch(s, c);
    if exit.validator_index >= s.validators.len() {
        Some(InvalidVoluntaryExit::InvalidIndex(exit.validator_index))
    } else {
        let v = s.validators[exit.validator_index as int];
        if !active_at(v, now) {
            Some(InvalidVoluntaryExit::InactiveValidator(now))
        } else if v.exit_epoch != FAR_FUTURE_EPOCH {
            Some(
                InvalidVoluntaryExit::ValidatorAlreadyExited {
                    index: exit.validator_index,
                    epoch: v.exit_epoch,
                },
            )
        } else if now < exit.epoch {
            Some(InvalidVoluntaryExit::EarlyExit { current_epoch: now, exit_epoch: exit.epoch })
        } else if now < v.activation_epoch + c.shard_committee_period {
            Some(
                InvalidVoluntaryExit::ValidatorIsNotActiveForLongEnough {
                    current_epoch: now,
                    minimum_time_active: crate::primitives::capped_sum(
                        v.activation_epoch,
                        c.shard_committee_period,
                    ),
                },
            )
        } else if !signature_valid(v.public_key, exit_signing_root(s, exit, c)@, signed.signature) {
            Some(InvalidVoluntaryExit::InvalidSignature(signed.signature))
        } else {
            None
        }
    }
}

/// The state after a voluntary exit was processed: where it is valid, the
/// validator is sent to the exit queue.
pub open spec fn voluntary_exit_processed(s: StateView, signed: SignedVoluntaryExit, c: Context) -> Result<
    StateView,
    TransitionError,
> {
    match voluntary_exit_fault(s, signed, c) {
        Some(fault) => Err(TransitionError::InvalidOperation(InvalidOperation::VoluntaryExit(fault))),
        None => exit_initiated(s, signed.message.validator_index as int, c),
    }
}

fn invalid_voluntary_exit(fault: InvalidVoluntaryExit) -> (r: Result<(), TransitionError>)
    ensures
        r == Err::<(), TransitionError>(
            TransitionError::InvalidOperation(InvalidOperation::VoluntaryExit(fault)),
        ),
{
    Err(TransitionError::InvalidOperation(InvalidOperation::VoluntaryExit(fault)))
}

/// Checks a voluntary exit and sends the validator to the exit queue.
pub fn process_voluntary_exit(
    state: &mut BeaconState,
    signed_voluntary_exit: &SignedVoluntaryExit,
    context: &Context,
) -> (r: Result<(), TransitionError>)
    requires
        context.valid(),
        wf(old(state)@, *context),
    ensures
        follows(
            old(state)@,
            final(state)@,
            r,
            voluntary_exit_processed(old(state)@, *signed_voluntary_exit, *context),
        ),
        wf(final(state)@, *context),
        same_finality(old(state)@, final(state)@),
        registry_moves_on(old(state)@, final(state)@),
{
    let exit = &signed_voluntary_exit.message;
    let now = get_current_epoch(state, context);
    let index = exit.validator_index;
    if index >= state.validators.len() {
        return invalid_voluntary_exit(InvalidVoluntaryExit::InvalidIndex(index));
    }
    let v = state.validators[index];
    if !is_active_validator(&v, now) {
        return invalid_voluntary_exit(InvalidVoluntaryExit::InactiveValidator(now));
    }
    if v.exit_epoch != FAR_FUTURE_EPOCH {
        return invalid_voluntary_exit(
            InvalidVoluntaryExit::ValidatorAlreadyExited { index, epoch: v.exit_epoch },
        );
    }
    if now < exit.epoch {
        return invalid_voluntary_exit(
            InvalidVoluntaryExit::EarlyExit { current_epoch: now, exit_epoch: exit.epoch },
        );
    }
    if (now as u128) < v.activation_epoch as u128 + context.shard_committee_period as u128 {
        let minimum_time_active = crate::primitives::capped_add(
            v.activation_epoch,
            context.shard_committee_period,
        );
        return invalid_voluntary_exit(
            InvalidVoluntaryExit::ValidatorIsNotActiveForLongEnough {
                current_epoch: now,
                minimum_time_active,
            },
        );
    }
    let domain = get_domain(state, DomainType::VoluntaryExit, Some(exit.epoch), context);
    proof {
        lemma_domain_array(domain);
    }
    let root = compute_signing_root(exit.hash_tree_root(), domain);
    if !verify_signature(&v.public_key, root.as_slice(), &signed_voluntary_exit.signature) {
        return invalid_voluntary_exit(
            InvalidVoluntaryExit::InvalidSignature(signed_voluntary_exit.signature),
        );
    }
    initiate_validator_exit(state, index, context)
}

} // verus!
