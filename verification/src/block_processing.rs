//! What a block does to a state.

use vstd::prelude::*;
use crate::attestations::{attestation_processed, lemma_domain_array, domain_array};
use crate::committees::{
    beacon_committee, beacon_proposer_index, committee_count_per_slot, get_beacon_proposer_index,
};
use crate::context::Context;
use crate::crypto::{hash, sha256, signature_valid, verify_signature};
use crate::deposits::deposit_processed;
use crate::domains::{compute_signing_root, get_domain, signing_root, state_domain, DomainType};
use crate::error::{
    InvalidAttestation, InvalidBeaconBlockHeader, InvalidOperation, OperationKind, TransitionError,
};
use crate::helpers::{
    current_epoch, epoch_at_slot, get_current_epoch, get_randao_mix, previous_epoch, randao_mix,
};
use crate::operations::{
    Attestation, AttesterSlashing, BeaconBlock, BeaconBlockBody, Deposit, ProposerSlashing,
    SignedVoluntaryExit,
};
use crate::primitives::{
    array_of, bytes_equal, lemma_array_of, wide_mul, xor_bytes32, xored, zero_bytes32,
    BlsSignature, Bytes32, Root,
};
use crate::roots::{body_root, eth1_votes_limit};
use crate::slashing::{
    attester_slashing_processed, proposer_slashing_processed, voluntary_exit_processed,
};
use crate::ssz::{header_root, push_u64, u64_chunk};
use crate::state::{registry_moves_on, same_finality, follows, wf, BeaconBlockHeader, BeaconState, Eth1Data, StateView};
use crate::sync_aggregate::sync_aggregate_processed;

pub use crate::attestations::process_attestation;
pub use crate::deposits::process_deposit;
pub use crate::slashing::{
    process_attester_slashing, process_proposer_slashing, process_voluntary_exit,
};
pub use crate::sync_aggregate::process_sync_aggregate;

verus! {

fn invalid_header(fault: InvalidBeaconBlockHeader) -> (r: Result<(), TransitionError>)
    ensures
        r == Err::<(), TransitionError>(TransitionError::InvalidHeader(fault)),
{
    Err(TransitionError::InvalidHeader(fault))
}

/// The state after the header of a block was processed. The block is for
/// the state's slot and later than the latest block; the proposer of the
/// slot proposed it; it names the latest block as its parent; and its
/// proposer is not slashed. The state then remembers the header of the
/// block, with no state root yet.
#[verifier::opaque]
pub open spec fn block_header_processed(s: StateView, b: BeaconBlock, c: Context) -> Result<
    StateView,
    TransitionError,
> {
    if b.slot != s.slot {
        Err(
            TransitionError::InvalidHeader(
                InvalidBeaconBlockHeader::StateSlotMismatch {
                    state_slot: s.slot,
                    block_slot: b.slot,
                },
            ),
        )
    } else if b.slot <= s.latest_block_header.slot {
        Err(
            TransitionError::InvalidHeader(
                InvalidBeaconBlockHeader::OlderThanLatestBlockHeader {
                    block_slot: b.slot,
                    latest_block_header_slot: s.latest_block_header.slot,
                },
            ),
        )
    } else {
        match beacon_proposer_index(s, c) {
            Err(e) => Err(e),
            Ok(proposer) => if b.proposer_index != proposer {
                Err(
                    TransitionError::InvalidHeader(
                        InvalidBeaconBlockHeader::ProposerIndexMismatch {
                            block_proposer_index: b.proposer_index,
                            proposer_index: proposer,
                        },
                    ),
                )
            } else if b.parent_root != header_root(s.latest_block_header) {
                Err(
                    TransitionError::InvalidHeader(
                        InvalidBeaconBlockHeader::ParentBlockRootMismatch {
                            expected: header_root(s.latest_block_header),
                            provided: b.parent_root,
                        },
                    ),
                )
            } else {
                match body_root(b.body, c) {
                    Err(e) => Err(e),
                    Ok(body_root) => if s.validators[b.proposer_index as int].slashed {
                        Err(
                            TransitionError::InvalidHeader(
                                InvalidBeaconBlockHeader::ProposerSlashed(b.proposer_index),
                            ),
                        )
                    } else {
                        Ok(
                            StateView {
                                latest_block_header: BeaconBlockHeader {
                                    slot: b.slot,
                                    proposer_index: b.proposer_index,
                                    parent_root: b.parent_root,
                                    state_root: zero_bytes32(),
                                    body_root,
                                },
                                ..s
                            },
                        )
                    },
                }
            },
        }
    }
}

/// Checks the header of a block against the state and remembers it.
pub fn process_block_header(state: &mut BeaconState, block: &BeaconBlock, context: &Context) -> (r:
    Result<(), TransitionError>)
    requires
        context.valid(),
        wf(old(state)@, *context),
    ensures
        follows(old(state)@, final(state)@, r, block_header_processed(old(state)@, *block, *context)),
        wf(final(state)@, *context),
        same_finality(old(state)@, final(state)@),
        registry_moves_on(old(state)@, final(state)@),
{
    reveal(block_header_processed);
    if block.slot != state.slot {
        return invalid_header(
            InvalidBeaconBlockHeader::StateSlotMismatch {
                state_slot: state.slot,
                block_slot: block.slot,
            },
        );
    }
    if block.slot <= state.latest_block_header.slot {
        return invalid_header(
            InvalidBeaconBlockHeader::OlderThanLatestBlockHeader {
                block_slot: block.slot,
                latest_block_header_slot: state.latest_block_header.slot,
            },
        );
    }
    let proposer_index = get_beacon_proposer_index(state, context)?;
    if block.proposer_index != proposer_index {
        return invalid_header(
            InvalidBeaconBlockHeader::ProposerIndexMismatch {
                block_proposer_index: block.proposer_index,
                proposer_index,
            },
        );
    }
    let expected = state.latest_block_header.hash_tree_root();
    if !bytes_equal(&block.parent_root, &expected) {
        return invalid_header(
            InvalidBeaconBlockHeader::ParentBlockRootMismatch {
                expected,
                provided: block.parent_root,
            },
        );
    }
    let body_root = block.body.hash_tree_root(context)?;
    if state.validators[block.proposer_index].slashed {
        return invalid_header(InvalidBeaconBlockHeader::ProposerSlashed(block.proposer_index));
    }
    state.latest_block_header = BeaconBlockHeader {
        slot: block.slot,
        proposer_index: block.proposer_index,
        parent_root: block.parent_root,
        state_root: [0u8; 32],
        body_root,
    };
    Ok(())
}

/// What the proposer signs to reveal its randao value: the root of the
/// current epoch under the randao domain.
pub open spec fn randao_signing_root(s: StateView, c: Context) -> Root {
    signing_root(
        array_of(u64_chunk(current_epoch(s, c))),
        domain_array(
            state_domain(s, DomainType::Randao, Some(current_epoch(s, c)), c),
        ),
    )
}

/// The state after the randao reveal of a block was processed: the reveal
/// is the proposer's signature of the current epoch, and its digest is
/// mixed into the randao mix of the epoch.
#[verifier::opaque]
pub open spec fn randao_processed(s: StateView, reveal: BlsSignature, c: Context) -> Result<
    StateView,
    TransitionError,
> {
    match beacon_proposer_index(s, c) {
        Err(e) => Err(e),
        Ok(proposer) => if !signature_valid(
            s.validators[proposer as int].public_key,
            randao_signing_root(s, c)@,
            reveal,
        ) {
            Err(TransitionError::InvalidRandao(reveal))
        } else {
            Ok(
                StateView {
                    randao_mixes: s.randao_mixes.update(
                        current_epoch(s, c) as int % s.randao_mixes.len() as int,
                        xored(randao_mix(s, current_epoch(s, c)), sha256(reveal@)),
                    ),
                    ..s
                },
            )
        },
    }
}

/// Checks the randao reveal of a block and mixes it into the randao mix of the epoch.
pub fn process_randao(state: &mut BeaconState, body: &BeaconBlockBody, context: &Context) -> (r:
    Result<(), TransitionError>)
    requires
        context.valid(),
        wf(old(state)@, *context),
    ensures
        follows(old(state)@, final(state)@, r, randao_processed(old(state)@, body.randao_reveal, *context)),
        wf(final(state)@, *context),
        same_finality(old(state)@, final(state)@),
        registry_moves_on(old(state)@, final(state)@),
{
    reveal(randao_processed);
    let epoch = get_current_epoch(state, context);
    let proposer_index = get_beacon_proposer_index(state, context)?;
    let domain = get_domain(state, DomainType::Randao, Some(epoch), context);
    let mut chunk: Vec<u8> = Vec::new();
    push_u64(&mut chunk, epoch);
    let mut epoch_root: Bytes32 = [0u8; 32];
    let mut i: usize = 0;
    while i < 32
        invariant
            i <= 32,
            chunk@.len() == 32,
            forall|j: int| 0 <= j < i ==> epoch_root[j] == chunk@[j],
        decreases 32 - i,
    {
        epoch_root[i] = chunk[i];
        i += 1;
    }
    proof {
        assert(chunk@ =~= u64_chunk(epoch));
        assert(epoch_root@ =~= u64_chunk(epoch));
        lemma_array_of(epoch_root);
        lemma_domain_array(domain);
    }
    let root = compute_signing_root(epoch_root, domain);
    if !verify_signature(
        &state.validators[proposer_index].public_key,
        root.as_slice(),
        &body.randao_reveal,
    ) {
        return Err(TransitionError::InvalidRandao(body.randao_reveal));
    }
    let digest = hash(body.randao_reveal.as_slice());
    let mix = xor_bytes32(&get_randao_mix(state, epoch), &digest);
    let length = state.randao_mixes.len();
    let position = (epoch % (length as u64)) as usize;
    state.randao_mixes[position] = mix;
    proof {
        assert(state@.randao_mixes =~= randao_processed(
            old(state)@,
            body.randao_reveal,
            *context,
        )->Ok_0.randao_mixes);
    }
    Ok(())
}

/// Whether two votes on eth1 data are the same.
pub fn eth1_data_equal(a: &Eth1Data, b: &Eth1Data) -> (r: bool)
    ensures
        r == (*a == *b),
{
    bytes_equal(&a.deposit_root, &b.deposit_root) && a.deposit_count == b.deposit_count
        && bytes_equal(&a.block_hash, &b.block_hash)
}

/// How many of the first `n` votes are for `vote`.
pub open spec fn vote_count(votes: Seq<Eth1Data>, vote: Eth1Data, n: int) -> int
    decreases n,
{
    if n <= 0 {
        0
    } else {
        vote_count(votes, vote, n - 1) + if votes[n - 1] == vote {
            1int
        } else {
            0int
        }
    }
}

/// The state after the vote on eth1 data of a block was processed: the
/// vote joins the votes of the voting period, which must have room for it,
/// and becomes the eth1 data of the state once more than half of the votes
/// that the period can hold are for it.
#[verifier::opaque]
pub open spec fn eth1_data_processed(s: StateView, vote: Eth1Data, c: Context) -> Result<
    StateView,
    TransitionError,
> {
    if s.eth1_data_votes.len() >= eth1_votes_limit(c) {
        Err(
            TransitionError::InvalidEth1Vote {
                votes: s.eth1_data_votes.len() as usize,
                capacity: if eth1_votes_limit(c) > u64::MAX {
                    u64::MAX
                } else {
                    eth1_votes_limit(c) as u64
                },
            },
        )
    } else {
        let votes = s.eth1_data_votes.push(vote);
        Ok(
            StateView {
                eth1_data_votes: votes,
                eth1_data: if vote_count(votes, vote, votes.len() as int) * 2 > eth1_votes_limit(
                    c,
                ) {
                    vote
                } else {
                    s.eth1_data
                },
                ..s
            },
        )
    }
}

/// Adds the vote on eth1 data of a block to the votes of the voting period.
pub fn process_eth1_data(state: &mut BeaconState, body: &BeaconBlockBody, context: &Context) -> (r:
    Result<(), TransitionError>)
    requires
        context.valid(),
        wf(old(state)@, *context),
    ensures
        follows(old(state)@, final(state)@, r, eth1_data_processed(old(state)@, body.eth1_data, *context)),
        wf(final(state)@, *context),
        same_finality(old(state)@, final(state)@),
        registry_moves_on(old(state)@, final(state)@),
{
    reveal(eth1_data_processed);
    let limit = wide_mul(context.epochs_per_eth1_voting_period, context.slots_per_epoch);
    if state.eth1_data_votes.len() as u128 >= limit {
        return Err(
            TransitionError::InvalidEth1Vote {
                votes: state.eth1_data_votes.len(),
                capacity: if limit > u64::MAX as u128 {
                    u64::MAX
                } else {
                    limit as u64
                },
            },
        );
    }
    state.eth1_data_votes.push(body.eth1_data);
    let n = state.eth1_data_votes.len();
    let mut count: usize = 0;
    let mut i: usize = 0;
    while i < n
        invariant
            i <= n,
            n == state.eth1_data_votes@.len(),
            count <= i,
            count == vote_count(state.eth1_data_votes@, body.eth1_data, i as int),
        decreases n - i,
    {
        if eth1_data_equal(&state.eth1_data_votes[i], &body.eth1_data) {
            count += 1;
        }
        i += 1;
    }
    if count as u128 * 2 > limit {
        state.eth1_data = body.eth1_data;
    }
    Ok(())
}

/// The state after one proposer slashing of a block.
#[verifier::opaque]
pub open spec fn proposer_slashing_step(s: StateView, p: ProposerSlashing, c: Context) -> Result<
    StateView,
    TransitionError,
> {
    proposer_slashing_processed(s, p, c)
}

/// The state after one attester slashing of a block.
#[verifier::opaque]
pub open spec fn attester_slashing_step(s: StateView, a: AttesterSlashing, c: Context) -> Result<
    StateView,
    TransitionError,
> {
    attester_slashing_processed(s, a.attestation_1, a.attestation_2, c)
}

/// The state after one attestation of a block.
#[verifier::opaque]
pub open spec fn attestation_step(s: StateView, a: Attestation, c: Context) -> Result<
    StateView,
    TransitionError,
> {
    attestation_processed(s, a.data, a.aggregation_bits@, a.signature, c)
}

/// The state after one deposit of a block.
#[verifier::opaque]
pub open spec fn deposit_step(s: StateView, d: Deposit, c: Context) -> Result<
    StateView,
    TransitionError,
> {
    deposit_processed(s, d.proof@, d.data, c)
}

/// The state after one voluntary exit of a block.
#[verifier::opaque]
pub open spec fn voluntary_exit_step(s: StateView, e: SignedVoluntaryExit, c: Context) -> Result<
    StateView,
    TransitionError,
> {
    voluntary_exit_processed(s, e, c)
}

/// The state after the first `n` proposer slashings were processed in
/// turn.
pub open spec fn proposer_slashings_processed(
    s: StateView,
    ops: Seq<ProposerSlashing>,
    n: int,
    c: Context,
) -> Result<StateView, TransitionError>
    decreases n,
{
    if n <= 0 {
        Ok(s)
    } else {
        match proposer_slashings_processed(s, ops, n - 1, c) {
            Ok(t) => proposer_slashing_step(t, ops[n - 1], c),
            Err(e) => Err(e),
        }
    }
}

/// The state after the first `n` attester slashings were processed in
/// turn.
pub open spec fn attester_slashings_processed(
    s: StateView,
    ops: Seq<AttesterSlashing>,
    n: int,
    c: Context,
) -> Result<StateView, TransitionError>
    decreases n,
{
    if n <= 0 {
        Ok(s)
    } else {
        match attester_slashings_processed(s, ops, n - 1, c) {
            Ok(t) => attester_slashing_step(t, ops[n - 1], c),
            Err(e) => Err(e),
        }
    }
}

/// The state after the first `n` attestations were processed in turn.
pub open spec fn attestations_processed(s: StateView, ops: Seq<Attestation>, n: int, c: Context) -> Result<
    StateView,
    TransitionError,
>
    decreases n,
{
    if n <= 0 {
        Ok(s)
    } else {
        match attestations_processed(s, ops, n - 1, c) {
            Ok(t) => attestation_step(t, ops[n - 1], c),
            Err(e) => Err(e),
        }
    }
}

/// The state after the first `n` deposits were processed in turn.
pub open spec fn deposits_processed(s: StateView, ops: Seq<Deposit>, n: int, c: Context) -> Result<
    StateView,
    TransitionError,
>
    decreases n,
{
    if n <= 0 {
        Ok(s)
    } else {
        match deposits_processed(s, ops, n - 1, c) {
            Ok(t) => deposit_step(t, ops[n - 1], c),
            Err(e) => Err(e),
        }
    }
}

/// The state after the first `n` voluntary exits were processed in turn.
pub open spec fn voluntary_exits_processed(
    s: StateView,
    ops: Seq<SignedVoluntaryExit>,
    n: int,
    c: Context,
) -> Result<StateView, TransitionError>
    decreases n,
{
    if n <= 0 {
        Ok(s)
    } else {
        match voluntary_exits_processed(s, ops, n - 1, c) {
            Ok(t) => voluntary_exit_step(t, ops[n - 1], c),
            Err(e) => Err(e),
        }
    }
}

proof fn lemma_proposer_slashings_fail(
    s: StateView,
    ops: Seq<ProposerSlashing>,
    m: int,
    n: int,
    c: Context,
)
    requires
        0 <= m <= n,
        proposer_slashings_processed(s, ops, m, c) is Err,
    ensures
        proposer_slashings_processed(s, ops, n, c) == proposer_slashings_processed(s, ops, m, c),
    decreases n,
{
    if m < n {
        lemma_proposer_slashings_fail(s, ops, m, n - 1, c);
    }
}

proof fn lemma_attester_slashings_fail(
    s: StateView,
    ops: Seq<AttesterSlashing>,
    m: int,
    n: int,
    c: Context,
)
    requires
        0 <= m <= n,
        attester_slashings_processed(s, ops, m, c) is Err,
    ensures
        attester_slashings_processed(s, ops, n, c) == attester_slashings_processed(s, ops, m, c),
    decreases n,
{
    if m < n {
        lemma_attester_slashings_fail(s, ops, m, n - 1, c);
    }
}

proof fn lemma_attestations_fail(s: StateView, ops: Seq<Attestation>, m: int, n: int, c: Context)
    requires
        0 <= m <= n,
        attestations_processed(s, ops, m, c) is Err,
    ensures
        attestations_processed(s, ops, n, c) == attestations_processed(s, ops, m, c),
    decreases n,
{
    if m < n {
        lemma_attestations_fail(s, ops, m, n - 1, c);
    }
}

proof fn lemma_deposits_fail(s: StateView, ops: Seq<Deposit>, m: int, n: int, c: Context)
    requires
        0 <= m <= n,
        deposits_processed(s, ops, m, c) is Err,
    ensures
        deposits_processed(s, ops, n, c) == deposits_processed(s, ops, m, c),
    decreases n,
{
    if m < n {
        lemma_deposits_fail(s, ops, m, n - 1, c);
    }
}

proof fn lemma_voluntary_exits_fail(
    s: StateView,
    ops: Seq<SignedVoluntaryExit>,
    m: int,
    n: int,
    c: Context,
)
    requires
        0 <= m <= n,
        voluntary_exits_processed(s, ops, m, c) is Err,
    ensures
        voluntary_exits_processed(s, ops, n, c) == voluntary_exits_processed(s, ops, m, c),
    decreases n,
{
    if m < n {
        lemma_voluntary_exits_fail(s, ops, m, n - 1, c);
    }
}

fn apply_proposer_slashing(state: &mut BeaconState, p: &ProposerSlashing, context: &Context) -> (r:
    Result<(), TransitionError>)
    requires
        context.valid(),
        wf(old(state)@, *context),
    ensures
        follows(old(state)@, final(state)@, r, proposer_slashing_step(old(state)@, *p, *context)),
        wf(final(state)@, *context),
        same_finality(old(state)@, final(state)@),
        registry_moves_on(old(state)@, final(state)@),
{
    reveal(proposer_slashing_step);
    process_proposer_slashing(state, p, context)
}

fn apply_attester_slashing(state: &mut BeaconState, a: &AttesterSlashing, context: &Context) -> (r:
    Result<(), TransitionError>)
    requires
        context.valid(),
        wf(old(state)@, *context),
    ensures
        follows(old(state)@, final(state)@, r, attester_slashing_step(old(state)@, *a, *context)),
        wf(final(state)@, *context),
        same_finality(old(state)@, final(state)@),
        registry_moves_on(old(state)@, final(state)@),
{
    reveal(attester_slashing_step);
    process_attester_slashing(state, a, context)
}

fn apply_attestation(state: &mut BeaconState, a: &Attestation, context: &Context) -> (r: Result<
    (),
    TransitionError,
>)
    requires
        context.valid(),
        wf(old(state)@, *context),
    ensures
        follows(old(state)@, final(state)@, r, attestation_step(old(state)@, *a, *context)),
        wf(final(state)@, *context),
        same_finality(old(state)@, final(state)@),
        registry_moves_on(old(state)@, final(state)@),
{
    reveal(attestation_step);
    process_attestation(state, a, context)
}

fn apply_deposit(state: &mut BeaconState, d: &Deposit, context: &Context) -> (r: Result<
    (),
    TransitionError,
>)
    requires
        context.valid(),
        wf(old(state)@, *context),
    ensures
        follows(old(state)@, final(state)@, r, deposit_step(old(state)@, *d, *context)),
        wf(final(state)@, *context),
        same_finality(old(state)@, final(state)@),
        registry_moves_on(old(state)@, final(state)@),
{
    reveal(deposit_step);
    process_deposit(state, d, context)
}

fn apply_voluntary_exit(state: &mut BeaconState, e: &SignedVoluntaryExit, context: &Context) -> (r:
    Result<(), TransitionError>)
    requires
        context.valid(),
        wf(old(state)@, *context),
    ensures
        follows(old(state)@, final(state)@, r, voluntary_exit_step(old(state)@, *e, *context)),
        wf(final(state)@, *context),
        same_finality(old(state)@, final(state)@),
        registry_moves_on(old(state)@, final(state)@),
{
    reveal(voluntary_exit_step);
    process_voluntary_exit(state, e, context)
}

/// How many deposits a block must carry: those that the eth1 data counts
/// and the state has not seen, up to the maximum of a block.
pub open spec fn expected_deposits(s: StateView, c: Context) -> Result<usize, TransitionError> {
    if s.eth1_data.deposit_count < s.eth1_deposit_index {
        Err(TransitionError::Underflow)
    } else if s.eth1_data.deposit_count - s.eth1_deposit_index < c.max_deposits {
        Ok((s.eth1_data.deposit_count - s.eth1_deposit_index) as usize)
    } else {
        Ok(c.max_deposits)
    }
}

/// The first reason for which the operations of a block cannot even be
/// looked at, if any: a list is longer than a block may carry, or the block
/// does not carry the deposits that are due.
pub open spec fn operations_fault(s: StateView, b: BeaconBlockBody, c: Context) -> Option<
    TransitionError,
> {
    if b.proposer_slashings@.len() > c.max_proposer_slashings {
        Some(
            TransitionError::TooManyOperations {
                kind: OperationKind::ProposerSlashing,
                count: b.proposer_slashings@.len() as usize,
                limit: c.max_proposer_slashings,
            },
        )
    } else if b.attester_slashings@.len() > c.max_attester_slashings {
        Some(
            TransitionError::TooManyOperations {
                kind: OperationKind::AttesterSlashing,
                count: b.attester_slashings@.len() as usize,
                limit: c.max_attester_slashings,
            },
        )
    } else if b.attestations@.len() > c.max_attestations {
        Some(
            TransitionError::TooManyOperations {
                kind: OperationKind::Attestation,
                count: b.attestations@.len() as usize,
                limit: c.max_attestations,
            },
        )
    } else if b.deposits@.len() > c.max_deposits {
        Some(
            TransitionError::TooManyOperations {
                kind: OperationKind::Deposit,
                count: b.deposits@.len() as usize,
                limit: c.max_deposits,
            },
        )
    } else if b.voluntary_exits@.len() > c.max_voluntary_exits {
        Some(
            TransitionError::TooManyOperations {
                kind: OperationKind::VoluntaryExit,
                count: b.voluntary_exits@.len() as usize,
                limit: c.max_voluntary_exits,
            },
        )
    } else {
        match expected_deposits(s, c) {
            Err(e) => Some(e),
            Ok(expected) => if b.deposits@.len() != expected {
                Some(
                    TransitionError::DepositCountMismatch {
                        outstanding: expected,
                        provided: b.deposits@.len() as usize,
                    },
                )
            } else {
                None
            },
        }
    }
}

/// The state after the operations of a block were processed: no list is
/// longer than a block may carry, the deposits that are due are there, and
/// the proposer slashings, attester slashings, attestations, deposits and
/// voluntary exits are processed in this order, each list from its first
/// entry to its last.
#[verifier::opaque]
pub open spec fn operations_processed(s: StateView, b: BeaconBlockBody, c: Context) -> Result<
    StateView,
    TransitionError,
> {
    match operations_fault(s, b, c) {
        Some(e) => Err(e),
        None => match proposer_slashings_processed(
            s,
            b.proposer_slashings@,
            b.proposer_slashings@.len() as int,
            c,
        ) {
            Err(e) => Err(e),
            Ok(s1) => match attester_slashings_processed(
                s1,
                b.attester_slashings@,
                b.attester_slashings@.len() as int,
                c,
            ) {
                Err(e) => Err(e),
                Ok(s2) => match attestations_processed(
                    s2,
                    b.attestations@,
                    b.attestations@.len() as int,
                    c,
                ) {
                    Err(e) => Err(e),
                    Ok(s3) => match deposits_processed(s3, b.deposits@, b.deposits@.len() as int, c) {
                        Err(e) => Err(e),
                        Ok(s4) => voluntary_exits_processed(
                            s4,
                            b.voluntary_exits@,
                            b.voluntary_exits@.len() as int,
                            c,
                        ),
                    },
                },
            },
        },
    }
}

fn check_operations(state: &BeaconState, body: &BeaconBlockBody, context: &Context) -> (r: Result<
    (),
    TransitionError,
>)
    ensures
        match operations_fault(state@, *body, *context) {
            Some(e) => r == Err::<(), TransitionError>(e),
            None => r is Ok,
        },
{
    if body.proposer_slashings.len() > context.max_proposer_slashings {
        return Err(
            TransitionError::TooManyOperations {
                kind: OperationKind::ProposerSlashing,
                count: body.proposer_slashings.len(),
                limit: context.max_proposer_slashings,
            },
        );
    }
    if body.attester_slashings.len() > context.max_attester_slashings {
        return Err(
            TransitionError::TooManyOperations {
                kind: OperationKind::AttesterSlashing,
                count: body.attester_slashings.len(),
                limit: context.max_attester_slashings,
            },
        );
    }
    if body.attestations.len() > context.max_attestations {
        return Err(
            TransitionError::TooManyOperations {
                kind: OperationKind::Attestation,
                count: body.attestations.len(),
                limit: context.max_attestations,
            },
        );
    }
    if body.deposits.len() > context.max_deposits {
        return Err(
            TransitionError::TooManyOperations {
                kind: OperationKind::Deposit,
                count: body.deposits.len(),
                limit: context.max_deposits,
            },
        );
    }
    if body.voluntary_exits.len() > context.max_voluntary_exits {
        return Err(
            TransitionError::TooManyOperations {
                kind: OperationKind::VoluntaryExit,
                count: body.voluntary_exits.len(),
                limit: context.max_voluntary_exits,
            },
        );
    }
    if state.eth1_data.deposit_count < state.eth1_deposit_index {
        return Err(TransitionError::Underflow);
    }
    let outstanding = state.eth1_data.deposit_count - state.eth1_deposit_index;
    let expected = if outstanding < context.max_deposits as u64 {
        outstanding as usize
    } else {
        context.max_deposits
    };
    if body.deposits.len() != expected {
        return Err(
            TransitionError::DepositCountMismatch {
                outstanding: expected,
                provided: body.deposits.len(),
            },
        );
    }
    Ok(())
}

fn process_proposer_slashings(
    state: &mut BeaconState,
    ops: &Vec<ProposerSlashing>,
    context: &Context,
) -> (r: Result<(), TransitionError>)
    requires
        context.valid(),
        wf(old(state)@, *context),
    ensures
        r is Ok ==> proposer_slashings_processed(old(state)@, ops@, ops@.len() as int, *context)
            == Ok::<StateView, TransitionError>(final(state)@),
        r matches Err(e) ==> proposer_slashings_processed(
            old(state)@,
            ops@,
            ops@.len() as int,
            *context,
        ) == Err::<StateView, TransitionError>(e),
        wf(final(state)@, *context),
        same_finality(old(state)@, final(state)@),
        registry_moves_on(old(state)@, final(state)@),
{
    let mut i: usize = 0;
    while i < ops.len()
        invariant
            i <= ops.len(),
            context.valid(),
            wf(state@, *context),
            same_finality(old(state)@, state@),
            registry_moves_on(old(state)@, state@),
            proposer_slashings_processed(old(state)@, ops@, i as int, *context) == Ok::<
                StateView,
                TransitionError,
            >(state@),
        decreases ops.len() - i,
    {
        match apply_proposer_slashing(state, &ops[i], context) {
            Ok(()) => {},
            Err(e) => {
                proof {
                    lemma_proposer_slashings_fail(
                        old(state)@,
                        ops@,
                        i as int + 1,
                        ops@.len() as int,
                        *context,
                    );
                }
                return Err(e);
            },
        }
        i += 1;
    }
    Ok(())
}

fn process_attester_slashings(
    state: &mut BeaconState,
    ops: &Vec<AttesterSlashing>,
    context: &Context,
) -> (r: Result<(), TransitionError>)
    requires
        context.valid(),
        wf(old(state)@, *context),
    ensures
        r is Ok ==> attester_slashings_processed(old(state)@, ops@, ops@.len() as int, *context)
            == Ok::<StateView, TransitionError>(final(state)@),
        r matches Err(e) ==> attester_slashings_processed(
            old(state)@,
            ops@,
            ops@.len() as int,
            *context,
        ) == Err::<StateView, TransitionError>(e),
        wf(final(state)@, *context),
        same_finality(old(state)@, final(state)@),
        registry_moves_on(old(state)@, final(state)@),
{
    let mut i: usize = 0;
    while i < ops.len()
        invariant
            i <= ops.len(),
            context.valid(),
            wf(state@, *context),
            same_finality(old(state)@, state@),
            registry_moves_on(old(state)@, state@),
            attester_slashings_processed(old(state)@, ops@, i as int, *context) == Ok::<
                StateView,
                TransitionError,
            >(state@),
        decreases ops.len() - i,
    {
        match apply_attester_slashing(state, &ops[i], context) {
            Ok(()) => {},
            Err(e) => {
                proof {
                    lemma_attester_slashings_fail(
                        old(state)@,
                        ops@,
                        i as int + 1,
                        ops@.len() as int,
                        *context,
                    );
                }
                return Err(e);
            },
        }
        i += 1;
    }
    Ok(())
}

fn process_attestations(state: &mut BeaconState, ops: &Vec<Attestation>, context: &Context) -> (r:
    Result<(), TransitionError>)
    requires
        context.valid(),
        wf(old(state)@, *context),
    ensures
        r is Ok ==> attestations_processed(old(state)@, ops@, ops@.len() as int, *context) == Ok::<
            StateView,
            TransitionError,
        >(final(state)@),
        r matches Err(e) ==> attestations_processed(old(state)@, ops@, ops@.len() as int, *context)
            == Err::<StateView, TransitionError>(e),
        wf(final(state)@, *context),
        same_finality(old(state)@, final(state)@),
        registry_moves_on(old(state)@, final(state)@),
{
    let mut i: usize = 0;
    while i < ops.len()
        invariant
            i <= ops.len(),
            context.valid(),
            wf(state@, *context),
            same_finality(old(state)@, state@),
            registry_moves_on(old(state)@, state@),
            attestations_processed(old(state)@, ops@, i as int, *context) == Ok::<
                StateView,
                TransitionError,
            >(state@),
        decreases ops.len() - i,
    {
        match apply_attestation(state, &ops[i], context) {
            Ok(()) => {},
            Err(e) => {
                proof {
                    lemma_attestations_fail(
                        old(state)@,
                        ops@,
                        i as int + 1,
                        ops@.len() as int,
                        *context,
                    );
                }
                return Err(e);
            },
        }
        i += 1;
    }
    Ok(())
}

fn process_deposits(state: &mut BeaconState, ops: &Vec<Deposit>, context: &Context) -> (r: Result<
    (),
    TransitionError,
>)
    requires
        context.valid(),
        wf(old(state)@, *context),
    ensures
        r is Ok ==> deposits_processed(old(state)@, ops@, ops@.len() as int, *context) == Ok::<
            StateView,
            TransitionError,
        >(final(state)@),
        r matches Err(e) ==> deposits_processed(old(state)@, ops@, ops@.len() as int, *context)
            == Err::<StateView, TransitionError>(e),
        wf(final(state)@, *context),
        same_finality(old(state)@, final(state)@),
        registry_moves_on(old(state)@, final(state)@),
{
    let mut i: usize = 0;
    while i < ops.len()
        invariant
            i <= ops.len(),
            context.valid(),
            wf(state@, *context),
            same_finality(old(state)@, state@),
            registry_moves_on(old(state)@, state@),
            deposits_processed(old(state)@, ops@, i as int, *context) == Ok::<
                StateView,
                TransitionError,
            >(state@),
        decreases ops.len() - i,
    {
        match apply_deposit(state, &ops[i], context) {
            Ok(()) => {},
            Err(e) => {
                proof {
                    lemma_deposits_fail(old(state)@, ops@, i as int + 1, ops@.len() as int, *context);
                }
                return Err(e);
            },
        }
        i += 1;
    }
    Ok(())
}

fn process_voluntary_exits(
    state: &mut BeaconState,
    ops: &Vec<SignedVoluntaryExit>,
    context: &Context,
) -> (r: Result<(), TransitionError>)
    requires
        context.valid(),
        wf(old(state)@, *context),
    ensures
        r is Ok ==> voluntary_exits_processed(old(state)@, ops@, ops@.len() as int, *context)
            == Ok::<StateView, TransitionError>(final(state)@),
        r matches Err(e) ==> voluntary_exits_processed(
            old(state)@,
            ops@,
            ops@.len() as int,
            *context,
        ) == Err::<StateView, TransitionError>(e),
        wf(final(state)@, *context),
        same_finality(old(state)@, final(state)@),
        registry_moves_on(old(state)@, final(state)@),
{
    let mut i: usize = 0;
    while i < ops.len()
        invariant
            i <= ops.len(),
            context.valid(),
            wf(state@, *context),
            same_finality(old(state)@, state@),
            registry_moves_on(old(state)@, state@),
            voluntary_exits_processed(old(state)@, ops@, i as int, *context) == Ok::<
                StateView,
                TransitionError,
            >(state@),
        decreases ops.len() - i,
    {
        match apply_voluntary_exit(state, &ops[i], context) {
            Ok(()) => {},
            Err(e) => {
                proof {
                    lemma_voluntary_exits_fail(
                        old(state)@,
                        ops@,
                        i as int + 1,
                        ops@.len() as int,
                        *context,
                    );
                }
                return Err(e);
            },
        }
        i += 1;
    }
    Ok(())
}

/// Processes every operation of a block body, or none where one of them fails.
pub fn process_operations(state: &mut BeaconState, body: &BeaconBlockBody, context: &Context) -> (r:
    Result<(), TransitionError>)
    requires
        context.valid(),
        wf(old(state)@, *context),
    ensures
        follows(old(state)@, final(state)@, r, operations_processed(old(state)@, *body, *context)),
        wf(final(state)@, *context),
        same_finality(old(state)@, final(state)@),
        registry_moves_on(old(state)@, final(state)@),
{
    reveal(operations_processed);
    check_operations(state, body, context)?;
    let backup = state.duplicate();
    if let Err(e) = process_proposer_slashings(state, &body.proposer_slashings, context) {
        state.restore(backup);
        return Err(e);
    }
    if let Err(e) = process_attester_slashings(state, &body.attester_slashings, context) {
        state.restore(backup);
        return Err(e);
    }
    if let Err(e) = process_attestations(state, &body.attestations, context) {
        state.restore(backup);
        return Err(e);
    }
    if let Err(e) = process_deposits(state, &body.deposits, context) {
        state.restore(backup);
        return Err(e);
    }
    if let Err(e) = process_voluntary_exits(state, &body.voluntary_exits, context) {
        state.restore(backup);
        return Err(e);
    }
    Ok(())
}

/// The state after the sync aggregate of a block.
#[verifier::opaque]
pub open spec fn sync_aggregate_step(s: StateView, b: BeaconBlockBody, c: Context) -> Result<
    StateView,
    TransitionError,
> {
    sync_aggregate_processed(
        s,
        b.sync_aggregate.sync_committee_bits@,
        b.sync_aggregate.sync_committee_signature,
        c,
    )
}

fn apply_sync_aggregate(state: &mut BeaconState, body: &BeaconBlockBody, context: &Context) -> (r:
    Result<(), TransitionError>)
    requires
        context.valid(),
        wf(old(state)@, *context),
    ensures
        follows(old(state)@, final(state)@, r, sync_aggregate_step(old(state)@, *body, *context)),
        wf(final(state)@, *context),
        same_finality(old(state)@, final(state)@),
        registry_moves_on(old(state)@, final(state)@),
{
    reveal(sync_aggregate_step);
    process_sync_aggregate(state, &body.sync_aggregate, context)
}

/// The state after a block was processed: its header, its randao reveal,
/// its vote on eth1 data, its operations and its sync aggregate, in this
/// order, and the error of the first of these that fails.
pub open spec fn block_processed(s: StateView, b: BeaconBlock, c: Context) -> Result<
    StateView,
    TransitionError,
> {
    match block_header_processed(s, b, c) {
        Err(e) => Err(e),
        Ok(s1) => match randao_processed(s1, b.body.randao_reveal, c) {
            Err(e) => Err(e),
            Ok(s2) => match eth1_data_processed(s2, b.body.eth1_data, c) {
                Err(e) => Err(e),
                Ok(s3) => match operations_processed(s3, b.body, c) {
                    Err(e) => Err(e),
                    Ok(s4) => sync_aggregate_step(s4, b.body, c),
                },
            },
        },
    }
}

/// Processes a block, or leaves the state as it was where a stage fails.
pub fn process_block(state: &mut BeaconState, block: &BeaconBlock, context: &Context) -> (r: Result<
    (),
    TransitionError,
>)
    requires
        context.valid(),
        wf(old(state)@, *context),
    ensures
        follows(old(state)@, final(state)@, r, block_processed(old(state)@, *block, *context)),
        wf(final(state)@, *context),
        same_finality(old(state)@, final(state)@),
        registry_moves_on(old(state)@, final(state)@),
{
    let backup = state.duplicate();
    if let Err(e) = process_block_header(state, block, context) {
        return Err(e);
    }
    if let Err(e) = process_randao(state, &block.body, context) {
        state.restore(backup);
        return Err(e);
    }
    if let Err(e) = process_eth1_data(state, &block.body, context) {
        state.restore(backup);
        return Err(e);
    }
    if let Err(e) = process_operations(state, &block.body, context) {
        state.restore(backup);
        return Err(e);
    }
    if let Err(e) = apply_sync_aggregate(state, &block.body, context) {
        state.restore(backup);
        return Err(e);
    }
    Ok(())
}

/// The operations of a block fail with the error of the bitfield length
/// where everything before an attestation is accepted and the attestation,
/// which passes the checks that come before the bitfield, has another number
/// of aggregation bits than its committee has members.
pub proof fn lemma_operations_with_mismatched_bitfield(
    s: StateView,
    b: BeaconBlockBody,
    k: int,
    c: Context,
)
    requires
        0 <= k < b.attestations@.len(),
        operations_fault(s, b, c) is None,
        proposer_slashings_processed(
            s,
            b.proposer_slashings@,
            b.proposer_slashings@.len() as int,
            c,
        ) is Ok,
        attester_slashings_processed(
            proposer_slashings_processed(
                s,
                b.proposer_slashings@,
                b.proposer_slashings@.len() as int,
                c,
            )->Ok_0,
            b.attester_slashings@,
            b.attester_slashings@.len() as int,
            c,
        ) is Ok,
        attestations_processed(before_attestations(s, b, c), b.attestations@, k, c) is Ok,
        ({
            let t = attestations_processed(before_attestations(s, b, c), b.attestations@, k, c)->Ok_0;
            let data = b.attestations@[k].data;
            &&& data.target.epoch == previous_epoch(t, c) || data.target.epoch == current_epoch(t, c)
            &&& data.target.epoch == epoch_at_slot(data.slot, c)
            &&& data.slot + c.min_attestation_inclusion_delay <= t.slot <= data.slot
                + c.slots_per_epoch
            &&& data.index < committee_count_per_slot(t, data.target.epoch, c)
            &&& beacon_committee(t, data.slot, data.index as u64, c) is Ok
            &&& b.attestations@[k].aggregation_bits@.len() != beacon_committee(
                t,
                data.slot,
                data.index as u64,
                c,
            )->Ok_0.len()
        }),
    ensures
        operations_processed(s, b, c) matches Err(
            TransitionError::InvalidOperation(
                InvalidOperation::Attestation(InvalidAttestation::Bitfield { .. }),
            ),
        ),
{
    reveal(operations_processed);
    reveal(attestation_step);
    let s2 = before_attestations(s, b, c);
    let t = attestations_processed(s2, b.attestations@, k, c)->Ok_0;
    let a = b.attestations@[k];
    crate::attestations::lemma_bitfield_length_mismatch(
        t,
        a.data,
        a.aggregation_bits@,
        a.signature,
        c,
    );
    assert(attestations_processed(s2, b.attestations@, k + 1, c) is Err);
    lemma_attestations_fail(s2, b.attestations@, k + 1, b.attestations@.len() as int, c);
}

/// The state that the attestations of a block are applied to: the state
/// after its proposer slashings and attester slashings.
pub open spec fn before_attestations(s: StateView, b: BeaconBlockBody, c: Context) -> StateView {
    attester_slashings_processed(
        proposer_slashings_processed(
            s,
            b.proposer_slashings@,
            b.proposer_slashings@.len() as int,
            c,
        )->Ok_0,
        b.attester_slashings@,
        b.attester_slashings@.len() as int,
        c,
    )->Ok_0
}

} // verus!
