//! Attestations: who attested, what their votes are worth and how a block
//! that carries them changes the state.

use vstd::prelude::*;
use crate::committees::{
    beacon_committee, beacon_proposer_index, committee_count_per_slot, get_beacon_committee,
    get_beacon_proposer_index, get_committee_count_per_slot, get_public_keys, public_keys_of,
};
use crate::context::Context;
use crate::crypto::{aggregate_signature_valid, fast_aggregate_verify, integer_square_root, isqrt};
use crate::domains::{compute_signing_root, get_domain, signing_root, state_domain, DomainType};
use crate::error::{InvalidAttestation, InvalidIndexedAttestation, InvalidOperation, TransitionError};
use crate::helpers::{
    add_flag, block_root, block_root_at_slot, compute_epoch_at_slot, current_epoch,
    epoch_at_slot, flag_set, get_block_root, get_block_root_at_slot, get_current_epoch,
    get_previous_epoch, has_flag, increased, indices_where, lemma_indices_where, previous_epoch,
    with_flag,
};
use crate::operations::{Attestation, AttestationData, IndexedAttestation};
use crate::primitives::{capped_add, capped_sum, 
    bytes_equal, checked_add, checked_mul, BlsSignature, Bytes32, Epoch, Gwei,
    ParticipationFlags, Root, Slot, ValidatorIndex, TIMELY_HEAD_WEIGHT,
    TIMELY_SOURCE_WEIGHT, TIMELY_TARGET_WEIGHT, };
use crate::rewards::{base_reward_per_increment, get_base_reward_per_increment};
use crate::ssz::attestation_data_root;
use crate::state::{registry_moves_on, same_finality, follows, wf, BeaconState, Checkpoint, StateView};

verus! {

/// What divides the reward numerator of an attestation into the reward of
/// the proposer who includes it.
pub const PROPOSER_REWARD_DENOMINATOR: u64 = 448;

/// Whether two checkpoints are the same.
pub fn checkpoints_equal(a: &Checkpoint, b: &Checkpoint) -> (r: bool)
    ensures
        r == (*a == *b),
{
    a.epoch == b.epoch && bytes_equal(&a.root, &b.root)
}

/// Whether the data of two attestations are the same.
pub fn attestation_data_equal(a: &AttestationData, b: &AttestationData) -> (r: bool)
    ensures
        r == (*a == *b),
{
    a.slot == b.slot && a.index == b.index && bytes_equal(
        &a.beacon_block_root,
        &b.beacon_block_root,
    ) && checkpoints_equal(&a.source, &b.source) && checkpoints_equal(&a.target, &b.target)
}

/// The committee that an attestation addresses, where the attestation is
/// about the previous or the current epoch, its slot lies in the epoch of
/// its target, it is included no sooner than the inclusion delay and no
/// later than an epoch after its slot, its committee exists, and it has as
/// many aggregation bits as the committee has members; and the check that
/// failed first otherwise.
pub open spec fn attested_committee(
    s: StateView,
    data: AttestationData,
    bits: nat,
    c: Context,
) -> Result<Seq<ValidatorIndex>, TransitionError> {
    if data.target.epoch != previous_epoch(s, c) && data.target.epoch != current_epoch(s, c) {
        Err(
            TransitionError::InvalidOperation(
                InvalidOperation::Attestation(
                    InvalidAttestation::InvalidTargetEpoch {
                        target: data.target.epoch,
                        current: current_epoch(s, c),
                    },
                ),
            ),
        )
    } else if data.target.epoch != epoch_at_slot(data.slot, c) {
        Err(
            TransitionError::InvalidOperation(
                InvalidOperation::Attestation(
                    InvalidAttestation::InvalidSlot {
                        slot: data.slot,
                        epoch: epoch_at_slot(data.slot, c),
                        target: data.target.epoch,
                    },
                ),
            ),
        )
    } else if !(data.slot + c.min_attestation_inclusion_delay <= s.slot && s.slot <= data.slot
        + c.slots_per_epoch) {
        Err(
            TransitionError::InvalidOperation(
                InvalidOperation::Attestation(
                    InvalidAttestation::NotTimely {
                        state_slot: s.slot,
                        attestation_slot: data.slot,
                        lower_bound: capped_sum(data.slot, c.min_attestation_inclusion_delay),
                        upper_bound: capped_sum(data.slot, c.slots_per_epoch),
                    },
                ),
            ),
        )
    } else if data.index >= committee_count_per_slot(s, data.target.epoch, c) {
        Err(
            TransitionError::InvalidOperation(
                InvalidOperation::Attestation(
                    InvalidAttestation::InvalidIndex {
                        index: data.index,
                        committee_count: committee_count_per_slot(s, data.target.epoch, c) as usize,
                    },
                ),
            ),
        )
    } else {
        match beacon_committee(s, data.slot, data.index as u64, c) {
            Err(e) => Err(e),
            Ok(committee) => if bits != committee.len() {
                Err(
                    TransitionError::InvalidOperation(
                        InvalidOperation::Attestation(
                            InvalidAttestation::Bitfield {
                                expected_length: committee.len() as usize,
                                length: bits as usize,
                            },
                        ),
                    ),
                )
            } else {
                Ok(committee)
            },
        }
    }
}

fn get_attested_committee(
    state: &BeaconState,
    data: &AttestationData,
    bits: usize,
    context: &Context,
) -> (r: Result<Vec<ValidatorIndex>, TransitionError>)
    requires
        context.valid(),
        wf(state@, *context),
    ensures
        crate::committees::list_follows(r, attested_committee(state@, *data, bits as nat, *context)),
        r matches Ok(v) ==> v@.len() == bits && forall|k: int|
            0 <= k < v@.len() ==> (#[trigger] v@[k]) < state.validators@.len(),
{
    let now = get_current_epoch(state, context);
    if data.target.epoch != get_previous_epoch(state, context) && data.target.epoch != now {
        return Err(
            TransitionError::InvalidOperation(
                InvalidOperation::Attestation(
                    InvalidAttestation::InvalidTargetEpoch {
                        target: data.target.epoch,
                        current: now,
                    },
                ),
            ),
        );
    }
    let attestation_epoch = compute_epoch_at_slot(data.slot, context);
    if data.target.epoch != attestation_epoch {
        return Err(
            TransitionError::InvalidOperation(
                InvalidOperation::Attestation(
                    InvalidAttestation::InvalidSlot {
                        slot: data.slot,
                        epoch: attestation_epoch,
                        target: data.target.epoch,
                    },
                ),
            ),
        );
    }
    let has_delay = data.slot as u128 + context.min_attestation_inclusion_delay as u128
        <= state.slot as u128;
    let is_recent = state.slot as u128 <= data.slot as u128 + context.slots_per_epoch as u128;
    if !(has_delay && is_recent) {
        return Err(
            TransitionError::InvalidOperation(
                InvalidOperation::Attestation(
                    InvalidAttestation::NotTimely {
                        state_slot: state.slot,
                        attestation_slot: data.slot,
                        lower_bound: capped_add(data.slot, context.min_attestation_inclusion_delay),
                        upper_bound: capped_add(data.slot, context.slots_per_epoch),
                    },
                ),
            ),
        );
    }
    let committee_count = get_committee_count_per_slot(state, data.target.epoch, context);
    if data.index as u64 >= committee_count {
        return Err(
            TransitionError::InvalidOperation(
                InvalidOperation::Attestation(
                    InvalidAttestation::InvalidIndex {
                        index: data.index,
                        committee_count: committee_count as usize,
                    },
                ),
            ),
        );
    }
    let committee = get_beacon_committee(state, data.slot, data.index as u64, context)?;
    if bits != committee.len() {
        return Err(
            TransitionError::InvalidOperation(
                InvalidOperation::Attestation(
                    InvalidAttestation::Bitfield {
                        expected_length: committee.len(),
                        length: bits,
                    },
                ),
            ),
        );
    }
    Ok(committee)
}

/// Which of the three timeliness flags an attestation earns.
#[derive(Clone, Copy, Debug, PartialEq, Eq)]
pub struct TimelinessFlags {
    pub source: bool,
    pub target: bool,
    pub head: bool,
}

impl TimelinessFlags {
    /// Whether the flag with the given index is among them.
    pub open spec fn has(&self, flag_index: int) -> bool {
        if flag_index == 0 {
            self.source
        } else if flag_index == 1 {
            self.target
        } else {
            self.head
        }
    }
}

/// The justified checkpoint that an attestation with the given target epoch
/// must name as its source.
pub open spec fn expected_source(s: StateView, target_epoch: Epoch, c: Context) -> Checkpoint {
    if target_epoch == current_epoch(s, c) {
        s.current_justified_checkpoint
    } else {
        s.previous_justified_checkpoint
    }
}

/// The flags that an attestation earns when it is included
/// `inclusion_delay` slots after its slot. Its source must be the justified
/// checkpoint. It earns the source flag within the square root of an epoch,
/// the target flag within an epoch where its target is the block root of
/// the target epoch, and the head flag at the least inclusion delay where
/// its head is the block root of its slot as well.
pub open spec fn participation_flags(
    s: StateView,
    data: AttestationData,
    inclusion_delay: u64,
    c: Context,
) -> Result<TimelinessFlags, TransitionError> {
    let expected = expected_source(s, data.target.epoch, c);
    if data.source != expected {
        Err(
            TransitionError::InvalidOperation(
                InvalidOperation::Attestation(
                    InvalidAttestation::InvalidSource {
                        expected_epoch: expected.epoch,
                        expected_root: expected.root,
                        source_epoch: data.source.epoch,
                        source_root: data.source.root,
                    },
                ),
            ),
        )
    } else {
        match block_root(s, data.target.epoch, c) {
            Err(e) => Err(e),
            Ok(target_root) => {
                let source = inclusion_delay <= isqrt(c.slots_per_epoch as nat);
                if data.target.root != target_root {
                    Ok(TimelinessFlags { source, target: false, head: false })
                } else {
                    match block_root_at_slot(s, data.slot) {
                        Err(e) => Err(e),
                        Ok(head_root) => Ok(
                            TimelinessFlags {
                                source,
                                target: inclusion_delay <= c.slots_per_epoch,
                                head: data.beacon_block_root == head_root && inclusion_delay
                                    == c.min_attestation_inclusion_delay,
                            },
                        ),
                    }
                }
            },
        }
    }
}

/// The timeliness flags that an attestation earns at the given inclusion delay.
pub fn get_attestation_participation_flag_indices(
    state: &BeaconState,
    data: &AttestationData,
    inclusion_delay: u64,
    context: &Context,
) -> (r: Result<TimelinessFlags, TransitionError>)
    requires
        context.valid(),
        wf(state@, *context),
    ensures
        r == participation_flags(state@, *data, inclusion_delay, *context),
{
    let expected = if data.target.epoch == get_current_epoch(state, context) {
        state.current_justified_checkpoint
    } else {
        state.previous_justified_checkpoint
    };
    if !checkpoints_equal(&data.source, &expected) {
        return Err(
            TransitionError::InvalidOperation(
                InvalidOperation::Attestation(
                    InvalidAttestation::InvalidSource {
                        expected_epoch: expected.epoch,
                        expected_root: expected.root,
                        source_epoch: data.source.epoch,
                        source_root: data.source.root,
                    },
                ),
            ),
        );
    }
    let target_root = get_block_root(state, data.target.epoch, context)?;
    let source = inclusion_delay <= integer_square_root(context.slots_per_epoch);
    if !bytes_equal(&data.target.root, &target_root) {
        return Ok(TimelinessFlags { source, target: false, head: false });
    }
    let head_root = get_block_root_at_slot(state, data.slot)?;
    Ok(
        TimelinessFlags {
            source,
            target: inclusion_delay <= context.slots_per_epoch,
            head: bytes_equal(&data.beacon_block_root, &head_root) && inclusion_delay
                == context.min_attestation_inclusion_delay,
        },
    )
}

/// Whether one of the first `n` members of a committee has its aggregation
/// bit set and is the validator `v`.
pub open spec fn attests_among(
    committee: Seq<ValidatorIndex>,
    bits: Seq<bool>,
    n: int,
    v: int,
) -> bool {
    exists|k: int| 0 <= k < n && bits[k] && #[trigger] committee[k] == v
}

/// Which validators attest: the members of the committee whose aggregation
/// bit is set.
pub open spec fn attesting(committee: Seq<ValidatorIndex>, bits: Seq<bool>) -> spec_fn(
    int,
) -> bool {
    |v: int| attests_among(committee, bits, committee.len() as int, v)
}

/// For each validator, whether it attests.
fn attesting_marks(n: usize, committee: &Vec<ValidatorIndex>, bits: &Vec<bool>) -> (marks: Vec<
    bool,
>)
    requires
        committee@.len() == bits@.len(),
        forall|k: int| 0 <= k < committee@.len() ==> (#[trigger] committee@[k]) < n,
    ensures
        marks@.len() == n,
        forall|v: int| 0 <= v < n ==> marks@[v] == attesting(committee@, bits@)(v),
{
    let mut marks: Vec<bool> = Vec::new();
    let mut i: usize = 0;
    while i < n
        invariant
            i <= n,
            marks@.len() == i,
            forall|v: int| 0 <= v < i ==> !marks@[v],
        decreases n - i,
    {
        marks.push(false);
        i += 1;
    }
    let mut k: usize = 0;
    while k < committee.len()
        invariant
            k <= committee.len(),
            committee@.len() == bits@.len(),
            forall|j: int| 0 <= j < committee@.len() ==> (#[trigger] committee@[j]) < n,
            marks@.len() == n,
            forall|v: int|
                0 <= v < n ==> marks@[v] == attests_among(committee@, bits@, k as int, v),
        decreases committee.len() - k,
    {
        let ghost before = marks@;
        if bits[k] {
            marks[committee[k]] = true;
        }
        proof {
            assert forall|v: int| 0 <= v < n implies marks@[v] == attests_among(
                committee@,
                bits@,
                k as int + 1,
                v,
            ) by {
                if attests_among(committee@, bits@, k as int, v) {
                    let w = choose|w: int| 0 <= w < k && bits@[w] && #[trigger] committee@[w] == v;
                    assert(0 <= w < k + 1 && bits@[w] && committee@[w] == v);
                }
                if attests_among(committee@, bits@, k as int + 1, v) {
                    let w = choose|w: int|
                        0 <= w < k + 1 && bits@[w] && #[trigger] committee@[w] == v;
                    if w < k {
                        assert(attests_among(committee@, bits@, k as int, v));
                    }
                }
                if bits@[k as int] && committee@[k as int] == v {
                    assert(attests_among(committee@, bits@, k as int + 1, v));
                }
            }
        }
        k += 1;
    }
    marks
}

/// The validators marked, in ascending order.
fn marked_indices(marks: &Vec<bool>, Ghost(pred): Ghost<spec_fn(int) -> bool>) -> (r: Vec<
    ValidatorIndex,
>)
    requires
        forall|v: int| 0 <= v < marks@.len() ==> marks@[v] == pred(v),
    ensures
        r@ == indices_where(marks@.len(), pred),
        forall|k: int| 0 <= k < r@.len() ==> (#[trigger] r@[k]) < marks@.len(),
{
    let mut r: Vec<ValidatorIndex> = Vec::new();
    let mut i: usize = 0;
    while i < marks.len()
        invariant
            i <= marks.len(),
            forall|v: int| 0 <= v < marks@.len() ==> marks@[v] == pred(v),
            r@ == indices_where(i as nat, pred),
        decreases marks.len() - i,
    {
        if marks[i] {
            r.push(i);
        }
        i += 1;
    }
    proof {
        lemma_indices_where(marks@.len(), pred);
    }
    r
}

/// The validators that an attestation speaks for, in ascending order: the
/// members of its committee whose aggregation bit is set.
pub open spec fn attesting_indices(
    s: StateView,
    data: AttestationData,
    bits: Seq<bool>,
    c: Context,
) -> Result<Seq<ValidatorIndex>, TransitionError> {
    match attested_committee(s, data, bits.len(), c) {
        Err(e) => Err(e),
        Ok(committee) => Ok(indices_where(s.validators.len(), attesting(committee, bits))),
    }
}

/// The validators that an attestation speaks for, in ascending order.
pub fn get_attesting_indices(
    state: &BeaconState,
    data: &AttestationData,
    bits: &Vec<bool>,
    context: &Context,
) -> (r: Result<Vec<ValidatorIndex>, TransitionError>)
    requires
        context.valid(),
        wf(state@, *context),
    ensures
        crate::committees::list_follows(r, attesting_indices(state@, *data, bits@, *context)),
        r matches Ok(v) ==> forall|k: int|
            0 <= k < v@.len() ==> (#[trigger] v@[k]) < state.validators@.len(),
{
    let committee = get_attested_committee(state, data, bits.len(), context)?;
    let marks = attesting_marks(state.validators.len(), &committee, bits);
    Ok(marked_indices(&marks, Ghost(attesting(committee@, bits@))))
}

/// Whether a list of indices is strictly ascending.
pub open spec fn strictly_ascending(indices: Seq<ValidatorIndex>) -> bool {
    forall|i: int, j: int| 0 <= i < j < indices.len() ==> indices[i] < indices[j]
}

fn is_strictly_ascending(indices: &Vec<ValidatorIndex>) -> (r: bool)
    ensures
        r == strictly_ascending(indices@),
{
    let mut k: usize = 1;
    while k < indices.len()
        invariant
            1 <= k,
            forall|i: int, j: int| 0 <= i < j < k && j < indices@.len() ==> indices@[i] < indices@[j],
        decreases indices.len() - k,
    {
        if indices[k - 1] >= indices[k] {
            return false;
        }
        k += 1;
    }
    true
}

/// What the attesters of an attestation sign: the root of its data under
/// the attester domain of its target epoch.
pub open spec fn attestation_signing_root(s: StateView, data: AttestationData, c: Context) -> Root {
    signing_root(
        attestation_data_root(data),
        domain_array(state_domain(s, DomainType::BeaconAttester, Some(data.target.epoch), c)),
    )
}

/// The domain that holds the given bytes.
pub open spec fn domain_array(bytes: Seq<u8>) -> Bytes32 {
    crate::primitives::array_of(bytes)
}

/// A domain is the one that holds its bytes.
pub proof fn lemma_domain_array(d: Bytes32)
    ensures
        domain_array(d@) == d,
{
    crate::primitives::lemma_array_of(d);
}

/// The first reason for which an indexed attestation is not valid, if any:
/// it names nobody, its indices are not strictly ascending, one of them
/// names no validator, or its signature is not that of the validators it
/// names.
pub open spec fn indexed_attestation_fault(
    s: StateView,
    indices: Seq<ValidatorIndex>,
    data: AttestationData,
    signature: BlsSignature,
    c: Context,
) -> Option<TransitionError> {
    if indices.len() == 0 {
        Some(
            TransitionError::InvalidOperation(
                InvalidOperation::IndexedAttestation(
                    InvalidIndexedAttestation::AttestingIndicesEmpty,
                ),
            ),
        )
    } else if !strictly_ascending(indices) {
        Some(
            TransitionError::InvalidOperation(
                InvalidOperation::IndexedAttestation(
                    InvalidIndexedAttestation::AttestingIndicesNotSorted,
                ),
            ),
        )
    } else if indices.last() >= s.validators.len() {
        Some(
            TransitionError::InvalidOperation(
                InvalidOperation::IndexedAttestation(
                    InvalidIndexedAttestation::InvalidIndex(indices.last()),
                ),
            ),
        )
    } else if !aggregate_signature_valid(
        public_keys_of(s, indices),
        attestation_signing_root(s, data, c)@,
        signature,
    ) {
        Some(
            TransitionError::InvalidOperation(
                InvalidOperation::IndexedAttestation(
                    InvalidIndexedAttestation::InvalidSignature(signature),
                ),
            ),
        )
    } else {
        None
    }
}

/// Checks an indexed attestation given by its parts.
pub fn check_indexed_attestation(
    state: &BeaconState,
    indices: &Vec<ValidatorIndex>,
    data: &AttestationData,
    signature: &BlsSignature,
    context: &Context,
) -> (r: Result<(), TransitionError>)
    requires
        context.valid(),
    ensures
        match indexed_attestation_fault(state@, indices@, *data, *signature, *context) {
            Some(e) => r == Err::<(), TransitionError>(e),
            None => r is Ok && forall|k: int|
                0 <= k < indices@.len() ==> (#[trigger] indices@[k]) < state.validators@.len(),
        },
{
    if indices.len() == 0 {
        return Err(
            TransitionError::InvalidOperation(
                InvalidOperation::IndexedAttestation(
                    InvalidIndexedAttestation::AttestingIndicesEmpty,
                ),
            ),
        );
    }
    if !is_strictly_ascending(indices) {
        return Err(
            TransitionError::InvalidOperation(
                InvalidOperation::IndexedAttestation(
                    InvalidIndexedAttestation::AttestingIndicesNotSorted,
                ),
            ),
        );
    }
    let last = indices[indices.len() - 1];
    if last >= state.validators.len() {
        return Err(
            TransitionError::InvalidOperation(
                InvalidOperation::IndexedAttestation(InvalidIndexedAttestation::InvalidIndex(last)),
            ),
        );
    }
    let public_keys = get_public_keys(state, indices);
    let domain = get_domain(state, DomainType::BeaconAttester, Some(data.target.epoch), context);
    proof {
        lemma_domain_array(domain);
    }
    let root = compute_signing_root(data.hash_tree_root(), domain);
    if !fast_aggregate_verify(&public_keys, root.as_slice(), signature) {
        return Err(
            TransitionError::InvalidOperation(
                InvalidOperation::IndexedAttestation(
                    InvalidIndexedAttestation::InvalidSignature(*signature),
                ),
            ),
        );
    }
    Ok(())
}

/// Whether an indexed attestation names validators in strictly ascending
/// order and carries their signature.
pub fn is_valid_indexed_attestation(
    state: &BeaconState,
    indexed_attestation: &IndexedAttestation,
    context: &Context,
) -> (r: Result<(), TransitionError>)
    requires
        context.valid(),
    ensures
        match indexed_attestation_fault(
            state@,
            indexed_attestation.attesting_indices@,
            indexed_attestation.data,
            indexed_attestation.signature,
            *context,
        ) {
            Some(e) => r == Err::<(), TransitionError>(e),
            None => r is Ok,
        },
{
    check_indexed_attestation(
        state,
        &indexed_attestation.attesting_indices,
        &indexed_attestation.data,
        &indexed_attestation.signature,
        context,
    )
}

/// An attestation with its attesters named by index in place of the
/// aggregation bits.
pub fn get_indexed_attestation(
    state: &BeaconState,
    attestation: &Attestation,
    context: &Context,
) -> (r: Result<IndexedAttestation, TransitionError>)
    requires
        context.valid(),
        wf(state@, *context),
    ensures
        match attesting_indices(state@, attestation.data, attestation.aggregation_bits@, *context) {
            Ok(indices) => r matches Ok(indexed) && indexed.attesting_indices@ == indices
                && indexed.data == attestation.data && indexed.signature == attestation.signature,
            Err(e) => r matches Err(x) && x == e,
        },
{
    let attesting_indices = get_attesting_indices(
        state,
        &attestation.data,
        &attestation.aggregation_bits,
        context,
    )?;
    Ok(
        IndexedAttestation {
            attesting_indices,
            data: attestation.data,
            signature: attestation.signature,
        },
    )
}

/// A participation record with the given flags set.
pub open spec fn with_flags(record: ParticipationFlags, flags: TimelinessFlags) -> ParticipationFlags {
    let a = if flags.source {
        with_flag(record, 0)
    } else {
        record
    };
    let b = if flags.target {
        with_flag(a, 1)
    } else {
        a
    };
    if flags.head {
        with_flag(b, 2)
    } else {
        b
    }
}

/// The combined weight of the given flags that a participation record does
/// not have yet.
pub open spec fn new_flag_weight(record: ParticipationFlags, flags: TimelinessFlags) -> u64 {
    ((if flags.source && !flag_set(record, 0) {
        TIMELY_SOURCE_WEIGHT
    } else {
        0
    }) + (if flags.target && !flag_set(record, 1) {
        TIMELY_TARGET_WEIGHT
    } else {
        0
    }) + (if flags.head && !flag_set(record, 2) {
        TIMELY_HEAD_WEIGHT
    } else {
        0
    })) as u64
}

/// What the first `n` validators add to the reward numerator of an
/// attestation: for each attester, its base reward times the weight of the
/// flags that are new to it.
pub open spec fn reward_numerator(
    s: StateView,
    participation: Seq<ParticipationFlags>,
    attests: spec_fn(int) -> bool,
    flags: TimelinessFlags,
    per_increment: Gwei,
    c: Context,
    n: int,
) -> int
    decreases n,
{
    if n <= 0 {
        0
    } else {
        reward_numerator(s, participation, attests, flags, per_increment, c, n - 1) + if attests(
            n - 1,
        ) {
            (s.validators[n - 1].effective_balance / c.effective_balance_increment) * per_increment
                * new_flag_weight(participation[n - 1], flags)
        } else {
            0
        }
    }
}

proof fn lemma_reward_numerator_monotone(
    s: StateView,
    participation: Seq<ParticipationFlags>,
    attests: spec_fn(int) -> bool,
    flags: TimelinessFlags,
    per_increment: Gwei,
    c: Context,
    m: int,
    n: int,
)
    requires
        0 <= m <= n,
        c.effective_balance_increment > 0,
    ensures
        0 <= reward_numerator(s, participation, attests, flags, per_increment, c, m)
            <= reward_numerator(s, participation, attests, flags, per_increment, c, n),
    decreases n,
{
    if n > 0 {
        if m < n {
            lemma_reward_numerator_monotone(
                s,
                participation,
                attests,
                flags,
                per_increment,
                c,
                m,
                n - 1,
            );
        } else {
            lemma_reward_numerator_monotone(
                s,
                participation,
                attests,
                flags,
                per_increment,
                c,
                m - 1,
                n - 1,
            );
        }
        let x = (s.validators[n - 1].effective_balance / c.effective_balance_increment) as int;
        let y = per_increment as int;
        let z = new_flag_weight(participation[n - 1], flags) as int;
        assert(0 <= x * y * z) by (nonlinear_arith)
            requires
                0 <= x,
                0 <= y,
                0 <= z,
        ;
    }
}

/// The participation records after the attesters were given their flags.
pub open spec fn updated_participation(
    participation: Seq<ParticipationFlags>,
    attests: spec_fn(int) -> bool,
    flags: TimelinessFlags,
) -> Seq<ParticipationFlags> {
    Seq::new(
        participation.len(),
        |i: int|
            if attests(i) {
                with_flags(participation[i], flags)
            } else {
                participation[i]
            },
    )
}

/// The state with the participation records of the epoch that an
/// attestation is about replaced.
pub open spec fn with_participation(
    s: StateView,
    target_epoch: Epoch,
    participation: Seq<ParticipationFlags>,
    c: Context,
) -> StateView {
    if target_epoch == current_epoch(s, c) {
        StateView { current_epoch_participation: participation, ..s }
    } else {
        StateView { previous_epoch_participation: participation, ..s }
    }
}

/// The participation records of the epoch that an attestation is about.
pub open spec fn participation_for(s: StateView, target_epoch: Epoch, c: Context) -> Seq<
    ParticipationFlags,
> {
    if target_epoch == current_epoch(s, c) {
        s.current_epoch_participation
    } else {
        s.previous_epoch_participation
    }
}

/// The state after an attestation was processed. The attestation passes the
/// checks of `attested_committee`, earns the flags of `participation_flags`
/// and carries the signature of its attesters. Each attester gets the flags
/// it did not have, and the proposer is paid the reward numerator of
/// `reward_numerator` over the denominator.
pub open spec fn attestation_processed(
    s: StateView,
    data: AttestationData,
    bits: Seq<bool>,
    signature: BlsSignature,
    c: Context,
) -> Result<StateView, TransitionError> {
    match attested_committee(s, data, bits.len(), c) {
        Err(e) => Err(e),
        Ok(committee) => match participation_flags(s, data, (s.slot - data.slot) as u64, c) {
            Err(e) => Err(e),
            Ok(flags) => match indexed_attestation_fault(
                s,
                indices_where(s.validators.len(), attesting(committee, bits)),
                data,
                signature,
                c,
            ) {
                Some(e) => Err(e),
                None => match base_reward_per_increment(s, c) {
                    Err(e) => Err(e),
                    Ok(per_increment) => {
                        let participation = participation_for(s, data.target.epoch, c);
                        let numerator = reward_numerator(
                            s,
                            participation,
                            attesting(committee, bits),
                            flags,
                            per_increment,
                            c,
                            s.validators.len() as int,
                        );
                        if numerator > u64::MAX {
                            Err(TransitionError::Overflow)
                        } else {
                            match beacon_proposer_index(s, c) {
                                Err(e) => Err(e),
                                Ok(proposer) => increased(
                                    with_participation(
                                        s,
                                        data.target.epoch,
                                        updated_participation(
                                            participation,
                                            attesting(committee, bits),
                                            flags,
                                        ),
                                        c,
                                    ),
                                    proposer as int,
                                    (numerator / PROPOSER_REWARD_DENOMINATOR as int) as u64,
                                ),
                            }
                        }
                    },
                },
            },
        },
    }
}

/// A record with the flags set, and the weight of those that are new.
fn set_flags(record: ParticipationFlags, flags: &TimelinessFlags) -> (r: (ParticipationFlags, u64))
    ensures
        r.0 == with_flags(record, *flags),
        r.1 == new_flag_weight(record, *flags),
        r.1 <= 54,
{
    let mut weight: u64 = 0;
    let mut updated = record;
    if flags.source {
        if !has_flag(record, 0) {
            weight += TIMELY_SOURCE_WEIGHT;
        }
        updated = add_flag(updated, 0);
    }
    if flags.target {
        if !has_flag(record, 1) {
            weight += TIMELY_TARGET_WEIGHT;
        }
        updated = add_flag(updated, 1);
    }
    if flags.head {
        if !has_flag(record, 2) {
            weight += TIMELY_HEAD_WEIGHT;
        }
        updated = add_flag(updated, 2);
    }
    (updated, weight)
}

/// Checks an attestation, gives its attesters their flags and pays the proposer.
pub fn process_attestation(state: &mut BeaconState, attestation: &Attestation, context: &Context) -> (r:
    Result<(), TransitionError>)
    requires
        context.valid(),
        wf(old(state)@, *context),
    ensures
        follows(
            old(state)@,
            final(state)@,
            r,
            attestation_processed(
                old(state)@,
                attestation.data,
                attestation.aggregation_bits@,
                attestation.signature,
                *context,
            ),
        ),
        wf(final(state)@, *context),
        same_finality(old(state)@, final(state)@),
        registry_moves_on(old(state)@, final(state)@),
{
    let data = &attestation.data;
    let committee = get_attested_committee(
        state,
        data,
        attestation.aggregation_bits.len(),
        context,
    )?;
    let inclusion_delay = state.slot - data.slot;
    let flags = get_attestation_participation_flag_indices(state, data, inclusion_delay, context)?;
    let n = state.validators.len();
    let marks = attesting_marks(n, &committee, &attestation.aggregation_bits);
    let ghost attests = attesting(committee@, attestation.aggregation_bits@);
    let indices = marked_indices(&marks, Ghost(attests));
    check_indexed_attestation(state, &indices, data, &attestation.signature, context)?;
    let per_increment = get_base_reward_per_increment(state, context)?;
    let is_current = data.target.epoch == get_current_epoch(state, context);
    let ghost before = participation_for(state@, data.target.epoch, *context);
    let mut participation: Vec<ParticipationFlags> = Vec::new();
    let mut numerator: u64 = 0;
    let mut i: usize = 0;
    while i < n
        invariant
            i <= n,
            n == state@.validators.len(),
            context.valid(),
            wf(state@, *context),
            state@ == old(state)@,
            marks@.len() == n,
            attests == attesting(committee@, attestation.aggregation_bits@),
            forall|v: int| 0 <= v < n ==> marks@[v] == attests(v),
            is_current == (data.target.epoch == current_epoch(state@, *context)),
            before == participation_for(state@, data.target.epoch, *context),
            participation@.len() == i,
            forall|j: int|
                0 <= j < i ==> participation@[j] == updated_participation(before, attests, flags)[j],
            numerator == reward_numerator(
                state@,
                before,
                attests,
                flags,
                per_increment,
                *context,
                i as int,
            ),
            attestation_processed(
                state@,
                attestation.data,
                attestation.aggregation_bits@,
                attestation.signature,
                *context,
            ) == ({
                let total = reward_numerator(
                    state@,
                    before,
                    attests,
                    flags,
                    per_increment,
                    *context,
                    n as int,
                );
                if total > u64::MAX {
                    Err::<StateView, TransitionError>(TransitionError::Overflow)
                } else {
                    match beacon_proposer_index(state@, *context) {
                        Err(e) => Err(e),
                        Ok(proposer) => increased(
                            with_participation(
                                state@,
                                data.target.epoch,
                                updated_participation(before, attests, flags),
                                *context,
                            ),
                            proposer as int,
                            (total / PROPOSER_REWARD_DENOMINATOR as int) as u64,
                        ),
                    }
                }
            }),
        decreases n - i,
    {
        let record = if is_current {
            state.current_epoch_participation[i]
        } else {
            state.previous_epoch_participation[i]
        };
        if marks[i] {
            let (updated, weight) = set_flags(record, &flags);
            participation.push(updated);
            if weight > 0 {
                let increments = state.validators[i].effective_balance
                    / context.effective_balance_increment;
                proof {
                    lemma_reward_numerator_monotone(
                        state@,
                        before,
                        attests,
                        flags,
                        per_increment,
                        *context,
                        i as int + 1,
                        n as int,
                    );
                    let x = increments as int;
                    let y = per_increment as int;
                    let z = weight as int;
                    assert(x * y <= x * y * z) by (nonlinear_arith)
                        requires
                            0 <= x,
                            0 <= y,
                            1 <= z,
                    ;
                }
                let base = checked_mul(increments, per_increment)?;
                let term = checked_mul(base, weight)?;
                numerator = checked_add(numerator, term)?;
            } else {
                proof {
                    let x = (state@.validators[i as int].effective_balance
                        / context.effective_balance_increment) as int;
                    let y = per_increment as int;
                    assert(x * y * 0 == 0) by (nonlinear_arith);
                }
            }
        } else {
            participation.push(record);
        }
        i += 1;
    }
    let proposer = get_beacon_proposer_index(state, context)?;
    let reward = numerator / PROPOSER_REWARD_DENOMINATOR;
    let balance = checked_add(state.balances[proposer], reward)?;
    proof {
        assert(participation@ =~= updated_participation(before, attests, flags));
    }
    if is_current {
        state.current_epoch_participation = participation;
    } else {
        state.previous_epoch_participation = participation;
    }
    state.balances[proposer] = balance;
    Ok(())
}

/// An attestation whose aggregation bits are not as many as its committee
/// has members fails for that reason, where it passes the checks that come
/// before.
pub proof fn lemma_bitfield_length_mismatch(
    s: StateView,
    data: AttestationData,
    bits: Seq<bool>,
    signature: BlsSignature,
    c: Context,
)
    requires
        data.target.epoch == previous_epoch(s, c) || data.target.epoch == current_epoch(s, c),
        data.target.epoch == epoch_at_slot(data.slot, c),
        data.slot + c.min_attestation_inclusion_delay <= s.slot <= data.slot + c.slots_per_epoch,
        data.index < committee_count_per_slot(s, data.target.epoch, c),
        beacon_committee(s, data.slot, data.index as u64, c) is Ok,
        bits.len() != beacon_committee(s, data.slot, data.index as u64, c)->Ok_0.len(),
    ensures
        attestation_processed(s, data, bits, signature, c) == Err::<StateView, TransitionError>(
            TransitionError::InvalidOperation(
                InvalidOperation::Attestation(
                    InvalidAttestation::Bitfield {
                        expected_length: beacon_committee(
                            s,
                            data.slot,
                            data.index as u64,
                            c,
                        )->Ok_0.len() as usize,
                        length: bits.len() as usize,
                    },
                ),
            ),
        ),
{
}

} // verus!
