//! Seeds, the shuffle, committees and the sampling of proposers and sync
//! committees.

use vstd::prelude::*;
use vstd::bytes::{
    spec_u32_to_le_bytes, spec_u64_from_le_bytes, spec_u64_to_le_bytes, u32_to_le_bytes,
    u64_from_le_bytes, u64_to_le_bytes,
};
use crate::context::Context;
use crate::crypto::{bls_aggregate_of, eth_aggregate_public_keys, hash, sha256};
use crate::domains::DomainType;
use crate::error::TransitionError;
use crate::helpers::{
    active_indices, current_epoch, epoch_at_slot, get_active_validator_indices, get_current_epoch,
    compute_epoch_at_slot,
};
use crate::outcomes::{for_each_index, lemma_fails_at, lemma_succeeds};
use crate::primitives::{
    checked_add, checked_mul, extend_bytes, product_of, sum_of, wide_mul, BlsPublicKey, Bytes32,
    Epoch, Slot, ValidatorIndex, MAX_RANDOM_BYTE,
};
use crate::state::{wf, BeaconState, StateView, SyncCommittee, SyncCommitteeView};

verus! {

/// The position in the randao buffer of the mix that seeds `epoch`: as far
/// back as the lookahead asks, and one more.
pub open spec fn seed_mix_position(epoch: Epoch, c: Context) -> Result<int, TransitionError> {
    if epoch + c.epochs_per_historical_vector < c.min_seed_lookahead + 1 {
        Err(TransitionError::Underflow)
    } else {
        Ok(
            (epoch + c.epochs_per_historical_vector - c.min_seed_lookahead - 1) % (
            c.epochs_per_historical_vector as int),
        )
    }
}

/// The seed of `epoch` for one kind of domain: the digest of the kind, the
/// epoch and the mix that seeds the epoch.
pub open spec fn seed(s: StateView, epoch: Epoch, domain_type: DomainType, c: Context) -> Result<
    Bytes32,
    TransitionError,
> {
    match seed_mix_position(epoch, c) {
        Err(e) => Err(e),
        Ok(position) => Ok(
            sha256(domain_type.bytes() + spec_u64_to_le_bytes(epoch) + s.randao_mixes[position]@),
        ),
    }
}

/// The seed of an epoch for one kind of domain.
pub fn get_seed(state: &BeaconState, epoch: Epoch, domain_type: DomainType, context: &Context) -> (r:
    Result<Bytes32, TransitionError>)
    requires
        context.valid(),
        wf(state@, *context),
    ensures
        r == seed(state@, epoch, domain_type, *context),
{
    let ahead = epoch as u128 + context.epochs_per_historical_vector as u128;
    let back = context.min_seed_lookahead as u128 + 1;
    if ahead < back {
        return Err(TransitionError::Underflow);
    }
    let length = state.randao_mixes.len();
    let position = ((ahead - back) % (length as u128)) as usize;
    let mix = state.randao_mixes[position];
    let mut buffer: Vec<u8> = Vec::new();
    let kind = domain_type.as_bytes();
    extend_bytes(&mut buffer, kind.as_slice());
    let epoch_bytes = u64_to_le_bytes(epoch);
    extend_bytes(&mut buffer, epoch_bytes.as_slice());
    extend_bytes(&mut buffer, mix.as_slice());
    assert(buffer@ =~= domain_type.bytes() + spec_u64_to_le_bytes(epoch) + mix@);
    Ok(hash(buffer.as_slice()))
}

/// The first eight bytes of a digest.
fn first_eight(digest: &Bytes32) -> (r: Vec<u8>)
    ensures
        r@ == digest@.subrange(0, 8),
{
    let mut r: Vec<u8> = Vec::new();
    let mut i: usize = 0;
    while i < 8
        invariant
            i <= 8,
            r@ == digest@.subrange(0, i as int),
        decreases 8 - i,
    {
        r.push(digest[i]);
        assert(r@ =~= digest@.subrange(0, i as int + 1));
        i += 1;
    }
    r
}

/// The byte that stands for a round of the shuffle.
pub open spec fn round_byte(round: u64) -> u8 {
    (round % 256) as u8
}

/// Where the shuffle may move an index to in one round.
pub open spec fn shuffle_flip(index: int, index_count: int, seed: Bytes32, round: u64) -> int {
    let pivot = spec_u64_from_le_bytes(
        sha256(seed@ + seq![round_byte(round)])@.subrange(0, 8),
    ) as int % index_count;
    (pivot + index_count - index) % index_count
}

/// The bit that decides whether a round of the shuffle moves an index.
pub open spec fn shuffle_bit(position: int, seed: Bytes32, round: u64) -> bool {
    let source = sha256(
        seed@ + seq![round_byte(round)] + spec_u32_to_le_bytes(
            ((position / 256) % 0x1_0000_0000) as u32,
        ),
    );
    let byte = source[(position % 256) / 8];
    (byte >> ((position % 8) as u8)) & 1u8 == 1u8
}

/// Where one round of the shuffle leaves an index.
pub open spec fn shuffle_round(index: int, index_count: int, seed: Bytes32, round: u64) -> int {
    let flip = shuffle_flip(index, index_count, seed, round);
    let position = if index > flip {
        index
    } else {
        flip
    };
    if shuffle_bit(position, seed, round) {
        flip
    } else {
        index
    }
}

/// Where the first `rounds` rounds of the shuffle leave an index.
pub open spec fn shuffled(index: int, index_count: int, seed: Bytes32, rounds: u64) -> int
    decreases rounds,
{
    if rounds == 0 {
        index
    } else {
        shuffle_round(
            shuffled(index, index_count, seed, (rounds - 1) as u64),
            index_count,
            seed,
            (rounds - 1) as u64,
        )
    }
}

/// The position that the shuffle of `index_count` positions under `seed`
/// moves `index` to.
pub open spec fn shuffled_index(index: int, index_count: int, seed: Bytes32, c: Context) -> Result<
    int,
    TransitionError,
> {
    if 0 <= index < index_count {
        Ok(shuffled(index, index_count, seed, c.shuffle_round_count))
    } else {
        Err(TransitionError::OutOfBounds { index: index as usize, len: index_count as usize })
    }
}

/// The position that the shuffle moves an index to.
pub fn compute_shuffled_index(
    index: usize,
    index_count: usize,
    seed: &Bytes32,
    context: &Context,
) -> (r: Result<usize, TransitionError>)
    ensures
        r matches Ok(i) ==> i < index_count && shuffled_index(
            index as int,
            index_count as int,
            *seed,
            *context,
        ) == Ok::<int, TransitionError>(i as int),
        r matches Err(e) ==> shuffled_index(index as int, index_count as int, *seed, *context)
            == Err::<int, TransitionError>(e),
{
    if index >= index_count {
        return Err(TransitionError::OutOfBounds { index, len: index_count });
    }
    let mut current = index;
    let mut round: u64 = 0;
    while round < context.shuffle_round_count
        invariant
            round <= context.shuffle_round_count,
            current < index_count,
            current == shuffled(index as int, index_count as int, *seed, round),
        decreases context.shuffle_round_count - round,
    {
        let round_as_byte = (round % 256) as u8;
        let mut pivot_input: Vec<u8> = Vec::new();
        extend_bytes(&mut pivot_input, seed.as_slice());
        pivot_input.push(round_as_byte);
        assert(pivot_input@ =~= seed@ + seq![round_byte(round)]);
        let pivot_digest = hash(pivot_input.as_slice());
        let pivot_bytes = first_eight(&pivot_digest);
        let pivot = u64_from_le_bytes(pivot_bytes.as_slice()) % (index_count as u64);
        let flip = ((pivot as u128 + index_count as u128 - current as u128) % (
        index_count as u128)) as usize;
        let position = if current > flip {
            current
        } else {
            flip
        };
        let mut source_input: Vec<u8> = Vec::new();
        extend_bytes(&mut source_input, seed.as_slice());
        source_input.push(round_as_byte);
        let block = ((position / 256) as u64 % 0x1_0000_0000) as u32;
        let block_bytes = u32_to_le_bytes(block);
        extend_bytes(&mut source_input, block_bytes.as_slice());
        assert(source_input@ =~= seed@ + seq![round_byte(round)] + spec_u32_to_le_bytes(
            ((position as int / 256) % 0x1_0000_0000) as u32,
        ));
        let source = hash(source_input.as_slice());
        let byte = source[(position % 256) / 8];
        let moved = (byte >> ((position % 8) as u8)) & 1u8 == 1u8;
        assert(flip == shuffle_flip(current as int, index_count as int, *seed, round));
        assert(moved == shuffle_bit(position as int, *seed, round));
        if moved {
            current = flip;
        }
        round += 1;
    }
    Ok(current)
}

/// Where a committee starts among the shuffled validators: the share of
/// `index` committees out of `count`.
pub open spec fn committee_bound(len: int, index: int, count: int) -> int {
    len * index / count
}

/// The member at each place of a committee: the validator that the shuffle
/// brings to the place.
pub open spec fn committee_member(
    indices: Seq<ValidatorIndex>,
    seed: Bytes32,
    start: int,
    c: Context,
) -> spec_fn(int) -> Result<ValidatorIndex, TransitionError> {
    |k: int|
        match shuffled_index(start + k, indices.len() as int, seed, c) {
            Ok(i) => Ok(indices[i]),
            Err(e) => Err(e),
        }
}

/// The committee with the number `index` out of `count` committees that
/// `indices` are shuffled into under `seed`.
pub open spec fn committee(
    indices: Seq<ValidatorIndex>,
    seed: Bytes32,
    index: u64,
    count: u64,
    c: Context,
) -> Result<Seq<ValidatorIndex>, TransitionError> {
    if index == u64::MAX {
        Err(TransitionError::Overflow)
    } else {
        let start = committee_bound(indices.len() as int, index as int, count as int);
        let end = committee_bound(indices.len() as int, index + 1, count as int);
        if end > usize::MAX {
            Err(TransitionError::Overflow)
        } else {
            for_each_index((end - start) as nat, committee_member(indices, seed, start, c))
        }
    }
}

/// How an outcome that carries a list relates to the prescribed one.
pub open spec fn list_follows<T>(
    r: Result<Vec<T>, TransitionError>,
    prescribed: Result<Seq<T>, TransitionError>,
) -> bool {
    match prescribed {
        Ok(s) => r matches Ok(v) && v@ == s,
        Err(e) => r matches Err(x) && x == e,
    }
}

/// One of the committees that a list of validators is shuffled into.
pub fn compute_committee(
    indices: &Vec<ValidatorIndex>,
    seed: &Bytes32,
    index: u64,
    count: u64,
    context: &Context,
) -> (r: Result<Vec<ValidatorIndex>, TransitionError>)
    requires
        count > 0,
    ensures
        list_follows(r, committee(indices@, *seed, index, count, *context)),
        r matches Ok(v) ==> forall|k: int| 0 <= k < v@.len() ==> indices@.contains(#[trigger] v@[k]),
{
    if index == u64::MAX {
        return Err(TransitionError::Overflow);
    }
    let len = indices.len() as u64;
    let start = wide_mul(len, index) / (count as u128);
    let end = wide_mul(len, index + 1) / (count as u128);
    if end > usize::MAX as u128 {
        return Err(TransitionError::Overflow);
    }
    proof {
        assert(start <= end) by (nonlinear_arith)
            requires
                start == (len * index) / (count as int),
                end == (len * (index + 1)) / (count as int),
                count > 0,
                len >= 0,
                index >= 0,
        ;
    }
    let start = start as usize;
    let end = end as usize;
    let ghost f = committee_member(indices@, *seed, start as int, *context);
    let mut members: Vec<ValidatorIndex> = Vec::new();
    let mut k: usize = 0;
    while k < end - start
        invariant
            start <= end,
            k <= end - start,
            f == committee_member(indices@, *seed, start as int, *context),
            committee(indices@, *seed, index, count, *context) == for_each_index(
                (end - start) as nat,
                f,
            ),
            members@.len() == k,
            forall|j: int| 0 <= j < k ==> indices@.contains(#[trigger] members@[j]),
            forall|j: int|
                0 <= j < k ==> (#[trigger] f(j)) == Ok::<ValidatorIndex, TransitionError>(
                    members@[j],
                ),
        decreases end - start - k,
    {
        match compute_shuffled_index(start + k, indices.len(), seed, context) {
            Ok(i) => {
                members.push(indices[i]);
            },
            Err(e) => {
                proof {
                    lemma_fails_at((end - start) as nat, f, k as int);
                }
                return Err(e);
            },
        }
        k += 1;
    }
    proof {
        lemma_succeeds((end - start) as nat, f, members@);
    }
    Ok(members)
}

/// How many committees attest in each slot of `epoch`: one for each target
/// committee size of active validators per slot, at least one, and no more
/// than the configured maximum.
pub open spec fn committee_count_per_slot(s: StateView, epoch: Epoch, c: Context) -> u64 {
    let share = active_indices(s, epoch).len() as int / c.slots_per_epoch as int
        / c.target_committee_size as int;
    if share < 1 {
        1
    } else if share > c.max_committees_per_slot {
        c.max_committees_per_slot
    } else {
        share as u64
    }
}

/// How many committees attest in each slot of an epoch.
pub fn get_committee_count_per_slot(state: &BeaconState, epoch: Epoch, context: &Context) -> (r:
    u64)
    requires
        context.valid(),
    ensures
        r == committee_count_per_slot(state@, epoch, *context),
        r >= 1,
{
    let active = get_active_validator_indices(state, epoch);
    let share = active.len() as u64 / context.slots_per_epoch / context.target_committee_size;
    if share < 1 {
        1
    } else if share > context.max_committees_per_slot {
        context.max_committees_per_slot
    } else {
        share
    }
}

/// The number of a committee among all committees of its epoch, and how
/// many there are.
pub open spec fn committee_number(s: StateView, slot: Slot, index: u64, c: Context) -> Result<
    (u64, u64),
    TransitionError,
> {
    let per_slot = committee_count_per_slot(s, epoch_at_slot(slot, c), c);
    match product_of((slot % c.slots_per_epoch) as u64, per_slot) {
        Err(e) => Err(e),
        Ok(before) => match sum_of(before, index) {
            Err(e) => Err(e),
            Ok(number) => match product_of(per_slot, c.slots_per_epoch) {
                Err(e) => Err(e),
                Ok(count) => Ok((number, count)),
            },
        },
    }
}

/// The committee with the number `index` of those that attest at `slot`.
pub open spec fn beacon_committee(s: StateView, slot: Slot, index: u64, c: Context) -> Result<
    Seq<ValidatorIndex>,
    TransitionError,
> {
    match seed(s, epoch_at_slot(slot, c), DomainType::BeaconAttester, c) {
        Err(e) => Err(e),
        Ok(seed) => match committee_number(s, slot, index, c) {
            Err(e) => Err(e),
            Ok((number, count)) => committee(
                active_indices(s, epoch_at_slot(slot, c)),
                seed,
                number,
                count,
                c,
            ),
        },
    }
}

/// The committee with the given number at a slot.
pub fn get_beacon_committee(state: &BeaconState, slot: Slot, index: u64, context: &Context) -> (r:
    Result<Vec<ValidatorIndex>, TransitionError>)
    requires
        context.valid(),
        wf(state@, *context),
    ensures
        list_follows(r, beacon_committee(state@, slot, index, *context)),
        r matches Ok(v) ==> forall|k: int|
            0 <= k < v@.len() ==> (#[trigger] v@[k]) < state.validators@.len(),
{
    let epoch = compute_epoch_at_slot(slot, context);
    let per_slot = get_committee_count_per_slot(state, epoch, context);
    let indices = get_active_validator_indices(state, epoch);
    let seed = get_seed(state, epoch, DomainType::BeaconAttester, context)?;
    let before = checked_mul(slot % context.slots_per_epoch, per_slot)?;
    let number = checked_add(before, index)?;
    let count = checked_mul(per_slot, context.slots_per_epoch)?;
    assert(count > 0) by (nonlinear_arith)
        requires
            count == per_slot * context.slots_per_epoch,
            per_slot >= 1,
            context.slots_per_epoch > 0,
    ;
    let r = compute_committee(&indices, &seed, number, count, context);
    proof {
        if r is Ok {
            let v = r->Ok_0;
            assert forall|k: int| 0 <= k < v@.len() implies (#[trigger] v@[k])
                < state.validators@.len() by {
                assert(indices@.contains(v@[k]));
            }
        }
    }
    r
}

/// The byte that the sampling of proposers and sync committees draws at
/// its `i`-th try.
pub open spec fn random_byte(seed: Bytes32, i: u64) -> u8 {
    sha256(seed@ + spec_u64_to_le_bytes(i / 32))[i as int % 32]
}

fn draw_random_byte(seed: &Bytes32, i: u64) -> (r: u8)
    ensures
        r == random_byte(*seed, i),
{
    let mut buffer: Vec<u8> = Vec::new();
    extend_bytes(&mut buffer, seed.as_slice());
    let counter = u64_to_le_bytes(i / 32);
    extend_bytes(&mut buffer, counter.as_slice());
    assert(buffer@ =~= seed@ + spec_u64_to_le_bytes(i / 32));
    let digest = hash(buffer.as_slice());
    digest[(i % 32) as usize]
}

/// The validator that the sampling looks at in its `i`-th try.
pub open spec fn candidate(indices: Seq<ValidatorIndex>, seed: Bytes32, i: u64, c: Context) -> int {
    indices[shuffled(
        i as int % indices.len() as int,
        indices.len() as int,
        seed,
        c.shuffle_round_count,
    )] as int
}

/// Whether the sampling accepts the validator that it looks at in its
/// `i`-th try: with a chance in proportion to its effective balance.
pub open spec fn accepted(
    s: StateView,
    indices: Seq<ValidatorIndex>,
    seed: Bytes32,
    i: u64,
    c: Context,
) -> bool {
    s.validators[candidate(indices, seed, i, c)].effective_balance * MAX_RANDOM_BYTE
        >= c.max_effective_balance * random_byte(seed, i)
}

/// The validator looked at in the `i`-th try, and whether it is accepted.
fn sample(
    state: &BeaconState,
    indices: &Vec<ValidatorIndex>,
    seed: &Bytes32,
    i: u64,
    context: &Context,
) -> (r: (ValidatorIndex, bool))
    requires
        indices@.len() > 0,
        forall|k: int| 0 <= k < indices@.len() ==> (#[trigger] indices@[k]) < state.validators@.len(),
    ensures
        r.0 == candidate(indices@, *seed, i, *context),
        r.0 < state.validators@.len(),
        r.1 == accepted(state@, indices@, *seed, i, *context),
{
    let total = indices.len();
    let place = (i % (total as u64)) as usize;
    let shuffled = match compute_shuffled_index(place, total, seed, context) {
        Ok(p) => p,
        Err(_) => 0,
    };
    let chosen = indices[shuffled];
    let byte = draw_random_byte(seed, i);
    let effective_balance = state.validators[chosen].effective_balance;
    let ok = wide_mul(effective_balance, MAX_RANDOM_BYTE) >= wide_mul(
        context.max_effective_balance,
        byte as u64,
    );
    (chosen, ok)
}

/// The first validator that the sampling accepts from its `i`-th try on.
pub open spec fn proposer_from(
    s: StateView,
    indices: Seq<ValidatorIndex>,
    seed: Bytes32,
    i: u64,
    c: Context,
) -> Result<ValidatorIndex, TransitionError>
    decreases u64::MAX - i,
{
    if accepted(s, indices, seed, i, c) {
        Ok(candidate(indices, seed, i, c) as usize)
    } else if i == u64::MAX {
        Err(TransitionError::Overflow)
    } else {
        proposer_from(s, indices, seed, (i + 1) as u64, c)
    }
}

/// The proposer that is sampled from `indices` under `seed`.
pub open spec fn proposer_index(
    s: StateView,
    indices: Seq<ValidatorIndex>,
    seed: Bytes32,
    c: Context,
) -> Result<ValidatorIndex, TransitionError> {
    if indices.len() == 0 {
        Err(TransitionError::NoActiveValidators)
    } else {
        proposer_from(s, indices, seed, 0, c)
    }
}

/// The proposer that is sampled from a list of validators under a seed.
pub fn compute_proposer_index(
    state: &BeaconState,
    indices: &Vec<ValidatorIndex>,
    seed: &Bytes32,
    context: &Context,
) -> (r: Result<ValidatorIndex, TransitionError>)
    requires
        forall|k: int| 0 <= k < indices@.len() ==> (#[trigger] indices@[k]) < state.validators@.len(),
    ensures
        r == proposer_index(state@, indices@, *seed, *context),
        r matches Ok(i) ==> i < state.validators@.len(),
{
    if indices.len() == 0 {
        return Err(TransitionError::NoActiveValidators);
    }
    let mut i: u64 = 0;
    loop
        invariant
            indices@.len() > 0,
            forall|k: int|
                0 <= k < indices@.len() ==> (#[trigger] indices@[k]) < state.validators@.len(),
            proposer_index(state@, indices@, *seed, *context) == proposer_from(
                state@,
                indices@,
                *seed,
                i,
                *context,
            ),
        decreases u64::MAX - i,
    {
        let (chosen, ok) = sample(state, indices, seed, i, context);
        if ok {
            return Ok(chosen);
        }
        if i == u64::MAX {
            return Err(TransitionError::Overflow);
        }
        i += 1;
    }
}

/// The seed that the proposer of the state's slot is sampled under: the
/// digest of the proposer seed of the epoch and the slot.
pub open spec fn proposer_seed(s: StateView, c: Context) -> Result<Bytes32, TransitionError> {
    match seed(s, current_epoch(s, c), DomainType::BeaconProposer, c) {
        Ok(seed) => Ok(sha256(seed@ + spec_u64_to_le_bytes(s.slot))),
        Err(e) => Err(e),
    }
}

/// The validator that proposes the block of the state's slot.
pub open spec fn beacon_proposer_index(s: StateView, c: Context) -> Result<
    ValidatorIndex,
    TransitionError,
> {
    match proposer_seed(s, c) {
        Ok(seed) => proposer_index(s, active_indices(s, current_epoch(s, c)), seed, c),
        Err(e) => Err(e),
    }
}

/// The validator that proposes the block of the state's slot.
pub fn get_beacon_proposer_index(state: &BeaconState, context: &Context) -> (r: Result<
    ValidatorIndex,
    TransitionError,
>)
    requires
        context.valid(),
        wf(state@, *context),
    ensures
        r == beacon_proposer_index(state@, *context),
        r matches Ok(i) ==> i < state.validators@.len(),
{
    let epoch = get_current_epoch(state, context);
    let epoch_seed = get_seed(state, epoch, DomainType::BeaconProposer, context)?;
    let mut buffer: Vec<u8> = Vec::new();
    extend_bytes(&mut buffer, epoch_seed.as_slice());
    let slot_bytes = u64_to_le_bytes(state.slot);
    extend_bytes(&mut buffer, slot_bytes.as_slice());
    assert(buffer@ =~= epoch_seed@ + spec_u64_to_le_bytes(state.slot));
    let seed = hash(buffer.as_slice());
    let indices = get_active_validator_indices(state, epoch);
    compute_proposer_index(state, &indices, &seed, context)
}

/// The members of a sync committee that are still to be sampled from the
/// `i`-th try on, after `members`: each accepted validator joins, as often
/// as it is accepted, until the committee is full.
pub open spec fn sync_committee_from(
    s: StateView,
    indices: Seq<ValidatorIndex>,
    seed: Bytes32,
    i: u64,
    members: Seq<ValidatorIndex>,
    c: Context,
) -> Result<Seq<ValidatorIndex>, TransitionError>
    decreases u64::MAX - i,
{
    if members.len() >= c.sync_committee_size {
        Ok(members)
    } else {
        let next = if accepted(s, indices, seed, i, c) {
            members.push(candidate(indices, seed, i, c) as usize)
        } else {
            members
        };
        if i == u64::MAX {
            if next.len() >= c.sync_committee_size {
                Ok(next)
            } else {
                Err(TransitionError::Overflow)
            }
        } else {
            sync_committee_from(s, indices, seed, (i + 1) as u64, next, c)
        }
    }
}

/// The validators of the sync committee of the period after the current
/// epoch.
pub open spec fn next_sync_committee_indices(s: StateView, c: Context) -> Result<
    Seq<ValidatorIndex>,
    TransitionError,
> {
    match sum_of(current_epoch(s, c), 1) {
        Err(e) => Err(e),
        Ok(epoch) => match seed(s, epoch, DomainType::SyncCommittee, c) {
            Err(e) => Err(e),
            Ok(seed) => if active_indices(s, epoch).len() == 0 {
                Err(TransitionError::NoActiveValidators)
            } else {
                sync_committee_from(s, active_indices(s, epoch), seed, 0, Seq::empty(), c)
            },
        },
    }
}

/// The validators of the next sync committee.
pub fn get_next_sync_committee_indices(state: &BeaconState, context: &Context) -> (r: Result<
    Vec<ValidatorIndex>,
    TransitionError,
>)
    requires
        context.valid(),
        wf(state@, *context),
    ensures
        list_follows(r, next_sync_committee_indices(state@, *context)),
        r matches Ok(v) ==> v@.len() == context.sync_committee_size && forall|k: int|
            0 <= k < v@.len() ==> (#[trigger] v@[k]) < state.validators@.len(),
{
    let epoch = checked_add(get_current_epoch(state, context), 1)?;
    let seed = get_seed(state, epoch, DomainType::SyncCommittee, context)?;
    let indices = get_active_validator_indices(state, epoch);
    if indices.len() == 0 {
        return Err(TransitionError::NoActiveValidators);
    }
    let mut members: Vec<ValidatorIndex> = Vec::new();
    let mut i: u64 = 0;
    let mut done = false;
    let mut failed = false;
    while !done && !failed
        invariant
            indices@.len() > 0,
            context.sync_committee_size > 0,
            members@.len() <= context.sync_committee_size,
            forall|k: int|
                0 <= k < indices@.len() ==> (#[trigger] indices@[k]) < state.validators@.len(),
            forall|k: int|
                0 <= k < members@.len() ==> (#[trigger] members@[k]) < state.validators@.len(),
            !done && !failed ==> next_sync_committee_indices(state@, *context)
                == sync_committee_from(state@, indices@, seed, i, members@, *context),
            done ==> !failed && members@.len() >= context.sync_committee_size
                && next_sync_committee_indices(state@, *context) == Ok::<
                Seq<ValidatorIndex>,
                TransitionError,
            >(members@),
            failed ==> next_sync_committee_indices(state@, *context) == Err::<
                Seq<ValidatorIndex>,
                TransitionError,
            >(TransitionError::Overflow),
        decreases u64::MAX - i + if done || failed { 0int } else { 1int },
    {
        if members.len() >= context.sync_committee_size {
            done = true;
        } else {
            let (chosen, ok) = sample(state, &indices, &seed, i, context);
            if ok {
                members.push(chosen);
            }
            if i == u64::MAX {
                if members.len() >= context.sync_committee_size {
                    done = true;
                } else {
                    failed = true;
                }
            } else {
                i += 1;
            }
        }
    }
    if failed {
        Err(TransitionError::Overflow)
    } else {
        Ok(members)
    }
}

/// The public keys of the validators that `indices` name.
pub open spec fn public_keys_of(s: StateView, indices: Seq<ValidatorIndex>) -> Seq<BlsPublicKey> {
    Seq::new(indices.len(), |k: int| s.validators[indices[k] as int].public_key)
}

/// The public keys of the validators that `indices` name.
pub fn get_public_keys(state: &BeaconState, indices: &Vec<ValidatorIndex>) -> (r: Vec<BlsPublicKey>)
    requires
        forall|k: int| 0 <= k < indices@.len() ==> (#[trigger] indices@[k]) < state.validators@.len(),
    ensures
        r@ == public_keys_of(state@, indices@),
{
    let mut keys: Vec<BlsPublicKey> = Vec::new();
    let mut k: usize = 0;
    while k < indices.len()
        invariant
            k <= indices.len(),
            forall|j: int|
                0 <= j < indices@.len() ==> (#[trigger] indices@[j]) < state.validators@.len(),
            keys@.len() == k,
            forall|j: int|
                0 <= j < k ==> keys@[j] == state@.validators[indices@[j] as int].public_key,
        decreases indices.len() - k,
    {
        keys.push(state.validators[indices[k]].public_key);
        k += 1;
    }
    assert(keys@ =~= public_keys_of(state@, indices@));
    keys
}

/// The sync committee of the period after the current epoch: the keys of
/// the sampled validators, and their sum.
pub open spec fn next_sync_committee(s: StateView, c: Context) -> Result<
    SyncCommitteeView,
    TransitionError,
> {
    match next_sync_committee_indices(s, c) {
        Err(e) => Err(e),
        Ok(indices) => match bls_aggregate_of(public_keys_of(s, indices)) {
            None => Err(TransitionError::InvalidPublicKeys),
            Some(aggregate_public_key) => Ok(
                SyncCommitteeView { public_keys: public_keys_of(s, indices), aggregate_public_key },
            ),
        },
    }
}

/// The next sync committee: the keys of its members and their sum.
pub fn get_next_sync_committee(state: &BeaconState, context: &Context) -> (r: Result<
    SyncCommittee,
    TransitionError,
>)
    requires
        context.valid(),
        wf(state@, *context),
    ensures
        match next_sync_committee(state@, *context) {
            Ok(v) => r matches Ok(committee) && committee@ == v,
            Err(e) => r matches Err(x) && x == e,
        },
        r matches Ok(committee) ==> committee@.public_keys.len() == context.sync_committee_size,
{
    let indices = get_next_sync_committee_indices(state, context)?;
    let public_keys = get_public_keys(state, &indices);
    match eth_aggregate_public_keys(&public_keys) {
        Some(aggregate_public_key) => Ok(SyncCommittee { public_keys, aggregate_public_key }),
        None => Err(TransitionError::InvalidPublicKeys),
    }
}

} // verus!
