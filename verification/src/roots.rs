//! Hash-tree roots of whole states and block bodies.

use vstd::prelude::*;
use crate::context::Context;
use crate::error::TransitionError;
use crate::merkle::{merkleize, root_of_chunks};
use crate::operations::{
    Attestation, AttesterSlashing, BeaconBlock, BeaconBlockBody, Deposit, IndexedAttestation,
    ProposerSlashing, SignedBeaconBlockHeader, SignedVoluntaryExit, SyncAggregate,
};
use crate::primitives::{wide_mul, BlsPublicKey, Root, ValidatorIndex};
use crate::ssz::{
    attestation_data_root, bitlist_root, bitvector_root, bool_chunk, byte_chunk, byte_list_root,
    checkpoint_root, deposit_data_root, hash_tree_root_of_bitlist, hash_tree_root_of_bitvector,
    hash_tree_root_of_byte_list, hash_tree_root_of_list, hash_tree_root_of_roots,
    hash_tree_root_of_u64_list, hash_tree_root_of_u64_vector, hash_tree_root_public_key,
    hash_tree_root_signature, header_root, public_key_root, push_bool, push_byte, push_bytes32,
    push_u64, push_version, roots_list_root, roots_vector_root, signature_root, u64_chunk,
    u64_list_root, u64_vector_root, version_chunk, voluntary_exit_root,
};
use crate::state::{
    BeaconBlockHeader, BeaconState, Eth1Data, Fork, StateView, SyncCommittee, SyncCommitteeView,
    Validator,
};

verus! {

/// The root of a fork.
pub open spec fn fork_root(f: Fork) -> Root {
    root_of_chunks(
        version_chunk(f.previous_version) + version_chunk(f.current_version) + u64_chunk(f.epoch),
    )
}

impl Fork {
    /// The hash-tree root of the record.
    pub fn hash_tree_root(&self) -> (r: Root)
        ensures
            r == fork_root(*self),
    {
        let mut buffer: Vec<u8> = Vec::new();
        push_version(&mut buffer, &self.previous_version);
        push_version(&mut buffer, &self.current_version);
        push_u64(&mut buffer, self.epoch);
        assert(buffer@ =~= version_chunk(self.previous_version) + version_chunk(
            self.current_version,
        ) + u64_chunk(self.epoch));
        merkleize(&buffer)
    }
}

/// The root of a vote on eth1 data.
pub open spec fn eth1_data_root(d: Eth1Data) -> Root {
    root_of_chunks(d.deposit_root@ + u64_chunk(d.deposit_count) + d.block_hash@)
}

impl Eth1Data {
    /// The hash-tree root of the record.
    pub fn hash_tree_root(&self) -> (r: Root)
        ensures
            r == eth1_data_root(*self),
    {
        let mut buffer: Vec<u8> = Vec::new();
        push_bytes32(&mut buffer, &self.deposit_root);
        push_u64(&mut buffer, self.deposit_count);
        push_bytes32(&mut buffer, &self.block_hash);
        assert(buffer@ =~= self.deposit_root@ + u64_chunk(self.deposit_count) + self.block_hash@);
        merkleize(&buffer)
    }
}

/// The root of a validator.
pub open spec fn validator_root(v: Validator) -> Root {
    root_of_chunks(
        public_key_root(v.public_key)@ + v.withdrawal_credentials@ + u64_chunk(v.effective_balance)
            + bool_chunk(v.slashed) + u64_chunk(v.activation_eligibility_epoch) + u64_chunk(
            v.activation_epoch,
        ) + u64_chunk(v.exit_epoch) + u64_chunk(v.withdrawable_epoch),
    )
}

impl Validator {
    /// The hash-tree root of the record.
    pub fn hash_tree_root(&self) -> (r: Root)
        ensures
            r == validator_root(*self),
    {
        let mut buffer: Vec<u8> = Vec::new();
        let key = hash_tree_root_public_key(&self.public_key);
        push_bytes32(&mut buffer, &key);
        push_bytes32(&mut buffer, &self.withdrawal_credentials);
        push_u64(&mut buffer, self.effective_balance);
        push_bool(&mut buffer, self.slashed);
        push_u64(&mut buffer, self.activation_eligibility_epoch);
        push_u64(&mut buffer, self.activation_epoch);
        push_u64(&mut buffer, self.exit_epoch);
        push_u64(&mut buffer, self.withdrawable_epoch);
        assert(buffer@ =~= public_key_root(self.public_key)@ + self.withdrawal_credentials@
            + u64_chunk(self.effective_balance) + bool_chunk(self.slashed) + u64_chunk(
            self.activation_eligibility_epoch,
        ) + u64_chunk(self.activation_epoch) + u64_chunk(self.exit_epoch) + u64_chunk(
            self.withdrawable_epoch,
        ));
        merkleize(&buffer)
    }
}

/// The roots of a list of validators.
pub open spec fn validator_roots(validators: Seq<Validator>) -> Seq<Root> {
    Seq::new(validators.len(), |i: int| validator_root(validators[i]))
}

/// The roots of a list of votes on eth1 data.
pub open spec fn eth1_data_roots(votes: Seq<Eth1Data>) -> Seq<Root> {
    Seq::new(votes.len(), |i: int| eth1_data_root(votes[i]))
}

/// The roots of a list of public keys.
pub open spec fn public_key_roots(keys: Seq<BlsPublicKey>) -> Seq<Root> {
    Seq::new(keys.len(), |i: int| public_key_root(keys[i]))
}

/// The root of a sync committee.
pub open spec fn sync_committee_root(committee: SyncCommitteeView) -> Root {
    root_of_chunks(
        roots_vector_root(public_key_roots(committee.public_keys))@ + public_key_root(
            committee.aggregate_public_key,
        )@,
    )
}

impl SyncCommittee {
    /// The hash-tree root of the record.
    pub fn hash_tree_root(&self) -> (r: Root)
        ensures
            r == sync_committee_root(self@),
    {
        let mut roots: Vec<Root> = Vec::new();
        let mut i: usize = 0;
        while i < self.public_keys.len()
            invariant
                i <= self.public_keys.len(),
                roots@.len() == i,
                forall|j: int| 0 <= j < i ==> roots@[j] == public_key_root(self.public_keys@[j]),
            decreases self.public_keys.len() - i,
        {
            roots.push(hash_tree_root_public_key(&self.public_keys[i]));
            i += 1;
        }
        assert(roots@ =~= public_key_roots(self.public_keys@));
        let keys = hash_tree_root_of_roots(&roots);
        let aggregate = hash_tree_root_public_key(&self.aggregate_public_key);
        let mut buffer: Vec<u8> = Vec::new();
        push_bytes32(&mut buffer, &keys);
        push_bytes32(&mut buffer, &aggregate);
        assert(buffer@ =~= roots_vector_root(public_key_roots(self.public_keys@))@
            + public_key_root(self.aggregate_public_key)@);
        merkleize(&buffer)
    }
}

/// The largest number of votes on eth1 data that a state may hold.
pub open spec fn eth1_votes_limit(c: Context) -> int {
    c.epochs_per_eth1_voting_period * c.slots_per_epoch
}

/// The roots of the lists of a state, where each list is within its limit.
pub struct StateListRoots {
    pub historical_roots: Root,
    pub eth1_data_votes: Root,
    pub validators: Root,
    pub balances: Root,
    pub previous_epoch_participation: Root,
    pub current_epoch_participation: Root,
    pub inactivity_scores: Root,
}

/// The roots of the lists of a state.
pub open spec fn state_list_roots(s: StateView, c: Context) -> Result<
    StateListRoots,
    TransitionError,
> {
    if eth1_votes_limit(c) > u64::MAX {
        Err(TransitionError::Merkleization)
    } else {
        match roots_list_root(s.historical_roots, c.historical_roots_limit) {
            Err(e) => Err(e),
            Ok(historical_roots) => match roots_list_root(
                eth1_data_roots(s.eth1_data_votes),
                eth1_votes_limit(c) as u64,
            ) {
                Err(e) => Err(e),
                Ok(eth1_data_votes) => match roots_list_root(
                    validator_roots(s.validators),
                    c.validator_registry_limit,
                ) {
                    Err(e) => Err(e),
                    Ok(validators) => match u64_list_root(s.balances, c.validator_registry_limit) {
                        Err(e) => Err(e),
                        Ok(balances) => match byte_list_root(
                            s.previous_epoch_participation,
                            c.validator_registry_limit,
                        ) {
                            Err(e) => Err(e),
                            Ok(previous_epoch_participation) => match byte_list_root(
                                s.current_epoch_participation,
                                c.validator_registry_limit,
                            ) {
                                Err(e) => Err(e),
                                Ok(current_epoch_participation) => match u64_list_root(
                                    s.inactivity_scores,
                                    c.validator_registry_limit,
                                ) {
                                    Err(e) => Err(e),
                                    Ok(inactivity_scores) => Ok(
                                        StateListRoots {
                                            historical_roots,
                                            eth1_data_votes,
                                            validators,
                                            balances,
                                            previous_epoch_participation,
                                            current_epoch_participation,
                                            inactivity_scores,
                                        },
                                    ),
                                },
                            },
                        },
                    },
                },
            },
        }
    }
}

/// The root of a state whose lists have the roots `l`: that of the tree
/// over the roots of its fields, in the order of the fields.
pub open spec fn state_root_with(s: StateView, l: StateListRoots) -> Root {
    root_of_chunks(
        u64_chunk(s.genesis_time) + s.genesis_validators_root@ + u64_chunk(s.slot) + fork_root(
            s.fork,
        )@ + header_root(s.latest_block_header)@ + roots_vector_root(s.block_roots)@
            + roots_vector_root(s.state_roots)@ + l.historical_roots@ + crate::roots::eth1_data_root(
            s.eth1_data,
        )@ + l.eth1_data_votes@ + u64_chunk(s.eth1_deposit_index) + l.validators@ + l.balances@
            + roots_vector_root(s.randao_mixes)@ + u64_vector_root(s.slashings)@
            + l.previous_epoch_participation@ + l.current_epoch_participation@ + byte_chunk(
            s.justification_bits,
        ) + checkpoint_root(s.previous_justified_checkpoint)@ + checkpoint_root(
            s.current_justified_checkpoint,
        )@ + checkpoint_root(s.finalized_checkpoint)@ + l.inactivity_scores@ + sync_committee_root(
            s.current_sync_committee,
        )@ + sync_committee_root(s.next_sync_committee)@,
    )
}

/// The root of a state.
pub open spec fn state_root(s: StateView, c: Context) -> Result<Root, TransitionError> {
    match state_list_roots(s, c) {
        Ok(l) => Ok(state_root_with(s, l)),
        Err(e) => Err(e),
    }
}

fn get_state_list_roots(state: &BeaconState, context: &Context) -> (r: Result<
    StateListRoots,
    TransitionError,
>)
    ensures
        r == state_list_roots(state@, *context),
{
    let votes_limit = wide_mul(context.epochs_per_eth1_voting_period, context.slots_per_epoch);
    if votes_limit > u64::MAX as u128 {
        return Err(TransitionError::Merkleization);
    }
    let historical_roots = hash_tree_root_of_list(
        &state.historical_roots,
        context.historical_roots_limit,
    )?;
    let mut vote_roots: Vec<Root> = Vec::new();
    let mut i: usize = 0;
    while i < state.eth1_data_votes.len()
        invariant
            i <= state.eth1_data_votes.len(),
            vote_roots@.len() == i,
            forall|j: int| 0 <= j < i ==> vote_roots@[j] == eth1_data_root(state.eth1_data_votes@[j]),
        decreases state.eth1_data_votes.len() - i,
    {
        vote_roots.push(state.eth1_data_votes[i].hash_tree_root());
        i += 1;
    }
    assert(vote_roots@ =~= eth1_data_roots(state@.eth1_data_votes));
    let eth1_data_votes = hash_tree_root_of_list(&vote_roots, votes_limit as u64)?;
    let mut roots: Vec<Root> = Vec::new();
    let mut k: usize = 0;
    while k < state.validators.len()
        invariant
            k <= state.validators.len(),
            roots@.len() == k,
            forall|j: int| 0 <= j < k ==> roots@[j] == validator_root(state.validators@[j]),
        decreases state.validators.len() - k,
    {
        roots.push(state.validators[k].hash_tree_root());
        k += 1;
    }
    assert(roots@ =~= validator_roots(state@.validators));
    let validators = hash_tree_root_of_list(&roots, context.validator_registry_limit)?;
    let balances = hash_tree_root_of_u64_list(&state.balances, context.validator_registry_limit)?;
    let previous_epoch_participation = hash_tree_root_of_byte_list(
        &state.previous_epoch_participation,
        context.validator_registry_limit,
    )?;
    let current_epoch_participation = hash_tree_root_of_byte_list(
        &state.current_epoch_participation,
        context.validator_registry_limit,
    )?;
    let inactivity_scores = hash_tree_root_of_u64_list(
        &state.inactivity_scores,
        context.validator_registry_limit,
    )?;
    Ok(
        StateListRoots {
            historical_roots,
            eth1_data_votes,
            validators,
            balances,
            previous_epoch_participation,
            current_epoch_participation,
            inactivity_scores,
        },
    )
}

impl BeaconState {
    /// The hash-tree root of the record.
    pub fn hash_tree_root(&self, context: &Context) -> (r: Result<Root, TransitionError>)
        ensures
            r == state_root(self@, *context),
    {
        let l = get_state_list_roots(self, context)?;
        let mut buffer: Vec<u8> = Vec::new();
        push_u64(&mut buffer, self.genesis_time);
        push_bytes32(&mut buffer, &self.genesis_validators_root);
        push_u64(&mut buffer, self.slot);
        let fork = self.fork.hash_tree_root();
        push_bytes32(&mut buffer, &fork);
        let header = self.latest_block_header.hash_tree_root();
        push_bytes32(&mut buffer, &header);
        let block_roots = hash_tree_root_of_roots(&self.block_roots);
        push_bytes32(&mut buffer, &block_roots);
        let state_roots = hash_tree_root_of_roots(&self.state_roots);
        push_bytes32(&mut buffer, &state_roots);
        push_bytes32(&mut buffer, &l.historical_roots);
        let eth1_data = self.eth1_data.hash_tree_root();
        push_bytes32(&mut buffer, &eth1_data);
        push_bytes32(&mut buffer, &l.eth1_data_votes);
        push_u64(&mut buffer, self.eth1_deposit_index);
        push_bytes32(&mut buffer, &l.validators);
        push_bytes32(&mut buffer, &l.balances);
        let randao_mixes = hash_tree_root_of_roots(&self.randao_mixes);
        push_bytes32(&mut buffer, &randao_mixes);
        let slashings = hash_tree_root_of_u64_vector(&self.slashings);
        push_bytes32(&mut buffer, &slashings);
        push_bytes32(&mut buffer, &l.previous_epoch_participation);
        push_bytes32(&mut buffer, &l.current_epoch_participation);
        push_byte(&mut buffer, self.justification_bits);
        let previous_justified = self.previous_justified_checkpoint.hash_tree_root();
        push_bytes32(&mut buffer, &previous_justified);
        let current_justified = self.current_justified_checkpoint.hash_tree_root();
        push_bytes32(&mut buffer, &current_justified);
        let finalized = self.finalized_checkpoint.hash_tree_root();
        push_bytes32(&mut buffer, &finalized);
        push_bytes32(&mut buffer, &l.inactivity_scores);
        let current_sync_committee = self.current_sync_committee.hash_tree_root();
        push_bytes32(&mut buffer, &current_sync_committee);
        let next_sync_committee = self.next_sync_committee.hash_tree_root();
        push_bytes32(&mut buffer, &next_sync_committee);
        proof {
            let s = self@;
            assert(buffer@ =~= u64_chunk(s.genesis_time) + s.genesis_validators_root@ + u64_chunk(
                s.slot,
            ) + fork_root(s.fork)@ + header_root(s.latest_block_header)@ + roots_vector_root(
                s.block_roots,
            )@ + roots_vector_root(s.state_roots)@ + l.historical_roots@ + eth1_data_root(
                s.eth1_data,
            )@ + l.eth1_data_votes@ + u64_chunk(s.eth1_deposit_index) + l.validators@ + l.balances@
                + roots_vector_root(s.randao_mixes)@ + u64_vector_root(s.slashings)@
                + l.previous_epoch_participation@ + l.current_epoch_participation@ + byte_chunk(
                s.justification_bits,
            ) + checkpoint_root(s.previous_justified_checkpoint)@ + checkpoint_root(
                s.current_justified_checkpoint,
            )@ + checkpoint_root(s.finalized_checkpoint)@ + l.inactivity_scores@
                + sync_committee_root(s.current_sync_committee)@ + sync_committee_root(
                s.next_sync_committee,
            )@);
        }
        Ok(merkleize(&buffer))
    }
}

/// The numbers of a list of indices.
pub open spec fn indices_as_u64(indices: Seq<ValidatorIndex>) -> Seq<u64> {
    Seq::new(indices.len(), |i: int| indices[i] as u64)
}

fn widen(indices: &Vec<ValidatorIndex>) -> (r: Vec<u64>)
    ensures
        r@ == indices_as_u64(indices@),
{
    let mut r: Vec<u64> = Vec::new();
    let mut i: usize = 0;
    while i < indices.len()
        invariant
            i <= indices.len(),
            r@.len() == i,
            forall|j: int| 0 <= j < i ==> r@[j] == indices@[j] as u64,
        decreases indices.len() - i,
    {
        r.push(indices[i] as u64);
        i += 1;
    }
    assert(r@ =~= indices_as_u64(indices@));
    r
}

/// The root of an attestation.
pub open spec fn attestation_root(a: Attestation, c: Context) -> Result<Root, TransitionError> {
    match bitlist_root(a.aggregation_bits@, c.max_validators_per_committee as u64) {
        Err(e) => Err(e),
        Ok(bits) => Ok(
            root_of_chunks(bits@ + attestation_data_root(a.data)@ + signature_root(a.signature)@),
        ),
    }
}

impl Attestation {
    /// The hash-tree root of the record.
    pub fn hash_tree_root(&self, context: &Context) -> (r: Result<Root, TransitionError>)
        ensures
            r == attestation_root(*self, *context),
    {
        let bits = hash_tree_root_of_bitlist(
            &self.aggregation_bits,
            context.max_validators_per_committee as u64,
        )?;
        let mut buffer: Vec<u8> = Vec::new();
        push_bytes32(&mut buffer, &bits);
        let data = self.data.hash_tree_root();
        push_bytes32(&mut buffer, &data);
        let signature = hash_tree_root_signature(&self.signature);
        push_bytes32(&mut buffer, &signature);
        assert(buffer@ =~= bits@ + attestation_data_root(self.data)@ + signature_root(
            self.signature,
        )@);
        Ok(merkleize(&buffer))
    }
}

/// The root of an indexed attestation.
pub open spec fn indexed_attestation_root(a: IndexedAttestation, c: Context) -> Result<
    Root,
    TransitionError,
> {
    match u64_list_root(
        indices_as_u64(a.attesting_indices@),
        c.max_validators_per_committee as u64,
    ) {
        Err(e) => Err(e),
        Ok(indices) => Ok(
            root_of_chunks(indices@ + attestation_data_root(a.data)@ + signature_root(a.signature)@),
        ),
    }
}

impl IndexedAttestation {
    /// The hash-tree root of the record.
    pub fn hash_tree_root(&self, context: &Context) -> (r: Result<Root, TransitionError>)
        ensures
            r == indexed_attestation_root(*self, *context),
    {
        let numbers = widen(&self.attesting_indices);
        let indices = hash_tree_root_of_u64_list(
            &numbers,
            context.max_validators_per_committee as u64,
        )?;
        let mut buffer: Vec<u8> = Vec::new();
        push_bytes32(&mut buffer, &indices);
        let data = self.data.hash_tree_root();
        push_bytes32(&mut buffer, &data);
        let signature = hash_tree_root_signature(&self.signature);
        push_bytes32(&mut buffer, &signature);
        assert(buffer@ =~= indices@ + attestation_data_root(self.data)@ + signature_root(
            self.signature,
        )@);
        Ok(merkleize(&buffer))
    }
}

/// The root of a signed block header.
pub open spec fn signed_header_root(h: SignedBeaconBlockHeader) -> Root {
    root_of_chunks(header_root(h.message)@ + signature_root(h.signature)@)
}

impl SignedBeaconBlockHeader {
    /// The hash-tree root of the record.
    pub fn hash_tree_root(&self) -> (r: Root)
        ensures
            r == signed_header_root(*self),
    {
        let mut buffer: Vec<u8> = Vec::new();
        let message = self.message.hash_tree_root();
        push_bytes32(&mut buffer, &message);
        let signature = hash_tree_root_signature(&self.signature);
        push_bytes32(&mut buffer, &signature);
        assert(buffer@ =~= header_root(self.message)@ + signature_root(self.signature)@);
        merkleize(&buffer)
    }
}

/// The root of a proposer slashing.
pub open spec fn proposer_slashing_root(p: ProposerSlashing) -> Root {
    root_of_chunks(signed_header_root(p.signed_header_1)@ + signed_header_root(p.signed_header_2)@)
}

impl ProposerSlashing {
    /// The hash-tree root of the record.
    pub fn hash_tree_root(&self) -> (r: Root)
        ensures
            r == proposer_slashing_root(*self),
    {
        let mut buffer: Vec<u8> = Vec::new();
        let first = self.signed_header_1.hash_tree_root();
        push_bytes32(&mut buffer, &first);
        let second = self.signed_header_2.hash_tree_root();
        push_bytes32(&mut buffer, &second);
        assert(buffer@ =~= signed_header_root(self.signed_header_1)@ + signed_header_root(
            self.signed_header_2,
        )@);
        merkleize(&buffer)
    }
}

/// The root of an attester slashing.
pub open spec fn attester_slashing_root(a: AttesterSlashing, c: Context) -> Result<
    Root,
    TransitionError,
> {
    match indexed_attestation_root(a.attestation_1, c) {
        Err(e) => Err(e),
        Ok(first) => match indexed_attestation_root(a.attestation_2, c) {
            Err(e) => Err(e),
            Ok(second) => Ok(root_of_chunks(first@ + second@)),
        },
    }
}

impl AttesterSlashing {
    /// The hash-tree root of the record.
    pub fn hash_tree_root(&self, context: &Context) -> (r: Result<Root, TransitionError>)
        ensures
            r == attester_slashing_root(*self, *context),
    {
        let first = self.attestation_1.hash_tree_root(context)?;
        let second = self.attestation_2.hash_tree_root(context)?;
        let mut buffer: Vec<u8> = Vec::new();
        push_bytes32(&mut buffer, &first);
        push_bytes32(&mut buffer, &second);
        assert(buffer@ =~= first@ + second@);
        Ok(merkleize(&buffer))
    }
}

/// The root of a deposit.
pub open spec fn deposit_root(d: Deposit) -> Root {
    root_of_chunks(roots_vector_root(d.proof@)@ + deposit_data_root(d.data)@)
}

impl Deposit {
    /// The hash-tree root of the record.
    pub fn hash_tree_root(&self) -> (r: Root)
        ensures
            r == deposit_root(*self),
    {
        let mut buffer: Vec<u8> = Vec::new();
        let proof = hash_tree_root_of_roots(&self.proof);
        push_bytes32(&mut buffer, &proof);
        let data = self.data.hash_tree_root();
        push_bytes32(&mut buffer, &data);
        assert(buffer@ =~= roots_vector_root(self.proof@)@ + deposit_data_root(self.data)@);
        merkleize(&buffer)
    }
}

/// The root of a signed voluntary exit.
pub open spec fn signed_exit_root(e: SignedVoluntaryExit) -> Root {
    root_of_chunks(voluntary_exit_root(e.message)@ + signature_root(e.signature)@)
}

impl SignedVoluntaryExit {
    /// The hash-tree root of the record.
    pub fn hash_tree_root(&self) -> (r: Root)
        ensures
            r == signed_exit_root(*self),
    {
        let mut buffer: Vec<u8> = Vec::new();
        let message = self.message.hash_tree_root();
        push_bytes32(&mut buffer, &message);
        let signature = hash_tree_root_signature(&self.signature);
        push_bytes32(&mut buffer, &signature);
        assert(buffer@ =~= voluntary_exit_root(self.message)@ + signature_root(self.signature)@);
        merkleize(&buffer)
    }
}

/// The root of a sync aggregate.
pub open spec fn sync_aggregate_root(a: SyncAggregate) -> Root {
    root_of_chunks(
        bitvector_root(a.sync_committee_bits@)@ + signature_root(a.sync_committee_signature)@,
    )
}

impl SyncAggregate {
    /// The hash-tree root of the record.
    pub fn hash_tree_root(&self) -> (r: Root)
        ensures
            r == sync_aggregate_root(*self),
    {
        let mut buffer: Vec<u8> = Vec::new();
        let bits = hash_tree_root_of_bitvector(&self.sync_committee_bits);
        push_bytes32(&mut buffer, &bits);
        let signature = hash_tree_root_signature(&self.sync_committee_signature);
        push_bytes32(&mut buffer, &signature);
        assert(buffer@ =~= bitvector_root(self.sync_committee_bits@)@ + signature_root(
            self.sync_committee_signature,
        )@);
        merkleize(&buffer)
    }
}

/// The root of each of a list of attestations, or the error of the first
/// that has none.
pub open spec fn attestation_roots(attestations: Seq<Attestation>, c: Context) -> Result<
    Seq<Root>,
    TransitionError,
> {
    crate::outcomes::for_each_index(attestations.len(), |i: int| attestation_root(attestations[i], c))
}

/// The root of each of a list of attester slashings, or the error of the
/// first that has none.
pub open spec fn attester_slashing_roots(slashings: Seq<AttesterSlashing>, c: Context) -> Result<
    Seq<Root>,
    TransitionError,
> {
    crate::outcomes::for_each_index(
        slashings.len(),
        |i: int| attester_slashing_root(slashings[i], c),
    )
}

/// The roots of the lists of operations of a block body.
pub struct BodyListRoots {
    pub proposer_slashings: Root,
    pub attester_slashings: Root,
    pub attestations: Root,
    pub deposits: Root,
    pub voluntary_exits: Root,
}

/// The roots of the lists of operations of a block body, where each list
/// is within its limit.
pub open spec fn body_list_roots(b: BeaconBlockBody, c: Context) -> Result<
    BodyListRoots,
    TransitionError,
> {
    match roots_list_root(
        Seq::new(b.proposer_slashings@.len(), |i: int| proposer_slashing_root(b.proposer_slashings@[i])),
        c.max_proposer_slashings as u64,
    ) {
        Err(e) => Err(e),
        Ok(proposer_slashings) => match attester_slashing_roots(b.attester_slashings@, c) {
            Err(e) => Err(e),
            Ok(roots) => match roots_list_root(roots, c.max_attester_slashings as u64) {
                Err(e) => Err(e),
                Ok(attester_slashings) => match attestation_roots(b.attestations@, c) {
                    Err(e) => Err(e),
                    Ok(roots) => match roots_list_root(roots, c.max_attestations as u64) {
                        Err(e) => Err(e),
                        Ok(attestations) => match roots_list_root(
                            Seq::new(b.deposits@.len(), |i: int| deposit_root(b.deposits@[i])),
                            c.max_deposits as u64,
                        ) {
                            Err(e) => Err(e),
                            Ok(deposits) => match roots_list_root(
                                Seq::new(
                                    b.voluntary_exits@.len(),
                                    |i: int| signed_exit_root(b.voluntary_exits@[i]),
                                ),
                                c.max_voluntary_exits as u64,
                            ) {
                                Err(e) => Err(e),
                                Ok(voluntary_exits) => Ok(
                                    BodyListRoots {
                                        proposer_slashings,
                                        attester_slashings,
                                        attestations,
                                        deposits,
                                        voluntary_exits,
                                    },
                                ),
                            },
                        },
                    },
                },
            },
        },
    }
}

/// The root of a block body.
pub open spec fn body_root(b: BeaconBlockBody, c: Context) -> Result<Root, TransitionError> {
    match body_list_roots(b, c) {
        Err(e) => Err(e),
        Ok(l) => Ok(
            root_of_chunks(
                signature_root(b.randao_reveal)@ + eth1_data_root(b.eth1_data)@ + b.graffiti@
                    + l.proposer_slashings@ + l.attester_slashings@ + l.attestations@ + l.deposits@
                    + l.voluntary_exits@ + sync_aggregate_root(b.sync_aggregate)@,
            ),
        ),
    }
}

fn get_body_list_roots(body: &BeaconBlockBody, context: &Context) -> (r: Result<
    BodyListRoots,
    TransitionError,
>)
    ensures
        r == body_list_roots(*body, *context),
{
    let mut roots: Vec<Root> = Vec::new();
    let mut i: usize = 0;
    while i < body.proposer_slashings.len()
        invariant
            i <= body.proposer_slashings.len(),
            roots@.len() == i,
            forall|j: int|
                0 <= j < i ==> roots@[j] == proposer_slashing_root(body.proposer_slashings@[j]),
        decreases body.proposer_slashings.len() - i,
    {
        roots.push(body.proposer_slashings[i].hash_tree_root());
        i += 1;
    }
    assert(roots@ =~= Seq::new(
        body.proposer_slashings@.len(),
        |i: int| proposer_slashing_root(body.proposer_slashings@[i]),
    ));
    let proposer_slashings = hash_tree_root_of_list(&roots, context.max_proposer_slashings as u64)?;
    let ghost f = |i: int| attester_slashing_root(body.attester_slashings@[i], *context);
    let mut roots: Vec<Root> = Vec::new();
    let mut i: usize = 0;
    while i < body.attester_slashings.len()
        invariant
            i <= body.attester_slashings.len(),
            roots@.len() == i,
            f == (|i: int| attester_slashing_root(body.attester_slashings@[i], *context)),
            attester_slashing_roots(body.attester_slashings@, *context)
                == crate::outcomes::for_each_index(body.attester_slashings@.len(), f),
            roots_list_root(
                Seq::new(
                    body.proposer_slashings@.len(),
                    |i: int| proposer_slashing_root(body.proposer_slashings@[i]),
                ),
                context.max_proposer_slashings as u64,
            ) == Ok::<Root, TransitionError>(proposer_slashings),
            forall|j: int| 0 <= j < i ==> (#[trigger] f(j)) == Ok::<Root, TransitionError>(roots@[j]),
        decreases body.attester_slashings.len() - i,
    {
        match body.attester_slashings[i].hash_tree_root(context) {
            Ok(root) => {
                roots.push(root);
            },
            Err(e) => {
                proof {
                    crate::outcomes::lemma_fails_at(
                        body.attester_slashings@.len(),
                        f,
                        i as int,
                    );
                }
                return Err(e);
            },
        }
        i += 1;
    }
    proof {
        crate::outcomes::lemma_succeeds(body.attester_slashings@.len(), f, roots@);
    }
    let attester_slashings = hash_tree_root_of_list(&roots, context.max_attester_slashings as u64)?;
    let ghost g = |i: int| attestation_root(body.attestations@[i], *context);
    let mut roots: Vec<Root> = Vec::new();
    let mut i: usize = 0;
    while i < body.attestations.len()
        invariant
            i <= body.attestations.len(),
            roots@.len() == i,
            g == (|i: int| attestation_root(body.attestations@[i], *context)),
            attestation_roots(body.attestations@, *context) == crate::outcomes::for_each_index(
                body.attestations@.len(),
                g,
            ),
            roots_list_root(
                Seq::new(
                    body.proposer_slashings@.len(),
                    |i: int| proposer_slashing_root(body.proposer_slashings@[i]),
                ),
                context.max_proposer_slashings as u64,
            ) == Ok::<Root, TransitionError>(proposer_slashings),
            attester_slashing_roots(body.attester_slashings@, *context) is Ok,
            roots_list_root(
                attester_slashing_roots(body.attester_slashings@, *context)->Ok_0,
                context.max_attester_slashings as u64,
            ) == Ok::<Root, TransitionError>(attester_slashings),
            forall|j: int| 0 <= j < i ==> (#[trigger] g(j)) == Ok::<Root, TransitionError>(roots@[j]),
        decreases body.attestations.len() - i,
    {
        match body.attestations[i].hash_tree_root(context) {
            Ok(root) => {
                roots.push(root);
            },
            Err(e) => {
                proof {
                    crate::outcomes::lemma_fails_at(body.attestations@.len(), g, i as int);
                }
                return Err(e);
            },
        }
        i += 1;
    }
    proof {
        crate::outcomes::lemma_succeeds(body.attestations@.len(), g, roots@);
    }
    let attestations = hash_tree_root_of_list(&roots, context.max_attestations as u64)?;
    let mut roots: Vec<Root> = Vec::new();
    let mut i: usize = 0;
    while i < body.deposits.len()
        invariant
            i <= body.deposits.len(),
            roots@.len() == i,
            forall|j: int| 0 <= j < i ==> roots@[j] == deposit_root(body.deposits@[j]),
        decreases body.deposits.len() - i,
    {
        roots.push(body.deposits[i].hash_tree_root());
        i += 1;
    }
    assert(roots@ =~= Seq::new(body.deposits@.len(), |i: int| deposit_root(body.deposits@[i])));
    let deposits = hash_tree_root_of_list(&roots, context.max_deposits as u64)?;
    let mut roots: Vec<Root> = Vec::new();
    let mut i: usize = 0;
    while i < body.voluntary_exits.len()
        invariant
            i <= body.voluntary_exits.len(),
            roots@.len() == i,
            forall|j: int| 0 <= j < i ==> roots@[j] == signed_exit_root(body.voluntary_exits@[j]),
        decreases body.voluntary_exits.len() - i,
    {
        roots.push(body.voluntary_exits[i].hash_tree_root());
        i += 1;
    }
    assert(roots@ =~= Seq::new(
        body.voluntary_exits@.len(),
        |i: int| signed_exit_root(body.voluntary_exits@[i]),
    ));
    let voluntary_exits = hash_tree_root_of_list(&roots, context.max_voluntary_exits as u64)?;
    Ok(
        BodyListRoots {
            proposer_slashings,
            attester_slashings,
            attestations,
            deposits,
            voluntary_exits,
        },
    )
}

impl BeaconBlockBody {
    /// The hash-tree root of the record.
    pub fn hash_tree_root(&self, context: &Context) -> (r: Result<Root, TransitionError>)
        ensures
            r == body_root(*self, *context),
    {
        let l = get_body_list_roots(self, context)?;
        let mut buffer: Vec<u8> = Vec::new();
        let randao_reveal = hash_tree_root_signature(&self.randao_reveal);
        push_bytes32(&mut buffer, &randao_reveal);
        let eth1_data = self.eth1_data.hash_tree_root();
        push_bytes32(&mut buffer, &eth1_data);
        push_bytes32(&mut buffer, &self.graffiti);
        push_bytes32(&mut buffer, &l.proposer_slashings);
        push_bytes32(&mut buffer, &l.attester_slashings);
        push_bytes32(&mut buffer, &l.attestations);
        push_bytes32(&mut buffer, &l.deposits);
        push_bytes32(&mut buffer, &l.voluntary_exits);
        let sync_aggregate = self.sync_aggregate.hash_tree_root();
        push_bytes32(&mut buffer, &sync_aggregate);
        assert(buffer@ =~= signature_root(self.randao_reveal)@ + eth1_data_root(self.eth1_data)@
            + self.graffiti@ + l.proposer_slashings@ + l.attester_slashings@ + l.attestations@
            + l.deposits@ + l.voluntary_exits@ + sync_aggregate_root(self.sync_aggregate)@);
        Ok(merkleize(&buffer))
    }
}

/// The header that stands for a block: it names the body by its root.
pub open spec fn block_header(b: BeaconBlock, c: Context) -> Result<
    BeaconBlockHeader,
    TransitionError,
> {
    match body_root(b.body, c) {
        Err(e) => Err(e),
        Ok(body_root) => Ok(
            BeaconBlockHeader {
                slot: b.slot,
                proposer_index: b.proposer_index,
                parent_root: b.parent_root,
                state_root: b.state_root,
                body_root,
            },
        ),
    }
}

impl BeaconBlock {
    /// The header that stands for the block.
    pub fn header(&self, context: &Context) -> (r: Result<BeaconBlockHeader, TransitionError>)
        ensures
            r == block_header(*self, *context),
    {
        let body_root = self.body.hash_tree_root(context)?;
        Ok(
            BeaconBlockHeader {
                slot: self.slot,
                proposer_index: self.proposer_index,
                parent_root: self.parent_root,
                state_root: self.state_root,
                body_root,
            },
        )
    }
}

} // verus!
