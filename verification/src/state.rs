//! The consensus state and the records it is made of.

use vstd::prelude::*;
use crate::context::Context;
use crate::error::TransitionError;
use crate::primitives::{FAR_FUTURE_EPOCH, 
    copy_vec, wide_mul, BlsPublicKey, Bytes32, Epoch, Gwei, ParticipationFlags, Root, Slot, ValidatorIndex,
    Version,
};

verus! {

/// A validator: its keys, its stake and where it is in its life.
#[derive(Clone, Copy, Debug, PartialEq, Eq)]
pub struct Validator {
    pub public_key: BlsPublicKey,
    pub withdrawal_credentials: Bytes32,
    pub effective_balance: Gwei,
    pub slashed: bool,
    pub activation_eligibility_epoch: Epoch,
    pub activation_epoch: Epoch,
    pub exit_epoch: Epoch,
    pub withdrawable_epoch: Epoch,
}

/// An epoch and the root of the block at its start.
#[derive(Clone, Copy, Debug, PartialEq, Eq)]
pub struct Checkpoint {
    pub epoch: Epoch,
    pub root: Root,
}

/// The fork that a state is on.
#[derive(Clone, Copy, Debug, PartialEq, Eq)]
pub struct Fork {
    pub previous_version: Version,
    pub current_version: Version,
    pub epoch: Epoch,
}

/// What the chain knows of the deposit contract.
#[derive(Clone, Copy, Debug, PartialEq, Eq)]
pub struct Eth1Data {
    pub deposit_root: Root,
    pub deposit_count: u64,
    pub block_hash: Bytes32,
}

/// A block without its body.
#[derive(Clone, Copy, Debug, PartialEq, Eq)]
pub struct BeaconBlockHeader {
    pub slot: Slot,
    pub proposer_index: ValidatorIndex,
    pub parent_root: Root,
    pub state_root: Root,
    pub body_root: Root,
}

/// A sync committee: the keys of its members and their sum.
#[derive(Clone, Debug, PartialEq, Eq)]
pub struct SyncCommittee {
    pub public_keys: Vec<BlsPublicKey>,
    pub aggregate_public_key: BlsPublicKey,
}

/// What a sync committee holds.
pub struct SyncCommitteeView {
    pub public_keys: Seq<BlsPublicKey>,
    pub aggregate_public_key: BlsPublicKey,
}

impl View for SyncCommittee {
    type V = SyncCommitteeView;

    open spec fn view(&self) -> SyncCommitteeView {
        SyncCommitteeView {
            public_keys: self.public_keys@,
            aggregate_public_key: self.aggregate_public_key,
        }
    }
}

impl SyncCommittee {
    /// A copy.
    pub fn duplicate(&self) -> (r: SyncCommittee)
        ensures
            r@ == self@,
    {
        SyncCommittee {
            public_keys: copy_vec(&self.public_keys),
            aggregate_public_key: self.aggregate_public_key,
        }
    }
}

/// The consensus state.
#[derive(Clone, Debug, PartialEq, Eq)]
pub struct BeaconState {
    pub genesis_time: u64,
    pub genesis_validators_root: Root,
    pub slot: Slot,
    pub fork: Fork,
    pub latest_block_header: BeaconBlockHeader,
    pub block_roots: Vec<Root>,
    pub state_roots: Vec<Root>,
    pub historical_roots: Vec<Root>,
    pub eth1_data: Eth1Data,
    pub eth1_data_votes: Vec<Eth1Data>,
    pub eth1_deposit_index: u64,
    pub validators: Vec<Validator>,
    pub balances: Vec<Gwei>,
    pub randao_mixes: Vec<Bytes32>,
    pub slashings: Vec<Gwei>,
    pub previous_epoch_participation: Vec<ParticipationFlags>,
    pub current_epoch_participation: Vec<ParticipationFlags>,
    pub justification_bits: u8,
    pub previous_justified_checkpoint: Checkpoint,
    pub current_justified_checkpoint: Checkpoint,
    pub finalized_checkpoint: Checkpoint,
    pub inactivity_scores: Vec<u64>,
    pub current_sync_committee: SyncCommittee,
    pub next_sync_committee: SyncCommittee,
}

/// What a state holds: every list and buffer as the sequence of its items.
pub struct StateView {
    pub genesis_time: u64,
    pub genesis_validators_root: Root,
    pub slot: Slot,
    pub fork: Fork,
    pub latest_block_header: BeaconBlockHeader,
    pub block_roots: Seq<Root>,
    pub state_roots: Seq<Root>,
    pub historical_roots: Seq<Root>,
    pub eth1_data: Eth1Data,
    pub eth1_data_votes: Seq<Eth1Data>,
    pub eth1_deposit_index: u64,
    pub validators: Seq<Validator>,
    pub balances: Seq<Gwei>,
    pub randao_mixes: Seq<Bytes32>,
    pub slashings: Seq<Gwei>,
    pub previous_epoch_participation: Seq<ParticipationFlags>,
    pub current_epoch_participation: Seq<ParticipationFlags>,
    pub justification_bits: u8,
    pub previous_justified_checkpoint: Checkpoint,
    pub current_justified_checkpoint: Checkpoint,
    pub finalized_checkpoint: Checkpoint,
    pub inactivity_scores: Seq<u64>,
    pub current_sync_committee: SyncCommitteeView,
    pub next_sync_committee: SyncCommitteeView,
}

impl View for BeaconState {
    type V = StateView;

    open spec fn view(&self) -> StateView {
        StateView {
            genesis_time: self.genesis_time,
            genesis_validators_root: self.genesis_validators_root,
            slot: self.slot,
            fork: self.fork,
            latest_block_header: self.latest_block_header,
            block_roots: self.block_roots@,
            state_roots: self.state_roots@,
            historical_roots: self.historical_roots@,
            eth1_data: self.eth1_data,
            eth1_data_votes: self.eth1_data_votes@,
            eth1_deposit_index: self.eth1_deposit_index,
            validators: self.validators@,
            balances: self.balances@,
            randao_mixes: self.randao_mixes@,
            slashings: self.slashings@,
            previous_epoch_participation: self.previous_epoch_participation@,
            current_epoch_participation: self.current_epoch_participation@,
            justification_bits: self.justification_bits,
            previous_justified_checkpoint: self.previous_justified_checkpoint,
            current_justified_checkpoint: self.current_justified_checkpoint,
            finalized_checkpoint: self.finalized_checkpoint,
            inactivity_scores: self.inactivity_scores@,
            current_sync_committee: self.current_sync_committee@,
            next_sync_committee: self.next_sync_committee@,
        }
    }
}

/// Whether an effective balance is a whole number of increments and no
/// larger than the largest one allowed.
pub open spec fn quantized(effective_balance: Gwei, c: Context) -> bool {
    effective_balance % c.effective_balance_increment == 0 && effective_balance
        <= c.max_effective_balance
}

/// The invariant of a state under the constants `c`: each ring buffer has
/// its configured length, each bounded list is within its maximum, the
/// per-validator lists are as long as the registry, every effective balance
/// is quantized, and the justification bitfield has four bits.
pub open spec fn wf(s: StateView, c: Context) -> bool {
    &&& s.block_roots.len() == c.slots_per_historical_root
    &&& s.state_roots.len() == c.slots_per_historical_root
    &&& s.randao_mixes.len() == c.epochs_per_historical_vector
    &&& s.slashings.len() == c.epochs_per_slashings_vector
    &&& s.historical_roots.len() <= c.historical_roots_limit
    &&& s.eth1_data_votes.len() <= c.epochs_per_eth1_voting_period * c.slots_per_epoch
    &&& s.validators.len() <= c.validator_registry_limit
    &&& s.balances.len() == s.validators.len()
    &&& s.previous_epoch_participation.len() == s.validators.len()
    &&& s.current_epoch_participation.len() == s.validators.len()
    &&& s.inactivity_scores.len() == s.validators.len()
    &&& s.current_sync_committee.public_keys.len() == c.sync_committee_size
    &&& s.next_sync_committee.public_keys.len() == c.sync_committee_size
    &&& s.justification_bits < 16
    &&& forall|i: int|
        0 <= i < s.validators.len() ==> quantized(
            (#[trigger] s.validators[i]).effective_balance,
            c,
        )
}

/// Whether two states agree on the slot and on everything that speaks of
/// justification and finality.
pub open spec fn same_finality(a: StateView, b: StateView) -> bool {
    &&& a.slot == b.slot
    &&& a.justification_bits == b.justification_bits
    &&& a.previous_justified_checkpoint == b.previous_justified_checkpoint
    &&& a.current_justified_checkpoint == b.current_justified_checkpoint
    &&& a.finalized_checkpoint == b.finalized_checkpoint
}

/// Whether `after` is what a validator that was `before` may become: an
/// epoch that was set keeps its value, only that the validator may become
/// withdrawable later once its exit is set; its key and its withdrawal
/// credentials stay; and a slashed validator stays slashed.
pub open spec fn validator_moves_on(before: Validator, after: Validator) -> bool {
    &&& before.public_key == after.public_key
    &&& before.withdrawal_credentials == after.withdrawal_credentials
    &&& before.slashed ==> after.slashed
    &&& before.activation_eligibility_epoch == FAR_FUTURE_EPOCH
        || after.activation_eligibility_epoch == before.activation_eligibility_epoch
    &&& before.activation_epoch == FAR_FUTURE_EPOCH || after.activation_epoch
        == before.activation_epoch
    &&& before.exit_epoch == FAR_FUTURE_EPOCH || (after.exit_epoch == before.exit_epoch
        && before.withdrawable_epoch <= after.withdrawable_epoch)
}

/// Whether the registry of `after` is what the registry of `before` may
/// become: no validator leaves, and each is what it may become.
pub open spec fn registry_moves_on(before: StateView, after: StateView) -> bool {
    &&& before.validators.len() <= after.validators.len()
    &&& forall|i: int|
        0 <= i < before.validators.len() ==> validator_moves_on(
            #[trigger] before.validators[i],
            after.validators[i],
        )
}

/// How the outcome `r` of a call and the states before and after it relate
/// to what the rules prescribe: on success the state is the prescribed one,
/// on failure the error is the prescribed one and the state is untouched.
pub open spec fn follows(
    before: StateView,
    after: StateView,
    r: Result<(), TransitionError>,
    prescribed: Result<StateView, TransitionError>,
) -> bool {
    match prescribed {
        Ok(s) => r is Ok && after == s,
        Err(e) => r == Err::<(), TransitionError>(e) && after == before,
    }
}

impl BeaconState {
    /// A copy.
    pub fn duplicate(&self) -> (r: BeaconState)
        ensures
            r@ == self@,
    {
        BeaconState {
            genesis_time: self.genesis_time,
            genesis_validators_root: self.genesis_validators_root,
            slot: self.slot,
            fork: self.fork,
            latest_block_header: self.latest_block_header,
            block_roots: copy_vec(&self.block_roots),
            state_roots: copy_vec(&self.state_roots),
            historical_roots: copy_vec(&self.historical_roots),
            eth1_data: self.eth1_data,
            eth1_data_votes: copy_vec(&self.eth1_data_votes),
            eth1_deposit_index: self.eth1_deposit_index,
            validators: copy_vec(&self.validators),
            balances: copy_vec(&self.balances),
            randao_mixes: copy_vec(&self.randao_mixes),
            slashings: copy_vec(&self.slashings),
            previous_epoch_participation: copy_vec(&self.previous_epoch_participation),
            current_epoch_participation: copy_vec(&self.current_epoch_participation),
            justification_bits: self.justification_bits,
            previous_justified_checkpoint: self.previous_justified_checkpoint,
            current_justified_checkpoint: self.current_justified_checkpoint,
            finalized_checkpoint: self.finalized_checkpoint,
            inactivity_scores: copy_vec(&self.inactivity_scores),
            current_sync_committee: self.current_sync_committee.duplicate(),
            next_sync_committee: self.next_sync_committee.duplicate(),
        }
    }

    /// Puts the state back to what `saved` holds.
    pub fn restore(&mut self, saved: BeaconState)
        ensures
            final(self)@ == saved@,
    {
        self.genesis_time = saved.genesis_time;
        self.genesis_validators_root = saved.genesis_validators_root;
        self.slot = saved.slot;
        self.fork = saved.fork;
        self.latest_block_header = saved.latest_block_header;
        self.block_roots = saved.block_roots;
        self.state_roots = saved.state_roots;
        self.historical_roots = saved.historical_roots;
        self.eth1_data = saved.eth1_data;
        self.eth1_data_votes = saved.eth1_data_votes;
        self.eth1_deposit_index = saved.eth1_deposit_index;
        self.validators = saved.validators;
        self.balances = saved.balances;
        self.randao_mixes = saved.randao_mixes;
        self.slashings = saved.slashings;
        self.previous_epoch_participation = saved.previous_epoch_participation;
        self.current_epoch_participation = saved.current_epoch_participation;
        self.justification_bits = saved.justification_bits;
        self.previous_justified_checkpoint = saved.previous_justified_checkpoint;
        self.current_justified_checkpoint = saved.current_justified_checkpoint;
        self.finalized_checkpoint = saved.finalized_checkpoint;
        self.inactivity_scores = saved.inactivity_scores;
        self.current_sync_committee = saved.current_sync_committee;
        self.next_sync_committee = saved.next_sync_committee;
    }

    /// Decides the invariant of a state.
    pub fn is_well_formed(&self, context: &Context) -> (r: bool)
        requires
            context.valid(),
        ensures
            r == wf(self@, *context),
    {
        let n = self.validators.len();
        let votes_bound = wide_mul(
            context.epochs_per_eth1_voting_period,
            context.slots_per_epoch,
        );
        if !(self.block_roots.len() as u64 == context.slots_per_historical_root
            && self.state_roots.len() as u64 == context.slots_per_historical_root
            && self.randao_mixes.len() as u64 == context.epochs_per_historical_vector
            && self.slashings.len() as u64 == context.epochs_per_slashings_vector
            && self.historical_roots.len() as u64 <= context.historical_roots_limit
            && self.eth1_data_votes.len() as u128 <= votes_bound && n as u64
            <= context.validator_registry_limit && self.balances.len() == n
            && self.previous_epoch_participation.len() == n
            && self.current_epoch_participation.len() == n && self.inactivity_scores.len() == n
            && self.current_sync_committee.public_keys.len() == context.sync_committee_size
            && self.next_sync_committee.public_keys.len() == context.sync_committee_size
            && self.justification_bits < 16) {
            return false;
        }
        let mut i: usize = 0;
        while i < n
            invariant
                i <= n,
                n == self.validators.len(),
                context.valid(),
                forall|j: int|
                    0 <= j < i ==> quantized(
                        (#[trigger] self.validators@[j]).effective_balance,
                        *context,
                    ),
            decreases n - i,
        {
            let v = &self.validators[i];
            if !(v.effective_balance % context.effective_balance_increment == 0
                && v.effective_balance <= context.max_effective_balance) {
                return false;
            }
            i += 1;
        }
        true
    }
}

} // verus!
