//! Blocks and the operations that they carry.

use vstd::prelude::*;
use crate::primitives::{
    BlsPublicKey, BlsSignature, Bytes32, CommitteeIndex, Epoch, Gwei, Root, Slot, ValidatorIndex,
};
use crate::state::{BeaconBlockHeader, Checkpoint, Eth1Data};

verus! {

/// What an attester votes for.
#[derive(Clone, Copy, Debug, PartialEq, Eq)]
pub struct AttestationData {
    pub slot: Slot,
    pub index: CommitteeIndex,
    pub beacon_block_root: Root,
    pub source: Checkpoint,
    pub target: Checkpoint,
}

/// The votes of a committee for one thing, with their aggregate signature.
#[derive(Clone, Debug, PartialEq, Eq)]
pub struct Attestation {
    pub aggregation_bits: Vec<bool>,
    pub data: AttestationData,
    pub signature: BlsSignature,
}

/// An attestation with its attesters named by index.
#[derive(Clone, Debug, PartialEq, Eq)]
pub struct IndexedAttestation {
    pub attesting_indices: Vec<ValidatorIndex>,
    pub data: AttestationData,
    pub signature: BlsSignature,
}

/// A block header with the signature of its proposer.
#[derive(Clone, Copy, Debug, PartialEq, Eq)]
pub struct SignedBeaconBlockHeader {
    pub message: BeaconBlockHeader,
    pub signature: BlsSignature,
}

/// Two headers that one proposer signed for one slot.
#[derive(Clone, Copy, Debug, PartialEq, Eq)]
pub struct ProposerSlashing {
    pub signed_header_1: SignedBeaconBlockHeader,
    pub signed_header_2: SignedBeaconBlockHeader,
}

/// Two attestations that contradict each other.
#[derive(Clone, Debug, PartialEq, Eq)]
pub struct AttesterSlashing {
    pub attestation_1: IndexedAttestation,
    pub attestation_2: IndexedAttestation,
}

/// What a deposit signs.
#[derive(Clone, Copy, Debug, PartialEq, Eq)]
pub struct DepositMessage {
    pub public_key: BlsPublicKey,
    pub withdrawal_credentials: Bytes32,
    pub amount: Gwei,
}

/// A deposit as the deposit contract records it.
#[derive(Clone, Copy, Debug, PartialEq, Eq)]
pub struct DepositData {
    pub public_key: BlsPublicKey,
    pub withdrawal_credentials: Bytes32,
    pub amount: Gwei,
    pub signature: BlsSignature,
}

/// A deposit with the proof that the deposit tree holds it.
#[derive(Clone, Debug, PartialEq, Eq)]
pub struct Deposit {
    pub proof: Vec<Bytes32>,
    pub data: DepositData,
}

/// The wish of a validator to exit.
#[derive(Clone, Copy, Debug, PartialEq, Eq)]
pub struct VoluntaryExit {
    pub epoch: Epoch,
    pub validator_index: ValidatorIndex,
}

/// A voluntary exit with the signature of the validator.
#[derive(Clone, Copy, Debug, PartialEq, Eq)]
pub struct SignedVoluntaryExit {
    pub message: VoluntaryExit,
    pub signature: BlsSignature,
}

/// Which members of the sync committee signed, and their aggregate signature.
#[derive(Clone, Debug, PartialEq, Eq)]
pub struct SyncAggregate {
    pub sync_committee_bits: Vec<bool>,
    pub sync_committee_signature: BlsSignature,
}

/// What a block carries.
#[derive(Clone, Debug, PartialEq, Eq)]
pub struct BeaconBlockBody {
    pub randao_reveal: BlsSignature,
    pub eth1_data: Eth1Data,
    pub graffiti: Bytes32,
    pub proposer_slashings: Vec<ProposerSlashing>,
    pub attester_slashings: Vec<AttesterSlashing>,
    pub attestations: Vec<Attestation>,
    pub deposits: Vec<Deposit>,
    pub voluntary_exits: Vec<SignedVoluntaryExit>,
    pub sync_aggregate: SyncAggregate,
}

/// A block.
#[derive(Clone, Debug, PartialEq, Eq)]
pub struct BeaconBlock {
    pub slot: Slot,
    pub proposer_index: ValidatorIndex,
    pub parent_root: Root,
    pub state_root: Root,
    pub body: BeaconBlockBody,
}

/// A block with the signature of its proposer.
#[derive(Clone, Debug, PartialEq, Eq)]
pub struct SignedBeaconBlock {
    pub message: BeaconBlock,
    pub signature: BlsSignature,
}

} // verus!
