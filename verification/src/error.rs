//! Why a block, an operation or a piece of bookkeeping was rejected.

use vstd::prelude::*;
use crate::primitives::{BlsSignature, Epoch, Root, Slot, ValidatorIndex};

verus! {

/// The batches of operations that a block body carries.
#[derive(Clone, Copy, Debug, PartialEq, Eq)]
pub enum OperationKind {
    ProposerSlashing,
    AttesterSlashing,
    Attestation,
    Deposit,
    VoluntaryExit,
}

/// Why the header of a block is rejected.
#[derive(Clone, Copy, Debug, PartialEq, Eq)]
pub enum InvalidBeaconBlockHeader {
    StateSlotMismatch { state_slot: Slot, block_slot: Slot },
    OlderThanLatestBlockHeader { block_slot: Slot, latest_block_header_slot: Slot },
    ProposerIndexMismatch { block_proposer_index: ValidatorIndex, proposer_index: ValidatorIndex },
    ParentBlockRootMismatch { expected: Root, provided: Root },
    ProposerSlashed(ValidatorIndex),
}

/// Why an attestation is rejected.
#[derive(Clone, Copy, Debug, PartialEq, Eq)]
pub enum InvalidAttestation {
    InvalidTargetEpoch { target: Epoch, current: Epoch },
    InvalidSlot { slot: Slot, epoch: Epoch, target: Epoch },
    NotTimely { state_slot: Slot, attestation_slot: Slot, lower_bound: Slot, upper_bound: Slot },
    InvalidIndex { index: usize, committee_count: usize },
    Bitfield { expected_length: usize, length: usize },
    InvalidSource { expected_epoch: Epoch, expected_root: Root, source_epoch: Epoch, source_root: Root },
}

/// Why an indexed attestation is rejected.
#[derive(Clone, Copy, Debug, PartialEq, Eq)]
pub enum InvalidIndexedAttestation {
    AttestingIndicesEmpty,
    AttestingIndicesNotSorted,
    InvalidIndex(ValidatorIndex),
    InvalidSignature(BlsSignature),
}

/// Why a deposit is rejected.
#[derive(Clone, Copy, Debug, PartialEq, Eq)]
pub enum InvalidDeposit {
    InvalidProof { leaf: Root, depth: usize, index: usize, root: Root },
    InvalidSignature(BlsSignature),
}

/// Why a proposer slashing is rejected.
#[derive(Clone, Copy, Debug, PartialEq, Eq)]
pub enum InvalidProposerSlashing {
    SlotMismatch(Slot, Slot),
    ProposerMismatch(ValidatorIndex, ValidatorIndex),
    HeadersAreEqual,
    InvalidIndex(ValidatorIndex),
    ProposerIsNotSlashable(ValidatorIndex),
    InvalidSignature(BlsSignature),
}

/// Why an attester slashing is rejected.
#[derive(Clone, Copy, Debug, PartialEq, Eq)]
pub enum InvalidAttesterSlashing {
    NotSlashable,
    NoSlashings,
}

/// Why a voluntary exit is rejected.
#[derive(Clone, Copy, Debug, PartialEq, Eq)]
pub enum InvalidVoluntaryExit {
    InvalidIndex(ValidatorIndex),
    InactiveValidator(Epoch),
    ValidatorAlreadyExited { index: ValidatorIndex, epoch: Epoch },
    EarlyExit { current_epoch: Epoch, exit_epoch: Epoch },
    ValidatorIsNotActiveForLongEnough { current_epoch: Epoch, minimum_time_active: Epoch },
    InvalidSignature(BlsSignature),
}

/// Why a sync aggregate is rejected.
#[derive(Clone, Copy, Debug, PartialEq, Eq)]
pub enum InvalidSyncAggregate {
    InvalidBitsLength { expected_length: usize, length: usize },
    UnknownMember { position: usize },
    InvalidSignature { signature: BlsSignature, root: Root },
}

/// Why an operation of a block is rejected.
#[derive(Clone, Copy, Debug, PartialEq, Eq)]
pub enum InvalidOperation {
    ProposerSlashing(InvalidProposerSlashing),
    AttesterSlashing(InvalidAttesterSlashing),
    Attestation(InvalidAttestation),
    IndexedAttestation(InvalidIndexedAttestation),
    Deposit(InvalidDeposit),
    VoluntaryExit(InvalidVoluntaryExit),
    SyncAggregate(InvalidSyncAggregate),
}

/// Why a state could not be advanced.
#[derive(Clone, Copy, Debug, PartialEq, Eq)]
pub enum TransitionError {
    /// An unsigned sum or product left the range of its type.
    Overflow,
    /// An unsigned difference fell below zero.
    Underflow,
    /// An index reached past the end of the container it addresses.
    OutOfBounds { index: usize, len: usize },
    /// A bounded list was asked to grow past its declared maximum.
    ListFull { capacity: u64 },
    /// A hash tree could not be built over the given chunks.
    Merkleization,
    /// A set of public keys has no aggregate.
    InvalidPublicKeys,
    /// The slot asked for is not ahead of the state.
    TransitionToPreviousSlot { requested: Slot, current: Slot },
    /// A block root was asked for outside the window the state remembers.
    SlotOutOfRange { requested: Slot, lower_bound: Slot, upper_bound: Slot },
    /// No validator is active, so nobody can be sampled.
    NoActiveValidators,
    InvalidHeader(InvalidBeaconBlockHeader),
    /// The signature over the block itself does not verify.
    InvalidBlockSignature(BlsSignature),
    InvalidRandao(BlsSignature),
    /// The vote does not fit into the list of votes of this voting period.
    InvalidEth1Vote { votes: usize, capacity: u64 },
    /// A block carries more operations of one kind than a block may.
    TooManyOperations { kind: OperationKind, count: usize, limit: usize },
    /// A block must carry as many deposits as are outstanding, up to the cap.
    DepositCountMismatch { outstanding: usize, provided: usize },
    InvalidOperation(InvalidOperation),
    /// The state root that the block declares is not the root of the state it leads to.
    InvalidStateRoot { expected: Root, declared: Root },
}

} // verus!
