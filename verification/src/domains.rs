//! Domains: the tags that keep a signature made for one purpose from being
//! valid for another.

use vstd::prelude::*;
use crate::context::Context;
use crate::helpers::{current_epoch, get_current_epoch};
use crate::merkle::{merkleize, root_of_chunks};
use crate::primitives::{zero_bytes32, Domain, Epoch, Root, Version};
use crate::ssz::{compute_fork_data_root, fork_data_root, push_bytes32};
use crate::state::{BeaconState, StateView};

verus! {

/// The purposes that a signature can be made for.
#[derive(Clone, Copy, Debug, PartialEq, Eq)]
pub enum DomainType {
    BeaconProposer,
    BeaconAttester,
    Randao,
    Deposit,
    VoluntaryExit,
    SelectionProof,
    AggregateAndProof,
    SyncCommittee,
    SyncCommitteeSelectionProof,
    ContributionAndProof,
}

impl DomainType {
    /// The number that stands for a kind of domain.
    pub open spec fn number(&self) -> u8 {
        match self {
            DomainType::BeaconProposer => 0,
            DomainType::BeaconAttester => 1,
            DomainType::Randao => 2,
            DomainType::Deposit => 3,
            DomainType::VoluntaryExit => 4,
            DomainType::SelectionProof => 5,
            DomainType::AggregateAndProof => 6,
            DomainType::SyncCommittee => 7,
            DomainType::SyncCommitteeSelectionProof => 8,
            DomainType::ContributionAndProof => 9,
        }
    }

    /// The four bytes of a kind of domain: its number, least significant
    /// byte first.
    pub open spec fn bytes(&self) -> Seq<u8> {
        seq![self.number(), 0u8, 0u8, 0u8]
    }

    /// The bytes of the value.
    pub fn as_bytes(&self) -> (r: [u8; 4])
        ensures
            r@ == self.bytes(),
    {
        let number: u8 = match self {
            DomainType::BeaconProposer => 0,
            DomainType::BeaconAttester => 1,
            DomainType::Randao => 2,
            DomainType::Deposit => 3,
            DomainType::VoluntaryExit => 4,
            DomainType::SelectionProof => 5,
            DomainType::AggregateAndProof => 6,
            DomainType::SyncCommittee => 7,
            DomainType::SyncCommitteeSelectionProof => 8,
            DomainType::ContributionAndProof => 9,
        };
        let r: [u8; 4] = [number, 0u8, 0u8, 0u8];
        assert(r@ =~= self.bytes());
        r
    }
}

/// What is signed in place of an object: its root together with a domain.
#[derive(Clone, Copy, Debug, PartialEq, Eq)]
pub struct SigningData {
    pub object_root: Root,
    pub domain: Domain,
}

/// The root of an object root together with a domain.
pub open spec fn signing_root(object_root: Root, domain: Domain) -> Root {
    root_of_chunks(object_root@ + domain@)
}

impl SigningData {
    /// The hash-tree root of the record.
    pub fn hash_tree_root(&self) -> (r: Root)
        ensures
            r == signing_root(self.object_root, self.domain),
    {
        let mut buffer: Vec<u8> = Vec::new();
        push_bytes32(&mut buffer, &self.object_root);
        push_bytes32(&mut buffer, &self.domain);
        assert(buffer@ =~= self.object_root@ + self.domain@);
        merkleize(&buffer)
    }
}

/// The root that is signed in place of an object root under a domain.
pub fn compute_signing_root(object_root: Root, domain: Domain) -> (r: Root)
    ensures
        r == signing_root(object_root, domain),
{
    SigningData { object_root, domain }.hash_tree_root()
}

/// What a domain is made of: the four bytes of its kind, then the first 28
/// bytes of the root of the fork data.
pub open spec fn domain_bytes(domain_type: DomainType, fork_data_root: Root) -> Seq<u8> {
    domain_type.bytes() + fork_data_root@.subrange(0, 28)
}

/// The fork version that a domain is computed for: the one given, or that
/// of genesis.
pub open spec fn version_or_genesis(fork_version: Option<Version>, c: Context) -> Version {
    match fork_version {
        Some(v) => v,
        None => c.genesis_fork_version,
    }
}

/// The root of the genesis validators that a domain is computed for: the
/// one given, or the zero root.
pub open spec fn root_or_zero(genesis_validators_root: Option<Root>) -> Root {
    match genesis_validators_root {
        Some(r) => r,
        None => zero_bytes32(),
    }
}

/// The bytes of the domain of a kind under a fork version and a root of the
/// genesis validators.
pub open spec fn domain_of(
    domain_type: DomainType,
    fork_version: Option<Version>,
    genesis_validators_root: Option<Root>,
    c: Context,
) -> Seq<u8> {
    domain_bytes(
        domain_type,
        fork_data_root(version_or_genesis(fork_version, c), root_or_zero(genesis_validators_root)),
    )
}

/// The domain of a kind under a fork version and a root of the genesis validators.
pub fn compute_domain(
    domain_type: DomainType,
    fork_version: Option<Version>,
    genesis_validators_root: Option<Root>,
    context: &Context,
) -> (r: Domain)
    ensures
        r@ == domain_of(domain_type, fork_version, genesis_validators_root, *context),
{
    let version = match fork_version {
        Some(v) => v,
        None => context.genesis_fork_version,
    };
    let root = match genesis_validators_root {
        Some(r) => r,
        None => [0u8; 32],
    };
    let fork_data_root = compute_fork_data_root(version, root);
    let kind = domain_type.as_bytes();
    let mut domain: Domain = [0u8; 32];
    let mut i: usize = 0;
    while i < 4
        invariant
            i <= 4,
            forall|j: int| 0 <= j < i ==> domain[j] == kind[j],
        decreases 4 - i,
    {
        domain[i] = kind[i];
        i += 1;
    }
    while i < 32
        invariant
            4 <= i <= 32,
            forall|j: int| 0 <= j < 4 ==> domain[j] == kind[j],
            forall|j: int| 4 <= j < i ==> domain[j] == fork_data_root[j - 4],
        decreases 32 - i,
    {
        domain[i] = fork_data_root[i - 4];
        i += 1;
    }
    assert(domain@ =~= domain_of(domain_type, fork_version, genesis_validators_root, *context));
    domain
}

/// The bytes of the domain of a kind in `epoch`, or in the current epoch
/// where none is given: under the state's previous fork version before the
/// epoch of its fork, and under its current one from then on.
pub open spec fn state_domain(
    s: StateView,
    domain_type: DomainType,
    epoch: Option<Epoch>,
    c: Context,
) -> Seq<u8> {
    let epoch = match epoch {
        Some(e) => e,
        None => current_epoch(s, c),
    };
    let version = if epoch < s.fork.epoch {
        s.fork.previous_version
    } else {
        s.fork.current_version
    };
    domain_of(domain_type, Some(version), Some(s.genesis_validators_root), c)
}

/// The domain of a kind in an epoch of the state, or in its current epoch.
pub fn get_domain(
    state: &BeaconState,
    domain_type: DomainType,
    epoch: Option<Epoch>,
    context: &Context,
) -> (r: Domain)
    requires
        context.valid(),
    ensures
        r@ == state_domain(state@, domain_type, epoch, *context),
{
    let epoch = match epoch {
        Some(e) => e,
        None => get_current_epoch(state, context),
    };
    let version = if epoch < state.fork.epoch {
        state.fork.previous_version
    } else {
        state.fork.current_version
    };
    compute_domain(domain_type, Some(version), Some(state.genesis_validators_root), context)
}

} // verus!
