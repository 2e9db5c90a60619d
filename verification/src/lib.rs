//! The state-transition function of a proof-of-stake beacon chain.
//!
//! A state is advanced slot by slot, with the accounting of an epoch at the
//! end of each epoch, and changed by the blocks that are applied to it. Every
//! transition is a function of the state, the block and the protocol
//! constants alone; a transition that fails leaves the state as it was.
//!
//! The modules, from the leaves up: `primitives`, `error`, `context` and
//! `state` hold the data; `crypto` and `merkle` give names to what hashing,
//! signatures and hash trees compute; `ssz` and `roots` build the hash-tree
//! roots of records; `helpers`, `committees` and `domains` are the queries
//! that the rules share; `justification`, `rewards`, `registry` and
//! `epoch_processing` are the stages of the end of an epoch; `attestations`,
//! `deposits`, `slashing`, `sync_aggregate` and `block_processing` are the
//! stages of a block; `slot_processing` and `state_transition` drive them.
//! `polynomial_commitments` stands apart: commitments to blobs of data.

pub mod attestations;
pub mod block_processing;
pub mod committees;
pub mod context;
pub mod crypto;
pub mod deposits;
pub mod domains;
pub mod epoch_processing;
pub mod error;
pub mod helpers;
pub mod justification;
pub mod merkle;
pub mod operations;
pub mod outcomes;
pub mod polynomial_commitments;
pub mod primitives;
pub mod registry;
pub mod rewards;
pub mod roots;
pub mod slashing;
pub mod slot_processing;
pub mod ssz;
pub mod state;
pub mod state_transition;
pub mod sync_aggregate;
