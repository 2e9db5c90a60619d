//! Binary hash trees over 32-byte chunks.

use vstd::prelude::*;
use crate::error::TransitionError;
use crate::primitives::{Bytes32, Root};

verus! {

/// `ssz_rs::MerkleizationError`: carried through as it is.
#[verifier::external_type_specification]
#[verifier::external_body]
pub struct ExMerkleizationError(ssz_rs::MerkleizationError);

/// The root of the hash tree whose bottom layer is `chunks`, 32 bytes each,
/// padded with zero chunks up to `limit` chunks (up to their own number
/// where there is no limit) and then to a power of two.
pub uninterp spec fn merkle_tree_root(chunks: Seq<u8>, limit: Option<usize>) -> Bytes32;

/// Whether `branch` proves that `leaf` sits at position `index` of a tree of
/// the given depth with the given root.
pub uninterp spec fn merkle_branch_valid(
    leaf: Bytes32,
    branch: Seq<Bytes32>,
    depth: usize,
    index: usize,
    root: Bytes32,
) -> bool;

/// `ssz_rs::__internal::merkleize`: fails where there are more chunks than
/// the limit allows, and gives the root of the padded tree otherwise. The
/// contract names that root. The outside function takes whole chunks only and
/// rounds the limit up to a power of two, which must exist.
#[verifier::external_body]
pub(crate) fn merkleize_chunks(chunks: &[u8], limit: Option<usize>) -> (r: Result<
    Bytes32,
    ssz_rs::MerkleizationError,
>)
    requires
        chunks@.len() % 32 == 0,
        limit matches Some(l) ==> l <= usize::MAX / 2 + 1,
    ensures
        (limit matches Some(l) && l < chunks@.len() / 32) ==> r is Err,
        !(limit matches Some(l) && l < chunks@.len() / 32) ==> r is Ok && r->Ok_0
            == merkle_tree_root(chunks@, limit),
{
    ssz_rs::__internal::merkleize(chunks, limit).map(
        |node| {
            let mut root = [0u8; 32];
            root.copy_from_slice(node.as_ref());
            root
        },
    )
}

/// `ssz_rs::is_valid_merkle_branch`. The contract names the outcome. The
/// outside function raises two to each level below `depth`, which must fit
/// a machine word.
#[verifier::external_body]
pub(crate) fn merkle_branch_check(
    leaf: &Bytes32,
    branch: &Vec<Bytes32>,
    depth: usize,
    index: usize,
    root: &Bytes32,
) -> (ok: bool)
    requires
        depth <= usize::BITS,
    ensures
        ok == merkle_branch_valid(*leaf, branch@, depth, index, *root),
{
    let node = |bytes: &Bytes32| {
        let mut node = ssz_rs::Node::default();
        node.as_mut().copy_from_slice(bytes);
        node
    };
    let nodes: Vec<ssz_rs::Node> = branch.iter().map(node).collect();
    ssz_rs::is_valid_merkle_branch(&node(leaf), nodes.iter(), depth, index, &node(root))
}

/// Whether `branch` proves `leaf` at `index` under `root`. A depth that no
/// tree on this machine can have proves nothing.
pub open spec fn valid_merkle_branch(
    leaf: Bytes32,
    branch: Seq<Bytes32>,
    depth: usize,
    index: usize,
    root: Bytes32,
) -> bool {
    depth <= usize::BITS && merkle_branch_valid(leaf, branch, depth, index, root)
}

/// Whether `branch` proves `leaf` at `index` under `root`.
pub fn is_valid_merkle_branch(
    leaf: &Bytes32,
    branch: &Vec<Bytes32>,
    depth: usize,
    index: usize,
    root: &Bytes32,
) -> (ok: bool)
    ensures
        ok == valid_merkle_branch(*leaf, branch@, depth, index, *root),
{
    if depth > usize::BITS as usize {
        return false;
    }
    merkle_branch_check(leaf, branch, depth, index, root)
}

/// The root of the tree over `chunks` with no limit on their number.
pub open spec fn root_of_chunks(chunks: Seq<u8>) -> Root {
    merkle_tree_root(chunks, None)
}

/// The root of the tree over whole chunks.
pub fn merkleize(chunks: &Vec<u8>) -> (r: Root)
    requires
        chunks@.len() % 32 == 0,
    ensures
        r == root_of_chunks(chunks@),
{
    match merkleize_chunks(chunks.as_slice(), None) {
        Ok(root) => root,
        Err(_) => [0u8; 32],
    }
}

/// The root of the tree over `chunks` padded up to `limit` chunks, where
/// they are no more than that and a tree of that width exists.
pub open spec fn root_within(chunks: Seq<u8>, limit: usize) -> Result<Root, TransitionError> {
    if limit > usize::MAX / 2 + 1 || limit < chunks.len() / 32 {
        Err(TransitionError::Merkleization)
    } else {
        Ok(merkle_tree_root(chunks, Some(limit)))
    }
}

/// The root of the tree over whole chunks, padded up to `limit` chunks.
pub fn merkleize_within(chunks: &Vec<u8>, limit: usize) -> (r: Result<Root, TransitionError>)
    requires
        chunks@.len() % 32 == 0,
    ensures
        r == root_within(chunks@, limit),
{
    if limit > usize::MAX / 2 + 1 {
        return Err(TransitionError::Merkleization);
    }
    match merkleize_chunks(chunks.as_slice(), Some(limit)) {
        Ok(root) => Ok(root),
        Err(_) => Err(TransitionError::Merkleization),
    }
}

} // verus!
