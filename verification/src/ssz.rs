//! Hash-tree roots of the records that are signed or remembered by root.

use vstd::prelude::*;
use vstd::bytes::{spec_u64_to_le_bytes, u64_to_le_bytes};
use crate::crypto::{hash, sha256};
use crate::merkle::{merkleize, merkleize_within, root_of_chunks};
use crate::error::TransitionError;
use crate::operations::{AttestationData, DepositData, DepositMessage, VoluntaryExit};
use crate::primitives::{
    extend_bytes, BlsPublicKey, BlsSignature, Bytes32, Root, Version,
};
use crate::state::{BeaconBlockHeader, Checkpoint};

verus! {

/// `n` zero bytes.
pub open spec fn zeros(n: nat) -> Seq<u8> {
    Seq::new(n, |i: int| 0u8)
}

/// Appends `n` zero bytes.
pub fn push_zeros(buffer: &mut Vec<u8>, n: usize)
    ensures
        final(buffer)@ == old(buffer)@ + zeros(n as nat),
{
    let mut i: usize = 0;
    while i < n
        invariant
            i <= n,
            buffer@ == old(buffer)@ + zeros(i as nat),
        decreases n - i,
    {
        buffer.push(0u8);
        assert(buffer@ =~= old(buffer)@ + zeros((i + 1) as nat));
        i += 1;
    }
    assert(buffer@ =~= old(buffer)@ + zeros(n as nat));
}

/// The chunk of a number: its eight bytes, least significant first, and
/// zeros.
pub open spec fn u64_chunk(x: u64) -> Seq<u8> {
    spec_u64_to_le_bytes(x) + zeros(24)
}

/// Every chunk of a number is 32 bytes long.
pub proof fn lemma_u64_chunk_len(x: u64)
    ensures
        u64_chunk(x).len() == 32,
{
    vstd::bytes::lemma_auto_spec_u64_to_from_le_bytes();
}

/// Appends the chunk of a number.
pub fn push_u64(buffer: &mut Vec<u8>, x: u64)
    ensures
        final(buffer)@ == old(buffer)@ + u64_chunk(x),
        final(buffer)@.len() == old(buffer)@.len() + 32,
{
    let bytes = u64_to_le_bytes(x);
    extend_bytes(buffer, bytes.as_slice());
    push_zeros(buffer, 24);
    proof {
        lemma_u64_chunk_len(x);
        assert(buffer@ =~= old(buffer)@ + u64_chunk(x));
    }
}

/// Appends a 32-byte string, which is its own chunk and its own root.
pub fn push_bytes32(buffer: &mut Vec<u8>, bytes: &Bytes32)
    ensures
        final(buffer)@ == old(buffer)@ + bytes@,
        final(buffer)@.len() == old(buffer)@.len() + 32,
{
    extend_bytes(buffer, bytes.as_slice());
}

/// The root of a public key: that of its 48 bytes in two chunks.
pub open spec fn public_key_root(key: BlsPublicKey) -> Root {
    root_of_chunks(key@ + zeros(16))
}

/// The root of a public key.
pub fn hash_tree_root_public_key(key: &BlsPublicKey) -> (r: Root)
    ensures
        r == public_key_root(*key),
{
    let mut buffer: Vec<u8> = Vec::new();
    extend_bytes(&mut buffer, key.as_slice());
    push_zeros(&mut buffer, 16);
    assert(buffer@ =~= key@ + zeros(16));
    merkleize(&buffer)
}

/// The root of a signature: that of its 96 bytes in three chunks.
pub open spec fn signature_root(signature: BlsSignature) -> Root {
    root_of_chunks(signature@)
}

/// The root of a signature.
pub fn hash_tree_root_signature(signature: &BlsSignature) -> (r: Root)
    ensures
        r == signature_root(*signature),
{
    let mut buffer: Vec<u8> = Vec::new();
    extend_bytes(&mut buffer, signature.as_slice());
    assert(buffer@ =~= signature@);
    merkleize(&buffer)
}

/// The root of a list of 32-byte strings of fixed length: that of the tree
/// over them.
pub open spec fn joined(roots: Seq<Bytes32>, n: int) -> Seq<u8>
    decreases n,
{
    if n <= 0 {
        Seq::empty()
    } else {
        joined(roots, n - 1) + roots[n - 1]@
    }
}

/// `n` strings of 32 bytes are `32 * n` bytes.
pub proof fn lemma_joined_len(roots: Seq<Bytes32>, n: int)
    requires
        0 <= n <= roots.len(),
    ensures
        joined(roots, n).len() == 32 * n,
    decreases n,
{
    if n > 0 {
        lemma_joined_len(roots, n - 1);
    }
}

/// The bytes of a list of 32-byte strings, one after the other.
pub fn join_roots(roots: &Vec<Bytes32>) -> (r: Vec<u8>)
    ensures
        r@ == joined(roots@, roots@.len() as int),
        r@.len() == 32 * roots@.len(),
{
    let mut buffer: Vec<u8> = Vec::new();
    let mut i: usize = 0;
    while i < roots.len()
        invariant
            i <= roots.len(),
            buffer@ == joined(roots@, i as int),
        decreases roots.len() - i,
    {
        extend_bytes(&mut buffer, roots[i].as_slice());
        i += 1;
    }
    proof {
        lemma_joined_len(roots@, roots@.len() as int);
    }
    buffer
}

/// The root of a buffer of roots: that of the tree over all of them.
pub open spec fn roots_vector_root(roots: Seq<Bytes32>) -> Root {
    root_of_chunks(joined(roots, roots.len() as int))
}

/// The root of a buffer of roots of fixed length.
pub fn hash_tree_root_of_roots(roots: &Vec<Bytes32>) -> (r: Root)
    ensures
        r == roots_vector_root(roots@),
{
    let buffer = join_roots(roots);
    merkleize(&buffer)
}

/// A root with the length of the list that it stands for mixed in.
pub open spec fn mixed_in_length(root: Root, length: u64) -> Root {
    sha256(root@ + u64_chunk(length))
}

/// A root with the length of its list mixed in.
pub fn mix_in_length(root: &Root, length: u64) -> (r: Root)
    ensures
        r == mixed_in_length(*root, length),
{
    let mut buffer: Vec<u8> = Vec::new();
    push_bytes32(&mut buffer, root);
    push_u64(&mut buffer, length);
    assert(buffer@ =~= root@ + u64_chunk(length));
    hash(buffer.as_slice())
}

/// The root of a checkpoint.
pub open spec fn checkpoint_root(c: Checkpoint) -> Root {
    root_of_chunks(u64_chunk(c.epoch) + c.root@)
}

impl Checkpoint {
    /// The hash-tree root of the record.
    pub fn hash_tree_root(&self) -> (r: Root)
        ensures
            r == checkpoint_root(*self),
    {
        let mut buffer: Vec<u8> = Vec::new();
        push_u64(&mut buffer, self.epoch);
        push_bytes32(&mut buffer, &self.root);
        assert(buffer@ =~= u64_chunk(self.epoch) + self.root@);
        merkleize(&buffer)
    }
}

/// The root of the data of an attestation.
pub open spec fn attestation_data_root(d: AttestationData) -> Root {
    root_of_chunks(
        u64_chunk(d.slot) + u64_chunk(d.index as u64) + d.beacon_block_root@ + checkpoint_root(
            d.source,
        )@ + checkpoint_root(d.target)@,
    )
}

impl AttestationData {
    /// The hash-tree root of the record.
    pub fn hash_tree_root(&self) -> (r: Root)
        ensures
            r == attestation_data_root(*self),
    {
        let mut buffer: Vec<u8> = Vec::new();
        push_u64(&mut buffer, self.slot);
        push_u64(&mut buffer, self.index as u64);
        push_bytes32(&mut buffer, &self.beacon_block_root);
        let source = self.source.hash_tree_root();
        push_bytes32(&mut buffer, &source);
        let target = self.target.hash_tree_root();
        push_bytes32(&mut buffer, &target);
        assert(buffer@ =~= u64_chunk(self.slot) + u64_chunk(self.index as u64)
            + self.beacon_block_root@ + checkpoint_root(self.source)@ + checkpoint_root(
            self.target,
        )@);
        merkleize(&buffer)
    }
}

/// The root of a block header.
pub open spec fn header_root(h: BeaconBlockHeader) -> Root {
    root_of_chunks(
        u64_chunk(h.slot) + u64_chunk(h.proposer_index as u64) + h.parent_root@ + h.state_root@
            + h.body_root@,
    )
}

impl BeaconBlockHeader {
    /// The hash-tree root of the record.
    pub fn hash_tree_root(&self) -> (r: Root)
        ensures
            r == header_root(*self),
    {
        let mut buffer: Vec<u8> = Vec::new();
        push_u64(&mut buffer, self.slot);
        push_u64(&mut buffer, self.proposer_index as u64);
        push_bytes32(&mut buffer, &self.parent_root);
        push_bytes32(&mut buffer, &self.state_root);
        push_bytes32(&mut buffer, &self.body_root);
        assert(buffer@ =~= u64_chunk(self.slot) + u64_chunk(self.proposer_index as u64)
            + self.parent_root@ + self.state_root@ + self.body_root@);
        merkleize(&buffer)
    }
}

/// The root of a voluntary exit.
pub open spec fn voluntary_exit_root(e: VoluntaryExit) -> Root {
    root_of_chunks(u64_chunk(e.epoch) + u64_chunk(e.validator_index as u64))
}

impl VoluntaryExit {
    /// The hash-tree root of the record.
    pub fn hash_tree_root(&self) -> (r: Root)
        ensures
            r == voluntary_exit_root(*self),
    {
        let mut buffer: Vec<u8> = Vec::new();
        push_u64(&mut buffer, self.epoch);
        push_u64(&mut buffer, self.validator_index as u64);
        assert(buffer@ =~= u64_chunk(self.epoch) + u64_chunk(self.validator_index as u64));
        merkleize(&buffer)
    }
}

/// The root of what a deposit signs.
pub open spec fn deposit_message_root(m: DepositMessage) -> Root {
    root_of_chunks(
        public_key_root(m.public_key)@ + m.withdrawal_credentials@ + u64_chunk(m.amount),
    )
}

impl DepositMessage {
    /// The hash-tree root of the record.
    pub fn hash_tree_root(&self) -> (r: Root)
        ensures
            r == deposit_message_root(*self),
    {
        let mut buffer: Vec<u8> = Vec::new();
        let key = hash_tree_root_public_key(&self.public_key);
        push_bytes32(&mut buffer, &key);
        push_bytes32(&mut buffer, &self.withdrawal_credentials);
        push_u64(&mut buffer, self.amount);
        assert(buffer@ =~= public_key_root(self.public_key)@ + self.withdrawal_credentials@
            + u64_chunk(self.amount));
        merkleize(&buffer)
    }
}

/// The root of the data of a deposit, which is its leaf in the deposit
/// tree.
pub open spec fn deposit_data_root(d: DepositData) -> Root {
    root_of_chunks(
        public_key_root(d.public_key)@ + d.withdrawal_credentials@ + u64_chunk(d.amount)
            + signature_root(d.signature)@,
    )
}

impl DepositData {
    /// The hash-tree root of the record.
    pub fn hash_tree_root(&self) -> (r: Root)
        ensures
            r == deposit_data_root(*self),
    {
        let mut buffer: Vec<u8> = Vec::new();
        let key = hash_tree_root_public_key(&self.public_key);
        push_bytes32(&mut buffer, &key);
        push_bytes32(&mut buffer, &self.withdrawal_credentials);
        push_u64(&mut buffer, self.amount);
        let signature = hash_tree_root_signature(&self.signature);
        push_bytes32(&mut buffer, &signature);
        assert(buffer@ =~= public_key_root(self.public_key)@ + self.withdrawal_credentials@
            + u64_chunk(self.amount) + signature_root(self.signature)@);
        merkleize(&buffer)
    }
}

/// The root of a fork version together with the root of the genesis
/// validators.
pub open spec fn fork_data_root(version: Version, genesis_validators_root: Root) -> Root {
    root_of_chunks(version@ + zeros(28) + genesis_validators_root@)
}

/// The root of a fork version together with the root of the genesis validators.
pub fn compute_fork_data_root(current_version: Version, genesis_validators_root: Root) -> (r: Root)
    ensures
        r == fork_data_root(current_version, genesis_validators_root),
{
    let mut buffer: Vec<u8> = Vec::new();
    extend_bytes(&mut buffer, current_version.as_slice());
    push_zeros(&mut buffer, 28);
    push_bytes32(&mut buffer, &genesis_validators_root);
    assert(buffer@ =~= current_version@ + zeros(28) + genesis_validators_root@);
    merkleize(&buffer)
}

/// The root of the pair of roots that stands for a stretch of history.
pub open spec fn historical_batch_root(block_roots: Seq<Root>, state_roots: Seq<Root>) -> Root {
    root_of_chunks(roots_vector_root(block_roots)@ + roots_vector_root(state_roots)@)
}

/// The root of a stretch of history.
pub fn hash_tree_root_historical_batch(block_roots: &Vec<Root>, state_roots: &Vec<Root>) -> (r:
    Root)
    ensures
        r == historical_batch_root(block_roots@, state_roots@),
{
    let mut buffer: Vec<u8> = Vec::new();
    let blocks = hash_tree_root_of_roots(block_roots);
    push_bytes32(&mut buffer, &blocks);
    let states = hash_tree_root_of_roots(state_roots);
    push_bytes32(&mut buffer, &states);
    assert(buffer@ =~= roots_vector_root(block_roots@)@ + roots_vector_root(state_roots@)@);
    merkleize(&buffer)
}

} // verus!

verus! {

/// Bytes followed by as many zeros as it takes to fill whole chunks.
pub open spec fn padded(bytes: Seq<u8>) -> Seq<u8> {
    bytes + zeros(((32 - bytes.len() % 32) % 32) as nat)
}

/// Fills the buffer up to whole chunks with zeros.
pub fn pad_to_chunks(buffer: &mut Vec<u8>)
    ensures
        final(buffer)@ == padded(old(buffer)@),
        final(buffer)@.len() % 32 == 0,
{
    let rest = buffer.len() % 32;
    if rest != 0 {
        push_zeros(buffer, 32 - rest);
    } else {
        assert(buffer@ =~= padded(buffer@));
    }
}

/// The root of a list: that of the tree over its chunks, padded up to the
/// number of chunks that the longest list would have, with the length of
/// the list mixed in.
pub open spec fn list_root_of(chunks: Seq<u8>, chunk_limit: int, length: nat) -> Result<
    Root,
    TransitionError,
> {
    if chunk_limit > usize::MAX {
        Err(TransitionError::Merkleization)
    } else {
        match crate::merkle::root_within(chunks, chunk_limit as usize) {
            Ok(root) => Ok(mixed_in_length(root, length as u64)),
            Err(e) => Err(e),
        }
    }
}

/// The root of a list given by its chunks.
pub fn list_root(chunks: &Vec<u8>, chunk_limit: u128, length: usize) -> (r: Result<
    Root,
    TransitionError,
>)
    requires
        chunks@.len() % 32 == 0,
    ensures
        r == list_root_of(chunks@, chunk_limit as int, length as nat),
{
    if chunk_limit > usize::MAX as u128 {
        return Err(TransitionError::Merkleization);
    }
    let root = merkleize_within(chunks, chunk_limit as usize)?;
    Ok(mix_in_length(&root, length as u64))
}

/// The root of a list of records given by their roots, which may hold
/// `limit` records at most.
pub open spec fn roots_list_root(roots: Seq<Root>, limit: u64) -> Result<Root, TransitionError> {
    list_root_of(joined(roots, roots.len() as int), limit as int, roots.len())
}

/// The root of a list of records given by their roots.
pub fn hash_tree_root_of_list(roots: &Vec<Root>, limit: u64) -> (r: Result<Root, TransitionError>)
    ensures
        r == roots_list_root(roots@, limit),
{
    let buffer = join_roots(roots);
    list_root(&buffer, limit as u128, roots.len())
}

/// The bytes of the first `n` numbers of a list, eight bytes each.
pub open spec fn packed_u64(values: Seq<u64>, n: int) -> Seq<u8>
    decreases n,
{
    if n <= 0 {
        Seq::empty()
    } else {
        packed_u64(values, n - 1) + spec_u64_to_le_bytes(values[n - 1])
    }
}

/// The bytes of a list of numbers, filled up to whole chunks.
pub fn pack_u64(values: &Vec<u64>) -> (r: Vec<u8>)
    ensures
        r@ == padded(packed_u64(values@, values@.len() as int)),
        r@.len() % 32 == 0,
{
    let mut buffer: Vec<u8> = Vec::new();
    let mut i: usize = 0;
    while i < values.len()
        invariant
            i <= values.len(),
            buffer@ == packed_u64(values@, i as int),
        decreases values.len() - i,
    {
        let bytes = u64_to_le_bytes(values[i]);
        extend_bytes(&mut buffer, bytes.as_slice());
        i += 1;
    }
    pad_to_chunks(&mut buffer);
    buffer
}

/// The root of a buffer of numbers of fixed length.
pub open spec fn u64_vector_root(values: Seq<u64>) -> Root {
    root_of_chunks(padded(packed_u64(values, values.len() as int)))
}

/// The root of a buffer of numbers of fixed length.
pub fn hash_tree_root_of_u64_vector(values: &Vec<u64>) -> (r: Root)
    ensures
        r == u64_vector_root(values@),
{
    let buffer = pack_u64(values);
    merkleize(&buffer)
}

/// The root of a list of numbers that may hold `limit` numbers at most.
pub open spec fn u64_list_root(values: Seq<u64>, limit: u64) -> Result<Root, TransitionError> {
    list_root_of(
        padded(packed_u64(values, values.len() as int)),
        (limit + 3) / 4,
        values.len(),
    )
}

/// The root of a list of numbers.
pub fn hash_tree_root_of_u64_list(values: &Vec<u64>, limit: u64) -> (r: Result<
    Root,
    TransitionError,
>)
    ensures
        r == u64_list_root(values@, limit),
{
    let buffer = pack_u64(values);
    list_root(&buffer, (limit as u128 + 3) / 4, values.len())
}

/// The root of a list of bytes that may hold `limit` bytes at most.
pub open spec fn byte_list_root(bytes: Seq<u8>, limit: u64) -> Result<Root, TransitionError> {
    list_root_of(padded(bytes), (limit + 31) / 32, bytes.len())
}

/// The root of a list of bytes.
pub fn hash_tree_root_of_byte_list(bytes: &Vec<u8>, limit: u64) -> (r: Result<
    Root,
    TransitionError,
>)
    ensures
        r == byte_list_root(bytes@, limit),
{
    let mut buffer: Vec<u8> = Vec::new();
    extend_bytes(&mut buffer, bytes.as_slice());
    assert(buffer@ =~= bytes@);
    pad_to_chunks(&mut buffer);
    list_root(&buffer, (limit as u128 + 31) / 32, bytes.len())
}

/// The first `j` bits of the byte with the number `i` of a list of bits:
/// the bit at each place is the bit of the list at that place, the least
/// significant first.
pub open spec fn bits_byte(bits: Seq<bool>, i: int, j: int) -> u8
    decreases j,
{
    if j <= 0 {
        0
    } else if 8 * i + j - 1 < bits.len() && bits[8 * i + j - 1] {
        bits_byte(bits, i, j - 1) | (1u8 << ((j - 1) as u8))
    } else {
        bits_byte(bits, i, j - 1)
    }
}

/// The bytes of a list of bits.
pub open spec fn bits_to_bytes(bits: Seq<bool>) -> Seq<u8> {
    Seq::new(((bits.len() + 7) / 8) as nat, |i: int| bits_byte(bits, i, 8))
}

/// The bytes of a list of bits, filled up to whole chunks.
pub fn pack_bits(bits: &Vec<bool>) -> (r: Vec<u8>)
    ensures
        r@ == padded(bits_to_bytes(bits@)),
        r@.len() % 32 == 0,
{
    let count = bits.len() / 8 + if bits.len() % 8 == 0 {
        0
    } else {
        1
    };
    let mut buffer: Vec<u8> = Vec::new();
    let mut i: usize = 0;
    while i < count
        invariant
            i <= count,
            count == (bits@.len() + 7) / 8,
            buffer@.len() == i,
            forall|k: int| 0 <= k < i ==> buffer@[k] == bits_byte(bits@, k, 8),
        decreases count - i,
    {
        assert(8 * i <= bits.len());
        let base = 8 * i;
        let mut byte: u8 = 0;
        let mut j: usize = 0;
        while j < 8
            invariant
                j <= 8,
                base == 8 * i,
                base <= bits@.len(),
                byte == bits_byte(bits@, i as int, j as int),
            decreases 8 - j,
        {
            if j < bits.len() - base && bits[base + j] {
                byte = byte | (1u8 << (j as u8));
            }
            j += 1;
        }
        buffer.push(byte);
        i += 1;
    }
    assert(buffer@ =~= bits_to_bytes(bits@));
    pad_to_chunks(&mut buffer);
    buffer
}

/// The root of a list of bits that may hold `limit` bits at most.
pub open spec fn bitlist_root(bits: Seq<bool>, limit: u64) -> Result<Root, TransitionError> {
    list_root_of(padded(bits_to_bytes(bits)), (limit + 255) / 256, bits.len())
}

/// The root of a list of bits.
pub fn hash_tree_root_of_bitlist(bits: &Vec<bool>, limit: u64) -> (r: Result<Root, TransitionError>)
    ensures
        r == bitlist_root(bits@, limit),
{
    let buffer = pack_bits(bits);
    list_root(&buffer, (limit as u128 + 255) / 256, bits.len())
}

/// The root of a field of bits of fixed length.
pub open spec fn bitvector_root(bits: Seq<bool>) -> Root {
    root_of_chunks(padded(bits_to_bytes(bits)))
}

/// The root of a field of bits of fixed length.
pub fn hash_tree_root_of_bitvector(bits: &Vec<bool>) -> (r: Root)
    ensures
        r == bitvector_root(bits@),
{
    let buffer = pack_bits(bits);
    merkleize(&buffer)
}

/// The chunk of a truth value: one or zero, and zeros.
pub open spec fn bool_chunk(b: bool) -> Seq<u8> {
    seq![if b { 1u8 } else { 0u8 }] + zeros(31)
}

/// Appends the chunk of a truth value.
pub fn push_bool(buffer: &mut Vec<u8>, b: bool)
    ensures
        final(buffer)@ == old(buffer)@ + bool_chunk(b),
        final(buffer)@.len() == old(buffer)@.len() + 32,
{
    buffer.push(if b { 1u8 } else { 0u8 });
    push_zeros(buffer, 31);
    assert(buffer@ =~= old(buffer)@ + bool_chunk(b));
}

/// The chunk of a single byte: the byte, and zeros.
pub open spec fn byte_chunk(b: u8) -> Seq<u8> {
    seq![b] + zeros(31)
}

/// Appends the chunk of a single byte.
pub fn push_byte(buffer: &mut Vec<u8>, b: u8)
    ensures
        final(buffer)@ == old(buffer)@ + byte_chunk(b),
        final(buffer)@.len() == old(buffer)@.len() + 32,
{
    buffer.push(b);
    push_zeros(buffer, 31);
    assert(buffer@ =~= old(buffer)@ + byte_chunk(b));
}

/// The chunk of a fork version: its four bytes, and zeros.
pub open spec fn version_chunk(v: Version) -> Seq<u8> {
    v@ + zeros(28)
}

/// Appends the chunk of a fork version.
pub fn push_version(buffer: &mut Vec<u8>, v: &Version)
    ensures
        final(buffer)@ == old(buffer)@ + version_chunk(*v),
        final(buffer)@.len() == old(buffer)@.len() + 32,
{
    extend_bytes(buffer, v.as_slice());
    push_zeros(buffer, 28);
    assert(buffer@ =~= old(buffer)@ + version_chunk(*v));
}

} // verus!
