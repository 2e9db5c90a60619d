//! Hashing, signatures and the integer square root, as the crates that
//! provide them compute them.

use vstd::prelude::*;
use crate::primitives::{BlsPublicKey, BlsSignature, Bytes32};

verus! {

/// The SHA-256 digest of a byte string.
pub uninterp spec fn sha256(data: Seq<u8>) -> Bytes32;

/// Whether `signature` is a valid signature of `message` under `public_key`
/// in the ciphersuite tagged `dst`.
pub uninterp spec fn bls_verifies(
    public_key: BlsPublicKey,
    message: Seq<u8>,
    dst: Seq<u8>,
    signature: BlsSignature,
) -> bool;

/// Whether `signature` is a valid signature of `message` under the sum of
/// `public_keys` in the ciphersuite tagged `dst`.
pub uninterp spec fn bls_fast_aggregate_verifies(
    public_keys: Seq<BlsPublicKey>,
    message: Seq<u8>,
    dst: Seq<u8>,
    signature: BlsSignature,
) -> bool;

/// The compressed sum of `public_keys`, where they have one.
pub uninterp spec fn bls_aggregate_of(public_keys: Seq<BlsPublicKey>) -> Option<BlsPublicKey>;

/// `sha2::Sha256::digest`: the 32-byte SHA-256 digest of `data`. The contract
/// gives the digest a name and claims nothing else of it.
#[verifier::external_body]
pub(crate) fn sha256_digest(data: &[u8]) -> (digest: Bytes32)
    ensures
        digest == sha256(data@),
{
    <sha2::Sha256 as sha2::Digest>::digest(data).into()
}

/// `integer_sqrt::IntegerSquareRoot::integer_sqrt` on `u64`: the largest
/// integer whose square does not exceed `n`.
#[verifier::external_body]
pub(crate) fn integer_sqrt_u64(n: u64) -> (root: u64)
    ensures
        root * root <= n,
        n < (root + 1) * (root + 1),
{
    integer_sqrt::IntegerSquareRoot::integer_sqrt(&n)
}

/// `blst::min_pk::Signature::verify` with group checks on both points. The
/// key and the signature are read from their compressed bytes first, and a
/// string that is no valid key or no signature verifies nothing. The contract
/// names the outcome.
#[verifier::external_body]
pub(crate) fn bls_verify(
    public_key: &BlsPublicKey,
    message: &[u8],
    dst: &[u8],
    signature: &BlsSignature,
) -> (ok: bool)
    ensures
        ok == bls_verifies(*public_key, message@, dst@, *signature),
{
    let key = blst::min_pk::PublicKey::key_validate(public_key);
    let sig = blst::min_pk::Signature::from_bytes(signature);
    match (key, sig) {
        (Ok(key), Ok(sig)) => {
            sig.verify(true, message, dst, &[], &key, false) == blst::BLST_ERROR::BLST_SUCCESS
        },
        _ => false,
    }
}

/// `blst::min_pk::Signature::fast_aggregate_verify` with a group check on the
/// signature. The keys and the signature are read from their compressed bytes
/// first, and a string that is no valid key or no signature verifies nothing.
/// The contract names the outcome.
#[verifier::external_body]
pub(crate) fn bls_fast_aggregate_verify(
    public_keys: &Vec<BlsPublicKey>,
    message: &[u8],
    dst: &[u8],
    signature: &BlsSignature,
) -> (ok: bool)
    ensures
        ok == bls_fast_aggregate_verifies(public_keys@, message@, dst@, *signature),
{
    let keys: Result<Vec<_>, _> =
        public_keys.iter().map(|k| blst::min_pk::PublicKey::key_validate(k)).collect();
    let sig = blst::min_pk::Signature::from_bytes(signature);
    match (keys, sig) {
        (Ok(keys), Ok(sig)) => {
            let refs: Vec<&blst::min_pk::PublicKey> = keys.iter().collect();
            sig.fast_aggregate_verify(true, message, dst, &refs) == blst::BLST_ERROR::BLST_SUCCESS
        },
        _ => false,
    }
}

/// `blst::min_pk::AggregatePublicKey::aggregate`, then the compressed bytes
/// of the sum. The keys are read from their compressed bytes first; there is
/// no sum where one of them is no valid key or where there is no key at all.
/// The contract names the outcome.
#[verifier::external_body]
pub(crate) fn bls_aggregate_public_keys(public_keys: &Vec<BlsPublicKey>) -> (sum: Option<
    BlsPublicKey,
>)
    ensures
        sum == bls_aggregate_of(public_keys@),
{
    let keys: Result<Vec<_>, _> =
        public_keys.iter().map(|k| blst::min_pk::PublicKey::key_validate(k)).collect();
    match keys {
        Ok(keys) => {
            let refs: Vec<&blst::min_pk::PublicKey> = keys.iter().collect();
            match blst::min_pk::AggregatePublicKey::aggregate(&refs, false) {
                Ok(sum) => Some(sum.to_public_key().to_bytes()),
                Err(_) => None,
            }
        },
        Err(_) => None,
    }
}

/// What makes `r` the integer square root of `n`.
pub open spec fn is_isqrt(n: nat, r: nat) -> bool {
    r * r <= n && n < (r + 1) * (r + 1)
}

/// The integer square root of `n`.
pub open spec fn isqrt(n: nat) -> nat {
    choose|r: nat| is_isqrt(n, r)
}

proof fn lemma_isqrt_unique(n: nat, a: nat, b: nat)
    requires
        a * a <= n,
        n < (a + 1) * (a + 1),
        b * b <= n,
        n < (b + 1) * (b + 1),
    ensures
        a == b,
{
    if a < b {
        assert((a + 1) * (a + 1) <= b * b) by (nonlinear_arith)
            requires
                a + 1 <= b,
        ;
    } else if b < a {
        assert((b + 1) * (b + 1) <= a * a) by (nonlinear_arith)
            requires
                b + 1 <= a,
        ;
    }
}

/// The integer square root of `n`.
pub fn integer_square_root(n: u64) -> (root: u64)
    ensures
        root == isqrt(n as nat),
        root * root <= n,
        n < (root + 1) * (root + 1),
        n > 0 ==> root > 0,
{
    let root = integer_sqrt_u64(n);
    proof {
        let r = root as nat;
        assert(is_isqrt(n as nat, r));
        lemma_isqrt_unique(n as nat, r, isqrt(n as nat));
    }
    root
}

/// The domain-separation tag of the signature scheme.
pub open spec fn bls_dst() -> Seq<u8> {
    seq![
        66u8, 76u8, 83u8, 95u8, 83u8, 73u8, 71u8, 95u8, 66u8, 76u8, 83u8, 49u8, 50u8, 51u8,
        56u8, 49u8, 71u8, 50u8, 95u8, 88u8, 77u8, 68u8, 58u8, 83u8, 72u8, 65u8, 45u8, 50u8,
        53u8, 54u8, 95u8, 83u8, 83u8, 87u8, 85u8, 95u8, 82u8, 79u8, 95u8, 80u8, 79u8, 80u8,
        95u8,
    ]
}

fn dst_bytes() -> (dst: [u8; 43])
    ensures
        dst@ == bls_dst(),
{
    let dst: [u8; 43] = [
        66u8, 76u8, 83u8, 95u8, 83u8, 73u8, 71u8, 95u8, 66u8, 76u8, 83u8, 49u8, 50u8, 51u8,
        56u8, 49u8, 71u8, 50u8, 95u8, 88u8, 77u8, 68u8, 58u8, 83u8, 72u8, 65u8, 45u8, 50u8,
        53u8, 54u8, 95u8, 83u8, 83u8, 87u8, 85u8, 95u8, 82u8, 79u8, 95u8, 80u8, 79u8, 80u8,
        95u8,
    ];
    assert(dst@ =~= bls_dst());
    dst
}

/// The SHA-256 digest of `data`.
pub fn hash(data: &[u8]) -> (digest: Bytes32)
    ensures
        digest == sha256(data@),
{
    sha256_digest(data)
}

/// Whether `signature` signs `message` under `public_key`.
pub open spec fn signature_valid(
    public_key: BlsPublicKey,
    message: Seq<u8>,
    signature: BlsSignature,
) -> bool {
    bls_verifies(public_key, message, bls_dst(), signature)
}

/// Whether `signature` signs `message` under `public_key`.
pub fn verify_signature(public_key: &BlsPublicKey, message: &[u8], signature: &BlsSignature) -> (ok:
    bool)
    ensures
        ok == signature_valid(*public_key, message@, *signature),
{
    let dst = dst_bytes();
    bls_verify(public_key, message, dst.as_slice(), signature)
}

/// Whether `signature` signs `message` under the sum of `public_keys`.
pub open spec fn aggregate_signature_valid(
    public_keys: Seq<BlsPublicKey>,
    message: Seq<u8>,
    signature: BlsSignature,
) -> bool {
    bls_fast_aggregate_verifies(public_keys, message, bls_dst(), signature)
}

/// Whether `signature` signs `message` under the sum of `public_keys`.
pub fn fast_aggregate_verify(
    public_keys: &Vec<BlsPublicKey>,
    message: &[u8],
    signature: &BlsSignature,
) -> (ok: bool)
    ensures
        ok == aggregate_signature_valid(public_keys@, message@, *signature),
{
    let dst = dst_bytes();
    bls_fast_aggregate_verify(public_keys, message, dst.as_slice(), signature)
}

/// The sum of `public_keys`, where they have one.
pub fn eth_aggregate_public_keys(public_keys: &Vec<BlsPublicKey>) -> (sum: Option<BlsPublicKey>)
    ensures
        sum == bls_aggregate_of(public_keys@),
{
    bls_aggregate_public_keys(public_keys)
}

} // verus!
