//! Scalar types, byte strings and protocol-wide constants.

use vstd::prelude::*;
use crate::error::TransitionError;

verus! {

/// The number of a slot.
pub type Slot = u64;

/// The number of an epoch.
pub type Epoch = u64;

/// An amount of stake.
pub type Gwei = u64;

/// The place of a validator in the registry.
pub type ValidatorIndex = usize;

/// The number of a committee within its slot.
pub type CommitteeIndex = usize;

/// The timeliness flags of one validator for one epoch, one bit each.
pub type ParticipationFlags = u8;

/// A string of 32 bytes.
pub type Bytes32 = [u8; 32];

/// The root of a hash tree.
pub type Root = [u8; 32];

/// The version of a fork.
pub type Version = [u8; 4];

/// A domain: what separates signatures for different purposes.
pub type Domain = [u8; 32];

/// A compressed public key.
pub type BlsPublicKey = [u8; 48];

/// A compressed signature.
pub type BlsSignature = [u8; 96];

/// The first slot.
pub const GENESIS_SLOT: Slot = 0;

/// The first epoch.
pub const GENESIS_EPOCH: Epoch = 0;

/// Sentinel for an epoch field that has not been set yet.
pub const FAR_FUTURE_EPOCH: Epoch = 0xffff_ffff_ffff_ffff;

/// How many duties the base reward of an epoch is split over.
pub const BASE_REWARDS_PER_EPOCH: u64 = 4;

/// The depth of the deposit tree.
pub const DEPOSIT_CONTRACT_TREE_DEPTH: usize = 32;

/// How many epochs the justification bitfield covers.
pub const JUSTIFICATION_BITS_LENGTH: usize = 4;

/// The index of the flag for a timely vote for the source.
pub const TIMELY_SOURCE_FLAG_INDEX: usize = 0;

/// The index of the flag for a timely vote for the target.
pub const TIMELY_TARGET_FLAG_INDEX: usize = 1;

/// The index of the flag for a timely vote for the head.
pub const TIMELY_HEAD_FLAG_INDEX: usize = 2;

/// The weight of a timely vote for the source.
pub const TIMELY_SOURCE_WEIGHT: u64 = 14;

/// The weight of a timely vote for the target.
pub const TIMELY_TARGET_WEIGHT: u64 = 26;

/// The weight of a timely vote for the head.
pub const TIMELY_HEAD_WEIGHT: u64 = 14;

/// The weight of the work of the sync committee.
pub const SYNC_REWARD_WEIGHT: u64 = 2;

/// The weight of the work of the proposer.
pub const PROPOSER_WEIGHT: u64 = 8;

/// What all weights are parts of.
pub const WEIGHT_DENOMINATOR: u64 = 64;

/// Largest value of the byte that the proposer and sync-committee sampling
/// compares an effective balance against.
pub const MAX_RANDOM_BYTE: u64 = 255;

/// The weight of each timeliness flag, by flag index.
pub open spec fn flag_weight(flag_index: int) -> u64 {
    if flag_index == 0 {
        TIMELY_SOURCE_WEIGHT
    } else if flag_index == 1 {
        TIMELY_TARGET_WEIGHT
    } else {
        TIMELY_HEAD_WEIGHT
    }
}

/// The weight of a timeliness flag.
pub fn participation_flag_weight(flag_index: usize) -> (w: u64)
    ensures
        w == flag_weight(flag_index as int),
{
    if flag_index == 0 {
        TIMELY_SOURCE_WEIGHT
    } else if flag_index == 1 {
        TIMELY_TARGET_WEIGHT
    } else {
        TIMELY_HEAD_WEIGHT
    }
}

/// Whether two byte strings of one length hold the same bytes.
pub fn bytes_equal<const N: usize>(a: &[u8; N], b: &[u8; N]) -> (r: bool)
    ensures
        r == (*a == *b),
{
    let mut i: usize = 0;
    while i < N
        invariant
            i <= N,
            forall|j: int| 0 <= j < i ==> a[j] == b[j],
        decreases N - i,
    {
        if a[i] != b[i] {
            return false;
        }
        i += 1;
    }
    assert(*a =~= *b);
    true
}

/// The all-zero 32-byte string.
pub open spec fn zero_bytes32() -> Bytes32 {
    vstd::array::spec_array_fill_for_copy_type::<u8, 32>(0u8)
}

/// Whether every byte of a 32-byte string is zero.
pub fn is_zero_bytes32(a: &Bytes32) -> (r: bool)
    ensures
        r == (*a == zero_bytes32()),
{
    let z: Bytes32 = [0u8; 32];
    bytes_equal(a, &z)
}

/// Whether `out` is the byte-wise exclusive or of two 32-byte strings.
pub open spec fn xor32(a: Bytes32, b: Bytes32, out: Bytes32) -> bool {
    forall|i: int| 0 <= i < 32 ==> out[i] == a[i] ^ b[i]
}

/// The byte-wise exclusive or of two 32-byte strings.
pub open spec fn xored(a: Bytes32, b: Bytes32) -> Bytes32 {
    choose|out: Bytes32| xor32(a, b, out)
}

/// The 32-byte string that holds the given bytes.
pub open spec fn array_of(bytes: Seq<u8>) -> Bytes32 {
    choose|a: Bytes32| a@ == bytes
}

/// A 32-byte string is the one that holds its bytes.
pub proof fn lemma_array_of(a: Bytes32)
    ensures
        array_of(a@) == a,
{
    let e = array_of(a@);
    assert(e@ == a@);
    assert(e =~= a);
}

/// The byte-wise exclusive or of two 32-byte strings.
pub fn xor_bytes32(a: &Bytes32, b: &Bytes32) -> (out: Bytes32)
    ensures
        out == xored(*a, *b),
{
    let mut out: Bytes32 = [0u8; 32];
    let mut i: usize = 0;
    while i < 32
        invariant
            i <= 32,
            forall|j: int| 0 <= j < i ==> out[j] == a[j] ^ b[j],
        decreases 32 - i,
    {
        out[i] = a[i] ^ b[i];
        i += 1;
    }
    proof {
        assert(xor32(*a, *b, out));
        let chosen = xored(*a, *b);
        assert(xor32(*a, *b, chosen));
        assert(chosen =~= out);
    }
    out
}

/// The sum of two numbers, where 64 bits hold it.
pub open spec fn sum_of(a: u64, b: u64) -> Result<u64, TransitionError> {
    if a + b > u64::MAX {
        Err(TransitionError::Overflow)
    } else {
        Ok((a + b) as u64)
    }
}

/// The sum of two numbers, or an overflow.
pub fn checked_add(a: u64, b: u64) -> (r: Result<u64, TransitionError>)
    ensures
        r == sum_of(a, b),
{
    match a.checked_add(b) {
        Some(v) => Ok(v),
        None => Err(TransitionError::Overflow),
    }
}

/// The product of two numbers, where 64 bits hold it.
pub open spec fn product_of(a: u64, b: u64) -> Result<u64, TransitionError> {
    if a * b > u64::MAX {
        Err(TransitionError::Overflow)
    } else {
        Ok((a * b) as u64)
    }
}

/// The product of two numbers, or an overflow.
pub fn checked_mul(a: u64, b: u64) -> (r: Result<u64, TransitionError>)
    ensures
        r == product_of(a, b),
{
    match a.checked_mul(b) {
        Some(v) => Ok(v),
        None => Err(TransitionError::Overflow),
    }
}

/// The difference of two numbers, where it is not negative.
pub open spec fn difference_of(a: u64, b: u64) -> Result<u64, TransitionError> {
    if a < b {
        Err(TransitionError::Underflow)
    } else {
        Ok((a - b) as u64)
    }
}

/// The difference of two numbers, or an underflow.
pub fn checked_sub(a: u64, b: u64) -> (r: Result<u64, TransitionError>)
    ensures
        r == difference_of(a, b),
{
    if a < b {
        Err(TransitionError::Underflow)
    } else {
        Ok(a - b)
    }
}

/// The difference of two numbers, or zero where it would be negative.
pub open spec fn saturating_difference(a: u64, b: u64) -> u64 {
    if a < b {
        0
    } else {
        (a - b) as u64
    }
}

/// The difference of two numbers, or zero.
pub fn saturating_sub(a: u64, b: u64) -> (r: u64)
    ensures
        r == saturating_difference(a, b),
{
    if a < b {
        0
    } else {
        a - b
    }
}

/// The sum of two numbers, or the largest number where 64 bits do not hold
/// the sum.
pub open spec fn capped_sum(a: u64, b: u64) -> u64 {
    if a + b > u64::MAX {
        u64::MAX
    } else {
        (a + b) as u64
    }
}

/// The sum of two numbers, or the largest number.
pub fn capped_add(a: u64, b: u64) -> (r: u64)
    ensures
        r == capped_sum(a, b),
{
    match a.checked_add(b) {
        Some(x) => x,
        None => u64::MAX,
    }
}

/// The product of two 64-bit numbers, which 128 bits always hold.
pub fn wide_mul(a: u64, b: u64) -> (r: u128)
    ensures
        r == a * b,
        r <= 0xffff_ffff_ffff_ffff * 0xffff_ffff_ffff_ffff,
{
    assert(a * b <= 0xffff_ffff_ffff_ffff * 0xffff_ffff_ffff_ffff) by (nonlinear_arith)
        requires
            0 <= a <= 0xffff_ffff_ffff_ffff,
            0 <= b <= 0xffff_ffff_ffff_ffff,
    ;
    a as u128 * b as u128
}

/// Whether the number after `n` is a multiple of `period`.
pub fn successor_is_multiple(n: u64, period: u64) -> (r: bool)
    requires
        period > 0,
    ensures
        r == ((n + 1) % (period as int) == 0),
{
    proof {
        vstd::arithmetic::div_mod::lemma_fundamental_div_mod(n as int, period as int);
        let q = n as int / period as int;
        let m = n as int % period as int;
        if m == period - 1 {
            assert(n + 1 == period * (q + 1)) by (nonlinear_arith)
                requires
                    n == period * q + m,
                    m == period - 1,
            ;
            vstd::arithmetic::div_mod::lemma_mod_multiples_basic(q + 1, period as int);
            assert(period * (q + 1) == (q + 1) * period) by (nonlinear_arith);
        } else {
            assert(n + 1 == q * period + (m + 1)) by (nonlinear_arith)
                requires
                    n == period * q + m,
            ;
            vstd::arithmetic::div_mod::lemma_fundamental_div_mod_converse(
                n + 1,
                period as int,
                q,
                m + 1,
            );
        }
    }
    n % period == period - 1
}

/// The number after `n`, reduced modulo `period`.
pub fn successor_modulo(n: u64, period: u64) -> (r: u64)
    requires
        period > 0,
    ensures
        r == (n + 1) % (period as int),
        r < period,
{
    proof {
        vstd::arithmetic::div_mod::lemma_fundamental_div_mod(n as int, period as int);
        let q = n as int / period as int;
        let m = n as int % period as int;
        if m == period - 1 {
            assert(n + 1 == period * (q + 1)) by (nonlinear_arith)
                requires
                    n == period * q + m,
                    m == period - 1,
            ;
            vstd::arithmetic::div_mod::lemma_mod_multiples_basic(q + 1, period as int);
            assert(period * (q + 1) == (q + 1) * period) by (nonlinear_arith);
        } else {
            assert(n + 1 == q * period + (m + 1)) by (nonlinear_arith)
                requires
                    n == period * q + m,
            ;
            vstd::arithmetic::div_mod::lemma_fundamental_div_mod_converse(
                n + 1,
                period as int,
                q,
                m + 1,
            );
        }
    }
    let m = n % period;
    if m == period - 1 {
        0
    } else {
        m + 1
    }
}

/// Appends every byte of `src` to `dst`.
pub fn extend_bytes(dst: &mut Vec<u8>, src: &[u8])
    ensures
        final(dst)@ == old(dst)@ + src@,
{
    let mut i: usize = 0;
    while i < src.len()
        invariant
            i <= src.len(),
            dst@ == old(dst)@ + src@.subrange(0, i as int),
        decreases src.len() - i,
    {
        dst.push(src[i]);
        i += 1;
    }
    assert(src@.subrange(0, src@.len() as int) == src@);
}

/// A copy of a vector of plain values.
pub fn copy_vec<T: Copy>(v: &Vec<T>) -> (r: Vec<T>)
    ensures
        r@ == v@,
{
    let mut r: Vec<T> = Vec::new();
    let mut i: usize = 0;
    while i < v.len()
        invariant
            i <= v.len(),
            r@ == v@.subrange(0, i as int),
        decreases v.len() - i,
    {
        r.push(v[i]);
        i += 1;
    }
    assert(v@.subrange(0, v@.len() as int) == v@);
    r
}

} // verus!
