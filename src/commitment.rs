//! Commitments that bind a hidden prediction: the Keccak-256 digest of the
//! prediction's little-endian bytes followed by a 32-byte salt.
use vstd::prelude::*;

verus! {

/// The Keccak-256 digest of a byte string.
pub uninterp spec fn keccak256_of(data: Seq<u8>) -> Seq<u8>;

/// Relies on solana_program::keccak::hash (solana-keccak-hasher): the
/// Keccak-256 digest of `data`, which depends on the bytes alone.
#[verifier::external_body]
fn keccak256(data: &[u8]) -> (r: [u8; 32])
    ensures
        r@ == keccak256_of(data@),
{
    #[allow(deprecated)]
    let digest = solana_program::keccak::hash(data);
    digest.to_bytes()
}

/// Byte `i` (least significant first) of `v`.
pub open spec fn byte_of(v: u64, i: u64) -> u8 {
    ((v >> (8 * i)) & 0xff) as u8
}

/// The eight little-endian bytes of `v`.
pub open spec fn le_bytes(v: u64) -> Seq<u8> {
    seq![
        byte_of(v, 0),
        byte_of(v, 1),
        byte_of(v, 2),
        byte_of(v, 3),
        byte_of(v, 4),
        byte_of(v, 5),
        byte_of(v, 6),
        byte_of(v, 7),
    ]
}

/// The bytes that a commitment hashes: the prediction, then the salt.
pub open spec fn preimage(prediction_target: u64, salt: Seq<u8>) -> Seq<u8> {
    le_bytes(prediction_target) + salt
}

/// The commitment to `prediction_target` under `salt`.
pub open spec fn commitment_of(prediction_target: u64, salt: Seq<u8>) -> Seq<u8> {
    keccak256_of(preimage(prediction_target, salt))
}

/// Two values with the same little-endian bytes are equal.
pub proof fn lemma_le_bytes_injective(a: u64, b: u64)
    requires
        le_bytes(a) == le_bytes(b),
    ensures
        a == b,
{
    assert forall|i: u64| i < 8 implies #[trigger] byte_of(a, i) == byte_of(b, i) by {
        assert(le_bytes(a)[i as int] == le_bytes(b)[i as int]);
    }
    assert(byte_of(a, 0) == byte_of(b, 0));
    assert(byte_of(a, 1) == byte_of(b, 1));
    assert(byte_of(a, 2) == byte_of(b, 2));
    assert(byte_of(a, 3) == byte_of(b, 3));
    assert(byte_of(a, 4) == byte_of(b, 4));
    assert(byte_of(a, 5) == byte_of(b, 5));
    assert(byte_of(a, 6) == byte_of(b, 6));
    assert(byte_of(a, 7) == byte_of(b, 7));
    assert(a == b) by (bit_vector)
        requires
            ((a >> 0) & 0xff) as u8 == ((b >> 0) & 0xff) as u8,
            ((a >> 8) & 0xff) as u8 == ((b >> 8) & 0xff) as u8,
            ((a >> 16) & 0xff) as u8 == ((b >> 16) & 0xff) as u8,
            ((a >> 24) & 0xff) as u8 == ((b >> 24) & 0xff) as u8,
            ((a >> 32) & 0xff) as u8 == ((b >> 32) & 0xff) as u8,
            ((a >> 40) & 0xff) as u8 == ((b >> 40) & 0xff) as u8,
            ((a >> 48) & 0xff) as u8 == ((b >> 48) & 0xff) as u8,
            ((a >> 56) & 0xff) as u8 == ((b >> 56) & 0xff) as u8,
    ;
}

/// Different predictions under one salt have different preimages.
pub proof fn lemma_preimage_injective(a: u64, b: u64, salt: Seq<u8>)
    requires
        a != b,
    ensures
        preimage(a, salt) != preimage(b, salt),
{
    if preimage(a, salt) == preimage(b, salt) {
        assert(le_bytes(a) =~= preimage(a, salt).subrange(0, 8));
        assert(le_bytes(b) =~= preimage(b, salt).subrange(0, 8));
        lemma_le_bytes_injective(a, b);
    }
}

/// The bytes that a commitment to `prediction_target` under `salt` hashes.
pub fn commitment_preimage(prediction_target: u64, salt: &[u8; 32]) -> (r: Vec<u8>)
    ensures
        r@ == preimage(prediction_target, salt@),
{
    let mut data: Vec<u8> = Vec::with_capacity(40);
    let mut k: u64 = 0;
    while k < 8
        invariant
            k <= 8,
            data@ == le_bytes(prediction_target).subrange(0, k as int),
        decreases 8 - k,
    {
        let byte: u8 = ((prediction_target >> (8 * k)) & 0xff) as u8;
        data.push(byte);
        assert(data@ =~= le_bytes(prediction_target).subrange(0, k + 1));
        k = k + 1;
    }
    assert(data@ =~= le_bytes(prediction_target));
    let mut i: usize = 0;
    while i < 32
        invariant
            i <= 32,
            data@ == le_bytes(prediction_target) + salt@.subrange(0, i as int),
        decreases 32 - i,
    {
        data.push(salt[i]);
        assert(data@ =~= le_bytes(prediction_target) + salt@.subrange(0, i + 1));
        i = i + 1;
    }
    assert(salt@.subrange(0, 32) =~= salt@);
    data
}

/// The commitment to `prediction_target` under `salt`, as a bettor computes
/// it before placing a bet.
pub fn compute_commitment(prediction_target: u64, salt: &[u8; 32]) -> (r: [u8; 32])
    ensures
        r@ == commitment_of(prediction_target, salt@),
{
    let data = commitment_preimage(prediction_target, salt);
    keccak256(data.as_slice())
}

} // verus!
