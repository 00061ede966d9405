//! Genetic payloads: the pseudo-random value drawn for a caller, and the
//! rule by which two parents' payloads are mixed under a selector.

use vstd::prelude::*;
use vstd::bytes::spec_u32_to_le_bytes;
use vstd::bytes::spec_u64_to_le_bytes;
use crate::kitties::types::AccountId;

verus! {

/// One byte of a bred payload: a bit is inherited where the selector has it
/// set and at least one parent carries it, and is zero otherwise.
pub open spec fn mix_byte(parent1: u8, parent2: u8, selector: u8) -> u8 {
    selector & (parent1 | parent2)
}

/// The payload bred from two parents' payloads under a selector: each of
/// its sixteen bytes is mixed from the three bytes at the same position.
pub open spec fn mix_dna(parent1: [u8; 16], parent2: [u8; 16], selector: [u8; 16]) -> [u8; 16] {
    [
        mix_byte(parent1[0], parent2[0], selector[0]),
        mix_byte(parent1[1], parent2[1], selector[1]),
        mix_byte(parent1[2], parent2[2], selector[2]),
        mix_byte(parent1[3], parent2[3], selector[3]),
        mix_byte(parent1[4], parent2[4], selector[4]),
        mix_byte(parent1[5], parent2[5], selector[5]),
        mix_byte(parent1[6], parent2[6], selector[6]),
        mix_byte(parent1[7], parent2[7], selector[7]),
        mix_byte(parent1[8], parent2[8], selector[8]),
        mix_byte(parent1[9], parent2[9], selector[9]),
        mix_byte(parent1[10], parent2[10], selector[10]),
        mix_byte(parent1[11], parent2[11], selector[11]),
        mix_byte(parent1[12], parent2[12], selector[12]),
        mix_byte(parent1[13], parent2[13], selector[13]),
        mix_byte(parent1[14], parent2[14], selector[14]),
        mix_byte(parent1[15], parent2[15], selector[15]),
    ]
}

/// Computes one byte of a bred payload from the two parents' bytes and the
/// selector's byte at the same position.
pub fn combine_byte(parent1: u8, parent2: u8, selector: u8) -> (child: u8)
    ensures
        child == mix_byte(parent1, parent2, selector),
{
    let child: u8 = (parent1 & selector) | (parent2 & selector);
    assert((parent1 & selector) | (parent2 & selector) == selector & (parent1 | parent2))
        by (bit_vector);
    child
}

/// Mixes two parents' payloads under a selector. Byte `i` of the child
/// depends on byte `i` of the three inputs and on nothing else.
pub fn breed_dna(parent1: &[u8; 16], parent2: &[u8; 16], selector: &[u8; 16]) -> (child: [u8; 16])
    ensures
        child == mix_dna(*parent1, *parent2, *selector),
        forall|i: int| 0 <= i < 16 ==> child[i] == selector[i] & (parent1[i] | parent2[i]),
{
    let mut data: [u8; 16] = [0u8; 16];
    let mut i: usize = 0;
    while i < 16
        invariant
            i <= 16,
            forall|j: int| 0 <= j < i ==> data[j] == mix_byte(parent1[j], parent2[j], selector[j]),
        decreases 16 - i,
    {
        let byte: u8 = combine_byte(parent1[i], parent2[i], selector[i]);
        data[i] = byte;
        i = i + 1;
    }
    assert(data =~= mix_dna(*parent1, *parent2, *selector));
    data
}

/// How the caller and the disambiguator are laid out behind the seed: the
/// caller as eight bytes, least significant first, then one byte that says
/// whether a disambiguator follows, then the disambiguator as four bytes,
/// least significant first.
pub open spec fn caller_encoding(sender: AccountId, extrinsic_index: Option<u32>) -> Seq<u8> {
    spec_u64_to_le_bytes(sender) + match extrinsic_index {
        None => seq![0u8],
        Some(index) => seq![1u8] + spec_u32_to_le_bytes(index),
    }
}

/// The bytes that are hashed for a caller: the seed as the randomness
/// provider gave it, followed by the caller and the disambiguator.
pub open spec fn random_payload(
    seed: Seq<u8>,
    sender: AccountId,
    extrinsic_index: Option<u32>,
) -> Seq<u8> {
    seed + caller_encoding(sender, extrinsic_index)
}

/// The sixteen-byte BLAKE2b digest of `data`, computed without a key.
pub uninterp spec fn blake2_128_digest(data: Seq<u8>) -> Seq<u8>;

/// `sp_io::hashing::blake2_128`: hashes `data` with BLAKE2b to sixteen bytes.
/// The digest depends on the bytes of `data` alone; nothing more is claimed
/// of it here.
#[verifier::external_body]
fn blake2_128(data: &[u8]) -> (digest: [u8; 16])
    ensures
        digest@ == blake2_128_digest(data@),
{
    sp_io::hashing::blake2_128(data)
}

/// `parity_scale_codec::Encode::encode` on the pair of a caller and a
/// disambiguator. A pair is encoded as its first part followed by its second;
/// an unsigned integer as its bytes, least significant first; an absent
/// value as the byte 0 and a present one as the byte 1 followed by the value.
#[verifier::external_body]
fn encode_caller(sender: AccountId, extrinsic_index: Option<u32>) -> (bytes: Vec<u8>)
    ensures
        bytes@ == caller_encoding(sender, extrinsic_index),
{
    parity_scale_codec::Encode::encode(&(sender, extrinsic_index))
}

/// Draws the sixteen-byte value for a caller: the digest of the seed, the
/// caller and the disambiguator. Equal inputs give equal values.
pub fn random_value(
    sender: AccountId,
    seed: &[u8],
    extrinsic_index: Option<u32>,
) -> (value: [u8; 16])
    ensures
        value@ == blake2_128_digest(random_payload(seed@, sender, extrinsic_index)),
{
    let mut payload: Vec<u8> = Vec::new();
    let mut i: usize = 0;
    while i < seed.len()
        invariant
            i <= seed.len(),
            payload@ == seed@.take(i as int),
        decreases seed.len() - i,
    {
        payload.push(seed[i]);
        i = i + 1;
        assert(seed@.take(i as int) =~= seed@.take(i - 1).push(seed[i - 1]));
    }
    assert(seed@.take(seed.len() as int) =~= seed@);
    let mut tail: Vec<u8> = encode_caller(sender, extrinsic_index);
    payload.append(&mut tail);
    blake2_128(payload.as_slice())
}

} // verus!
