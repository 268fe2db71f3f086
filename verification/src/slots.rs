//! Storage keys of Solidity mappings.
//!
//! A contract keeps the entries of a mapping at keys that are Keccak-256
//! digests of the lookup key and of the index of the slot at which the
//! mapping was declared.

use vstd::prelude::*;
use sha3::Digest;
use crate::bytes::{be_bytes, lemma_be_bytes_len, lemma_be_value_of_bytes, lemma_pow256_32, zeros};
use crate::hash::{H160, H256};
use crate::uint::{pow2_256, U256};

verus! {

/// The Keccak-256 digest of `data`.
pub uninterp spec fn keccak256_digest(data: Seq<u8>) -> Seq<u8>;

/// `sha3::Keccak256::digest`: the 32 bytes of the Keccak-256 digest of
/// `data`, which depend on `data` alone.
#[verifier::external_body]
fn outside_keccak256(data: &[u8]) -> (r: H256)
    ensures
        r@ == keccak256_digest(data@),
{
    H256 { bytes: sha3::Keccak256::digest(data).into() }
}

/// The address padded on the left with zero bytes to a 32-byte word.
pub open spec fn pad32(address: Seq<u8>) -> Seq<u8> {
    zeros(12) + address
}

/// What is hashed to find the entry of `key` in the mapping declared at
/// slot `slot`: the key, then the slot, 32 bytes each.
pub open spec fn mapping_preimage(slot: nat, key: Seq<u8>) -> Seq<u8> {
    key + be_bytes(slot, 32)
}

/// The storage key of the entry of `key` in the mapping declared at slot
/// `slot`.
pub open spec fn mapping_key(slot: nat, key: Seq<u8>) -> Seq<u8> {
    keccak256_digest(mapping_preimage(slot, key))
}

/// The storage key at which the entries declared at slot `slot` start.
pub open spec fn base_key(slot: nat) -> Seq<u8> {
    keccak256_digest(be_bytes(slot, 32))
}

/// The storage key at which the scan of the tokens of `address` starts for
/// slot `slot`: the padded address is hashed first, and its digest is then
/// hashed together with the slot.
pub open spec fn nested_key(address: Seq<u8>, slot: Seq<u8>) -> Seq<u8> {
    keccak256_digest(keccak256_digest(pad32(address)) + slot)
}

/// The Keccak-256 digest of `data`.
pub fn keccak256(data: &[u8]) -> (r: H256)
    ensures
        r@ == keccak256_digest(data@),
{
    outside_keccak256(data)
}

/// The bytes of `first` followed by those of `second`.
fn concat_words(first: &H256, second: &H256) -> (r: Vec<u8>)
    ensures
        r@ == first@ + second@,
{
    let mut out: Vec<u8> = Vec::new();
    let mut i: usize = 0;
    while i < 32
        invariant
            i <= 32,
            out@ == first@.subrange(0, i as int),
        decreases 32 - i,
    {
        out.push(first.bytes[i]);
        i += 1;
    }
    let mut k: usize = 0;
    while k < 32
        invariant
            k <= 32,
            out@ == first@ + second@.subrange(0, k as int),
        decreases 32 - k,
    {
        out.push(second.bytes[k]);
        k += 1;
    }
    out
}

/// The storage key of the entry of `key` in the mapping declared at slot
/// `slot`.
pub fn derive(slot: &U256, key: &H256) -> (r: H256)
    ensures
        r@ == mapping_key(slot@, key@),
{
    let slot_word = slot.to_big_endian();
    let data = concat_words(key, &slot_word);
    keccak256(data.as_slice())
}

/// The storage key of the entry of `address` in the mapping declared at
/// slot `slot`.
pub fn derive_for_address(slot: &U256, address: &H160) -> (r: H256)
    ensures
        r@ == mapping_key(slot@, pad32(address@)),
{
    let key = H256::from_address(address);
    derive(slot, &key)
}

/// The storage key at which the entries declared at slot `slot` start.
pub fn slot_base(slot: &U256) -> (r: H256)
    ensures
        r@ == base_key(slot@),
{
    let word = slot.to_big_endian();
    keccak256(word.bytes.as_slice())
}

/// The storage key at which the scan of the tokens of `address` starts for
/// the slot that `slot` spells.
pub fn get_starting_key(address: &H160, slot: &H256) -> (r: H256)
    ensures
        r@ == nested_key(address@, slot@),
{
    let padded = H256::from_address(address);
    let inner = keccak256(padded.bytes.as_slice());
    let data = concat_words(&inner, slot);
    keccak256(data.as_slice())
}

/// Two lookups are hashed from the same bytes only if they ask for the same
/// key in the same slot: whatever changes the slot or the key changes what
/// is hashed.
pub proof fn lemma_mapping_preimage_injective(slot_a: nat, key_a: Seq<u8>, slot_b: nat, key_b: Seq<u8>)
    requires
        slot_a < pow2_256(),
        slot_b < pow2_256(),
        key_a.len() == 32,
        key_b.len() == 32,
        mapping_preimage(slot_a, key_a) == mapping_preimage(slot_b, key_b),
    ensures
        slot_a == slot_b,
        key_a == key_b,
{
    let pa = mapping_preimage(slot_a, key_a);
    let pb = mapping_preimage(slot_b, key_b);
    lemma_be_bytes_len(slot_a, 32);
    lemma_be_bytes_len(slot_b, 32);
    assert(pb.subrange(0, 32) =~= key_b);
    assert(pa.subrange(32, 64) =~= be_bytes(slot_a, 32));
    assert(pb.subrange(32, 64) =~= be_bytes(slot_b, 32));
    lemma_pow256_32();
    lemma_be_value_of_bytes(slot_a, 32);
    lemma_be_value_of_bytes(slot_b, 32);
}

} // verus!
