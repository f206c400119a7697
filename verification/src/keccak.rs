//! The two fixed-output hash primitives, Keccak-256 and Keccak-512, and the
//! record-level hash built on the 512-bit one.
//!
//! The digests themselves come from an outside crate; each is named by an
//! uninterpreted function of the input bytes, and everything the library
//! proves about hashing goes through those names.
use vstd::prelude::*;

verus! {

use crate::HASH_SIZE_BYTES;
use crate::HASH_SIZE_WORDS;
use crate::KEC_256_HASH_SIZE_BYTES;
use crate::codec::deserialize_hash;
use crate::codec::serialize_hash;
use crate::codec::spec_deserialize;
use crate::codec::spec_serialize;

/// The 64-byte Keccak-512 digest of a byte sequence.
pub uninterp spec fn keccak512_of(input: Seq<u8>) -> Seq<u8>;

/// The 32-byte Keccak-256 digest of a byte sequence.
pub uninterp spec fn keccak256_of(input: Seq<u8>) -> Seq<u8>;

/// Relies on keccak_asm::Keccak512 (through its `Digest::digest`): a fixed
/// 64-byte Keccak-512 digest that depends on the input bytes alone.
#[verifier::external_body]
fn keccak_512(input: &[u8]) -> (r: [u8; HASH_SIZE_BYTES])
    ensures
        r@ == keccak512_of(input@),
        r@.len() == HASH_SIZE_BYTES,
{
    let digest = <keccak_asm::Keccak512 as keccak_asm::Digest>::digest(input);
    let mut hash: [u8; HASH_SIZE_BYTES] = [0; HASH_SIZE_BYTES];
    hash.copy_from_slice(digest.as_slice());
    hash
}

/// Relies on keccak_asm::Keccak256 (through its `Digest::digest`): a fixed
/// 32-byte Keccak-256 digest that depends on the input bytes alone.
#[verifier::external_body]
pub(crate) fn keccak_256(v: &[u8; KEC_256_HASH_SIZE_BYTES]) -> (r: [u8; KEC_256_HASH_SIZE_BYTES])
    ensures
        r@ == keccak256_of(v@),
        r@.len() == KEC_256_HASH_SIZE_BYTES,
{
    let digest = <keccak_asm::Keccak256 as keccak_asm::Digest>::digest(v);
    let mut hash: [u8; KEC_256_HASH_SIZE_BYTES] = [0; KEC_256_HASH_SIZE_BYTES];
    hash.copy_from_slice(digest.as_slice());
    hash
}

/// The record obtained by hashing a record's serialization with Keccak-512
/// and reading the digest back as 16 words.
pub open spec fn spec_hash_words(v: Seq<u32>) -> Seq<u32> {
    spec_deserialize(keccak512_of(spec_serialize(v)))
}

/// The record obtained by hashing a byte buffer with Keccak-512 and reading
/// the digest back as 16 words.
pub open spec fn spec_hash_bytes(v: Seq<u8>) -> Seq<u32> {
    spec_deserialize(keccak512_of(v))
}

/// Serializes a record, hashes the bytes with Keccak-512, and reads the
/// digest back as a record.
pub fn hash_array(v: &[u32; HASH_SIZE_WORDS]) -> (r: [u32; HASH_SIZE_WORDS])
    ensures
        r@ == spec_hash_words(v@),
{
    let serialized = serialize_hash(v);
    let hash = keccak_512(serialized.as_slice());
    deserialize_hash(&hash)
}

/// Hashes a 32-byte buffer with Keccak-512 and reads the digest back as a
/// record.
pub fn hash_bytes(v: &[u8; KEC_256_HASH_SIZE_BYTES]) -> (r: [u32; HASH_SIZE_WORDS])
    ensures
        r@ == spec_hash_bytes(v@),
{
    let hash = keccak_512(v.as_slice());
    deserialize_hash(&hash)
}

} // verus!
