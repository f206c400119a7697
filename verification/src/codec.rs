//! Conversion between 16-word records and their 64-byte little-endian
//! serialization, and the word-wise XOR of two records.
use vstd::prelude::*;

verus! {

use crate::HASH_SIZE_BYTES;
use crate::HASH_SIZE_WORDS;

/// The four bytes of a word, least significant first.
pub open spec fn spec_word_to_le(w: u32) -> Seq<u8> {
    seq![
        (w & 0xff) as u8,
        ((w >> 8) & 0xff) as u8,
        ((w >> 16) & 0xff) as u8,
        ((w >> 24) & 0xff) as u8,
    ]
}

/// The word whose little-endian bytes are `b0, b1, b2, b3`.
pub open spec fn spec_word_from_le(b0: u8, b1: u8, b2: u8, b3: u8) -> u32 {
    (b0 as u32) | ((b1 as u32) << 8) | ((b2 as u32) << 16) | ((b3 as u32) << 24)
}

/// The little-endian serialization of a word sequence: each word contributes
/// its four bytes, words in index order.
pub open spec fn spec_serialize(v: Seq<u32>) -> Seq<u8> {
    Seq::new(v.len() * 4, |j: int| spec_word_to_le(v[j / 4])[j % 4])
}

/// The word sequence read from a byte sequence, four little-endian bytes per
/// word, in order.
pub open spec fn spec_deserialize(b: Seq<u8>) -> Seq<u32> {
    Seq::new(b.len() / 4, |i: int| spec_word_from_le(b[4 * i], b[4 * i + 1], b[4 * i + 2], b[4 * i + 3]))
}

/// The word-wise XOR of two equally long word sequences.
pub open spec fn spec_xor(a: Seq<u32>, b: Seq<u32>) -> Seq<u32> {
    Seq::new(a.len(), |i: int| a[i] ^ b[i])
}

/// Encoding a word and reading the four bytes back yields the word again.
proof fn lemma_word_round_trip(w: u32)
    ensures
        spec_word_from_le(
            (w & 0xff) as u8,
            ((w >> 8) & 0xff) as u8,
            ((w >> 16) & 0xff) as u8,
            ((w >> 24) & 0xff) as u8,
        ) == w,
{
    assert((((w & 0xff) as u8) as u32) | ((((w >> 8) & 0xff) as u8) as u32) << 8
        | ((((w >> 16) & 0xff) as u8) as u32) << 16 | ((((w >> 24) & 0xff) as u8) as u32) << 24
        == w) by (bit_vector);
}

/// Deserializing the serialization of any word sequence yields the sequence
/// unchanged; in particular every 16-word record survives the byte round trip.
pub proof fn lemma_codec_round_trip(v: Seq<u32>)
    ensures
        spec_deserialize(spec_serialize(v)) == v,
{
    let b = spec_serialize(v);
    assert forall|i: int| 0 <= i < v.len() implies spec_deserialize(b)[i] == v[i] by {
        assert(b[4 * i] == spec_word_to_le(v[i])[0]);
        assert(b[4 * i + 1] == spec_word_to_le(v[i])[1]);
        assert(b[4 * i + 2] == spec_word_to_le(v[i])[2]);
        assert(b[4 * i + 3] == spec_word_to_le(v[i])[3]);
        lemma_word_round_trip(v[i]);
    }
    assert(spec_deserialize(spec_serialize(v)) =~= v);
}

/// Little-endian encoding of one word, least significant byte first.
pub fn int_to_little_endian(word: u32) -> (r: [u8; 4])
    ensures
        r@ == spec_word_to_le(word),
{
    proof {
        assert((word >> 24) & 0xff < 256 && (word >> 16) & 0xff < 256 && (word >> 8) & 0xff < 256
            && word & 0xff < 256) by (bit_vector);
    }
    let b1: u8 = ((word >> 24) & 0xff) as u8;
    let b2: u8 = ((word >> 16) & 0xff) as u8;
    let b3: u8 = ((word >> 8) & 0xff) as u8;
    let b4: u8 = (word & 0xff) as u8;
    let r = [b4, b3, b2, b1];
    assert(r@ =~= spec_word_to_le(word));
    r
}

/// The word held in the first four bytes of a little-endian byte slice.
pub fn little_endian_to_int(le: &[u8]) -> (r: u32)
    requires
        le@.len() >= 4,
    ensures
        r == spec_word_from_le(le@[0], le@[1], le@[2], le@[3]),
{
    let b0 = le[0];
    let b1 = le[1];
    let b2 = le[2];
    let b3 = le[3];
    proof {
        assert((b1 as u32) << 8 <= 0xff00 && (b2 as u32) << 16 <= 0xff0000 && (b3 as u32) << 24
            <= 0xff000000) by (bit_vector);
        assert((b0 as u32) + ((b1 as u32) << 8) + ((b2 as u32) << 16) + ((b3 as u32) << 24)
            == ((b0 as u32) | ((b1 as u32) << 8) | ((b2 as u32) << 16) | ((b3 as u32) << 24)))
            by (bit_vector);
    }
    b0 as u32 + ((b1 as u32) << 8) + ((b2 as u32) << 16) + ((b3 as u32) << 24)
}

/// Serializes a 16-word record to its 64 little-endian bytes.
pub fn serialize_hash(v: &[u32; HASH_SIZE_WORDS]) -> (r: [u8; HASH_SIZE_BYTES])
    ensures
        r@ == spec_serialize(v@),
{
    let mut serialized: [u8; HASH_SIZE_BYTES] = [0; HASH_SIZE_BYTES];
    let mut i: usize = 0;
    while i < HASH_SIZE_WORDS
        invariant
            i <= HASH_SIZE_WORDS,
            forall|j: int| 0 <= j < 4 * i ==> serialized@[j] == spec_serialize(v@)[j],
        decreases HASH_SIZE_WORDS - i,
    {
        let item = v[i];
        let little_endian = int_to_little_endian(item);
        let serialized_idx = 4 * i;
        serialized[serialized_idx] = little_endian[0];
        serialized[serialized_idx + 1] = little_endian[1];
        serialized[serialized_idx + 2] = little_endian[2];
        serialized[serialized_idx + 3] = little_endian[3];
        proof {
            assert forall|j: int| 0 <= j < 4 * (i + 1) implies serialized@[j]
                == spec_serialize(v@)[j] by {
                if 4 * i <= j {
                    assert(j / 4 == i && j % 4 == j - 4 * i);
                }
            }
        }
        i = i + 1;
    }
    assert(serialized@ =~= spec_serialize(v@));
    serialized
}

/// Deserializes 64 little-endian bytes back into a 16-word record.
pub fn deserialize_hash(v: &[u8; HASH_SIZE_BYTES]) -> (r: [u32; HASH_SIZE_WORDS])
    ensures
        r@ == spec_deserialize(v@),
{
    let mut v_idx: usize = 0;
    let mut deserialized: [u32; HASH_SIZE_WORDS] = [0; HASH_SIZE_WORDS];
    let mut ds_idx: usize = 0;
    while v_idx < HASH_SIZE_BYTES
        invariant
            v_idx == 4 * ds_idx,
            ds_idx <= HASH_SIZE_WORDS,
            forall|j: int| 0 <= j < ds_idx ==> deserialized@[j] == spec_deserialize(v@)[j],
        decreases HASH_SIZE_BYTES - v_idx,
    {
        let word = little_endian_to_int(vstd::slice::slice_subrange(v.as_slice(), v_idx, v_idx + 4));
        deserialized[ds_idx] = word;
        v_idx = v_idx + 4;
        ds_idx = ds_idx + 1;
    }
    assert(deserialized@ =~= spec_deserialize(v@));
    deserialized
}

/// XORs two records word by word.
pub fn xor(v1: &[u32; HASH_SIZE_WORDS], v2: &[u32; HASH_SIZE_WORDS]) -> (r: [u32; HASH_SIZE_WORDS])
    ensures
        r@ == spec_xor(v1@, v2@),
{
    let mut v3: [u32; HASH_SIZE_WORDS] = [0; HASH_SIZE_WORDS];
    let mut i: usize = 0;
    while i < HASH_SIZE_WORDS
        invariant
            i <= HASH_SIZE_WORDS,
            forall|j: int| 0 <= j < i ==> v3@[j] == (v1@[j] ^ v2@[j]),
        decreases HASH_SIZE_WORDS - i,
    {
        v3[i] = v1[i] ^ v2[i];
        i = i + 1;
    }
    assert(v3@ =~= spec_xor(v1@, v2@));
    v3
}

} // verus!
