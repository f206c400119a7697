//! Deterministic derivation of the seed cache used by a memory-hard
//! proof-of-work scheme: a block index selects an epoch, the epoch fixes a
//! 256-bit seed and a cache size, and a chained-hash table of 16-word records
//! is built from the seed and then mixed in place over a fixed number of
//! sequential rounds.
use vstd::prelude::*;

pub mod codec;
pub mod keccak;
pub mod size;
pub mod cache;

verus! {

/// Bytes in one serialized record (16 words of 4 bytes each).
pub const HASH_SIZE_BYTES: usize = 64;

/// Words in one record.
pub const HASH_SIZE_WORDS: usize = 16;

/// Bytes in a 256-bit digest, the seed size.
pub const KEC_256_HASH_SIZE_BYTES: usize = 32;

/// Number of in-place mixing rounds run over the cache.
pub const CACHE_ROUNDS: u8 = 3;

/// Cache size in bytes at epoch zero, before the primality adjustment.
pub const CACHE_BYTES_INIT: u64 = 16777216;

/// Linear growth of the cache size in bytes per epoch.
pub const CACHE_BYTES_GROWTH: u64 = 131072;

/// Number of block indices that share one epoch.
pub const EPOCH_LENGTH: u64 = 30000;

} // verus!
