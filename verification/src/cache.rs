//! Seed derivation and the cache builder: the chained-hash initial table and
//! the sequential in-place mixing rounds over it.
use vstd::prelude::*;

verus! {

use crate::CACHE_BYTES_GROWTH;
use crate::CACHE_BYTES_INIT;
use crate::CACHE_ROUNDS;
use crate::EPOCH_LENGTH;
use crate::HASH_SIZE_BYTES;
use crate::HASH_SIZE_WORDS;
use crate::KEC_256_HASH_SIZE_BYTES;
use crate::codec::spec_xor;
use crate::codec::xor;
use crate::keccak::hash_array;
use crate::keccak::hash_bytes;
use crate::keccak::keccak256_of;
use crate::keccak::keccak_256;
use crate::keccak::spec_hash_bytes;
use crate::keccak::spec_hash_words;
use crate::size::get_cache_size;
use crate::size::lemma_cache_size_not_composite;
use crate::size::spec_cache_size;
use crate::size::spec_epoch;
use crate::size::spec_init_size;

/// The seed after `k` chained applications of Keccak-256 to 32 zero bytes.
pub open spec fn spec_seed_bytes(k: nat) -> Seq<u8>
    decreases k,
{
    if k == 0 {
        Seq::new(KEC_256_HASH_SIZE_BYTES as nat, |i: int| 0u8)
    } else {
        keccak256_of(spec_seed_bytes((k - 1) as nat))
    }
}

/// The 256-bit seed of a block index: the zero seed re-hashed once per epoch
/// boundary crossed, so it depends only on the epoch.
pub open spec fn spec_seed(block_number: u64) -> Seq<u8> {
    spec_seed_bytes(spec_epoch(block_number) as nat)
}

/// Record `i` of the initial table: the 512-bit hash applied `i + 1` times,
/// composed over the byte serialization of the previous record.
pub open spec fn spec_chain(seed: Seq<u8>, i: nat) -> Seq<u32>
    decreases i,
{
    if i == 0 {
        spec_hash_bytes(seed)
    } else {
        spec_hash_words(spec_chain(seed, (i - 1) as nat))
    }
}

/// The initial table of `n` chained records.
pub open spec fn spec_initial_cache(seed: Seq<u8>, n: nat) -> Seq<Seq<u32>> {
    Seq::new(n, |i: int| spec_chain(seed, i as nat))
}

/// One mixing update at index `i`: the record is replaced by the hash of the
/// XOR of its predecessor (with wraparound) and the record selected by its
/// own current first word.
pub open spec fn spec_mix_at(o: Seq<Seq<u32>>, i: int) -> Seq<Seq<u32>> {
    let n = o.len() as int;
    let v = o[i][0] as int % n;
    let p = (i + n - 1) % n;
    o.update(i, spec_hash_words(spec_xor(o[p], o[v])))
}

/// The first `i` updates of one round, applied in increasing index order.
pub open spec fn spec_mix_upto(o: Seq<Seq<u32>>, i: int) -> Seq<Seq<u32>>
    decreases i,
{
    if i <= 0 {
        o
    } else {
        spec_mix_at(spec_mix_upto(o, i - 1), i - 1)
    }
}

/// One full mixing round over all indices.
pub open spec fn spec_mix_round(o: Seq<Seq<u32>>) -> Seq<Seq<u32>> {
    spec_mix_upto(o, o.len() as int)
}

/// `r` sequential mixing rounds.
pub open spec fn spec_mix_rounds(o: Seq<Seq<u32>>, r: nat) -> Seq<Seq<u32>>
    decreases r,
{
    if r == 0 {
        o
    } else {
        spec_mix_round(spec_mix_rounds(o, (r - 1) as nat))
    }
}

/// The words of each record of a table of fixed-size records.
pub open spec fn spec_table(o: Seq<[u32; HASH_SIZE_WORDS]>) -> Seq<Seq<u32>> {
    Seq::new(o.len(), |i: int| o[i]@)
}

/// The words of each record of a built cache.
pub open spec fn spec_cache_view(r: Seq<Vec<u32>>) -> Seq<Seq<u32>> {
    Seq::new(r.len(), |i: int| r[i]@)
}

/// The finished cache of a block index: the initial table from its seed,
/// mixed for the fixed number of rounds.
pub open spec fn spec_make_cache(block_number: u64) -> Seq<Seq<u32>> {
    spec_mix_rounds(
        spec_initial_cache(
            spec_seed(block_number),
            (spec_cache_size(block_number) / HASH_SIZE_BYTES as int) as nat,
        ),
        CACHE_ROUNDS as nat,
    )
}

/// Derives the epoch seed of a block index: 32 zero bytes re-hashed with
/// Keccak-256 once per epoch.
pub fn create_cache_seed(block_number: u64) -> (seed: [u8; KEC_256_HASH_SIZE_BYTES])
    ensures
        seed@ == spec_seed(block_number),
{
    let num_hashes = block_number / EPOCH_LENGTH;
    let mut seed: [u8; KEC_256_HASH_SIZE_BYTES] = [0; KEC_256_HASH_SIZE_BYTES];
    assert(seed@ =~= spec_seed_bytes(0));
    let mut i: u64 = 0;
    while i < num_hashes
        invariant
            i <= num_hashes,
            seed@ == spec_seed_bytes(i as nat),
        decreases num_hashes - i,
    {
        seed = keccak_256(&seed);
        i = i + 1;
    }
    seed
}

/// Builds the initial table: the first record is the hash of the seed, and
/// each further record is the hash of its predecessor's serialization.
pub fn initial_cache(cache_size: u64, seed: &[u8; KEC_256_HASH_SIZE_BYTES]) -> (o: Vec<
    [u32; HASH_SIZE_WORDS],
>)
    requires
        1 <= cache_size <= usize::MAX as u64,
    ensures
        o@.len() == cache_size,
        forall|i: int| 0 <= i < cache_size ==> #[trigger] o@[i]@ == spec_chain(seed@, i as nat),
{
    let mut o: Vec<[u32; HASH_SIZE_WORDS]> = Vec::new();
    let mut e: [u32; HASH_SIZE_WORDS] = hash_bytes(seed);
    o.push(e);
    let mut i: u64 = 1;
    while i < cache_size
        invariant
            1 <= i <= cache_size,
            o@.len() == i,
            e@ == spec_chain(seed@, (i - 1) as nat),
            forall|j: int| 0 <= j < i ==> #[trigger] o@[j]@ == spec_chain(seed@, j as nat),
        decreases cache_size - i,
    {
        e = hash_array(&e);
        o.push(e);
        i = i + 1;
    }
    o
}

/// Builds the cache for a block index: size policy, seed, initial table,
/// then the fixed number of sequential mixing rounds, in place and in
/// increasing index order within each round.
pub fn make_cache_inner(block_number: u64) -> (r: Vec<Vec<u32>>)
    requires
        CACHE_BYTES_INIT as int + CACHE_BYTES_GROWTH as int * spec_epoch(block_number)
            <= u64::MAX as int,
        spec_init_size(block_number) / HASH_SIZE_BYTES as int <= usize::MAX as int,
    ensures
        spec_cache_view(r@) == spec_make_cache(block_number),
        r@.len() == spec_cache_size(block_number) / HASH_SIZE_BYTES as int,
        forall|i: int| 0 <= i < r@.len() ==> #[trigger] r@[i]@.len() == HASH_SIZE_WORDS,
{
    let cache_size = get_cache_size(block_number);
    let seed = create_cache_seed(block_number);
    let hash_size_bytes = HASH_SIZE_BYTES as u64;
    let n = cache_size / hash_size_bytes;
    proof {
        lemma_cache_size_not_composite(block_number);
        vstd::arithmetic::div_mod::lemma_div_is_ordered(
            spec_cache_size(block_number),
            spec_init_size(block_number),
            64,
        );
        vstd::arithmetic::div_mod::lemma_div_is_ordered(
            cache_size as int,
            u64::MAX as int,
            64,
        );
    }
    let mut o: Vec<[u32; HASH_SIZE_WORDS]> = initial_cache(n, &seed);
    let ghost initial = spec_table(o@);
    proof {
        assert(initial =~~= spec_initial_cache(seed@, n as nat));
    }
    let mut round: u8 = 0;
    while round < CACHE_ROUNDS
        invariant
            round <= CACHE_ROUNDS,
            o@.len() == n,
            1 <= n <= u64::MAX / 64,
            n <= usize::MAX,
            spec_table(o@) == spec_mix_rounds(initial, round as nat),
        decreases CACHE_ROUNDS - round,
    {
        let ghost start = spec_table(o@);
        let mut i: u64 = 0;
        while i < n
            invariant
                i <= n,
                o@.len() == n,
                1 <= n <= u64::MAX / 64,
                n <= usize::MAX,
                spec_table(o@) == spec_mix_upto(start, i as int),
            decreases n - i,
        {
            let ghost cur = spec_table(o@);
            let index = i as usize;
            let v = ((o[index][0] as u64) % n) as usize;
            let pred = ((i + n - 1) % n) as usize;
            let xored = xor(&o[pred], &o[v]);
            let mixed = hash_array(&xored);
            o[index] = mixed;
            proof {
                assert(spec_table(o@) =~~= spec_mix_at(cur, i as int));
            }
            i = i + 1;
        }
        round = round + 1;
    }
    let mut result: Vec<Vec<u32>> = Vec::new();
    let mut k: usize = 0;
    while k < o.len()
        invariant
            k <= o@.len(),
            result@.len() == k,
            forall|j: int| 0 <= j < k ==> #[trigger] result@[j]@ == o@[j]@,
            o@.len() == n,
            spec_table(o@) == spec_make_cache(block_number),
            n as int == spec_cache_size(block_number) / HASH_SIZE_BYTES as int,
        decreases o@.len() - k,
    {
        let rec = o[k];
        let mut row: Vec<u32> = Vec::new();
        let mut w: usize = 0;
        while w < HASH_SIZE_WORDS
            invariant
                w <= HASH_SIZE_WORDS,
                row@.len() == w,
                forall|t: int| 0 <= t < w ==> #[trigger] row@[t] == rec@[t],
            decreases HASH_SIZE_WORDS - w,
        {
            row.push(rec[w]);
            w = w + 1;
        }
        assert(row@ =~= rec@);
        result.push(row);
        k = k + 1;
    }
    proof {
        assert(spec_cache_view(result@) =~~= spec_table(o@));
    }
    result
}

/// Building the cache is deterministic: any two caches derived from the same
/// block index are equal.
pub proof fn lemma_cache_deterministic(block_number: u64, c1: Seq<Seq<u32>>, c2: Seq<Seq<u32>>)
    requires
        c1 == spec_make_cache(block_number),
        c2 == spec_make_cache(block_number),
    ensures
        c1 == c2,
{
}

/// Two block indices in the same epoch yield the same seed, the same cache
/// size, and therefore the same cache.
pub proof fn lemma_epoch_invariance(b1: u64, b2: u64)
    requires
        b1 / EPOCH_LENGTH == b2 / EPOCH_LENGTH,
    ensures
        spec_make_cache(b1) == spec_make_cache(b2),
{
    assert(spec_epoch(b1) == spec_epoch(b2));
    assert(spec_seed(b1) == spec_seed(b2));
    assert(spec_cache_size(b1) == spec_cache_size(b2));
}

} // verus!
