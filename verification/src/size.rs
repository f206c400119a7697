//! The cache-size policy: a linearly growing byte size per epoch, driven
//! down in 64-byte steps until the element count stops being composite.
use vstd::prelude::*;

verus! {

use crate::CACHE_BYTES_GROWTH;
use crate::CACHE_BYTES_INIT;
use crate::EPOCH_LENGTH;
use vstd::arithmetic::div_mod::lemma_fundamental_div_mod;
use vstd::arithmetic::div_mod::lemma_mod_bound;
use vstd::arithmetic::div_mod::lemma_mod_multiples_basic;
use vstd::arithmetic::mul::lemma_mul_inequality;

/// A number has a divisor no smaller than 2 and no larger than its integer
/// square root. Zero and one are not composite under this test, and neither
/// is any prime.
pub open spec fn spec_is_compose(candidate: int) -> bool {
    exists|d: int| 2 <= d && #[trigger] (d * d) <= candidate && candidate % d == 0
}

/// The epoch a block index falls in.
pub open spec fn spec_epoch(block_number: u64) -> int {
    block_number as int / EPOCH_LENGTH as int
}

/// The unadjusted cache size in bytes for a block index.
pub open spec fn spec_init_size(block_number: u64) -> int {
    CACHE_BYTES_INIT + CACHE_BYTES_GROWTH * spec_epoch(block_number) - 64
}

/// The size after the primality adjustment: while the element count is
/// composite, 64 bytes are taken off.
pub open spec fn spec_adjust(size: int) -> int
    decreases size,
{
    if size >= 64 && spec_is_compose(size / 64) {
        spec_adjust(size - 64)
    } else {
        size
    }
}

/// The cache size in bytes for a block index.
pub open spec fn spec_cache_size(block_number: u64) -> int {
    spec_adjust(spec_init_size(block_number))
}

/// A composite number is at least 4.
proof fn lemma_compose_at_least_four(c: int)
    requires
        spec_is_compose(c),
    ensures
        c >= 4,
{
    let d = choose|d: int| 2 <= d && #[trigger] (d * d) <= c && c % d == 0;
    lemma_mul_inequality(2, d, d);
}

/// The adjustment loop keeps the size a positive multiple of 64 and stops on
/// a non-composite element count.
proof fn lemma_adjust_properties(size: int)
    requires
        size >= 64,
        size % 64 == 0,
    ensures
        spec_adjust(size) >= 64,
        spec_adjust(size) % 64 == 0,
        !spec_is_compose(spec_adjust(size) / 64),
        spec_adjust(size) <= size,
    decreases size,
{
    if spec_is_compose(size / 64) {
        lemma_compose_at_least_four(size / 64);
        lemma_fundamental_div_mod(size, 64);
        lemma_adjust_properties(size - 64);
    }
}

/// The element count the size policy yields is never composite, and the size
/// is always a positive multiple of 64.
pub proof fn lemma_cache_size_not_composite(block_number: u64)
    ensures
        !spec_is_compose(spec_cache_size(block_number) / 64),
        spec_cache_size(block_number) % 64 == 0,
        spec_cache_size(block_number) >= 64,
        spec_cache_size(block_number) <= spec_init_size(block_number),
{
    lemma_init_size_form(block_number);
    lemma_adjust_properties(spec_init_size(block_number));
}

/// The unadjusted size is 64 times a positive count.
proof fn lemma_init_size_form(block_number: u64)
    ensures
        spec_init_size(block_number) == 64 * (262143 + 2048 * spec_epoch(block_number)),
        spec_init_size(block_number) % 64 == 0,
        spec_init_size(block_number) >= 64,
{
    let e = spec_epoch(block_number);
    lemma_mod_bound(block_number as int, EPOCH_LENGTH as int);
    lemma_fundamental_div_mod(block_number as int, EPOCH_LENGTH as int);
    assert(e >= 0) by {
        if e < 0 {
            lemma_mul_inequality(e, -1, EPOCH_LENGTH as int);
        }
    }
    lemma_mod_multiples_basic(262143 + 2048 * e, 64);
}

/// Trial division: reports whether the candidate has a divisor between 2 and
/// its integer square root, inclusive.
pub fn is_compose(candidate: u64) -> (r: bool)
    ensures
        r == spec_is_compose(candidate as int),
{
    let mut i: u64 = 2;
    while i <= candidate / i
        invariant
            2 <= i,
            forall|d: int| 2 <= d < i ==> #[trigger] (candidate as int % d) != 0,
        decreases candidate - i,
    {
        proof {
            let iv = i as int;
            let c = candidate as int;
            lemma_fundamental_div_mod(c, iv);
            lemma_mod_bound(c, iv);
            let q = c / iv;
            assert(iv * iv <= c && 2 * iv <= c) by (nonlinear_arith)
                requires
                    c == iv * q + c % iv,
                    0 <= c % iv,
                    iv <= q,
                    2 <= iv,
            ;
        }
        if candidate % i == 0 {
            return true;
        }
        i = i + 1;
    }
    proof {
        let iv = i as int;
        let c = candidate as int;
        lemma_fundamental_div_mod(c, iv);
        lemma_mod_bound(c, iv);
        let q = c / iv;
        assert(c < iv * iv) by (nonlinear_arith)
            requires
                c == iv * q + c % iv,
                c % iv < iv,
                q < iv,
                2 <= iv,
        ;
        assert forall|d: int| 2 <= d && #[trigger] (d * d) <= candidate as int
            implies candidate as int % d != 0 by {
            if d >= iv {
                assert(iv * iv <= d * d) by (nonlinear_arith)
                    requires
                        2 <= iv,
                        iv <= d,
                ;
            }
        }
    }
    false
}

/// Computes the cache size in bytes for a block index: the epoch-linear size,
/// reduced by 64 bytes at a time while the element count is composite.
pub fn get_cache_size(block_number: u64) -> (size: u64)
    requires
        CACHE_BYTES_INIT as int + CACHE_BYTES_GROWTH as int * spec_epoch(block_number)
            <= u64::MAX as int,
    ensures
        size as int == spec_cache_size(block_number),
        !spec_is_compose(size as int / 64),
        size % 64 == 0,
        size >= 64,
{
    proof {
        lemma_init_size_form(block_number);
    }
    let hash_size_bytes: u64 = 64;
    let mut size = CACHE_BYTES_INIT + CACHE_BYTES_GROWTH * (block_number / EPOCH_LENGTH)
        - hash_size_bytes;
    while is_compose(size / hash_size_bytes)
        invariant
            hash_size_bytes == 64,
            size % 64 == 0,
            size >= 64,
            spec_adjust(size as int) == spec_cache_size(block_number),
        decreases size,
    {
        proof {
            lemma_compose_at_least_four(size as int / 64);
            lemma_fundamental_div_mod(size as int, 64);
        }
        size -= hash_size_bytes;
    }
    proof {
        lemma_adjust_properties(size as int);
    }
    size
}

} // verus!
