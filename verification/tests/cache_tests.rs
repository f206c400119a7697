use ethashcache::cache::create_cache_seed;
use ethashcache::cache::initial_cache;
use ethashcache::cache::make_cache_inner;
use ethashcache::codec::deserialize_hash;
use ethashcache::codec::int_to_little_endian;
use ethashcache::codec::little_endian_to_int;
use ethashcache::codec::serialize_hash;
use ethashcache::codec::xor;
use ethashcache::keccak::hash_array;
use ethashcache::keccak::hash_bytes;
use ethashcache::size::get_cache_size;
use ethashcache::size::is_compose;

const HASH_SIZE_WORDS: usize = 16;

fn xor_test_case(
    v1: &[u32; HASH_SIZE_WORDS],
    v2: &[u32; HASH_SIZE_WORDS],
    expected: &[u32; HASH_SIZE_WORDS],
) {
    let actual = xor(&v1, &v2);
    assert_eq!(&actual[..], &expected[..]);
}

#[test]
fn xor_should_xor_arrays_content() {
    xor_test_case(&[10; HASH_SIZE_WORDS], &[1; HASH_SIZE_WORDS], &[11; HASH_SIZE_WORDS]);
    xor_test_case(&[1; HASH_SIZE_WORDS], &[10; HASH_SIZE_WORDS], &[11; HASH_SIZE_WORDS]);
    xor_test_case(&[9; HASH_SIZE_WORDS], &[9; HASH_SIZE_WORDS], &[0; HASH_SIZE_WORDS]);
    xor_test_case(&[16; HASH_SIZE_WORDS], &[256; HASH_SIZE_WORDS], &[272; HASH_SIZE_WORDS]);
}

#[test]
fn int_to_little_endian_should_convert_int_to_little_endian_bytes() {
    assert_eq!(&(int_to_little_endian(10))[..], &[10, 0, 0, 0 as u8]);
    assert_eq!(&(int_to_little_endian(1025))[..], &[1, 4, 0, 0 as u8]);
}

#[test]
fn little_endian_to_int_should_convert_little_endian_bytes_to_int() {
    assert_eq!(little_endian_to_int(&[10, 0, 0, 0 as u8]), 10);
    assert_eq!(little_endian_to_int(&[1, 4, 0, 0 as u8]), 1025);
}

#[test]
fn serialize_hash_should_serialize_words_to_bytes() {
    let actual = serialize_hash(&[32000, 16, 970, 4123, 1, 0, 12351, 8, 15123, 256, 11, 98, 4231, 0, 0, 4]);
    let expected: [u8; 64] = [
        0, 125, 0, 0, 16, 0, 0, 0, 202, 3, 0, 0, 27, 16, 0, 0, 1, 0, 0, 0, 0, 0, 0, 0, 63, 48, 0, 0, 8, 0, 0, 0,
        19, 59, 0, 0, 0, 1, 0, 0, 11, 0, 0, 0, 98, 0, 0, 0, 135, 16, 0, 0, 0, 0, 0, 0, 0, 0, 0, 0, 4, 0, 0, 0];
    assert_eq!(&actual[..], &expected[..]);
}

#[test]
fn hash_array_should_hash_array_of_words_with_keccak_512() {
    let actual = hash_array(&[0, 1, 2, 3, 4, 5, 6, 7, 8, 9, 10, 11, 12, 13, 14, 15]);
    let expected: [u32; HASH_SIZE_WORDS] = [2172819737, 3621262696, 876910143, 3341827764, 459555228, 848032224, 3482054736, 2662156643,
        3923022282, 16975881, 736581666, 1618923586, 1654030958, 153632490, 3963076479, 1870909372];
    assert_eq!(&actual[..], &expected[..]);

    let actual = hash_array(&[1, 3, 5, 7, 9, 11, 13, 15, 17, 19, 21, 23, 25, 27, 29, 31]);
    let expected: [u32; HASH_SIZE_WORDS] = [4095496674, 4219374178, 1753995958, 3571286059, 2344184721, 3017088741, 3150877954, 3514360654,
        662411939, 3778051935, 3105773609, 4233956302, 1405894646, 170908179, 222840554, 1359073150];
    assert_eq!(&actual[..], &expected[..]);
}

#[test]
fn is_compose_should_return_true_for_compose_numbers() {
    assert!(is_compose(4));
    assert!(is_compose(9));
    assert!(is_compose(1234 * 4819));
    assert!(is_compose(171 * 173));
    assert!(is_compose(16777213 * 16777213));
}

#[test]
fn is_compose_should_return_false_for_prime_numbers() {
    assert!(is_compose(5) == false);
    assert!(is_compose(2) == false);
    assert!(is_compose(173) == false);
}

#[test]
fn make_cache_should_create_cache() {
    let actual = &make_cache_inner(10000)[100];
    let expected = [868643959, 3179556070, 1871292480, 2635187316, 2658670881, 3651954940, 864296532,
        4161655205, 1170742362, 1613380156, 3420562092, 2441378987, 2714353747, 536405404, 2918860778, 540860293].to_vec();
    assert_eq!(&actual[..], &expected[..]);
}

#[test]
fn is_compose_boundary_values() {
    assert!(is_compose(0) == false);
    assert!(is_compose(1) == false);
    assert!(is_compose(4));
    assert!(is_compose(5) == false);
    assert!(is_compose(171 * 173));
}

#[test]
fn codec_round_trip_recovers_record() {
    let record: [u32; HASH_SIZE_WORDS] = [
        0, 1, 4294967295, 1025, 32000, 970, 4123, 12351, 15123, 256, 11, 98, 4231, 125, 202, 540860293,
    ];
    let bytes = serialize_hash(&record);
    let recovered = deserialize_hash(&bytes);
    assert_eq!(&recovered[..], &record[..]);
}

#[test]
fn cache_size_epoch_zero_exact() {
    let size = get_cache_size(0);
    assert_eq!(size, 16776896);
    assert_eq!(size % 64, 0);
    assert!(is_compose(size / 64) == false);
}

#[test]
fn seed_is_chained_per_epoch() {
    let zero_seed = create_cache_seed(0);
    assert_eq!(&zero_seed[..], &[0u8; 32][..]);
    let epoch1_seed = create_cache_seed(30000);
    assert_ne!(&epoch1_seed[..], &[0u8; 32][..]);
    let same_epoch_seed = create_cache_seed(59999);
    assert_eq!(&same_epoch_seed[..], &epoch1_seed[..]);
    let epoch2_seed = create_cache_seed(60000);
    assert_ne!(&epoch2_seed[..], &epoch1_seed[..]);
}

#[test]
fn initial_cache_is_a_hash_chain() {
    let seed = create_cache_seed(0);
    let table = initial_cache(3, &seed);
    assert_eq!(table.len(), 3);
    assert_eq!(&table[0][..], &hash_bytes(&seed)[..]);
    assert_eq!(&table[1][..], &hash_array(&table[0])[..]);
    assert_eq!(&table[2][..], &hash_array(&table[1])[..]);
}

#[test]
fn make_cache_is_deterministic() {
    let first = make_cache_inner(10000);
    let second = make_cache_inner(10000);
    assert_eq!(first, second);
}

#[test]
fn make_cache_same_epoch_same_cache() {
    let first = make_cache_inner(10000);
    let second = make_cache_inner(15000);
    assert_eq!(first, second);
}

#[test]
fn make_cache_len_matches_size_policy() {
    let cache = make_cache_inner(30001);
    let size = get_cache_size(30001);
    assert_eq!(cache.len() as u64, size / 64);
    assert!(is_compose(cache.len() as u64) == false);
    for record in cache.iter() {
        assert_eq!(record.len(), HASH_SIZE_WORDS);
    }
}

#[test]
fn hash_array_matches_independent_keccak() {
    let record: [u32; HASH_SIZE_WORDS] = [0, 1, 2, 3, 4, 5, 6, 7, 8, 9, 10, 11, 12, 13, 14, 15];
    let words = hash_array(&record);
    let bytes = serialize_hash(&record);
    let mut hasher = tiny_keccak::Keccak::v512();
    tiny_keccak::Hasher::update(&mut hasher, &bytes);
    let mut digest = [0u8; 64];
    tiny_keccak::Hasher::finalize(hasher, &mut digest);
    let expected = deserialize_hash(&digest);
    assert_eq!(&words[..], &expected[..]);
}
