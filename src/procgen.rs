use vstd::prelude::*;

verus! {

/// The bit pattern of a 32-bit signed integer, read as an unsigned one.
pub open spec fn word_of(v: i32) -> int {
    if v >= 0 {
        v as int
    } else {
        v + 0x1_0000_0000
    }
}

/// The seed of a cell: the bits of `x` in the high half, those of `y` in the low half.
pub open spec fn pack_spec(x: i32, y: i32) -> u64 {
    (word_of(x) * 0x1_0000_0000 + word_of(y)) as u64
}

/// Packs two coordinates into one 64-bit seed.
pub fn pack(x: i32, y: i32) -> (r: u64)
    ensures
        r as int == word_of(x) * 0x1_0000_0000 + word_of(y),
        r == pack_spec(x, y),
{
    let hi: u64 = if x >= 0 {
        x as u64
    } else {
        (x as i64 + 0x1_0000_0000i64) as u64
    };
    let lo: u64 = if y >= 0 {
        y as u64
    } else {
        (y as i64 + 0x1_0000_0000i64) as u64
    };
    assert(hi * 0x1_0000_0000 + lo <= u64::MAX) by (nonlinear_arith)
        requires
            hi < 0x1_0000_0000,
            lo < 0x1_0000_0000,
    ;
    hi * 0x1_0000_0000 + lo
}

/// Distinct cells get distinct seeds: `pack` loses no bit of either coordinate.
pub proof fn lemma_pack_injective(x1: i32, y1: i32, x2: i32, y2: i32)
    requires
        pack_spec(x1, y1) == pack_spec(x2, y2),
    ensures
        x1 == x2 && y1 == y2,
{
    let a = word_of(x1) * 0x1_0000_0000 + word_of(y1);
    let b = word_of(x2) * 0x1_0000_0000 + word_of(y2);
    assert(0 <= a <= u64::MAX && 0 <= b <= u64::MAX) by (nonlinear_arith)
        requires
            0 <= word_of(x1) < 0x1_0000_0000,
            0 <= word_of(y1) < 0x1_0000_0000,
            0 <= word_of(x2) < 0x1_0000_0000,
            0 <= word_of(y2) < 0x1_0000_0000,
            a == word_of(x1) * 0x1_0000_0000 + word_of(y1),
            b == word_of(x2) * 0x1_0000_0000 + word_of(y2),
    ;
    assert(a == b);
    assert(word_of(x1) == word_of(x2) && word_of(y1) == word_of(y2)) by (nonlinear_arith)
        requires
            0 <= word_of(y1) < 0x1_0000_0000,
            0 <= word_of(y2) < 0x1_0000_0000,
            word_of(x1) * 0x1_0000_0000 + word_of(y1) == word_of(x2) * 0x1_0000_0000 + word_of(
                y2,
            ),
    ;
}

/// The 64-bit xxHash of the empty input under `seed`.
pub uninterp spec fn xxhash64_empty(seed: u64) -> u64;

/// Relies on twox_hash's `XxHash::with_seed` followed by `Hasher::finish`: with nothing
/// written, the result is the xxHash64 digest of no bytes under the seed, which depends on
/// the seed alone.
#[verifier::external_body]
fn seeded_hash(seed: u64) -> (r: u64)
    ensures
        r == xxhash64_empty(seed),
{
    let hasher = twox_hash::XxHash::with_seed(seed);
    std::hash::Hasher::finish(&hasher)
}

/// The index that a hash picks in a slice of `len` items.
pub fn index_from_hash(hash: u64, len: usize) -> (r: usize)
    requires
        len > 0,
    ensures
        r as int == hash as int % len as int,
        r < len,
{
    (hash % (len as u64)) as usize
}

/// Out of ten thousand, the chance of a true result is `weight + 1`.
pub const BOOL_SCALE: u64 = 10000;

/// The coin that a hash throws: true when the hash falls at or under `weight` out of
/// ten thousand.
pub fn bool_from_hash(hash: u64, weight: usize) -> (r: bool)
    ensures
        r == (hash as int % BOOL_SCALE as int <= weight as int),
{
    let val: u64 = hash % BOOL_SCALE;
    (val as usize) <= weight
}

/// Picks an item of a non-empty slice, the same one for the same seed.
pub fn random_choice<T>(slice: &[T], seed: u64) -> (r: &T)
    requires
        slice@.len() > 0,
    ensures
        *r == slice@[xxhash64_empty(seed) as int % slice@.len() as int],
{
    let hash = seeded_hash(seed);
    let index = index_from_hash(hash, slice.len());
    &slice[index]
}

/// A weighted coin for a seed: true for `weight + 1` of ten thousand hash values.
pub fn random_bool(seed: u64, weight: usize) -> (r: bool)
    ensures
        r == (xxhash64_empty(seed) as int % BOOL_SCALE as int <= weight as int),
{
    let hash = seeded_hash(seed);
    bool_from_hash(hash, weight)
}

} // verus!
