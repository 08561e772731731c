use vstd::prelude::*;

verus! {

/// First seed word of the keyed hash applied to text.
pub const TEXT_SEED_0: u64 = 5016128656285951095;
/// Second seed word of the keyed hash applied to text.
pub const TEXT_SEED_1: u64 = 15991804453339263156;
/// Third seed word of the keyed hash applied to text.
pub const TEXT_SEED_2: u64 = 869180266196383410;
/// Fourth seed word of the keyed hash applied to text.
pub const TEXT_SEED_3: u64 = 16177865525426686551;

/// First seed word of the keyed hash applied to element sequences.
pub const SLICE_SEED_0: u64 = 458768224117184340;
/// Second seed word of the keyed hash applied to element sequences.
pub const SLICE_SEED_1: u64 = 13440494329435370347;
/// Third seed word of the keyed hash applied to element sequences.
pub const SLICE_SEED_2: u64 = 12752177437526035150;
/// Fourth seed word of the keyed hash applied to element sequences.
pub const SLICE_SEED_3: u64 = 16620102976742681879;

/// The 64-bit digest that ahash, keyed with the four seed words, gives a string.
pub uninterp spec fn ahash_of_text(k0: u64, k1: u64, k2: u64, k3: u64, text: Seq<char>) -> u64;

/// Relies on `ahash::RandomState::with_seeds(..).hash_one(&str)`: with fixed
/// seeds the digest depends on the string alone.
#[verifier::external_body]
fn keyed_hash_text(k0: u64, k1: u64, k2: u64, k3: u64, text: &str) -> (r: u64)
    ensures
        r == ahash_of_text(k0, k1, k2, k3, text@),
{
    ahash::RandomState::with_seeds(k0, k1, k2, k3).hash_one(text)
}

/// The fingerprint of a piece of text: its digest under the text seeds.
pub open spec fn text_fingerprint(text: Seq<char>) -> u64 {
    ahash_of_text(TEXT_SEED_0, TEXT_SEED_1, TEXT_SEED_2, TEXT_SEED_3, text)
}

/// Element types whose sequences can be fingerprinted and interned.
pub trait Element: Copy + Sized {
    /// The fingerprint of a sequence of elements.
    spec fn seq_fingerprint(values: Seq<Self>) -> u64;

    /// Computes the fingerprint of a slice of elements.
    fn slice_fingerprint(values: &[Self]) -> (r: u64)
        ensures
            r == Self::seq_fingerprint(values@),
    ;
}

/// The 64-bit digest that ahash, keyed with the four seed words, gives a slice of `u8`.
pub uninterp spec fn ahash_of_u8s(k0: u64, k1: u64, k2: u64, k3: u64, values: Seq<u8>) -> u64;

/// Relies on `ahash::RandomState::with_seeds(..).hash_one(&[u8])`: with fixed
/// seeds the digest depends on the elements alone.
#[verifier::external_body]
fn keyed_hash_u8s(k0: u64, k1: u64, k2: u64, k3: u64, values: &[u8]) -> (r: u64)
    ensures
        r == ahash_of_u8s(k0, k1, k2, k3, values@),
{
    ahash::RandomState::with_seeds(k0, k1, k2, k3).hash_one(values)
}

impl Element for u8 {
    open spec fn seq_fingerprint(values: Seq<u8>) -> u64 {
        ahash_of_u8s(SLICE_SEED_0, SLICE_SEED_1, SLICE_SEED_2, SLICE_SEED_3, values)
    }

    fn slice_fingerprint(values: &[u8]) -> (r: u64) {
        keyed_hash_u8s(SLICE_SEED_0, SLICE_SEED_1, SLICE_SEED_2, SLICE_SEED_3, values)
    }
}

/// The 64-bit digest that ahash, keyed with the four seed words, gives a slice of `u16`.
pub uninterp spec fn ahash_of_u16s(k0: u64, k1: u64, k2: u64, k3: u64, values: Seq<u16>) -> u64;

/// Relies on `ahash::RandomState::with_seeds(..).hash_one(&[u16])`: with fixed
/// seeds the digest depends on the elements alone.
#[verifier::external_body]
fn keyed_hash_u16s(k0: u64, k1: u64, k2: u64, k3: u64, values: &[u16]) -> (r: u64)
    ensures
        r == ahash_of_u16s(k0, k1, k2, k3, values@),
{
    ahash::RandomState::with_seeds(k0, k1, k2, k3).hash_one(values)
}

impl Element for u16 {
    open spec fn seq_fingerprint(values: Seq<u16>) -> u64 {
        ahash_of_u16s(SLICE_SEED_0, SLICE_SEED_1, SLICE_SEED_2, SLICE_SEED_3, values)
    }

    fn slice_fingerprint(values: &[u16]) -> (r: u64) {
        keyed_hash_u16s(SLICE_SEED_0, SLICE_SEED_1, SLICE_SEED_2, SLICE_SEED_3, values)
    }
}

/// The 64-bit digest that ahash, keyed with the four seed words, gives a slice of `u32`.
pub uninterp spec fn ahash_of_u32s(k0: u64, k1: u64, k2: u64, k3: u64, values: Seq<u32>) -> u64;

/// Relies on `ahash::RandomState::with_seeds(..).hash_one(&[u32])`: with fixed
/// seeds the digest depends on the elements alone.
#[verifier::external_body]
fn keyed_hash_u32s(k0: u64, k1: u64, k2: u64, k3: u64, values: &[u32]) -> (r: u64)
    ensures
        r == ahash_of_u32s(k0, k1, k2, k3, values@),
{
    ahash::RandomState::with_seeds(k0, k1, k2, k3).hash_one(values)
}

impl Element for u32 {
    open spec fn seq_fingerprint(values: Seq<u32>) -> u64 {
        ahash_of_u32s(SLICE_SEED_0, SLICE_SEED_1, SLICE_SEED_2, SLICE_SEED_3, values)
    }

    fn slice_fingerprint(values: &[u32]) -> (r: u64) {
        keyed_hash_u32s(SLICE_SEED_0, SLICE_SEED_1, SLICE_SEED_2, SLICE_SEED_3, values)
    }
}

/// The 64-bit digest that ahash, keyed with the four seed words, gives a slice of `u64`.
pub uninterp spec fn ahash_of_u64s(k0: u64, k1: u64, k2: u64, k3: u64, values: Seq<u64>) -> u64;

/// Relies on `ahash::RandomState::with_seeds(..).hash_one(&[u64])`: with fixed
/// seeds the digest depends on the elements alone.
#[verifier::external_body]
fn keyed_hash_u64s(k0: u64, k1: u64, k2: u64, k3: u64, values: &[u64]) -> (r: u64)
    ensures
        r == ahash_of_u64s(k0, k1, k2, k3, values@),
{
    ahash::RandomState::with_seeds(k0, k1, k2, k3).hash_one(values)
}

impl Element for u64 {
    open spec fn seq_fingerprint(values: Seq<u64>) -> u64 {
        ahash_of_u64s(SLICE_SEED_0, SLICE_SEED_1, SLICE_SEED_2, SLICE_SEED_3, values)
    }

    fn slice_fingerprint(values: &[u64]) -> (r: u64) {
        keyed_hash_u64s(SLICE_SEED_0, SLICE_SEED_1, SLICE_SEED_2, SLICE_SEED_3, values)
    }
}

/// The 64-bit digest that ahash, keyed with the four seed words, gives a slice of `i32`.
pub uninterp spec fn ahash_of_i32s(k0: u64, k1: u64, k2: u64, k3: u64, values: Seq<i32>) -> u64;

/// Relies on `ahash::RandomState::with_seeds(..).hash_one(&[i32])`: with fixed
/// seeds the digest depends on the elements alone.
#[verifier::external_body]
fn keyed_hash_i32s(k0: u64, k1: u64, k2: u64, k3: u64, values: &[i32]) -> (r: u64)
    ensures
        r == ahash_of_i32s(k0, k1, k2, k3, values@),
{
    ahash::RandomState::with_seeds(k0, k1, k2, k3).hash_one(values)
}

impl Element for i32 {
    open spec fn seq_fingerprint(values: Seq<i32>) -> u64 {
        ahash_of_i32s(SLICE_SEED_0, SLICE_SEED_1, SLICE_SEED_2, SLICE_SEED_3, values)
    }

    fn slice_fingerprint(values: &[i32]) -> (r: u64) {
        keyed_hash_i32s(SLICE_SEED_0, SLICE_SEED_1, SLICE_SEED_2, SLICE_SEED_3, values)
    }
}

/// The 64-bit digest that ahash, keyed with the four seed words, gives a slice of `i64`.
pub uninterp spec fn ahash_of_i64s(k0: u64, k1: u64, k2: u64, k3: u64, values: Seq<i64>) -> u64;

/// Relies on `ahash::RandomState::with_seeds(..).hash_one(&[i64])`: with fixed
/// seeds the digest depends on the elements alone.
#[verifier::external_body]
fn keyed_hash_i64s(k0: u64, k1: u64, k2: u64, k3: u64, values: &[i64]) -> (r: u64)
    ensures
        r == ahash_of_i64s(k0, k1, k2, k3, values@),
{
    ahash::RandomState::with_seeds(k0, k1, k2, k3).hash_one(values)
}

impl Element for i64 {
    open spec fn seq_fingerprint(values: Seq<i64>) -> u64 {
        ahash_of_i64s(SLICE_SEED_0, SLICE_SEED_1, SLICE_SEED_2, SLICE_SEED_3, values)
    }

    fn slice_fingerprint(values: &[i64]) -> (r: u64) {
        keyed_hash_i64s(SLICE_SEED_0, SLICE_SEED_1, SLICE_SEED_2, SLICE_SEED_3, values)
    }
}

/// A content fingerprint, the key under which interned content is recorded.
#[derive(Debug, Clone, Copy, PartialEq, Eq, Structural, PartialOrd, Ord, Hash)]
pub struct HashKey(pub u64);

impl HashKey {
    /// Fingerprints a piece of text with the text seeds.
    pub fn new_str(text: &str) -> (r: HashKey)
        ensures
            r.0 == text_fingerprint(text@),
    {
        HashKey(keyed_hash_text(TEXT_SEED_0, TEXT_SEED_1, TEXT_SEED_2, TEXT_SEED_3, text))
    }

    /// Fingerprints a sequence of elements with the sequence seeds.
    pub fn new_slice<T: Element>(values: &[T]) -> (r: HashKey)
        ensures
            r.0 == T::seq_fingerprint(values@),
    {
        HashKey(T::slice_fingerprint(values))
    }
}

} // verus!
