//! Cryptographic helpers and fee arithmetic.
//!
//! The hashing, stream-cipher, encoding and constant-time-comparison
//! primitives come from outside crates; each is reached through a single
//! trusted wrapper whose contract names its result, so that everything
//! built on top of them is verified against those names.

use vstd::prelude::*;

use base64::Engine;
use rand_chacha::rand_core::{Rng, SeedableRng};
use sha2::Digest;
use subtle::ConstantTimeEq;

use crate::contract::INVERSE_BASIS_POINT;
use vstd::arithmetic::div_mod::{lemma_div_is_ordered, lemma_div_multiples_vanish};
use vstd::arithmetic::mul::lemma_mul_inequality;
use vstd::utf8::encode_utf8;

verus! {

/// The byte length of a SHA-256 digest.
pub const SHA256_HASH_SIZE: usize = 32;

/// What SHA-256 returns for a given input; the digest depends on the
/// input bytes alone.
pub uninterp spec fn sha256_of(data: Seq<u8>) -> Seq<u8>;

/// Relies on sha2's `Sha256::digest`: the digest is 32 bytes and is a
/// function of the input bytes alone.
#[verifier::external_body]
pub fn sha_256(data: &[u8]) -> (r: Vec<u8>)
    ensures
        r@ == sha256_of(data@),
        r@.len() == SHA256_HASH_SIZE,
{
    sha2::Sha256::digest(data).to_vec()
}

/// The first 32 bytes drawn from a ChaCha20 generator seeded with the
/// given 32-byte seed; they depend on the seed alone.
pub uninterp spec fn chacha_block_of(seed: Seq<u8>) -> Seq<u8>;

/// Relies on rand_chacha's `ChaChaRng`: seeding with `from_seed` and
/// drawing 32 bytes with `fill_bytes` is documented as deterministic and
/// portable, so the bytes drawn depend on the seed alone.
#[verifier::external_body]
fn chacha_32_bytes(seed: &Vec<u8>) -> (r: Vec<u8>)
    requires
        seed@.len() == 32,
    ensures
        r@ == chacha_block_of(seed@),
        r@.len() == 32,
{
    let mut seed_arr = [0u8; 32];
    seed_arr.copy_from_slice(seed.as_slice());
    let mut rng = rand_chacha::ChaChaRng::from_seed(seed_arr);
    let mut bytes = [0u8; 32];
    rng.fill_bytes(&mut bytes);
    bytes.to_vec()
}

/// The standard padded base64 encoding of a byte string; it depends on
/// the bytes alone.
pub uninterp spec fn base64_of(data: Seq<u8>) -> Seq<char>;

/// Relies on the base64 crate's standard-alphabet padded engine: the
/// encoding of a byte string depends on the bytes alone.
#[verifier::external_body]
pub fn base64_encode(data: &[u8]) -> (r: String)
    ensures
        r@ == base64_of(data@),
{
    base64::engine::general_purpose::STANDARD.encode(data)
}

/// Relies on subtle's `ConstantTimeEq` for byte slices: the comparison
/// runs in constant time with respect to the slice contents and returns
/// true exactly when the two slices are equal.
#[verifier::external_body]
pub fn ct_slice_compare(s1: &[u8], s2: &[u8]) -> (r: bool)
    ensures
        r <==> s1@ == s2@,
{
    bool::from(s1.ct_eq(s2))
}

/// The salted-hash form under which a credential is stored: the SHA-256
/// digest of its UTF-8 bytes.
pub open spec fn spec_hashed_password(s: Seq<char>) -> Seq<u8> {
    sha256_of(encode_utf8(s))
}

/// Hashes a credential string into the form under which it is stored;
/// the plaintext is never persisted.
pub fn create_hashed_password(s1: &str) -> (r: Vec<u8>)
    ensures
        r@ == spec_hashed_password(s1@),
        r@.len() == SHA256_HASH_SIZE,
{
    sha_256(s1.as_bytes())
}

/// The concatenation of two byte strings.
pub fn concat_bytes(a: &[u8], b: &[u8]) -> (r: Vec<u8>)
    ensures
        r@ == a@ + b@,
{
    let mut v = vstd::slice::slice_to_vec(a);
    let n = b.len();
    for i in 0..n
        invariant
            n == b@.len(),
            v@ =~= a@ + b@.take(i as int),
    {
        v.push(b[i]);
    }
    assert(v@ =~= a@ + b@);
    v
}

/// The next randomness-accumulator value for a seed and caller entropy:
/// the seed and entropy are hashed together, the hash seeds a ChaCha20
/// draw, and the draw is hashed once more.
pub open spec fn spec_new_rand_bytes(seed: Seq<u8>, entropy: Seq<u8>) -> Seq<u8> {
    sha256_of(chacha_block_of(sha256_of(seed + entropy)))
}

/// Derives a fresh 32-byte randomness value from a seed and caller
/// entropy; the result depends on the two inputs alone.
pub fn new_rand_bytes(seed: &[u8], entropy: &[u8]) -> (r: Vec<u8>)
    ensures
        r@ == spec_new_rand_bytes(seed@, entropy@),
        r@.len() == SHA256_HASH_SIZE,
{
    let mixed = concat_bytes(seed, entropy);
    let hash = sha_256(mixed.as_slice());
    let block = chacha_32_bytes(&hash);
    sha_256(block.as_slice())
}

/// The big-endian 8-byte form of a 64-bit integer.
pub open spec fn spec_u64_to_be_bytes(n: u64) -> Seq<u8> {
    seq![
        (n >> 56) as u8,
        (n >> 48) as u8,
        (n >> 40) as u8,
        (n >> 32) as u8,
        (n >> 24) as u8,
        (n >> 16) as u8,
        (n >> 8) as u8,
        n as u8,
    ]
}

/// Writes a 64-bit integer in its big-endian 8-byte form.
pub fn u64_to_be_bytes(n: u64) -> (r: Vec<u8>)
    ensures
        r@ == spec_u64_to_be_bytes(n),
{
    let mut v: Vec<u8> = Vec::new();
    v.push((n >> 56) as u8);
    v.push((n >> 48) as u8);
    v.push((n >> 40) as u8);
    v.push((n >> 32) as u8);
    v.push((n >> 24) as u8);
    v.push((n >> 16) as u8);
    v.push((n >> 8) as u8);
    v.push(n as u8);
    assert(v@ =~= spec_u64_to_be_bytes(n));
    v
}

/// The fee withheld from a token wager, floor-rounded: the rate is in
/// basis points, so the product is divided by ten thousand.
pub fn calculate_fee(amount: u64, fee_rate: u64) -> (fee: u64)
    requires
        amount * fee_rate / (INVERSE_BASIS_POINT as int) <= u64::MAX,
    ensures
        fee == amount * fee_rate / (INVERSE_BASIS_POINT as int),
{
    let wide: u128 = (amount as u128) * (fee_rate as u128);
    (wide / (INVERSE_BASIS_POINT as u128)) as u64
}

/// Law: the fee is monotone in both the wagered amount and the rate.
pub proof fn lemma_fee_monotone(a1: u64, a2: u64, r1: u64, r2: u64)
    requires
        a1 <= a2,
        r1 <= r2,
    ensures
        a1 * r1 / (INVERSE_BASIS_POINT as int) <= a2 * r2 / (INVERSE_BASIS_POINT as int),
{
    lemma_mul_inequality(a1 as int, a2 as int, r1 as int);
    lemma_mul_inequality(r1 as int, r2 as int, a2 as int);
    lemma_div_is_ordered(a1 * r1, a2 * r2, INVERSE_BASIS_POINT as int);
}

/// Law: the fee vanishes when either the amount or the rate is zero.
pub proof fn lemma_fee_zero(amount: u64, fee_rate: u64)
    ensures
        0 * fee_rate / (INVERSE_BASIS_POINT as int) == 0,
        amount * 0 / (INVERSE_BASIS_POINT as int) == 0,
{
}

/// Law: at any rate of at most ten thousand basis points the fee never
/// exceeds the wagered amount.
pub proof fn lemma_fee_at_most_amount(amount: u64, fee_rate: u64)
    requires
        fee_rate <= INVERSE_BASIS_POINT,
    ensures
        amount * fee_rate / (INVERSE_BASIS_POINT as int) <= amount,
{
    lemma_mul_inequality(fee_rate as int, INVERSE_BASIS_POINT as int, amount as int);
    lemma_div_multiples_vanish(amount as int, INVERSE_BASIS_POINT as int);
    lemma_div_is_ordered(
        amount * fee_rate,
        amount * (INVERSE_BASIS_POINT as int),
        INVERSE_BASIS_POINT as int,
    );
}

} // verus!
