//! Per-caller viewing keys.
//!
//! An offer's hand commitments stay confidential to third parties until
//! the offer is resolved. A viewing key is derived on demand from the
//! process-wide seed, the caller's identity, block-level entropy and
//! caller-supplied entropy; only its salted hash is stored, keyed by the
//! caller's identity, and the plaintext is returned exactly once.
//! Checking a claimed key against the stored hash uses a constant-time
//! comparison so that timing cannot distinguish partial matches.

use vstd::prelude::*;

use crate::msg::Env;
use crate::utils::{
    base64_of, concat_bytes, create_hashed_password, ct_slice_compare, new_rand_bytes,
    spec_hashed_password, spec_new_rand_bytes, spec_u64_to_be_bytes, u64_to_be_bytes,
};
use vstd::utf8::encode_utf8;

verus! {

/// The byte length of a stored viewing-key hash.
pub const VIEWING_KEY_SIZE: usize = 32;

/// A plaintext viewing-key credential, as handed to the caller.
#[derive(Debug, PartialEq, Eq)]
pub struct ViewingKey(pub String);

/// The entropy material a key derivation mixes in besides the seed: the
/// block height and time in big-endian bytes, the caller's identity, and
/// the caller-supplied entropy.
pub open spec fn spec_vk_material(env: Env, entropy: Seq<char>) -> Seq<u8> {
    spec_u64_to_be_bytes(env.block_height) + spec_u64_to_be_bytes(env.block_time)
        + encode_utf8(env.sender@) + encode_utf8(entropy)
}

/// The plaintext credential derived for a caller: the base64 form of a
/// fresh 32-byte randomness value drawn from the seed and the material.
pub open spec fn spec_viewing_key(seed: Seq<u8>, env: Env, entropy: Seq<char>) -> Seq<char> {
    base64_of(spec_new_rand_bytes(seed, spec_vk_material(env, entropy)))
}

impl ViewingKey {
    /// Derives a fresh credential. Deterministic in the seed, the call
    /// context and the entropy, but unpredictable to the caller, who
    /// does not know the seed.
    pub fn new(env: &Env, seed: &[u8], entropy: &str) -> (key: ViewingKey)
        ensures
            key.0@ == spec_viewing_key(seed@, *env, entropy@),
    {
        let height_bytes = u64_to_be_bytes(env.block_height);
        let time_bytes = u64_to_be_bytes(env.block_time);
        let block_material = concat_bytes(height_bytes.as_slice(), time_bytes.as_slice());
        let caller_material = concat_bytes(env.sender.as_str().as_bytes(), entropy.as_bytes());
        let material = concat_bytes(block_material.as_slice(), caller_material.as_slice());
        proof {
            assert(material@ =~= spec_vk_material(*env, entropy@));
        }
        let rand = new_rand_bytes(seed, material.as_slice());
        ViewingKey(crate::utils::base64_encode(rand.as_slice()))
    }

    /// The salted-hash form under which this key is stored; the
    /// plaintext is never recoverable from storage.
    pub fn to_hashed(&self) -> (r: Vec<u8>)
        ensures
            r@ == spec_hashed_password(self.0@),
            r@.len() == VIEWING_KEY_SIZE,
    {
        create_hashed_password(self.0.as_str())
    }

    /// Compares this key's hash against a stored hash in constant time.
    pub fn check_viewing_key(&self, hashed: &[u8]) -> (r: bool)
        ensures
            r <==> spec_hashed_password(self.0@) == hashed@,
    {
        let own = self.to_hashed();
        ct_slice_compare(own.as_slice(), hashed)
    }
}

} // verus!
