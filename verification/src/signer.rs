//! Deterministic signing primitive: keyed MAC over bytes, with key derivation
//! from a seed. The MAC itself is outside work (HMAC-SHA-256); the library
//! states it through named results and proves the round trip over them.

use hmac::Mac;
use vstd::prelude::*;

verus! {

/// The 32 bytes that key derivation draws from a seed.
pub uninterp spec fn key_of(seed: u64) -> Seq<u8>;

/// The 32-byte HMAC-SHA-256 tag of a payload under a key.
pub uninterp spec fn mac_of(key: Seq<u8>, payload: Seq<u8>) -> Seq<u8>;

/// A signature is valid exactly when it is the tag of the payload under the key.
pub open spec fn verifies(key: Seq<u8>, payload: Seq<u8>, sig: Seq<u8>) -> bool {
    sig == mac_of(key, payload)
}

/// Relies on rand_chacha's `ChaCha20Rng::seed_from_u64` and rand's `Rng::fill`:
/// ChaCha20 is a portable deterministic stream, so the 32 bytes drawn depend on
/// the seed alone; `fill` fills the whole slice and leaves its length as it is.
#[verifier::external_body]
fn chacha20_key_bytes(seed: u64) -> (r: Vec<u8>)
    ensures
        r@ == key_of(seed),
        r@.len() == 32,
{
    let mut rng = <rand_chacha::ChaCha20Rng as rand::SeedableRng>::seed_from_u64(seed);
    let mut key = vec![0u8; 32];
    rand::Rng::fill(&mut rng, &mut key[..]);
    key
}

/// Relies on hmac's `Hmac<Sha256>` (`new_from_slice`, `update`, `finalize`):
/// the tag is a function of key and payload alone and is 32 bytes;
/// `new_from_slice` accepts a key of any length.
#[verifier::external_body]
fn hmac_sha256_tag(key: &[u8], payload: &[u8]) -> (r: Vec<u8>)
    ensures
        r@ == mac_of(key@, payload@),
        r@.len() == 32,
{
    let mut mac = <hmac::Hmac<sha2::Sha256> as Mac>::new_from_slice(key)
        .expect("HMAC can take key of any size");
    mac.update(payload);
    mac.finalize().into_bytes().to_vec()
}

/// Relies on hmac's `Hmac<Sha256>` with `Mac::verify_slice`: the call returns
/// Ok exactly when the slice equals the 32-byte tag of the payload under the
/// key (a constant-time comparison).
#[verifier::external_body]
fn hmac_sha256_check(key: &[u8], payload: &[u8], sig: &[u8]) -> (r: bool)
    ensures
        r == (sig@ == mac_of(key@, payload@)),
{
    let mut mac = <hmac::Hmac<sha2::Sha256> as Mac>::new_from_slice(key)
        .expect("HMAC can take key of any size");
    mac.update(payload);
    mac.verify_slice(sig).is_ok()
}

/// Generate a deterministic 32-byte key from a seed: the same seed always
/// yields the same key.
pub fn keygen(seed: u64) -> (key: Vec<u8>)
    ensures
        key@ == key_of(seed),
        key@.len() == 32,
{
    chacha20_key_bytes(seed)
}

/// Sign a payload with the given key: the deterministic 32-byte tag of the
/// payload under the key.
pub fn sign(key: &[u8], payload: &[u8]) -> (sig: Vec<u8>)
    ensures
        sig@ == mac_of(key@, payload@),
        sig@.len() == 32,
{
    hmac_sha256_tag(key, payload)
}

/// Verify a signature against a payload using the given key: true exactly when
/// the signature is the tag that `sign` produces for that key and payload.
pub fn verify(key: &[u8], payload: &[u8], sig: &[u8]) -> (r: bool)
    ensures
        r == verifies(key@, payload@, sig@),
{
    hmac_sha256_check(key, payload, sig)
}

/// Round trip: a signature freshly produced for a key and payload verifies
/// under that same key and payload.
pub proof fn lemma_sign_verify_roundtrip(key: Seq<u8>, payload: Seq<u8>)
    ensures
        verifies(key, payload, mac_of(key, payload)),
{
}

} // verus!
