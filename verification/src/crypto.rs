//! Trusted boundary to ring's Ed25519 implementation.
//!
//! Every cryptographic operation in this crate goes through the three wrappers
//! here; everything above them is verified against their contracts. The three
//! uninterpreted names stand for the results of the Ed25519 algorithms, which
//! are deterministic functions of their byte-string arguments alone (RFC 8032
//! signing uses no per-signature randomness).

use vstd::prelude::*;

verus! {

/// The RFC 8032 Ed25519 signature over `msg` by the key pair derived from the
/// 32-byte `seed`; deterministic in (seed, msg).
pub uninterp spec fn ed25519_signature_of(seed: Seq<u8>, msg: Seq<u8>) -> Seq<u8>;

/// The 32-byte Ed25519 public key derived from the 32-byte `seed`.
pub uninterp spec fn ed25519_public_key_of(seed: Seq<u8>) -> Seq<u8>;

/// Whether the Ed25519 verification equation accepts the triple
/// (public key, message, signature); a pure function of the three byte strings.
pub uninterp spec fn ed25519_accepts(pk: Seq<u8>, msg: Seq<u8>, sig: Seq<u8>) -> bool;

/// Relies on ring's `Ed25519KeyPair::sign` (reached via `from_seed_unchecked`,
/// which accepts exactly 32-byte seeds): the signature is the deterministic
/// RFC 8032 signature, 64 bytes long, and ring's own Ed25519 verification
/// accepts it under the key pair's public key.
#[verifier::external_body]
pub(crate) fn ed25519_sign_bytes(seed: &Vec<u8>, msg: &Vec<u8>) -> (r: Option<Vec<u8>>)
    ensures
        r is Some <==> seed@.len() == 32,
        r matches Some(sig) ==> {
            &&& sig@ == ed25519_signature_of(seed@, msg@)
            &&& sig@.len() == 64
            &&& ed25519_accepts(ed25519_public_key_of(seed@), msg@, sig@)
        },
{
    match ring::signature::Ed25519KeyPair::from_seed_unchecked(seed) {
        Ok(key_pair) => Some(key_pair.sign(msg).as_ref().to_vec()),
        Err(_) => None,
    }
}

/// Relies on ring's `Ed25519KeyPair::public_key` (reached via
/// `from_seed_unchecked`, which accepts exactly 32-byte seeds): the 32-byte
/// public key is computed from the seed alone.
#[verifier::external_body]
pub(crate) fn ed25519_public_key_bytes(seed: &Vec<u8>) -> (r: Option<Vec<u8>>)
    ensures
        r is Some <==> seed@.len() == 32,
        r matches Some(pk) ==> pk@ == ed25519_public_key_of(seed@) && pk@.len() == 32,
{
    match ring::signature::Ed25519KeyPair::from_seed_unchecked(seed) {
        Ok(key_pair) => Some(ring::signature::KeyPair::public_key(&key_pair).as_ref().to_vec()),
        Err(_) => None,
    }
}

/// Relies on ring's `signature::ED25519` verification: it accepts exactly the
/// triples satisfying the Ed25519 verification equation, returns an error for
/// every other input (wrong lengths included), and reads nothing but its three
/// byte-string arguments.
#[verifier::external_body]
pub(crate) fn ed25519_verify_bytes(pk: &Vec<u8>, msg: &Vec<u8>, sig: &Vec<u8>) -> (r: bool)
    ensures
        r == ed25519_accepts(pk@, msg@, sig@),
{
    let public_key = ring::signature::UnparsedPublicKey::new(&ring::signature::ED25519, pk);
    public_key.verify(msg, sig).is_ok()
}

} // verus!
