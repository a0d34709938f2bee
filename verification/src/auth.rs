//! Signing and verification of transactions.
//!
//! `sign` canonicalizes a transaction and signs the bytes with Ed25519;
//! `verify` independently re-canonicalizes with the same encoding and checks
//! the signature. A cryptographically invalid signature over a well-formed
//! transaction is the ordinary result `Ok(false)`, kept apart from the error
//! for a transaction that could not be encoded at all.

use crate::crypto::ed25519_accepts;
use crate::crypto::ed25519_public_key_bytes;
use crate::crypto::ed25519_public_key_of;
use crate::crypto::ed25519_sign_bytes;
use crate::crypto::ed25519_signature_of;
use crate::crypto::ed25519_verify_bytes;
use crate::transaction::canonical_bytes;
use crate::transaction::canonicalize;
use crate::transaction::is_well_formed;
use crate::transaction::malformed_of;
use crate::transaction::MalformedTransactionError;
use crate::transaction::RawTransaction;
use crate::transaction::TxView;
use vstd::prelude::*;

verus! {

/// The number of bytes in an Ed25519 private-key seed.
pub const SEED_LEN: usize = 32;

/// A private-key handle: the Ed25519 seed obtained from the external key
/// provider. This crate never generates or persists key material.
pub struct SigningKey {
    pub seed: Vec<u8>,
}

impl View for SigningKey {
    type V = Seq<u8>;

    open spec fn view(&self) -> Seq<u8> {
        self.seed@
    }
}

/// An Ed25519 public key, as the 32 bytes of its encoded point.
#[derive(Clone, Debug, PartialEq, Eq)]
pub struct PublicKey {
    pub bytes: Vec<u8>,
}

impl View for PublicKey {
    type V = Seq<u8>;

    open spec fn view(&self) -> Seq<u8> {
        self.bytes@
    }
}

/// An Ed25519 signature: an opaque 64-byte string with no mutable state.
#[derive(Clone, Debug, PartialEq, Eq)]
pub struct Signature {
    pub bytes: Vec<u8>,
}

impl View for Signature {
    type V = Seq<u8>;

    open spec fn view(&self) -> Seq<u8> {
        self.bytes@
    }
}

/// A transaction together with its signature and the signer's public key.
/// It has no mutation operations: any change to the payload re-canonicalizes
/// to different bytes and so invalidates the signature by construction.
pub struct SignedTransaction {
    pub transaction: RawTransaction,
    pub signature: Signature,
    pub signer: PublicKey,
}

/// Why a transaction could not be signed.
#[derive(Clone, Copy, Debug, PartialEq, Eq, Structural)]
pub enum SigningError {
    /// Canonicalization failed; no cryptographic work was attempted.
    InvalidTransaction(MalformedTransactionError),
    /// The key handle supplied by the external key provider cannot produce a
    /// signing operation; a pass-through failure, not produced locally.
    KeyUnavailable,
}

/// Why a signature could not be checked at all. A cryptographically invalid
/// signature over a well-formed transaction is not an error: it is the
/// ordinary result `Ok(false)`.
#[derive(Clone, Copy, Debug, PartialEq, Eq, Structural)]
pub enum VerificationError {
    /// Canonicalization failed; no cryptographic work was attempted.
    InvalidTransaction(MalformedTransactionError),
}

/// What `verify` returns: the Ed25519 acceptance of the signature over the
/// canonical bytes for a well-formed transaction, and the malformed-field
/// error otherwise.
pub open spec fn verify_spec(t: TxView, pk: Seq<u8>, sig: Seq<u8>) -> Result<
    bool,
    VerificationError,
> {
    if is_well_formed(t) {
        Ok(ed25519_accepts(pk, canonical_bytes(t), sig))
    } else {
        Err(VerificationError::InvalidTransaction(malformed_of(t)))
    }
}

/// Signs a transaction: canonicalizes it, then applies Ed25519 with the given
/// private key. Succeeds exactly on well-formed transactions with a usable
/// key; the signature then verifies under the key's public key over that very
/// transaction.
pub fn sign(t: &RawTransaction, key: &SigningKey) -> (r: Result<Signature, SigningError>)
    ensures
        r is Ok <==> is_well_formed(t@) && key@.len() == SEED_LEN,
        !is_well_formed(t@) ==> r == Err::<Signature, SigningError>(
            SigningError::InvalidTransaction(malformed_of(t@)),
        ),
        is_well_formed(t@) && key@.len() != SEED_LEN ==> r == Err::<Signature, SigningError>(
            SigningError::KeyUnavailable,
        ),
        r matches Ok(sig) ==> {
            &&& sig@ == ed25519_signature_of(key@, canonical_bytes(t@))
            &&& sig@.len() == 64
            &&& verify_spec(t@, ed25519_public_key_of(key@), sig@) == Ok::<
                bool,
                VerificationError,
            >(true)
        },
{
    let msg = match canonicalize(t) {
        Ok(m) => m,
        Err(e) => {
            return Err(SigningError::InvalidTransaction(e));
        },
    };
    match ed25519_sign_bytes(&key.seed, &msg) {
        Some(bytes) => Ok(Signature { bytes }),
        None => Err(SigningError::KeyUnavailable),
    }
}

/// Verifies that `signature` authenticates exactly `t` under `public_key`:
/// re-canonicalizes `t` with the same encoding the signer used and checks the
/// Ed25519 verification equation. `Ok(false)` reports a well-formed but not
/// correctly signed transaction; the error reports a transaction that could
/// not be encoded.
pub fn verify(t: &RawTransaction, public_key: &PublicKey, signature: &Signature) -> (r: Result<
    bool,
    VerificationError,
>)
    ensures
        r == verify_spec(t@, public_key@, signature@),
{
    let msg = match canonicalize(t) {
        Ok(m) => m,
        Err(e) => {
            return Err(VerificationError::InvalidTransaction(e));
        },
    };
    Ok(ed25519_verify_bytes(&public_key.bytes, &msg, &signature.bytes))
}

/// Extracts the public key that `verify` pairs with this private key. Fails
/// with `KeyUnavailable` exactly when the key handle cannot produce a signing
/// operation.
pub fn public_key_of(key: &SigningKey) -> (r: Result<PublicKey, SigningError>)
    ensures
        r is Ok <==> key@.len() == SEED_LEN,
        r matches Ok(pk) ==> pk@ == ed25519_public_key_of(key@) && pk@.len() == 32,
        r is Err ==> r == Err::<PublicKey, SigningError>(SigningError::KeyUnavailable),
{
    match ed25519_public_key_bytes(&key.seed) {
        Some(bytes) => Ok(PublicKey { bytes }),
        None => Err(SigningError::KeyUnavailable),
    }
}

/// Signs a transaction and packages it with the signature and the signer's
/// public key, ready for a verifier: the signed transaction verifies as
/// authentic exactly as it stands.
pub fn sign_transaction(t: RawTransaction, key: &SigningKey) -> (r: Result<
    SignedTransaction,
    SigningError,
>)
    ensures
        r is Ok <==> is_well_formed(t@) && key@.len() == SEED_LEN,
        !is_well_formed(t@) ==> r == Err::<SignedTransaction, SigningError>(
            SigningError::InvalidTransaction(malformed_of(t@)),
        ),
        is_well_formed(t@) && key@.len() != SEED_LEN ==> r == Err::<
            SignedTransaction,
            SigningError,
        >(SigningError::KeyUnavailable),
        r matches Ok(st) ==> {
            &&& st.transaction@ == t@
            &&& st.signer@ == ed25519_public_key_of(key@)
            &&& st.signature@ == ed25519_signature_of(key@, canonical_bytes(t@))
            &&& verify_spec(st.transaction@, st.signer@, st.signature@) == Ok::<
                bool,
                VerificationError,
            >(true)
        },
{
    let signature = match sign(&t, key) {
        Ok(s) => s,
        Err(e) => {
            return Err(e);
        },
    };
    let signer = match public_key_of(key) {
        Ok(p) => p,
        Err(e) => {
            return Err(e);
        },
    };
    Ok(SignedTransaction { transaction: t, signature, signer })
}

/// Checks a packaged signed transaction against the public key it carries.
pub fn verify_signed(st: &SignedTransaction) -> (r: Result<bool, VerificationError>)
    ensures
        r == verify_spec(st.transaction@, st.signer@, st.signature@),
{
    verify(&st.transaction, &st.signer, &st.signature)
}

} // verus!

