//! Trusted interface to the ed25519 primitives of `ed25519_dalek`.
//!
//! Signing, verification and public-key derivation are deterministic
//! functions of their byte arguments; their results are given names here
//! (`sig_of`, `pk_of`, `sig_valid`) rather than algorithm transcripts, and
//! every contract of the library speaks through those names.

use vstd::prelude::*;
use crate::base::{PublicKeyEd25519, SecretKeyEd25519, SignatureEd25519};

verus! {

/// The ed25519 signature over `message` by the secret key `secret`.
pub uninterp spec fn sig_of(secret: Seq<u8>, message: Seq<u8>) -> Seq<u8>;

/// The ed25519 public key derived from the secret key `secret`.
pub uninterp spec fn pk_of(secret: Seq<u8>) -> Seq<u8>;

/// Whether ed25519 verification accepts `signature` over `message` under
/// the public-key bytes `public`.
pub uninterp spec fn sig_valid(public: Seq<u8>, message: Seq<u8>, signature: Seq<u8>) -> bool;

/// Relies on `ed25519_dalek::SigningKey::sign` (through the `Signer`
/// trait): ed25519 signing is deterministic, a function of the 32-byte
/// secret key and the message alone, and the crate documents that the
/// signature it produces verifies under the key's own verifying key.
#[verifier::external_body]
fn ed25519_sign(secret: &[u8; 32], message: &[u8]) -> (r: [u8; 64])
    ensures
        r@ == sig_of(secret@, message@),
        sig_valid(pk_of(secret@), message@, r@),
{
    let key = ed25519_dalek::SigningKey::from_bytes(secret);
    let signature = ed25519_dalek::Signer::sign(&key, message);
    signature.to_bytes()
}

/// Relies on `ed25519_dalek::VerifyingKey::verify` (through the
/// `Verifier` trait): verification is deterministic in the public-key
/// bytes, the message and the signature.  Bytes that decode to no curve
/// point accept no signature at all.
#[verifier::external_body]
fn ed25519_verify(public: &[u8; 32], message: &[u8], signature: &[u8; 64]) -> (r: bool)
    ensures
        r == sig_valid(public@, message@, signature@),
{
    match ed25519_dalek::VerifyingKey::from_bytes(public) {
        Ok(key) => {
            let sig = ed25519_dalek::Signature::from_bytes(signature);
            ed25519_dalek::Verifier::verify(&key, message, &sig).is_ok()
        },
        Err(_) => false,
    }
}

/// Relies on `ed25519_dalek::SigningKey::verifying_key`: the verifying
/// key is derived from the 32-byte secret key alone.
#[verifier::external_body]
fn ed25519_public_key(secret: &[u8; 32]) -> (r: [u8; 32])
    ensures
        r@ == pk_of(secret@),
{
    let key = ed25519_dalek::SigningKey::from_bytes(secret);
    key.verifying_key().to_bytes()
}

/// The public key under which signatures by `secret` verify.
pub fn public_key_for(secret: &SecretKeyEd25519) -> (r: PublicKeyEd25519)
    ensures
        r@ == pk_of(secret@),
{
    PublicKeyEd25519(ed25519_public_key(&secret.0))
}

/// Sign `message` with `secret`.  The signature is the deterministic
/// ed25519 signature, and it verifies under the matching public key.
pub fn sign_message(secret: &SecretKeyEd25519, message: &[u8]) -> (r: SignatureEd25519)
    ensures
        r@ == sig_of(secret@, message@),
        sig_valid(pk_of(secret@), message@, r@),
{
    SignatureEd25519(ed25519_sign(&secret.0, message))
}

/// Check `signature` over `message` under `public`.
pub fn verify_signature(public: &PublicKeyEd25519, message: &[u8], signature: &SignatureEd25519) -> (r: bool)
    ensures
        r == sig_valid(public@, message@, signature@),
{
    ed25519_verify(&public.0, message, &signature.0)
}

} // verus!
