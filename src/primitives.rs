//! The Ed25519 primitives and the system's secure random source, as used by
//! the library. Each result that only the primitive library can compute is
//! named by a spec function of the bytes it depends on.

use ed25519_dalek::{Signature, Signer, SigningKey, Verifier, VerifyingKey};
use rand::rngs::OsRng;
use rand::RngCore;
use vstd::prelude::*;

verus! {

/// The 32-byte compressed Ed25519 public key derived from a 32-byte seed.
pub uninterp spec fn public_key_of(seed: Seq<u8>) -> Seq<u8>;

/// The 64-byte RFC 8032 signature that a 32-byte seed makes over a message.
pub uninterp spec fn signature_of(seed: Seq<u8>, message: Seq<u8>) -> Seq<u8>;

/// Whether 32 bytes decompress to a point of the curve.
pub uninterp spec fn point_decodes(public_key: Seq<u8>) -> bool;

/// Whether a 64-byte signature over a message checks out against a public key
/// that decodes.
pub uninterp spec fn signature_valid(public_key: Seq<u8>, message: Seq<u8>, signature: Seq<u8>) -> bool;

/// Relies on `SigningKey::verifying_key` of ed25519-dalek (with
/// `SigningKey::from_bytes` and `VerifyingKey::to_bytes` to convert): the
/// public key depends on the seed alone. It is the compression of a curve
/// point, so `VerifyingKey::from_bytes` decompresses it again.
#[verifier::external_body]
pub(crate) fn derive_public_key(seed: &Vec<u8>) -> (r: Vec<u8>)
    requires
        seed@.len() == 32,
    ensures
        r@ == public_key_of(seed@),
        r@.len() == 32,
        point_decodes(r@),
{
    let bytes: [u8; 32] = seed.as_slice().try_into().unwrap();
    SigningKey::from_bytes(&bytes).verifying_key().to_bytes().to_vec()
}

/// Relies on `Signer::sign` of ed25519-dalek's `SigningKey` (deterministic
/// RFC 8032 signing; `try_sign` never fails): the signature depends on the
/// seed and the message alone, and `Verifier::verify` accepts it under the
/// public key derived from the same seed.
#[verifier::external_body]
pub(crate) fn sign_with_seed(seed: &Vec<u8>, message: &Vec<u8>) -> (r: Vec<u8>)
    requires
        seed@.len() == 32,
    ensures
        r@ == signature_of(seed@, message@),
        r@.len() == 64,
        signature_valid(public_key_of(seed@), message@, r@),
{
    let bytes: [u8; 32] = seed.as_slice().try_into().unwrap();
    SigningKey::from_bytes(&bytes).sign(message).to_bytes().to_vec()
}

/// Relies on `VerifyingKey::from_bytes` of ed25519-dalek: it fails exactly
/// when the bytes do not decompress to a curve point, and its error is
/// described in words.
#[verifier::external_body]
pub(crate) fn decode_public_key(public_key: &Vec<u8>) -> (r: Result<(), String>)
    requires
        public_key@.len() == 32,
    ensures
        r is Ok <==> point_decodes(public_key@),
{
    let bytes: [u8; 32] = public_key.as_slice().try_into().unwrap();
    match VerifyingKey::from_bytes(&bytes) {
        Ok(_) => Ok(()),
        Err(e) => Err(e.to_string()),
    }
}

/// Relies on `Verifier::verify` of ed25519-dalek's `VerifyingKey` (with
/// `Signature::from_bytes` to convert): whether the signature checks out
/// depends on the key, the message and the signature alone.
#[verifier::external_body]
pub(crate) fn verify_with_public_key(public_key: &Vec<u8>, message: &Vec<u8>, signature: &Vec<u8>) -> (r: bool)
    requires
        public_key@.len() == 32,
        signature@.len() == 64,
        point_decodes(public_key@),
    ensures
        r == signature_valid(public_key@, message@, signature@),
{
    let key: [u8; 32] = public_key.as_slice().try_into().unwrap();
    let sig: [u8; 64] = signature.as_slice().try_into().unwrap();
    match VerifyingKey::from_bytes(&key) {
        Ok(k) => k.verify(message, &Signature::from_bytes(&sig)).is_ok(),
        Err(_) => false,
    }
}

/// Relies on `RngCore::fill_bytes` of rand's `OsRng`: 32 bytes from the
/// operating system's secure source. It panics where that source fails.
#[verifier::external_body]
pub(crate) fn random_seed() -> (r: Vec<u8>)
    ensures
        r@.len() == 32,
{
    let mut bytes = [0u8; 32];
    OsRng.fill_bytes(&mut bytes);
    bytes.to_vec()
}

} // verus!
