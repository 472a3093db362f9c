//! The four operations of the library: deriving, generating, signing and
//! verifying. Only malformed input is an error; a signature that does not
//! check out is a successful `false`.

use std::sync::Arc;
use vstd::prelude::*;
use vstd::string::*;
use crate::error::Ed25519Error;
use crate::keypair::Ed25519KeyPair;
use crate::primitives::{
    decode_public_key, derive_public_key, point_decodes, public_key_of, random_seed,
    sign_with_seed, signature_of, signature_valid, verify_with_public_key,
};
use crate::text::{decimal, decimal_text};

verus! {

/// The length that every private seed and public key must have.
pub const KEY_LENGTH: usize = 32;

/// The length that every signature must have.
pub const SIGNATURE_LENGTH: usize = 64;

/// The reason given for a private key of `n` bytes.
pub open spec fn private_key_length_reason(n: nat) -> Seq<char> {
    "Private key must be exactly 32 bytes, got "@ + decimal_text(n)
}

/// The reason given for a public key of `n` bytes.
pub open spec fn public_key_length_reason(n: nat) -> Seq<char> {
    "Public key must be exactly 32 bytes, got "@ + decimal_text(n)
}

/// The reason given for a signature of `n` bytes.
pub open spec fn signature_length_reason(n: nat) -> Seq<char> {
    "Signature must be exactly 64 bytes, got "@ + decimal_text(n)
}

/// `r` is what `keypair_from_private_key` owes for `private_key`: the pair
/// derived from a 32-byte seed, whose 32-byte public key decodes to a curve
/// point, or `InvalidPrivateKey` quoting any other length.
pub open spec fn derivation_outcome(private_key: Seq<u8>, r: Result<Arc<Ed25519KeyPair>, Ed25519Error>) -> bool {
    if private_key.len() == 32 {
        r matches Ok(kp) && kp.derives_from(private_key) && kp.public_key@.len() == 32
            && point_decodes(kp.public_key@)
    } else {
        r matches Err(Ed25519Error::InvalidPrivateKey { reason })
            && reason@ == private_key_length_reason(private_key.len())
    }
}

/// `r` is what `sign_message` owes for `message` and `private_key`: the
/// 64-byte signature of a 32-byte seed, which checks out under the public key
/// derived from that seed, or `InvalidPrivateKey` quoting any other length.
pub open spec fn signing_outcome(message: Seq<u8>, private_key: Seq<u8>, r: Result<Vec<u8>, Ed25519Error>) -> bool {
    if private_key.len() == 32 {
        r matches Ok(sig) && sig@ == signature_of(private_key, message) && sig@.len() == 64
            && signature_valid(public_key_of(private_key), message, sig@)
    } else {
        r matches Err(Ed25519Error::InvalidPrivateKey { reason })
            && reason@ == private_key_length_reason(private_key.len())
    }
}

/// The outcome that `verify_signature` owes for the given inputs, its error
/// reason left out where it comes from the primitive library.
pub open spec fn verification_outcome(
    message: Seq<u8>,
    signature: Seq<u8>,
    public_key: Seq<u8>,
    r: Result<bool, Ed25519Error>,
) -> bool {
    if public_key.len() != 32 {
        r matches Err(Ed25519Error::InvalidPublicKey { reason })
            && reason@ == public_key_length_reason(public_key.len())
    } else if signature.len() != 64 {
        r matches Err(Ed25519Error::InvalidSignature { reason })
            && reason@ == signature_length_reason(signature.len())
    } else if !point_decodes(public_key) {
        r is Err && r->Err_0 is InvalidPublicKey
    } else {
        r == Ok::<bool, Ed25519Error>(signature_valid(public_key, message, signature))
    }
}

fn length_reason(prefix: &str, n: usize) -> (r: String)
    ensures
        r@ == prefix@ + decimal_text(n as nat),
{
    String::from_str(prefix).concat(decimal(n).as_str())
}

fn private_key_length_error(n: usize) -> (e: Ed25519Error)
    ensures
        e matches Ed25519Error::InvalidPrivateKey { reason } && reason@ == private_key_length_reason(n as nat),
{
    let reason = length_reason("Private key must be exactly 32 bytes, got ", n);
    Ed25519Error::InvalidPrivateKey { reason }
}

/// Rebuilds the key pair of a 32-byte private seed, deriving its public key.
/// Any other length is refused with `InvalidPrivateKey`.
pub fn keypair_from_private_key(private_key: Vec<u8>) -> (r: Result<Arc<Ed25519KeyPair>, Ed25519Error>)
    ensures
        derivation_outcome(private_key@, r),
{
    if private_key.len() != KEY_LENGTH {
        return Err(private_key_length_error(private_key.len()));
    }
    let public_key = derive_public_key(&private_key);
    Ok(Arc::new(Ed25519KeyPair { public_key, private_key }))
}

/// Makes a fresh key pair from 32 bytes of the system's secure random source.
pub fn generate_keypair() -> (r: Arc<Ed25519KeyPair>)
    ensures
        r.is_consistent(),
        r.public_key@.len() == 32,
        point_decodes(r.public_key@),
{
    let private_key = random_seed();
    let public_key = derive_public_key(&private_key);
    Arc::new(Ed25519KeyPair { public_key, private_key })
}

/// Signs a message of any length with a 32-byte private seed; the same inputs
/// always give the same 64 bytes. Any other seed length is refused with
/// `InvalidPrivateKey`.
pub fn sign_message(message: Vec<u8>, private_key: Vec<u8>) -> (r: Result<Vec<u8>, Ed25519Error>)
    ensures
        signing_outcome(message@, private_key@, r),
{
    if private_key.len() != KEY_LENGTH {
        return Err(private_key_length_error(private_key.len()));
    }
    Ok(sign_with_seed(&private_key, &message))
}

/// Checks a signature over a message against a public key. The public key's
/// length is checked first, then the signature's, then that the key decodes
/// to a curve point; each failure is an error. A well-formed signature that
/// does not check out gives `Ok(false)`.
pub fn verify_signature(message: Vec<u8>, signature: Vec<u8>, public_key: Vec<u8>) -> (r: Result<bool, Ed25519Error>)
    ensures
        verification_outcome(message@, signature@, public_key@, r),
{
    if public_key.len() != KEY_LENGTH {
        let reason = length_reason("Public key must be exactly 32 bytes, got ", public_key.len());
        return Err(Ed25519Error::InvalidPublicKey { reason });
    }
    if signature.len() != SIGNATURE_LENGTH {
        let reason = length_reason("Signature must be exactly 64 bytes, got ", signature.len());
        return Err(Ed25519Error::InvalidSignature { reason });
    }
    match decode_public_key(&public_key) {
        Err(reason) => Err(Ed25519Error::InvalidPublicKey { reason }),
        Ok(()) => Ok(verify_with_public_key(&public_key, &message, &signature)),
    }
}

} // verus!
