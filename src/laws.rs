//! What holds across calls of the library, proved from the operations' own
//! contracts.

use std::sync::Arc;
use vstd::prelude::*;
use crate::error::Ed25519Error;
use crate::keypair::Ed25519KeyPair;
use crate::ops::{derivation_outcome, signing_outcome, verification_outcome};
use crate::text::{hex_decode, hex_text, is_lower_hex_digit, lemma_hex_round_trip};

verus! {

/// Deriving a key pair twice from the same 32-byte seed gives the same
/// public key both times.
pub proof fn lemma_derivation_deterministic(
    private_key: Seq<u8>,
    first: Result<Arc<Ed25519KeyPair>, Ed25519Error>,
    second: Result<Arc<Ed25519KeyPair>, Ed25519Error>,
)
    requires
        private_key.len() == 32,
        derivation_outcome(private_key, first),
        derivation_outcome(private_key, second),
    ensures
        first is Ok && second is Ok,
        first->Ok_0.public_key@ == second->Ok_0.public_key@,
{
}

/// Rebuilding a generated key pair from its private key gives back the
/// public key that generation derived.
pub proof fn lemma_generated_pair_rederives(
    generated: Ed25519KeyPair,
    rebuilt: Result<Arc<Ed25519KeyPair>, Ed25519Error>,
)
    requires
        generated.is_consistent(),
        derivation_outcome(generated.private_key@, rebuilt),
    ensures
        rebuilt is Ok,
        rebuilt->Ok_0.public_key@ == generated.public_key@,
        rebuilt->Ok_0.private_key@ == generated.private_key@,
{
}

/// A message signed with a 32-byte seed verifies as `true` against the public
/// key derived from that seed.
pub proof fn lemma_sign_then_verify(
    message: Seq<u8>,
    private_key: Seq<u8>,
    derived: Result<Arc<Ed25519KeyPair>, Ed25519Error>,
    signed: Result<Vec<u8>, Ed25519Error>,
    verified: Result<bool, Ed25519Error>,
)
    requires
        private_key.len() == 32,
        derivation_outcome(private_key, derived),
        signing_outcome(message, private_key, signed),
        verification_outcome(message, signed->Ok_0@, derived->Ok_0.public_key@, verified),
    ensures
        verified == Ok::<bool, Ed25519Error>(true),
{
}

/// Signing the same message with the same private key twice gives the same
/// bytes, or the same error.
pub proof fn lemma_signing_deterministic(
    message: Seq<u8>,
    private_key: Seq<u8>,
    first: Result<Vec<u8>, Ed25519Error>,
    second: Result<Vec<u8>, Ed25519Error>,
)
    requires
        signing_outcome(message, private_key, first),
        signing_outcome(message, private_key, second),
    ensures
        first is Ok <==> second is Ok,
        first is Ok ==> first->Ok_0@ == second->Ok_0@,
        first is Err ==> first->Err_0.reason_text() == second->Err_0.reason_text(),
{
}

/// The hexadecimal form of a 32-byte public key is 64 lowercase hex digits
/// that decode back to the key.
pub proof fn lemma_public_key_hex(pair: Ed25519KeyPair, hex: Seq<char>)
    requires
        pair.public_key@.len() == 32,
        hex == hex_text(pair.public_key@),
    ensures
        hex.len() == 64,
        forall|i: int| 0 <= i < hex.len() ==> is_lower_hex_digit(#[trigger] hex[i]),
        hex_decode(hex) == pair.public_key@,
{
    lemma_hex_round_trip(pair.public_key@);
}

/// The hexadecimal form of a 32-byte private key is 64 lowercase hex digits
/// that decode back to the key.
pub proof fn lemma_private_key_hex(pair: Ed25519KeyPair, hex: Seq<char>)
    requires
        pair.private_key@.len() == 32,
        hex == hex_text(pair.private_key@),
    ensures
        hex.len() == 64,
        forall|i: int| 0 <= i < hex.len() ==> is_lower_hex_digit(#[trigger] hex[i]),
        hex_decode(hex) == pair.private_key@,
{
    lemma_hex_round_trip(pair.private_key@);
}

} // verus!
