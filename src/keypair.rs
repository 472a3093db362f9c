//! The key pair held by callers: a public key and a private seed, as bytes.

use std::sync::Arc;
use vstd::prelude::*;
use crate::primitives::public_key_of;
use crate::text::{encode_hex, hex_text};

verus! {

/// A public key and the private seed it belongs to, both as raw bytes.
///
/// A pair made by `keypair_from_private_key` or `generate_keypair` is
/// consistent: its public key is derived from its private seed. A pair made
/// by `new` holds whatever the caller gave it, unchecked.
pub struct Ed25519KeyPair {
    pub public_key: Vec<u8>,
    pub private_key: Vec<u8>,
}

impl Ed25519KeyPair {
    /// The pair holds `seed` as its 32-byte private key and the public key
    /// derived from it.
    pub open spec fn derives_from(&self, seed: Seq<u8>) -> bool {
        &&& seed.len() == 32
        &&& self.private_key@ == seed
        &&& self.public_key@ == public_key_of(seed)
    }

    /// The public key is the one derived from the private key.
    pub open spec fn is_consistent(&self) -> bool {
        self.derives_from(self.private_key@)
    }

    /// Makes a pair of the two keys as given, of any length, with no check
    /// that they belong together.
    pub fn new(public_key: Vec<u8>, private_key: Vec<u8>) -> (r: Arc<Self>)
        ensures
            r.public_key@ == public_key@,
            r.private_key@ == private_key@,
    {
        Arc::new(Ed25519KeyPair { public_key, private_key })
    }

    /// A copy of the public key bytes.
    pub fn get_public_key(&self) -> (r: Vec<u8>)
        ensures
            r@ == self.public_key@,
    {
        self.public_key.clone()
    }

    /// A copy of the private key bytes.
    pub fn get_private_key(&self) -> (r: Vec<u8>)
        ensures
            r@ == self.private_key@,
    {
        self.private_key.clone()
    }

    /// The public key in lowercase hexadecimal.
    pub fn get_public_key_hex(&self) -> (r: String)
        ensures
            r@ == hex_text(self.public_key@),
    {
        encode_hex(&self.public_key)
    }

    /// The private key in lowercase hexadecimal.
    pub fn get_private_key_hex(&self) -> (r: String)
        ensures
            r@ == hex_text(self.private_key@),
    {
        encode_hex(&self.private_key)
    }
}

} // verus!
