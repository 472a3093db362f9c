//! The errors reported to callers: each kind carries a human-readable reason.

use vstd::prelude::*;
use vstd::string::*;

verus! {

/// What went wrong with a call; the reason says why in words.
#[derive(Debug, PartialEq, Eq)]
pub enum Ed25519Error {
    InvalidPrivateKey { reason: String },
    InvalidPublicKey { reason: String },
    InvalidSignature { reason: String },
    SigningFailed { reason: String },
    VerificationFailed { reason: String },
}

impl Ed25519Error {
    /// The reason carried by any kind of error.
    pub open spec fn reason_text(&self) -> Seq<char> {
        match self {
            Ed25519Error::InvalidPrivateKey { reason } => reason@,
            Ed25519Error::InvalidPublicKey { reason } => reason@,
            Ed25519Error::InvalidSignature { reason } => reason@,
            Ed25519Error::SigningFailed { reason } => reason@,
            Ed25519Error::VerificationFailed { reason } => reason@,
        }
    }

    /// The heading that names the kind of error in its message.
    pub open spec fn heading(&self) -> Seq<char> {
        match self {
            Ed25519Error::InvalidPrivateKey { .. } => "Invalid private key: "@,
            Ed25519Error::InvalidPublicKey { .. } => "Invalid public key: "@,
            Ed25519Error::InvalidSignature { .. } => "Invalid signature: "@,
            Ed25519Error::SigningFailed { .. } => "Signing failed: "@,
            Ed25519Error::VerificationFailed { .. } => "Verification failed: "@,
        }
    }

    /// The reason carried by the error.
    pub fn reason(&self) -> (r: &String)
        ensures
            r@ == self.reason_text(),
    {
        match self {
            Ed25519Error::InvalidPrivateKey { reason } => reason,
            Ed25519Error::InvalidPublicKey { reason } => reason,
            Ed25519Error::InvalidSignature { reason } => reason,
            Ed25519Error::SigningFailed { reason } => reason,
            Ed25519Error::VerificationFailed { reason } => reason,
        }
    }

    /// The full message: the kind's heading followed by the reason.
    pub fn message(&self) -> (r: String)
        ensures
            r@ == self.heading() + self.reason_text(),
    {
        let heading = match self {
            Ed25519Error::InvalidPrivateKey { .. } => "Invalid private key: ",
            Ed25519Error::InvalidPublicKey { .. } => "Invalid public key: ",
            Ed25519Error::InvalidSignature { .. } => "Invalid signature: ",
            Ed25519Error::SigningFailed { .. } => "Signing failed: ",
            Ed25519Error::VerificationFailed { .. } => "Verification failed: ",
        };
        String::from_str(heading).concat(self.reason().as_str())
    }
}

} // verus!
