//! Ed25519 key pairs, signing and verification over raw byte sequences,
//! with contracts stated over the bytes that go in and come out.

pub mod error;
pub mod keypair;
pub mod laws;
pub mod ops;
pub mod primitives;
pub mod text;

pub use error::Ed25519Error;
pub use keypair::Ed25519KeyPair;
pub use ops::{generate_keypair, keypair_from_private_key, sign_message, verify_signature};
pub use primitives::{point_decodes, public_key_of, signature_of, signature_valid};
pub use text::{decimal_text, hex_decode, hex_digit, hex_text, hex_value, is_lower_hex_digit};
