use ed25519_uniffi_custom::{
    generate_keypair, keypair_from_private_key, sign_message, verify_signature, Ed25519Error,
    Ed25519KeyPair,
};

const RFC_SECRET: &str = "9d61b19deffd5a60ba844af492ec2cc44449c5697b326919703bac031cae7f60";
const RFC_PUBLIC: &str = "d75a980182b10ab7d54bfed3c964073a0ee172f3daa62325af021a68f707511a";
const RFC_EMPTY_SIGNATURE: &str = "e5564300c360ac729086e2cc806e828a84877f1eb8e5d974d873e065224901555fb8821590a33bacc61e39701cf9b46bd25bf5f0595bbe24655141438e7a100b";

fn bytes(text: &str) -> Vec<u8> {
    hex::decode(text).unwrap()
}

fn reason_of_private_key_error(r: Result<Vec<u8>, Ed25519Error>) -> String {
    match r {
        Err(Ed25519Error::InvalidPrivateKey { reason }) => reason,
        other => panic!("expected InvalidPrivateKey, got {:?}", other),
    }
}

#[test]
fn derives_rfc8032_public_key() {
    let pair = keypair_from_private_key(bytes(RFC_SECRET)).unwrap();
    assert_eq!(pair.get_public_key(), bytes(RFC_PUBLIC));
    assert_eq!(pair.get_private_key(), bytes(RFC_SECRET));
    assert_eq!(pair.get_public_key_hex(), RFC_PUBLIC);
    assert_eq!(pair.get_private_key_hex(), RFC_SECRET);
}

#[test]
fn derivation_is_deterministic() {
    let seed = vec![7u8; 32];
    let a = keypair_from_private_key(seed.clone()).unwrap();
    let b = keypair_from_private_key(seed).unwrap();
    assert_eq!(a.get_public_key(), b.get_public_key());
    assert_eq!(a.get_public_key().len(), 32);
}

#[test]
fn generated_pair_rederives_from_its_private_key() {
    let generated = generate_keypair();
    assert_eq!(generated.get_private_key().len(), 32);
    assert_eq!(generated.get_public_key().len(), 32);
    let rebuilt = keypair_from_private_key(generated.get_private_key()).unwrap();
    assert_eq!(rebuilt.get_public_key(), generated.get_public_key());
}

#[test]
fn generated_pairs_differ() {
    let a = generate_keypair();
    let b = generate_keypair();
    assert_ne!(a.get_private_key(), b.get_private_key());
    assert_ne!(a.get_public_key(), b.get_public_key());
}

#[test]
fn wrong_private_key_lengths_are_refused() {
    for len in [0usize, 16, 31, 33, 64] {
        match keypair_from_private_key(vec![1u8; len]) {
            Err(Ed25519Error::InvalidPrivateKey { reason }) => {
                assert_eq!(reason, format!("Private key must be exactly 32 bytes, got {}", len));
            }
            _ => panic!("length {} was not refused", len),
        }
        let reason = reason_of_private_key_error(sign_message(b"hi".to_vec(), vec![1u8; len]));
        assert!(reason.contains(&len.to_string()));
        assert_eq!(reason, format!("Private key must be exactly 32 bytes, got {}", len));
    }
}

#[test]
fn reason_quotes_a_three_digit_length() {
    let reason = reason_of_private_key_error(sign_message(Vec::new(), vec![0u8; 100]));
    assert_eq!(reason, "Private key must be exactly 32 bytes, got 100");
}

#[test]
fn signs_rfc8032_empty_message() {
    let signature = sign_message(Vec::new(), bytes(RFC_SECRET)).unwrap();
    assert_eq!(signature, bytes(RFC_EMPTY_SIGNATURE));
    assert_eq!(verify_signature(Vec::new(), signature, bytes(RFC_PUBLIC)), Ok(true));
}

#[test]
fn sign_then_verify_round_trip() {
    let pair = keypair_from_private_key(vec![42u8; 32]).unwrap();
    for message in [Vec::new(), b"hello".to_vec(), vec![0xffu8; 1000]] {
        let signature = sign_message(message.clone(), pair.get_private_key()).unwrap();
        assert_eq!(signature.len(), 64);
        assert_eq!(verify_signature(message, signature, pair.get_public_key()), Ok(true));
    }
}

#[test]
fn signing_is_deterministic() {
    let message = b"same message".to_vec();
    let first = sign_message(message.clone(), vec![9u8; 32]).unwrap();
    let second = sign_message(message, vec![9u8; 32]).unwrap();
    assert_eq!(first, second);
}

#[test]
fn tampered_message_fails_verification() {
    let pair = keypair_from_private_key(vec![3u8; 32]).unwrap();
    let message = b"attack at dawn".to_vec();
    let signature = sign_message(message.clone(), pair.get_private_key()).unwrap();
    for bit in 0..(message.len() * 8) {
        let mut tampered = message.clone();
        tampered[bit / 8] ^= 1 << (bit % 8);
        assert_eq!(verify_signature(tampered, signature.clone(), pair.get_public_key()), Ok(false));
    }
}

#[test]
fn tampered_signature_fails_verification() {
    let pair = keypair_from_private_key(vec![4u8; 32]).unwrap();
    let message = b"payload".to_vec();
    let signature = sign_message(message.clone(), pair.get_private_key()).unwrap();
    for bit in 0..(signature.len() * 8) {
        let mut tampered = signature.clone();
        tampered[bit / 8] ^= 1 << (bit % 8);
        assert_eq!(verify_signature(message.clone(), tampered, pair.get_public_key()), Ok(false));
    }
}

#[test]
fn other_public_key_fails_verification() {
    let signer = keypair_from_private_key(vec![5u8; 32]).unwrap();
    let other = keypair_from_private_key(vec![6u8; 32]).unwrap();
    let message = b"payload".to_vec();
    let signature = sign_message(message.clone(), signer.get_private_key()).unwrap();
    assert_eq!(verify_signature(message, signature, other.get_public_key()), Ok(false));
}

#[test]
fn non_canonical_signature_scalar_is_false_not_error() {
    let pair = keypair_from_private_key(vec![8u8; 32]).unwrap();
    let message = b"payload".to_vec();
    let mut signature = sign_message(message.clone(), pair.get_private_key()).unwrap();
    for byte in signature[32..].iter_mut() {
        *byte = 0xff;
    }
    assert_eq!(verify_signature(message, signature, pair.get_public_key()), Ok(false));
}

#[test]
fn wrong_public_key_lengths_are_refused() {
    for len in [0usize, 31, 33, 64] {
        match verify_signature(b"m".to_vec(), vec![0u8; 64], vec![0u8; len]) {
            Err(Ed25519Error::InvalidPublicKey { reason }) => {
                assert_eq!(reason, format!("Public key must be exactly 32 bytes, got {}", len));
            }
            other => panic!("length {} gave {:?}", len, other),
        }
    }
}

#[test]
fn wrong_signature_lengths_are_refused() {
    let pair = keypair_from_private_key(vec![1u8; 32]).unwrap();
    for len in [0usize, 32, 63, 65, 128] {
        match verify_signature(b"m".to_vec(), vec![0u8; len], pair.get_public_key()) {
            Err(Ed25519Error::InvalidSignature { reason }) => {
                assert_eq!(reason, format!("Signature must be exactly 64 bytes, got {}", len));
            }
            other => panic!("length {} gave {:?}", len, other),
        }
    }
}

#[test]
fn public_key_length_is_checked_before_signature_length() {
    match verify_signature(Vec::new(), vec![0u8; 3], vec![0u8; 5]) {
        Err(Ed25519Error::InvalidPublicKey { reason }) => {
            assert_eq!(reason, "Public key must be exactly 32 bytes, got 5");
        }
        other => panic!("gave {:?}", other),
    }
}

#[test]
fn undecodable_public_key_is_refused() {
    let mut refused = 0usize;
    for first in 0u8..=255 {
        let mut key = vec![0u8; 32];
        key[0] = first;
        match verify_signature(b"m".to_vec(), vec![0u8; 64], key) {
            Err(Ed25519Error::InvalidPublicKey { reason }) => {
                assert!(!reason.is_empty());
                refused += 1;
            }
            Ok(_) => {}
            Err(other) => panic!("unexpected error {:?}", other),
        }
    }
    assert!(refused > 0);
}

#[test]
fn hex_accessors_are_lowercase_and_decode_back() {
    let pair = generate_keypair();
    for (text, raw) in [
        (pair.get_public_key_hex(), pair.get_public_key()),
        (pair.get_private_key_hex(), pair.get_private_key()),
    ] {
        assert_eq!(text.len(), 64);
        assert!(text.chars().all(|c| c.is_ascii_digit() || ('a'..='f').contains(&c)));
        assert_eq!(hex::decode(&text).unwrap(), raw);
    }
}

#[test]
fn raw_constructor_keeps_any_bytes() {
    let pair = Ed25519KeyPair::new(vec![0xab, 0x01], vec![0x00, 0xff, 0x10]);
    assert_eq!(pair.get_public_key(), vec![0xab, 0x01]);
    assert_eq!(pair.get_private_key(), vec![0x00, 0xff, 0x10]);
    assert_eq!(pair.get_public_key_hex(), "ab01");
    assert_eq!(pair.get_private_key_hex(), "00ff10");
    let empty = Ed25519KeyPair::new(Vec::new(), Vec::new());
    assert_eq!(empty.get_public_key_hex(), "");
}

#[test]
fn error_messages_name_the_kind() {
    let e = keypair_from_private_key(vec![0u8; 16]).err().unwrap();
    assert_eq!(e.message(), "Invalid private key: Private key must be exactly 32 bytes, got 16");
    assert_eq!(e.reason(), "Private key must be exactly 32 bytes, got 16");
    let e = Ed25519Error::SigningFailed { reason: "x".to_string() };
    assert_eq!(e.message(), "Signing failed: x");
    let e = Ed25519Error::VerificationFailed { reason: "y".to_string() };
    assert_eq!(e.message(), "Verification failed: y");
    let e = Ed25519Error::InvalidSignature { reason: "z".to_string() };
    assert_eq!(e.message(), "Invalid signature: z");
    let e = Ed25519Error::InvalidPublicKey { reason: "w".to_string() };
    assert_eq!(e.message(), "Invalid public key: w");
}
