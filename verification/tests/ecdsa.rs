use form_state::auth::ecdsa::{extract_signature_parts, hex_encode, recover_address, parse_u8, SignatureError};
use k256::ecdsa::SigningKey;
use sha2::{Digest, Sha256};
use tiny_keccak::Hasher;

#[test]
fn test_signature_recovery() {
    let signing_key = SigningKey::random(&mut rand::rngs::OsRng);
    let verifying_key = signing_key.verifying_key();
    let message = b"Test message for signature";
    let mut hasher = Sha256::new();
    hasher.update(message);
    let message_hash = hasher.finalize();
    let (signature, recovery_id) = signing_key.sign_recoverable(message_hash.as_slice()).unwrap();
    let result = recover_address(signature.to_bytes().as_slice(), recovery_id.to_byte(), message).unwrap();
    let mut keccak = tiny_keccak::Keccak::v256();
    let mut hash = [0u8; 32];
    keccak.update(&verifying_key.to_encoded_point(false).as_bytes()[1..]);
    keccak.finalize(&mut hash);
    assert_eq!(&result[..], &hash[12..32]);
}

#[test]
fn header_parts_are_decoded() {
    let header = "Signature 0a0B.1.48656c6c6f";
    let (sig, id, msg) = extract_signature_parts(Some(Some(header))).ok().unwrap();
    assert_eq!(id, 1);
    assert_eq!(sig, vec![0x0a, 0x0b]);
    assert_eq!(msg, b"Hello".to_vec());
}

#[test]
fn header_errors() {
    assert!(matches!(extract_signature_parts(None), Err(SignatureError::MissingSignature)));
    assert!(matches!(extract_signature_parts(Some(None)), Err(SignatureError::InvalidFormat)));
    assert!(matches!(extract_signature_parts(Some(Some("Bearer abc"))), Err(SignatureError::InvalidFormat)));
    assert!(matches!(extract_signature_parts(Some(Some("Signature 00.1"))), Err(SignatureError::InvalidFormat)));
    assert!(matches!(extract_signature_parts(Some(Some("Signature 0.1.00"))), Err(SignatureError::InvalidFormat)));
    assert!(matches!(extract_signature_parts(Some(Some("Signature 00.4.00"))), Err(SignatureError::InvalidFormat)));
    assert!(matches!(extract_signature_parts(Some(Some("Signature 00.x.00"))), Err(SignatureError::InvalidFormat)));
}

#[test]
fn short_signature_is_invalid() {
    assert!(matches!(recover_address(&[1, 2, 3], 0, b"m"), Err(SignatureError::InvalidSignature)));
    assert!(matches!(recover_address(&[0u8; 64], 0, b"m"), Err(SignatureError::InvalidSignature)));
}

#[test]
fn hex_and_u8() {
    assert_eq!(hex_encode(&[0x00, 0xab, 0x10]), "00ab10");
    assert_eq!(parse_u8("+3"), Some(3));
    assert_eq!(parse_u8("255"), Some(255));
    assert_eq!(parse_u8("256"), None);
}
