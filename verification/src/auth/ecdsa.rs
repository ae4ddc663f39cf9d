//! ECDSA signature authentication: the `Authorization: Signature
//! <signature_hex>.<recovery_id>.<message_hex>` header and the recovery of
//! the signer's address from it.

use vstd::prelude::*;
use k256::ecdsa::RecoveryId;
use sha2::Digest;
use crate::text::{seq_starts_with, starts_with, suffix_from, split_spec, split_chars, string_from_chars, parse_u64, parse_unsigned};

verus! {

/// Why a signature was refused.
#[derive(Debug, Clone, Copy, PartialEq, Eq, Structural)]
pub enum SignatureError {
    MissingSignature,
    InvalidSignature,
    InvalidMessage,
    RecoveryFailed,
    InvalidFormat,
}

impl SignatureError {
    /// The HTTP status of the refusal.
    pub fn status_code(&self) -> (r: u16)
        ensures
            r == match *self {
                SignatureError::InvalidMessage | SignatureError::InvalidFormat => 400u16,
                _ => 401u16,
            },
    {
        match self {
            SignatureError::InvalidMessage | SignatureError::InvalidFormat => 400,
            _ => 401,
        }
    }

    /// The message of the refusal.
    pub fn message(&self) -> (r: &'static str)
        ensures
            r@ == match *self {
                SignatureError::MissingSignature => "Missing signature"@,
                SignatureError::InvalidSignature => "Invalid signature"@,
                SignatureError::InvalidMessage => "Invalid message format"@,
                SignatureError::RecoveryFailed => "Failed to recover public key"@,
                SignatureError::InvalidFormat => "Invalid signature format"@,
            },
    {
        match self {
            SignatureError::MissingSignature => "Missing signature",
            SignatureError::InvalidSignature => "Invalid signature",
            SignatureError::InvalidMessage => "Invalid message format",
            SignatureError::RecoveryFailed => "Failed to recover public key",
            SignatureError::InvalidFormat => "Invalid signature format",
        }
    }
}

/// The recovery ids of signatures, carried opaquely.
#[verifier::external_type_specification]
#[verifier::external_body]
pub struct ExRecoveryId(k256::ecdsa::RecoveryId);

/// The value of a hexadecimal digit (either case).
pub open spec fn hex_digit_value(c: char) -> Option<u8> {
    if '0' <= c && c <= '9' {
        Some((c as u32 - '0' as u32) as u8)
    } else if 'a' <= c && c <= 'f' {
        Some((c as u32 - 'a' as u32 + 10) as u8)
    } else if 'A' <= c && c <= 'F' {
        Some((c as u32 - 'A' as u32 + 10) as u8)
    } else {
        None
    }
}

/// The bytes that the hexadecimal text `s` spells: two digits per byte,
/// the high one first; none for an odd length or a non-digit.
pub open spec fn hex_decoded(s: Seq<char>) -> Option<Seq<u8>> {
    if s.len() % 2 == 0 && forall|i: int| 0 <= i < s.len() ==> #[trigger] hex_digit_value(s[i]) is Some {
        Some(Seq::new((s.len() / 2) as nat, |i: int|
            (hex_digit_value(s[2 * i]).unwrap() * 16 + hex_digit_value(s[2 * i + 1]).unwrap()) as u8))
    } else {
        None
    }
}

/// The lowercase hexadecimal digit for `d` (below 16).
pub open spec fn lower_hex_digit(d: u8) -> char {
    if d < 10 { (('0' as u32) + d) as char } else { (('a' as u32) + d - 10) as char }
}

/// The lowercase hexadecimal text of `b`: two digits per byte, the high
/// one first.
pub open spec fn hex_encoded(b: Seq<u8>) -> Seq<char> {
    Seq::new(2 * b.len(), |i: int| if i % 2 == 0 { lower_hex_digit(b[i / 2] / 16) } else { lower_hex_digit(b[i / 2] % 16) })
}

/// Decodes hexadecimal text with `hex::decode`, which takes digits of either
/// case, two per byte, and fails on an odd length or another character.
#[verifier::external_body]
fn hex_decode(s: &str) -> (r: Option<Vec<u8>>)
    ensures
        match r {
            Some(v) => hex_decoded(s@) == Some(v@),
            None => hex_decoded(s@) is None,
        },
{
    hex::decode(s).ok()
}

/// Encodes bytes as lowercase hexadecimal text with `hex::encode`.
#[verifier::external_body]
pub fn hex_encode(bytes: &[u8]) -> (r: String)
    ensures
        r@ == hex_encoded(bytes@),
{
    hex::encode(bytes)
}

/// The recovery id of the byte `b`, from `RecoveryId::from_byte`: there is
/// one for 0 to 3 only.
#[verifier::external_body]
fn recovery_id_from_byte(b: u8) -> (r: Option<RecoveryId>)
    ensures
        r is Some <==> b <= 3,
{
    RecoveryId::from_byte(b)
}

/// The SHA-256 digest of `m`.
pub uninterp spec fn sha256_of(m: Seq<u8>) -> Seq<u8>;

/// Hashes `message` with `sha2::Sha256`; the digest has 32 bytes.
#[verifier::external_body]
fn sha256_digest(message: &[u8]) -> (r: Vec<u8>)
    ensures
        r@ == sha256_of(message@),
        r@.len() == 32,
{
    sha2::Sha256::digest(message).to_vec()
}

/// A recovery refused with `e`.
pub open spec fn refusal(e: SignatureError) -> Result<[u8; 20], SignatureError> {
    Err(e)
}

/// The order `n` of the secp256k1 group.
pub open spec fn secp256k1_order() -> nat {
    0xFFFFFFFFFFFFFFFFFFFFFFFFFFFFFFFEBAAEDCE6AF48A03BBFD25E8CD0364141nat
}

/// The value of `b` read as a big-endian unsigned integer.
pub open spec fn big_endian(b: Seq<u8>) -> nat
    decreases b.len(),
{
    if b.len() == 0 { 0 } else { big_endian(b.drop_last()) * 256 + b.last() as nat }
}

/// `s` is a well-formed secp256k1 signature: 64 bytes, `r` then `s`, each
/// read big-endian and in `1..n`.
pub open spec fn signature_bytes_valid(s: Seq<u8>) -> bool {
    &&& s.len() == 64
    &&& 0 < big_endian(s.subrange(0, 32)) < secp256k1_order()
    &&& 0 < big_endian(s.subrange(32, 64)) < secp256k1_order()
}

/// The address (20 bytes) of the key that signed `digest` with the
/// signature `sig` and the recovery id `rid`, if one can be recovered.
pub uninterp spec fn recovered_signer(sig: Seq<u8>, rid: u8, digest: Seq<u8>) -> Option<Seq<u8>>;

/// Reads `signature` with `Signature::try_from` (refused: InvalidSignature:
/// not 64 bytes, or `r` or `s` outside `1..n`), takes the recovery id of
/// the byte `rid` (`RecoveryId::from_byte`), recovers the signer's key from
/// the digest with `VerifyingKey::recover_from_msg` (refused:
/// RecoveryFailed), and gives the key's address (`Address::from_public_key`:
/// the last 20 bytes of the Keccak-256 hash of the key). The address is
/// named `recovered_signer`, a function of the three arguments.
#[verifier::external_body]
fn recover_signer(signature: &[u8], rid: u8, digest: &[u8]) -> (r: Result<[u8; 20], SignatureError>)
    requires
        rid <= 3,
    ensures
        r == refusal(SignatureError::InvalidSignature) <==> !signature_bytes_valid(signature@),
        r is Err ==> r == refusal(SignatureError::InvalidSignature)
            || r == refusal(SignatureError::RecoveryFailed),
        r matches Ok(a) ==> recovered_signer(signature@, rid, digest@) == Some(a@),
        r is Err ==> recovered_signer(signature@, rid, digest@) is None,
{
    let signature = match k256::ecdsa::Signature::try_from(signature) {
        Ok(s) => s,
        Err(_) => return Err(SignatureError::InvalidSignature),
    };
    let recovery_id = match RecoveryId::from_byte(rid) {
        Some(id) => id,
        None => return Err(SignatureError::RecoveryFailed),
    };
    match k256::ecdsa::VerifyingKey::recover_from_msg(digest, &signature, recovery_id) {
        Ok(key) => Ok(alloy_primitives::Address::from_public_key(&key).into_array()),
        Err(_) => Err(SignatureError::RecoveryFailed),
    }
}

/// The address recovered from a signature, and the signed message.
#[derive(Debug, Clone)]
pub struct RecoveredAddress {
    pub address: [u8; 20],
    pub message: Vec<u8>,
}

impl RecoveredAddress {
    /// The address as lowercase hexadecimal text.
    pub fn as_hex(&self) -> (r: String)
        ensures
            r@ == hex_encoded(self.address@),
    {
        hex_encode(&self.address)
    }
}

/// Optional address recovery: none where the request carried no signature.
#[derive(Debug, Clone)]
pub struct OptionalRecoveredAddress(pub Option<RecoveredAddress>);

/// Reads a `u8` written in decimal, as `u8::from_str` does.
pub fn parse_u8(s: &str) -> (r: Option<u8>)
    ensures
        match r {
            Some(v) => parse_unsigned(s@, 255) == Some(v as nat),
            None => parse_unsigned(s@, 255) is None,
        },
{
    match parse_u64(s) {
        Some(v) => if v <= 255 { Some(v as u8) } else { None },
        None => None,
    }
}

/// The three dot-separated parts after `Signature ` of a header, if it has
/// that form.
pub open spec fn signature_fields(header: Seq<char>) -> Option<Seq<Seq<char>>> {
    if seq_starts_with(header, "Signature "@) {
        let parts = split_spec(header.subrange(10, header.len() as int), '.');
        if parts.len() == 3 { Some(parts) } else { None }
    } else {
        None
    }
}

/// The header parses: three parts, the first and last hexadecimal, the
/// middle a recovery id from 0 to 3.
pub open spec fn spec_header_parses(header: Seq<char>) -> bool {
    match signature_fields(header) {
        Some(p) => {
            &&& hex_decoded(p[0]) is Some
            &&& parse_unsigned(p[1], 255) matches Some(b) && b <= 3
            &&& hex_decoded(p[2]) is Some
        },
        None => false,
    }
}

/// Extract the signature, recovery id and message from the authorization
/// header: `None` where the request has none, `Some(None)` where its value
/// is not text.
pub fn extract_signature_parts(auth_header: Option<Option<&str>>) -> (r: Result<(Vec<u8>, u8, Vec<u8>), SignatureError>)
    ensures
        match auth_header {
            None => (r matches Err(e) && e == SignatureError::MissingSignature),
            Some(None) => (r matches Err(e) && e == SignatureError::InvalidFormat),
            Some(Some(h)) => match r {
                Ok((sig, rid, msg)) => spec_header_parses(h@)
                    && parse_unsigned(signature_fields(h@).unwrap()[1], 255) == Some(rid as nat)
                    && Some(sig@) == hex_decoded(signature_fields(h@).unwrap()[0])
                    && Some(msg@) == hex_decoded(signature_fields(h@).unwrap()[2]),
                Err(e) => !spec_header_parses(h@) && e == SignatureError::InvalidFormat,
            },
        },
{
    let header = match auth_header {
        None => {
            return Err(SignatureError::MissingSignature);
        },
        Some(None) => {
            return Err(SignatureError::InvalidFormat);
        },
        Some(Some(h)) => h,
    };
    if !starts_with(header, "Signature ") {
        return Err(SignatureError::InvalidFormat);
    }
    proof {
        reveal_strlit("Signature ");
    }
    let signature_data = suffix_from(header, 10);
    let parts = split_chars(signature_data, '.');
    if parts.len() != 3 {
        return Err(SignatureError::InvalidFormat);
    }
    let p0 = string_from_chars(parts[0].as_slice());
    let p1 = string_from_chars(parts[1].as_slice());
    let p2 = string_from_chars(parts[2].as_slice());
    let signature_bytes = match hex_decode(p0.as_str()) {
        Some(b) => b,
        None => {
            return Err(SignatureError::InvalidFormat);
        },
    };
    let recovery_id_byte = match parse_u8(p1.as_str()) {
        Some(b) => b,
        None => {
            return Err(SignatureError::InvalidFormat);
        },
    };
    if recovery_id_from_byte(recovery_id_byte).is_none() {
        return Err(SignatureError::InvalidFormat);
    }
    let message = match hex_decode(p2.as_str()) {
        Some(m) => m,
        None => {
            return Err(SignatureError::InvalidFormat);
        },
    };
    Ok((signature_bytes, recovery_id_byte, message))
}

/// Recover the signer's address from a signature, recovery id (0 to 3) and
/// message: the message is hashed with SHA-256 and the key recovered from
/// the digest. A malformed signature is refused with InvalidSignature; a
/// failed recovery with RecoveryFailed.
pub fn recover_address(signature_bytes: &[u8], recovery_id: u8, message: &[u8]) -> (r: Result<[u8; 20], SignatureError>)
    requires
        recovery_id <= 3,
    ensures
        r == refusal(SignatureError::InvalidSignature) <==> !signature_bytes_valid(signature_bytes@),
        r is Err ==> r == refusal(SignatureError::InvalidSignature) || r == refusal(SignatureError::RecoveryFailed),
        match r {
            Ok(a) => recovered_signer(signature_bytes@, recovery_id, sha256_of(message@)) == Some(a@),
            Err(_) => recovered_signer(signature_bytes@, recovery_id, sha256_of(message@)) is None,
        },
{
    let digest = sha256_digest(message);
    recover_signer(signature_bytes, recovery_id, digest.as_slice())
}

/// Whether a connection's remote address (as text) is a loopback one, for
/// which signature authentication is skipped.
pub fn is_local_connection(remote_addr: &str) -> (r: bool)
    ensures
        r == (seq_starts_with(remote_addr@, "127.0.0.1"@) || seq_starts_with(remote_addr@, "::1"@)),
{
    starts_with(remote_addr, "127.0.0.1") || starts_with(remote_addr, "::1")
}

} // verus!
