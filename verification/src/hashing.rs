//! Secret verification: hashing a revealed preimage and comparing it with the
//! committed hashlock.
//!
//! Three encodings of the same scheme are supported. In each of them a single
//! fixed hash function is applied to the preimage and the full digest is
//! compared with the hashlock:
//!
//! * hex secrets: the secret is a hex string, SHA-256 is taken over the decoded
//!   bytes and the hashlock is the lower-case hex digest;
//! * text secrets: SHA-256 is taken over the UTF-8 bytes of the secret and the
//!   hashlock is the lower-case hex digest;
//! * raw secrets: Keccak-256 is taken over a 32-byte secret and the hashlock is
//!   the 32-byte digest.

use vstd::prelude::*;
use vstd::utf8::encode_utf8;

verus! {

/// The SHA-256 digest of a byte string.
pub uninterp spec fn sha256_digest(data: Seq<u8>) -> Seq<u8>;

/// The Keccak-256 digest of a byte string.
pub uninterp spec fn keccak256_digest(data: Seq<u8>) -> Seq<u8>;

/// The sixteen lower-case hex digits, in order of value.
pub open spec fn hex_alphabet() -> Seq<char> {
    seq!['0', '1', '2', '3', '4', '5', '6', '7', '8', '9', 'a', 'b', 'c', 'd', 'e', 'f']
}

/// The lower-case hex digit that stands for `n`, for `0 <= n < 16`.
pub open spec fn hex_digit(n: int) -> char {
    hex_alphabet()[n]
}

/// The value of a hex digit of either case; `-1` for any other character.
pub open spec fn hex_value(c: char) -> int {
    let n = c as int;
    if 0x30 <= n <= 0x39 {
        n - 0x30
    } else if 0x41 <= n <= 0x46 {
        n - 0x41 + 10
    } else if 0x61 <= n <= 0x66 {
        n - 0x61 + 10
    } else {
        -1
    }
}

/// Whether `c` is a hex digit of either case.
pub open spec fn is_hex_char(c: char) -> bool {
    hex_value(c) >= 0
}

/// Whether every character of `s` is a hex digit.
pub open spec fn all_hex(s: Seq<char>) -> bool {
    forall|i: int| 0 <= i < s.len() ==> is_hex_char(#[trigger] s[i])
}

/// The lower-case hex encoding of `bytes`: two digits per byte, high nibble first.
pub open spec fn hex_encode(bytes: Seq<u8>) -> Seq<char> {
    Seq::new(
        2 * bytes.len(),
        |i: int|
            if i % 2 == 0 {
                hex_digit(bytes[i / 2] as int / 16)
            } else {
                hex_digit(bytes[i / 2] as int % 16)
            },
    )
}

/// Whether `s` is the hex encoding of some byte string: an even number of hex digits.
pub open spec fn hex_decodable(s: Seq<char>) -> bool {
    s.len() % 2 == 0 && all_hex(s)
}

/// The bytes that a decodable hex string stands for.
pub open spec fn hex_decode(s: Seq<char>) -> Seq<u8> {
    Seq::new((s.len() / 2) as nat, |i: int| (16 * hex_value(s[2 * i]) + hex_value(s[2 * i + 1])) as u8)
}

/// The outcome of checking a revealed secret against a hashlock.
#[derive(Clone, Copy, Debug, PartialEq, Eq, Structural)]
pub enum SecretCheck {
    /// The digest of the secret equals the hashlock.
    Valid,
    /// The secret is well formed but its digest differs from the hashlock.
    Mismatch,
    /// The secret is not in the expected encoding, so no digest exists.
    Malformed,
}

/// The check of a hex-encoded secret against a hex hashlock.
pub open spec fn hex_secret_check(secret: Seq<char>, hashlock: Seq<char>) -> SecretCheck {
    if !hex_decodable(secret) {
        SecretCheck::Malformed
    } else if hex_encode(sha256_digest(hex_decode(secret))) == hashlock {
        SecretCheck::Valid
    } else {
        SecretCheck::Mismatch
    }
}

/// Whether the SHA-256 digest of the UTF-8 bytes of `secret`, in lower-case hex,
/// equals `hashlock`.
pub open spec fn text_secret_matches(secret: Seq<char>, hashlock: Seq<char>) -> bool {
    hex_encode(sha256_digest(encode_utf8(secret))) == hashlock
}

/// Whether the Keccak-256 digest of the 32-byte `secret` equals `hashlock`.
pub open spec fn raw_secret_matches(secret: Seq<u8>, hashlock: Seq<u8>) -> bool {
    keccak256_digest(secret) == hashlock
}

/// Calls `sha2::Sha256::digest` (the `Digest` trait of the `sha2` crate) on `data`.
/// The contract only gives the digest its name: the same bytes always hash to
/// the same digest.
#[verifier::external_body]
pub(crate) fn sha256(data: &[u8]) -> (digest: Vec<u8>)
    ensures
        digest@ == sha256_digest(data@),
{
    <sha2::Sha256 as sha2::Digest>::digest(data).to_vec()
}

/// Calls `soroban_sdk::crypto::Crypto::keccak256` on the 32 bytes of `data`.
/// The contract only gives the digest its name.
#[verifier::external_body]
pub(crate) fn keccak256(data: &[u8; 32]) -> (digest: [u8; 32])
    ensures
        digest@ == keccak256_digest(data@),
{
    let env = soroban_sdk::Env::default();
    let input = soroban_sdk::Bytes::from_array(&env, data);
    env.crypto().keccak256(&input).to_array()
}

/// Calls `hex::encode`: two lower-case hex digits per byte, high nibble first.
#[verifier::external_body]
pub(crate) fn hex_encode_bytes(data: &[u8]) -> (text: String)
    ensures
        text@ == hex_encode(data@),
{
    hex::encode(data)
}

/// Calls `hex::decode`. It succeeds exactly on an even number of hex digits of
/// either case and then yields one byte per pair of digits; any other input is
/// an error, which is returned as `None`.
#[verifier::external_body]
pub(crate) fn hex_decode_text(text: &str) -> (bytes: Option<Vec<u8>>)
    ensures
        bytes.is_some() == hex_decodable(text@),
        bytes matches Some(b) ==> b@ == hex_decode(text@),
{
    hex::decode(text).ok()
}

/// Whether two 32-byte strings are equal.
pub fn bytes32_eq(a: &[u8; 32], b: &[u8; 32]) -> (same: bool)
    ensures
        same == (a@ == b@),
{
    let mut i: usize = 0;
    while i < 32
        invariant
            i <= 32,
            forall|j: int| 0 <= j < i ==> a@[j] == b@[j],
        decreases 32 - i,
    {
        if a[i] != b[i] {
            return false;
        }
        i += 1;
    }
    assert(a@ =~= b@);
    true
}

/// Compares a SHA-256 digest, in lower-case hex, with a hashlock.
pub fn digest_matches(digest: &Vec<u8>, hashlock: &String) -> (same: bool)
    ensures
        same == (hex_encode(digest@) == hashlock@),
{
    let text = hex_encode_bytes(digest.as_slice());
    text == *hashlock
}

/// Checks a hex-encoded secret: decodes it, hashes the bytes with SHA-256 and
/// compares the hex digest with `hashlock`.
pub fn check_hex_secret(secret: &String, hashlock: &String) -> (outcome: SecretCheck)
    ensures
        outcome == hex_secret_check(secret@, hashlock@),
{
    match hex_decode_text(secret.as_str()) {
        None => SecretCheck::Malformed,
        Some(bytes) => {
            let digest = sha256(bytes.as_slice());
            if digest_matches(&digest, hashlock) {
                SecretCheck::Valid
            } else {
                SecretCheck::Mismatch
            }
        },
    }
}

/// Checks a text secret: hashes its UTF-8 bytes with SHA-256 and compares the
/// hex digest with `hashlock`.
pub fn check_text_secret(secret: &String, hashlock: &String) -> (ok: bool)
    ensures
        ok == text_secret_matches(secret@, hashlock@),
{
    let digest = sha256(secret.as_str().as_bytes());
    digest_matches(&digest, hashlock)
}

/// Checks a raw 32-byte secret: hashes it with Keccak-256 and compares the
/// digest with `hashlock`.
pub fn check_raw_secret(secret: &[u8; 32], hashlock: &[u8; 32]) -> (ok: bool)
    ensures
        ok == raw_secret_matches(secret@, hashlock@),
{
    let digest = keccak256(secret);
    bytes32_eq(&digest, hashlock)
}

/// The length of `text` in UTF-8 bytes, as the machine counts it.
pub open spec fn byte_len(text: Seq<char>) -> usize {
    encode_utf8(text).len() as usize
}

/// Whether `text` is a well-formed SHA-256 hashlock: exactly 64 hex digits.
pub open spec fn is_hashlock_text(text: Seq<char>) -> bool {
    text.len() == 64 && all_hex(text)
}

/// Validates the format of a SHA-256 hashlock: exactly 64 hex digits.
pub fn is_valid_hashlock(text: &String) -> (ok: bool)
    ensures
        ok == is_hashlock_text(text@),
{
    match hex_decode_text(text.as_str()) {
        None => false,
        Some(bytes) => bytes.len() == 32,
    }
}

} // verus!
