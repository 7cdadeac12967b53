use fusion_htlc::hashing::{
    bytes32_eq, check_hex_secret, check_raw_secret, check_text_secret, digest_matches,
    is_valid_hashlock, SecretCheck,
};
use fusion_htlc::utils::{hash_secret, verify_secret};
use sha2::{Digest, Sha256};

const SHA256_ABC: &str = "ba7816bf8f01cfea414140de5dae2223b00361a396177a9cb410ff61f20015ad";
const KECCAK_ZEROS: &str = "290decd9548b62a8d60345a988386fc84ba6bc95484008f6362f93160ef3e563";

fn bytes32(hex_text: &str) -> [u8; 32] {
    let bytes = hex::decode(hex_text).unwrap();
    let mut out = [0u8; 32];
    out.copy_from_slice(&bytes);
    out
}

#[test]
fn text_secret_is_hashed_with_sha256() {
    assert!(check_text_secret(&"abc".to_string(), &SHA256_ABC.to_string()));
    assert!(!check_text_secret(&"abd".to_string(), &SHA256_ABC.to_string()));
    // The digest is compared in lower case: an upper-case hashlock differs.
    assert!(!check_text_secret(&"abc".to_string(), &SHA256_ABC.to_uppercase()));
    // A secret is not its own digest.
    assert!(!check_text_secret(&SHA256_ABC.to_string(), &SHA256_ABC.to_string()));
}

#[test]
fn hex_secret_is_decoded_before_hashing() {
    let hashlock = SHA256_ABC.to_string();
    assert_eq!(check_hex_secret(&"616263".to_string(), &hashlock), SecretCheck::Valid);
    assert_eq!(check_hex_secret(&"616264".to_string(), &hashlock), SecretCheck::Mismatch);
    assert_eq!(check_hex_secret(&"61626".to_string(), &hashlock), SecretCheck::Malformed);
    assert_eq!(check_hex_secret(&"61zz63".to_string(), &hashlock), SecretCheck::Malformed);
    assert_eq!(check_hex_secret(&"abc".to_string(), &hashlock), SecretCheck::Malformed);
}

#[test]
fn hex_digits_of_either_case_decode_alike() {
    let lower = "6a6b6c".to_string();
    let upper = "6A6B6C".to_string();
    let mixed = "6a6B6c".to_string();
    let hashlock = hex::encode(Sha256::digest(b"jkl"));
    assert_eq!(check_hex_secret(&lower, &hashlock), SecretCheck::Valid);
    assert_eq!(check_hex_secret(&upper, &hashlock), SecretCheck::Valid);
    assert_eq!(check_hex_secret(&mixed, &hashlock), SecretCheck::Valid);
}

#[test]
fn digest_is_compared_as_lower_case_hex() {
    let digest = vec![0x00u8, 0x0f, 0xa0, 0xff];
    assert!(digest_matches(&digest, &"000fa0ff".to_string()));
    assert!(!digest_matches(&digest, &"000FA0FF".to_string()));
    assert!(!digest_matches(&digest, &"000fa0".to_string()));
}

#[test]
fn hashlock_has_sixty_four_hex_digits() {
    assert!(is_valid_hashlock(&SHA256_ABC.to_string()));
    assert!(is_valid_hashlock(&SHA256_ABC.to_uppercase()));
    assert!(!is_valid_hashlock(&SHA256_ABC[..62].to_string()));
    assert!(!is_valid_hashlock(&format!("{}00", SHA256_ABC)));
    assert!(!is_valid_hashlock(&format!("{}zz", &SHA256_ABC[..62])));
    assert!(!is_valid_hashlock(&String::new()));
}

#[test]
fn raw_secret_is_hashed_with_keccak256() {
    let secret = [0u8; 32];
    let hash = hash_secret(&secret);
    assert_eq!(hash, bytes32(KECCAK_ZEROS));
    assert!(verify_secret(&secret, &hash));
    assert!(check_raw_secret(&secret, &bytes32(KECCAK_ZEROS)));
    assert!(!check_raw_secret(&[1u8; 32], &bytes32(KECCAK_ZEROS)));
    // A secret is not its own digest.
    assert!(!verify_secret(&secret, &secret));
}

#[test]
fn thirty_two_bytes_compare_bytewise() {
    let a = [7u8; 32];
    let mut b = [7u8; 32];
    assert!(bytes32_eq(&a, &b));
    b[31] = 8;
    assert!(!bytes32_eq(&a, &b));
    b[31] = 7;
    b[0] = 6;
    assert!(!bytes32_eq(&a, &b));
}
