//! Small checks that the token contracts share.

use vstd::prelude::*;
use crate::hashing::{check_raw_secret, keccak256, keccak256_digest, raw_secret_matches};
use crate::types::{MAX_TIMELOCK_DURATION, MIN_TIMELOCK_DURATION};

pub use crate::fees::{calculate_protocol_fee, validate_amount};

verus! {

/// Whether `secret` hashes to `hash`.
pub fn verify_secret(secret: &[u8; 32], hash: &[u8; 32]) -> (ok: bool)
    ensures
        ok == raw_secret_matches(secret@, hash@),
{
    check_raw_secret(secret, hash)
}

/// The hash of `secret`: its Keccak-256 digest.
pub fn hash_secret(secret: &[u8; 32]) -> (hash: [u8; 32])
    ensures
        hash@ == keccak256_digest(secret@),
        raw_secret_matches(secret@, hash@),
{
    keccak256(secret)
}

/// Whether the timelock has been reached at `now`.
pub fn is_timelock_expired(now: u64, timelock: u64) -> (expired: bool)
    ensures
        expired == (now >= timelock),
{
    now >= timelock
}

/// Whether `timelock` lies at least the shortest and at most the longest
/// accepted duration after `now`.
pub fn validate_timelock_duration(now: u64, timelock: u64) -> (ok: bool)
    ensures
        ok == (now + MIN_TIMELOCK_DURATION <= timelock <= now + MAX_TIMELOCK_DURATION),
{
    timelock >= now && timelock - now >= MIN_TIMELOCK_DURATION && timelock - now
        <= MAX_TIMELOCK_DURATION
}

/// Accepts every secret hash: its length is fixed by its type.
pub fn validate_secret_hash(_hash: &[u8; 32]) -> (ok: bool)
    ensures
        ok,
{
    true
}

/// The storage key of a swap: the same for every swap.
pub fn swap_storage_key(_swap_id: u64) -> (key: [u8; 32])
    ensures
        forall|i: int| 0 <= i < 32 ==> key@[i] == 0,
{
    [0u8;32]
}

/// The storage key of a bridge order: the same for every order.
pub fn bridge_order_storage_key(_order_id: u64) -> (key: [u8; 32])
    ensures
        forall|i: int| 0 <= i < 32 ==> key@[i] == 0,
{
    [0u8;32]
}

/// Whether `chain_id` names one of the ten supported chains.
pub fn is_chain_supported(chain_id: u32) -> (supported: bool)
    ensures
        supported == (1 <= chain_id <= 10),
{
    chain_id >= 1 && chain_id <= 10
}

} // verus!
