use fusion_htlc::ledger::CallContext;
use fusion_htlc::near_htlc::{FusionHTLCContract, HtlcError};
use fusion_htlc::near_plus::{FusionPlusContract, HTLCStatus};
use fusion_htlc::near_simple::FusionHTLC;
use sha2::{Digest, Sha256};

const ONE_NEAR: u128 = 1_000_000_000_000_000_000_000_000;

fn accounts(i: usize) -> String {
    ["alice", "bob", "charlie", "danny", "eugene", "fargo"][i].to_string()
}

fn context(predecessor: String, attached_deposit: u128, block_timestamp: u64) -> CallContext {
    CallContext { predecessor, attached_deposit, block_timestamp }
}

fn hashlock_of(secret: &[u8]) -> String {
    let mut hasher = Sha256::new();
    hasher.update(secret);
    hex::encode(hasher.finalize())
}

#[test]
fn fusion_htlc_test_create_and_withdraw_htlc() {
    let ctx = context(accounts(1), 1_000_000_000_000_000_000_000_000, 1_000_000_000_000_000_000);
    let mut contract = FusionHTLCContract::new();

    let secret = "my_secret_value";
    let secret_bytes = secret.as_bytes();
    let hashlock = hashlock_of(secret_bytes);

    let htlc_id = contract.create_htlc(&ctx, accounts(2), hashlock.clone(), 3600).unwrap();

    let htlc = contract.get_htlc(htlc_id).unwrap();
    assert_eq!(htlc.sender, accounts(1));
    assert_eq!(htlc.receiver, accounts(2));
    assert_eq!(htlc.amount, 1_000_000_000_000_000_000_000_000);

    let ctx = context(accounts(2), 0, 1_000_000_000_000_000_000);
    let secret_hex = hex::encode(secret_bytes);
    let transfer = contract.withdraw(&ctx, htlc_id, secret_hex).unwrap();
    assert_eq!(transfer.to, accounts(2));
    assert_eq!(transfer.amount, ONE_NEAR);

    let htlc = contract.get_htlc(htlc_id).unwrap();
    assert!(htlc.withdrawn);
    assert!(htlc.secret.is_some());
}

#[test]
fn test_refund_after_timeout() {
    let ctx = context(accounts(1), 1_000_000_000_000_000_000_000_000, 1_000_000_000_000_000_000);
    let mut contract = FusionHTLCContract::new();

    let hashlock = hex::encode([0u8; 32]);
    let htlc_id = contract.create_htlc(&ctx, accounts(2), hashlock, 3600).unwrap();

    // Two hours on a clock that starts at zero lie before the deadline of an
    // HTLC that was created at second 1_000_000_000: nothing is refunded yet.
    let ctx = context(accounts(1), 0, 2 * 3600 * 1_000_000_000);
    assert_eq!(contract.refund(&ctx, htlc_id), Err(HtlcError::NotExpired));
    assert!(!contract.get_htlc(htlc_id).unwrap().refunded);

    // Two hours after the creation the deadline has passed.
    let ctx = context(accounts(1), 0, 1_000_000_000_000_000_000 + 2 * 3600 * 1_000_000_000);
    let transfer = contract.refund(&ctx, htlc_id).unwrap();
    assert_eq!(transfer.to, accounts(1));
    assert_eq!(transfer.amount, ONE_NEAR);

    let htlc = contract.get_htlc(htlc_id).unwrap();
    assert!(htlc.refunded);
}

#[test]
fn test_create_and_withdraw() {
    let ctx = context(accounts(1), 1_000_000_000_000_000_000_000_000, 1_000_000_000_000_000_000);
    let mut contract = FusionHTLC::new();

    let secret = "mysecret";
    let hashlock = hashlock_of(secret.as_bytes());

    let htlc_id = contract.create_htlc(&ctx, accounts(2), hashlock.clone(), 3600).unwrap();

    assert!(contract.htlc_exists(htlc_id));
    assert!(contract.can_withdraw(&ctx, htlc_id));

    let ctx = context(accounts(2), 0, 1_000_000_000_000_000_000 + 1800_000_000_000);
    contract.withdraw(&ctx, htlc_id, hex::encode(secret)).unwrap();

    assert!(!contract.can_withdraw(&ctx, htlc_id));
    assert!(!contract.can_refund(&ctx, htlc_id));
}

#[test]
fn test_refund() {
    let ctx = context(accounts(1), 1_000_000_000_000_000_000_000_000, 1_000_000_000_000_000_000);
    let mut contract = FusionHTLC::new();
    let hashlock = hex::encode([0u8; 32]);
    let htlc_id = contract.create_htlc(&ctx, accounts(2), hashlock, 3600).unwrap();

    let ctx = context(accounts(1), 0, 1_000_000_000_000_000_000 + 7200_000_000_000);
    let transfer = contract.refund(&ctx, htlc_id).unwrap();
    assert_eq!(transfer.to, accounts(1));
    assert_eq!(transfer.amount, ONE_NEAR);

    assert!(!contract.can_withdraw(&ctx, htlc_id));
    assert!(!contract.can_refund(&ctx, htlc_id));
}

#[test]
fn fusion_plus_test_create_and_withdraw_htlc() {
    let ctx = context(accounts(1), ONE_NEAR, 1_000_000_000_000_000_000);
    let mut contract = FusionPlusContract::new();

    let secret = "mysecret";
    let hashlock = hashlock_of(secret.as_bytes());

    let htlc_id =
        contract.create_htlc(&ctx, accounts(2), hashlock.clone(), 3600, false, None, false).unwrap();

    assert!(contract.get_htlc(htlc_id).is_some());
    assert!(contract.can_withdraw(&ctx, htlc_id));

    let ctx = context(accounts(2), 0, 1_000_000_000_000_000_000 + 1800_000_000_000);
    contract.withdraw(&ctx, htlc_id, hex::encode(secret)).unwrap();

    let htlc = contract.get_htlc(htlc_id).unwrap();
    assert_eq!(htlc.status, HTLCStatus::Completed);
}

#[test]
fn test_partial_fills() {
    let ctx = context(accounts(1), 10 * ONE_NEAR, 1_000_000_000_000_000_000);
    let mut contract = FusionPlusContract::new();
    let hashlock = hex::encode([1u8; 32]);

    let htlc_id = contract
        .create_htlc(&ctx, accounts(2), hashlock, 3600, true, Some(ONE_NEAR), false)
        .unwrap();

    let ctx = context(accounts(3), 3 * ONE_NEAR, 1_000_000_000_000_000_000);
    let receipt = contract.create_partial_fill(&ctx, htlc_id, 3 * ONE_NEAR).unwrap();
    assert_eq!(receipt.fill_id, 1);
    assert_eq!(receipt.excess, 0);

    let fills = contract.get_partial_fills(htlc_id);
    assert_eq!(fills.len(), 1);
    assert_eq!(fills[0].amount, 3 * ONE_NEAR);
}
