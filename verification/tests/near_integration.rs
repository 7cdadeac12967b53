use fusion_htlc::ledger::CallContext;
use fusion_htlc::near_htlc::FusionHTLCContract;
use fusion_htlc::near_partial::FusionHTLCPartialContract;
use sha2::{Digest, Sha256};

const ONE_NEAR: u128 = 1_000_000_000_000_000_000_000_000;
const ONE_MILLINEAR: u128 = 1_000_000_000_000_000_000_000;

fn accounts(i: usize) -> String {
    ["alice", "bob", "charlie", "danny", "eugene", "fargo", "gloria"][i].to_string()
}

fn context(predecessor: String, attached_deposit: u128, block_timestamp: u64) -> CallContext {
    CallContext { predecessor, attached_deposit, block_timestamp }
}

fn hashlock_of(secret: &[u8]) -> String {
    let mut hasher = Sha256::new();
    hasher.update(secret);
    hex::encode(hasher.finalize())
}

#[test]
fn test_htlc_with_safety_deposit() {
    let ctx = context(accounts(1), ONE_NEAR, 1_000_000_000_000_000_000);
    let mut contract = FusionHTLCContract::new();

    let secret = "test_secret_123";
    let hashlock = hashlock_of(secret.as_bytes());

    let htlc_id = contract.create_htlc(&ctx, accounts(2), hashlock.clone(), 3600).unwrap();

    let htlc = contract.get_htlc(htlc_id).unwrap();
    assert_eq!(htlc.sender, accounts(1));
    assert_eq!(htlc.receiver, accounts(2));
    assert_eq!(htlc.amount, ONE_NEAR);
    assert!(!htlc.withdrawn);
    assert!(!htlc.refunded);

    let ctx = context(accounts(3), 100 * ONE_MILLINEAR, 1_000_000_000_000_000_000);
    let deposit_id = contract.create_safety_deposit(&ctx, htlc_id).unwrap();
    let deposit = contract.get_safety_deposit(deposit_id).unwrap();
    assert_eq!(deposit.resolver, accounts(3));
    assert_eq!(deposit.htlc_id, htlc_id);

    let transfer = contract.claim_safety_deposit(&ctx, deposit_id).unwrap();
    assert_eq!(transfer.to, accounts(3));
    assert_eq!(transfer.amount, 100 * ONE_MILLINEAR);
    assert!(contract.get_safety_deposit(deposit_id).is_none());
}

#[test]
fn test_htlc_by_hashlock_lookup() {
    let ctx = context(accounts(1), ONE_NEAR, 1_000_000_000_000_000_000);
    let mut contract = FusionHTLCContract::new();
    let hashlock = hex::encode([1u8; 32]);

    let htlc_id = contract.create_htlc(&ctx, accounts(2), hashlock.clone(), 3600).unwrap();

    let htlc = contract.get_htlc_by_hashlock(&hashlock).unwrap();
    assert_eq!(htlc.id, htlc_id);
}

#[test]
fn test_token_htlc_creation() {
    let ctx = context(accounts(1), 0, 1_000_000_000_000_000_000);
    let mut contract = FusionHTLCContract::new();
    let token_id = accounts(4);
    let amount = 10 * ONE_NEAR;
    let hashlock = hex::encode([2u8; 32]);

    let htlc_id = contract
        .create_token_htlc(&ctx, token_id.clone(), amount, accounts(2), hashlock, 7200)
        .unwrap();

    let htlc = contract.get_htlc(htlc_id).unwrap();
    assert_eq!(htlc.token_id, Some(token_id));
    assert_eq!(htlc.amount, amount);
}

#[test]
fn test_partial_fill_creation() {
    let ctx = context(accounts(1), 10 * ONE_NEAR, 1_000_000_000_000_000_000);
    let mut contract = FusionHTLCPartialContract::new();
    let hashlock = hex::encode([3u8; 32]);

    let htlc_id =
        contract.create_htlc_partial(&ctx, accounts(2), hashlock, 3600, true, ONE_NEAR).unwrap();

    let htlc = contract.get_htlc_partial(htlc_id).unwrap();
    assert!(htlc.allow_partial_fills);
    assert_eq!(htlc.total_amount, 10 * ONE_NEAR);
    assert_eq!(htlc.remaining_amount, 10 * ONE_NEAR);

    let ctx = context(accounts(3), 3 * ONE_NEAR, 1_000_000_000_000_000_000);
    let receipt = contract.create_partial_fill(&ctx, htlc_id, 3 * ONE_NEAR).unwrap();

    let fill = contract.get_partial_fill(receipt.fill_id).unwrap();
    assert_eq!(fill.filler, accounts(3));
    assert_eq!(fill.amount, 3 * ONE_NEAR);
    assert!(!fill.claimed);

    let htlc = contract.get_htlc_partial(htlc_id).unwrap();
    assert_eq!(htlc.remaining_amount, 7 * ONE_NEAR);
    assert_eq!(htlc.fills.len(), 1);
}

#[test]
fn test_partial_fill_withdrawal() {
    let ctx = context(accounts(1), 5 * ONE_NEAR, 1_000_000_000_000_000_000);
    let mut contract = FusionHTLCPartialContract::new();

    let secret = "partial_secret";
    let hashlock = hashlock_of(secret.as_bytes());

    let htlc_id =
        contract.create_htlc_partial(&ctx, accounts(2), hashlock, 3600, true, ONE_NEAR).unwrap();

    let ctx = context(accounts(3), 2 * ONE_NEAR, 1_000_000_000_000_000_000);
    let receipt = contract.create_partial_fill(&ctx, htlc_id, 2 * ONE_NEAR).unwrap();

    let ctx = context(accounts(2), 0, 1_000_000_000_000_000_000 + 1800_000_000_000);
    let transfer = contract.withdraw_partial_fill(&ctx, receipt.fill_id, hex::encode(secret)).unwrap();
    assert_eq!(transfer.to, accounts(2));
    assert_eq!(transfer.amount, 2 * ONE_NEAR);

    let fill = contract.get_partial_fill(receipt.fill_id).unwrap();
    assert!(fill.claimed);
    assert_eq!(fill.secret, Some(hex::encode(secret)));
}

#[test]
fn test_partial_fill_refund() {
    let ctx = context(accounts(1), 5 * ONE_NEAR, 1_000_000_000_000_000_000);
    let mut contract = FusionHTLCPartialContract::new();
    let hashlock = hex::encode([4u8; 32]);

    let htlc_id =
        contract.create_htlc_partial(&ctx, accounts(2), hashlock, 3600, true, ONE_NEAR).unwrap();

    let ctx = context(accounts(3), 2 * ONE_NEAR, 1_000_000_000_000_000_000);
    let receipt = contract.create_partial_fill(&ctx, htlc_id, 2 * ONE_NEAR).unwrap();

    let ctx = context(accounts(3), 0, 1_000_000_000_000_000_000 + 7200_000_000_000);
    let transfer = contract.refund_partial_fill(&ctx, receipt.fill_id).unwrap();
    assert_eq!(transfer.to, accounts(3));
    assert_eq!(transfer.amount, 2 * ONE_NEAR);

    // The fill stays on record, marked as refunded, and what it had reserved
    // is available again.
    let fill = contract.get_partial_fill(receipt.fill_id).unwrap();
    assert!(fill.refunded);
    assert!(!fill.claimed);
    let htlc = contract.get_htlc_partial(htlc_id).unwrap();
    assert_eq!(htlc.remaining_amount, 5 * ONE_NEAR);
    assert_eq!(htlc.filled_amount, 0);
}

#[test]
fn test_multiple_partial_fills() {
    let ctx = context(accounts(1), 10 * ONE_NEAR, 1_000_000_000_000_000_000);
    let mut contract = FusionHTLCPartialContract::new();
    let hashlock = hex::encode([5u8; 32]);

    let htlc_id =
        contract.create_htlc_partial(&ctx, accounts(2), hashlock, 3600, true, ONE_NEAR).unwrap();

    let fill_amounts: Vec<u128> = vec![2, 3, 1, 4];
    let mut fill_ids = vec![];

    for (i, amount) in fill_amounts.iter().enumerate() {
        let ctx = context(accounts(3 + i), *amount * ONE_NEAR, 1_000_000_000_000_000_000);
        let receipt = contract.create_partial_fill(&ctx, htlc_id, *amount * ONE_NEAR).unwrap();
        fill_ids.push(receipt.fill_id);
    }

    let htlc = contract.get_htlc_partial(htlc_id).unwrap();
    assert_eq!(htlc.fills.len(), 4);
    assert_eq!(htlc.remaining_amount, 0);
    assert_eq!(htlc.fills, fill_ids);

    let filler_fills = contract.get_filler_fills(&accounts(3));
    assert_eq!(filler_fills.len(), 1);
    assert_eq!(filler_fills[0].amount, 2 * ONE_NEAR);
}
