use fusion_htlc::ledger::CallContext;
use fusion_htlc::near_partial::{FusionHTLCPartialContract, PartialError};
use fusion_htlc::near_plus::{FillStatus, FusionPlusContract, HTLCStatus, PlusError};
use sha2::{Digest, Sha256};

const START: u64 = 1_000_000_000_000_000_000;
const SECOND: u64 = 1_000_000_000;

fn ctx(who: &str, attached: u128, block_timestamp: u64) -> CallContext {
    CallContext { predecessor: who.to_string(), attached_deposit: attached, block_timestamp }
}

fn hashlock_of(secret: &[u8]) -> String {
    hex::encode(Sha256::digest(secret))
}

fn plus_with_order(total: u128, min_fill: u128) -> (FusionPlusContract, u64) {
    let mut contract = FusionPlusContract::new();
    let id = contract
        .create_htlc(
            &ctx("sender", total, START),
            "receiver".to_string(),
            hashlock_of(b"secret"),
            3600,
            true,
            Some(min_fill),
            true,
        )
        .unwrap();
    (contract, id)
}

#[test]
fn two_fills_that_are_both_withdrawn_complete_the_order() {
    let (mut contract, id) = plus_with_order(1000, 100);
    let secret = hex::encode(b"secret");

    let a = contract.create_partial_fill(&ctx("filler-a", 400, START), id, 400).unwrap();
    let htlc = contract.get_htlc(id).unwrap();
    assert_eq!((htlc.filled_amount, htlc.remaining_amount), (400, 600));
    assert_eq!(htlc.status, HTLCStatus::PartiallyFilled);
    let b = contract.create_partial_fill(&ctx("filler-b", 650, START), id, 600).unwrap();
    assert_eq!(b.excess, 50);
    let htlc = contract.get_htlc(id).unwrap();
    assert_eq!((htlc.filled_amount, htlc.remaining_amount), (1000, 0));
    // Fully committed, but not completed before the secret is revealed.
    assert_eq!(htlc.status, HTLCStatus::PartiallyFilled);
    assert_eq!(htlc.secret, None);

    let receiver = ctx("receiver", 0, START + 10 * SECOND);
    let transfer = contract.withdraw_partial(&receiver, id, a.fill_id, secret.clone()).unwrap();
    assert_eq!((transfer.to.as_str(), transfer.amount), ("receiver", 400));
    let htlc = contract.get_htlc(id).unwrap();
    assert_eq!(htlc.status, HTLCStatus::PartiallyFilled);
    assert_eq!(htlc.secret, Some(secret.clone()));

    let transfer = contract.withdraw_partial(&receiver, id, b.fill_id, secret.clone()).unwrap();
    assert_eq!(transfer.amount, 600);
    let htlc = contract.get_htlc(id).unwrap();
    assert_eq!(htlc.status, HTLCStatus::Completed);
    assert_eq!(htlc.remaining_amount, 0);
    assert_eq!(htlc.filled_amount + htlc.remaining_amount, htlc.total_amount);
    assert!(contract.all_fills_completed(id));
    assert_eq!(contract.get_stats(), (1000, 1, 0));

    // Nothing moves any more.
    let done = htlc.clone();
    assert_eq!(
        contract.withdraw_partial(&receiver, id, a.fill_id, secret.clone()),
        Err(PlusError::FillAlreadyProcessed)
    );
    assert_eq!(
        contract.create_partial_fill(&ctx("filler-c", 100, START), id, 100),
        Err(PlusError::NotActive)
    );
    assert_eq!(
        contract.refund(&ctx("sender", 0, START + 4000 * SECOND), id),
        Err(PlusError::AlreadyProcessed)
    );
    assert_eq!(*contract.get_htlc(id).unwrap(), done);
}

#[test]
fn fills_are_bounded_by_minimum_and_remainder() {
    let (mut contract, id) = plus_with_order(1000, 100);
    let fill = |c: &mut FusionPlusContract, attached: u128, amount: u128, t: u64| {
        c.create_partial_fill(&ctx("filler", attached, t), id, amount)
    };
    assert_eq!(fill(&mut contract, 99, 99, START), Err(PlusError::BelowMinimum));
    assert_eq!(fill(&mut contract, 1001, 1001, START), Err(PlusError::ExceedsRemaining));
    assert_eq!(fill(&mut contract, 99, 100, START), Err(PlusError::InsufficientDeposit));
    assert_eq!(fill(&mut contract, 100, 100, START + 3600 * SECOND), Err(PlusError::Expired));
    assert_eq!(
        contract.create_partial_fill(&ctx("filler", 100, START), 9, 100),
        Err(PlusError::HtlcNotFound)
    );
    assert_eq!(contract.get_partial_fills(id).len(), 0);
    assert_eq!(contract.get_htlc(id).unwrap().remaining_amount, 1000);

    assert!(fill(&mut contract, 100, 100, START).is_ok());
    assert!(fill(&mut contract, 900, 900, START + 3599 * SECOND).is_ok());
    assert_eq!(fill(&mut contract, 100, 100, START), Err(PlusError::ExceedsRemaining));
    let htlc = contract.get_htlc(id).unwrap();
    assert_eq!(htlc.filled_amount + htlc.remaining_amount, htlc.total_amount);
}

#[test]
fn a_refunded_fill_gives_back_what_it_reserved() {
    let (mut contract, id) = plus_with_order(1000, 100);
    let a = contract.create_partial_fill(&ctx("filler-a", 400, START), id, 400).unwrap();
    let b = contract.create_partial_fill(&ctx("filler-b", 600, START), id, 600).unwrap();
    let late = START + 3600 * SECOND;

    assert_eq!(
        contract.refund_partial_fill(&ctx("filler-a", 0, START), id, a.fill_id),
        Err(PlusError::NotExpired)
    );
    assert_eq!(
        contract.refund_partial_fill(&ctx("filler-b", 0, late), id, a.fill_id),
        Err(PlusError::NotFiller)
    );
    assert_eq!(
        contract.refund_partial_fill(&ctx("filler-a", 0, late), id, 9),
        Err(PlusError::FillNotFound)
    );
    let transfer = contract.refund_partial_fill(&ctx("filler-a", 0, late), id, a.fill_id).unwrap();
    assert_eq!((transfer.to.as_str(), transfer.amount), ("filler-a", 400));
    let htlc = contract.get_htlc(id).unwrap();
    assert_eq!((htlc.filled_amount, htlc.remaining_amount), (600, 400));
    assert_eq!(contract.get_partial_fills(id)[0].status, FillStatus::Refunded);
    assert_eq!(contract.get_partial_fills(id)[1].status, FillStatus::Pending);
    assert_eq!(
        contract.refund_partial_fill(&ctx("filler-a", 0, late), id, a.fill_id),
        Err(PlusError::FillAlreadyProcessed)
    );

    // Once the order itself is refunded, a fill that is refunded no longer
    // changes its books.
    let refund = contract.refund(&ctx("sender", 0, late), id).unwrap();
    assert_eq!((refund.to.as_str(), refund.amount), ("sender", 400));
    assert_eq!(contract.get_htlc(id).unwrap().status, HTLCStatus::Refunded);
    let transfer = contract.refund_partial_fill(&ctx("filler-b", 0, late), id, b.fill_id).unwrap();
    assert_eq!(transfer.amount, 600);
    let htlc = contract.get_htlc(id).unwrap();
    assert_eq!((htlc.filled_amount, htlc.remaining_amount), (600, 400));
    assert_eq!(htlc.status, HTLCStatus::Refunded);
    assert_eq!(contract.refund(&ctx("sender", 0, late), id), Err(PlusError::AlreadyProcessed));
}

#[test]
fn whole_withdrawal_needs_the_receiver_and_the_secret() {
    let mut contract = FusionPlusContract::new();
    let id = contract
        .create_htlc(
            &ctx("sender", 500, START),
            "receiver".to_string(),
            hashlock_of(b"secret"),
            3600,
            false,
            None,
            false,
        )
        .unwrap();
    let good = hex::encode(b"secret");
    let soon = START + SECOND;
    assert_eq!(
        contract.withdraw(&ctx("sender", 0, soon), id, good.clone()),
        Err(PlusError::NotReceiver)
    );
    assert_eq!(
        contract.withdraw(&ctx("receiver", 0, soon), id, hex::encode(b"wrong")),
        Err(PlusError::InvalidSecret)
    );
    assert_eq!(
        contract.withdraw(&ctx("receiver", 0, soon), id, "secret".to_string()),
        Err(PlusError::InvalidHexSecret)
    );
    assert_eq!(
        contract.withdraw(&ctx("receiver", 0, START + 3600 * SECOND), id, good.clone()),
        Err(PlusError::Expired)
    );
    assert_eq!(
        contract.withdraw(&ctx("receiver", 0, soon), 5, good.clone()),
        Err(PlusError::HtlcNotFound)
    );
    assert_eq!(contract.get_htlc(id).unwrap().status, HTLCStatus::Active);
    assert_eq!(
        contract.create_partial_fill(&ctx("filler", 500, START), id, 500),
        Err(PlusError::PartialFillsNotAllowed)
    );
    assert_eq!(
        contract.refund(&ctx("sender", 0, soon), id),
        Err(PlusError::NotExpired)
    );
    assert_eq!(
        contract.refund(&ctx("receiver", 0, START + 3600 * SECOND), id),
        Err(PlusError::NotSender)
    );
    let transfer = contract.withdraw(&ctx("receiver", 0, soon), id, good.clone()).unwrap();
    assert_eq!(transfer.amount, 500);
    assert_eq!(
        contract.withdraw(&ctx("receiver", 0, soon), id, good),
        Err(PlusError::NotActive)
    );

    let (mut partial, pid) = plus_with_order(1000, 100);
    assert_eq!(
        partial.withdraw(&ctx("receiver", 0, soon), pid, hex::encode(b"secret")),
        Err(PlusError::UsePartialWithdraw)
    );
}

#[test]
fn plus_creation_validates_its_input() {
    let mut contract = FusionPlusContract::new();
    let create = |c: &mut FusionPlusContract,
                  amount: u128,
                  hashlock: String,
                  timelock: u64,
                  partial: bool,
                  min: Option<u128>| {
        c.create_htlc(&ctx("sender", amount, START), "receiver".to_string(), hashlock, timelock, partial, min, true)
    };
    let h = hashlock_of(b"x");
    assert_eq!(create(&mut contract, 0, h.clone(), 3600, false, None), Err(PlusError::ZeroAmount));
    assert_eq!(
        create(&mut contract, 5, "abc".to_string(), 3600, false, None),
        Err(PlusError::InvalidHashlock)
    );
    assert_eq!(create(&mut contract, 5, h.clone(), 3599, false, None), Err(PlusError::InvalidTimelock));
    assert_eq!(
        create(&mut contract, 5, h.clone(), 2592001, false, None),
        Err(PlusError::InvalidTimelock)
    );
    assert_eq!(create(&mut contract, 5, h.clone(), 3600, true, None), Err(PlusError::InvalidMinFill));
    assert_eq!(
        create(&mut contract, 50, h.clone(), 3600, true, Some(51)),
        Err(PlusError::InvalidMinFill)
    );
    assert_eq!(
        create(&mut contract, 50, h.clone(), 3600, true, Some(0)),
        Err(PlusError::InvalidMinFill)
    );
    assert_eq!(contract.get_stats(), (0, 0, 0));

    assert_eq!(create(&mut contract, 1000, h.clone(), 2592000, true, None), Ok(1));
    let htlc = contract.get_htlc(1).unwrap();
    assert_eq!(htlc.min_fill_amount, 100);
    assert_eq!(htlc.safety_deposit_amount, 50);
    assert_eq!(htlc.timelock, START / SECOND + 2592000);
    assert_eq!(create(&mut contract, 77, h.clone(), 3600, false, Some(5)), Ok(2));
    assert_eq!(contract.get_htlc(2).unwrap().min_fill_amount, 77);
    assert_eq!(contract.get_stats(), (1077, 2, 2));
    assert_eq!(contract.get_htlc_by_hashlock(&h).unwrap().id, 2);
    assert!(contract.get_htlc_by_hashlock(&hashlock_of(b"y")).is_none());
}

#[test]
fn safety_deposits_are_claimed_once_by_the_depositor() {
    let (mut contract, id) = plus_with_order(1000, 100);
    assert_eq!(
        contract.create_safety_deposit(&ctx("resolver", 49, START), id),
        Err(PlusError::InsufficientDeposit)
    );
    assert_eq!(
        contract.create_safety_deposit(&ctx("resolver", 50, START), 4),
        Err(PlusError::HtlcNotFound)
    );
    let first = contract.create_safety_deposit(&ctx("resolver", 50, START), id).unwrap();
    let second = contract.create_safety_deposit(&ctx("other", 60, START), id).unwrap();
    assert_eq!((first, second), (1, 2));
    assert_eq!(
        contract.claim_safety_deposit(&ctx("other", 0, START), first),
        Err(PlusError::NotDepositor)
    );
    let transfer = contract.claim_safety_deposit(&ctx("resolver", 0, START), first).unwrap();
    assert_eq!((transfer.to.as_str(), transfer.amount), ("resolver", 50));
    assert_eq!(
        contract.claim_safety_deposit(&ctx("resolver", 0, START), first),
        Err(PlusError::DepositNotFound)
    );
    assert_eq!(contract.claim_safety_deposit(&ctx("other", 0, START), second).unwrap().amount, 60);

    let mut plain = FusionPlusContract::new();
    let pid = plain
        .create_htlc(&ctx("s", 500, START), "r".to_string(), hashlock_of(b"x"), 3600, false, None, false)
        .unwrap();
    assert_eq!(
        plain.create_safety_deposit(&ctx("resolver", 50, START), pid),
        Err(PlusError::DepositNotRequired)
    );
}

#[test]
fn listings_are_paged() {
    let mut contract = FusionPlusContract::new();
    for i in 0..5u128 {
        let receiver = if i % 2 == 0 { "even" } else { "odd" };
        contract
            .create_htlc(
                &ctx("sender", 100 + i, START),
                receiver.to_string(),
                hashlock_of(&[i as u8]),
                3600,
                false,
                None,
                false,
            )
            .unwrap();
    }
    contract
        .create_htlc(&ctx("even", 7, START), "even".to_string(), hashlock_of(b"z"), 3600, false, None, false)
        .unwrap();
    let ids = |page: Vec<&fusion_htlc::near_plus::FusionHTLC>| -> Vec<u64> {
        page.iter().map(|h| h.id).collect()
    };
    assert_eq!(ids(contract.get_user_htlcs(&"even".to_string(), 0, 10)), vec![1, 3, 5, 6, 6]);
    assert_eq!(ids(contract.get_user_htlcs(&"even".to_string(), 1, 2)), vec![3, 5]);
    assert_eq!(ids(contract.get_user_htlcs(&"odd".to_string(), 0, 1)), vec![2]);
    assert_eq!(ids(contract.get_user_htlcs(&"sender".to_string(), 4, 10)), vec![5]);
    assert_eq!(ids(contract.get_user_htlcs(&"sender".to_string(), 9, 10)), Vec::<u64>::new());
    assert_eq!(ids(contract.get_user_htlcs(&"nobody".to_string(), 0, 10)), Vec::<u64>::new());
    assert_eq!(ids(contract.get_user_htlcs(&"sender".to_string(), 0, u64::MAX)), vec![1, 2, 3, 4, 5]);

    contract.refund(&ctx("sender", 0, START + 3600 * SECOND), 2).unwrap();
    assert_eq!(ids(contract.get_active_htlcs(0, 10)), vec![1, 3, 4, 5, 6]);
    assert_eq!(ids(contract.get_active_htlcs(2, 2)), vec![4, 5]);
    assert_eq!(ids(contract.get_active_htlcs(5, 2)), Vec::<u64>::new());
    assert_eq!(contract.get_stats().2, 5);
    assert!(contract.can_withdraw(&ctx("x", 0, START), 1));
    assert!(!contract.can_withdraw(&ctx("x", 0, START), 2));
    assert!(!contract.can_refund(&ctx("x", 0, START + 3600 * SECOND), 2));
    assert!(contract.can_refund(&ctx("x", 0, START + 3600 * SECOND), 1));
    assert!(!contract.can_refund(&ctx("x", 0, START + 3599 * SECOND), 1));
    assert!(!contract.can_withdraw(&ctx("x", 0, START), 99));
}

#[test]
fn partial_contract_keeps_its_books() {
    let mut contract = FusionHTLCPartialContract::new();
    let id = contract
        .create_htlc_partial(
            &ctx("sender", 1000, START),
            "receiver".to_string(),
            hashlock_of(b"secret"),
            3600,
            true,
            100,
        )
        .unwrap();
    let secret = hex::encode(b"secret");
    let a = contract.create_partial_fill(&ctx("fa", 400, START), id, 400).unwrap();
    let b = contract.create_partial_fill(&ctx("fb", 700, START), id, 600).unwrap();
    assert_eq!(b.excess, 100);
    assert_eq!(
        contract.create_partial_fill(&ctx("fc", 100, START), id, 100),
        Err(PartialError::ExceedsRemaining)
    );
    let tag_a = contract.get_partial_fill(a.fill_id).unwrap().secret_hash.clone();
    let tag_b = contract.get_partial_fill(b.fill_id).unwrap().secret_hash.clone();
    assert_eq!(tag_a, hashlock_of(b"htlc_1_fa_1"));
    assert_eq!(tag_b, hashlock_of(b"htlc_1_fb_2"));

    let receiver = ctx("receiver", 0, START + SECOND);
    assert_eq!(
        contract.withdraw_partial_fill(&ctx("fa", 0, START), a.fill_id, secret.clone()),
        Err(PartialError::NotReceiver)
    );
    assert_eq!(
        contract.withdraw_partial_fill(&receiver, a.fill_id, hex::encode(b"nope")),
        Err(PartialError::InvalidSecret)
    );
    assert_eq!(
        contract.withdraw_partial_fill(&receiver, a.fill_id, "xyz".to_string()),
        Err(PartialError::InvalidHexSecret)
    );
    assert_eq!(
        contract.withdraw_partial_fill(&receiver, 7, secret.clone()),
        Err(PartialError::FillNotFound)
    );
    assert_eq!(
        contract.withdraw_partial_fill(&ctx("receiver", 0, START + 3600 * SECOND), a.fill_id, secret.clone()),
        Err(PartialError::Expired)
    );
    assert!(!contract.get_partial_fill(a.fill_id).unwrap().claimed);

    contract.withdraw_partial_fill(&receiver, a.fill_id, secret.clone()).unwrap();
    assert!(!contract.get_htlc_partial(id).unwrap().withdrawn);
    contract.withdraw_partial_fill(&receiver, b.fill_id, secret.clone()).unwrap();
    let htlc = contract.get_htlc_partial(id).unwrap();
    assert!(htlc.withdrawn);
    assert_eq!((htlc.filled_amount, htlc.remaining_amount, htlc.total_amount), (1000, 0, 1000));
    assert_eq!(
        contract.withdraw_partial_fill(&receiver, b.fill_id, secret.clone()),
        Err(PartialError::FillAlreadyClaimed)
    );
    assert_eq!(
        contract.refund_partial_fill(&ctx("fb", 0, START + 3600 * SECOND), b.fill_id),
        Err(PartialError::FillAlreadyClaimed)
    );
    assert_eq!(
        contract.create_partial_fill(&ctx("fc", 100, START), id, 100),
        Err(PartialError::AlreadyWithdrawn)
    );
    let fills = contract.get_htlc_fills(id);
    assert_eq!(fills.len(), 2);
    assert_eq!((fills[0].fill_id, fills[1].fill_id), (a.fill_id, b.fill_id));
    assert!(contract.get_htlc_fills(9).is_empty());
}

#[test]
fn partial_contract_validates_creation_and_refunds() {
    let mut contract = FusionHTLCPartialContract::new();
    let h = hashlock_of(b"x");
    let create = |c: &mut FusionHTLCPartialContract, amount: u128, hl: String, t: u64, p: bool, m: u128| {
        c.create_htlc_partial(&ctx("sender", amount, START), "receiver".to_string(), hl, t, p, m)
    };
    assert_eq!(create(&mut contract, 0, h.clone(), 3600, true, 1), Err(PartialError::ZeroAmount));
    assert_eq!(
        create(&mut contract, 5, "short".to_string(), 3600, true, 1),
        Err(PartialError::InvalidHashlockLength)
    );
    assert_eq!(create(&mut contract, 5, h.clone(), 10, true, 1), Err(PartialError::InvalidTimelock));
    assert_eq!(create(&mut contract, 5, h.clone(), 3600, true, 0), Err(PartialError::InvalidMinimumFill));
    assert_eq!(create(&mut contract, 5, h.clone(), 3600, true, 6), Err(PartialError::InvalidMinimumFill));
    assert_eq!(create(&mut contract, 5, h.clone(), 3600, false, 0), Ok(1));
    assert_eq!(contract.get_htlc_partial(1).unwrap().min_fill_amount, 5);
    assert_eq!(
        contract.create_partial_fill(&ctx("f", 5, START), 1, 5),
        Err(PartialError::PartialFillsNotAllowed)
    );
    assert_eq!(
        contract.create_partial_fill(&ctx("f", 5, START), 2, 5),
        Err(PartialError::HtlcNotFound)
    );
    assert_eq!(create(&mut contract, 500, h.clone(), 3600, true, 50), Ok(2));
    assert_eq!(
        contract.create_partial_fill(&ctx("f", 49, START), 2, 49),
        Err(PartialError::BelowMinimum)
    );
    assert_eq!(
        contract.create_partial_fill(&ctx("f", 49, START), 2, 50),
        Err(PartialError::InsufficientDeposit)
    );
    assert_eq!(
        contract.create_partial_fill(&ctx("f", 50, START + 3600 * SECOND), 2, 50),
        Err(PartialError::Expired)
    );
    let receipt = contract.create_partial_fill(&ctx("f", 50, START), 2, 50).unwrap();
    assert_eq!(
        contract.refund_partial_fill(&ctx("f", 0, START), receipt.fill_id),
        Err(PartialError::NotExpired)
    );
    assert_eq!(
        contract.refund_partial_fill(&ctx("g", 0, START + 3600 * SECOND), receipt.fill_id),
        Err(PartialError::NotFiller)
    );
    assert_eq!(
        contract.refund_partial_fill(&ctx("f", 0, START + 3600 * SECOND), 8),
        Err(PartialError::FillNotFound)
    );
    contract.refund_partial_fill(&ctx("f", 0, START + 3600 * SECOND), receipt.fill_id).unwrap();
    assert_eq!(
        contract.refund_partial_fill(&ctx("f", 0, START + 3600 * SECOND), receipt.fill_id),
        Err(PartialError::FillAlreadyRefunded)
    );
    assert_eq!(
        contract.withdraw_partial_fill(&ctx("receiver", 0, START), receipt.fill_id, hex::encode(b"x")),
        Err(PartialError::FillAlreadyRefunded)
    );
    let htlc = contract.get_htlc_partial(2).unwrap();
    assert_eq!((htlc.filled_amount, htlc.remaining_amount), (0, 500));
}
