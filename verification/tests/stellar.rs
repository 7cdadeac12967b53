use fusion_htlc::multi_token_htlc::MultiTokenHTLC;
use fusion_htlc::partial_fill_htlc::{FillError, PartialFillHTLC};
use fusion_htlc::relayer_contract::{FusionRelayer as SimpleRelayer, OrderStatus as SimpleStatus, RelayerError};
use fusion_htlc::stellar_htlc::{FusionHTLC, LockError, TokenTransfer};
use fusion_htlc::stellar_relayer::{FusionRelayer, OrderStatus};
use fusion_htlc::stellar_simple::SimpleHTLCContract;
use fusion_htlc::test_contract::TestContract;
use fusion_htlc::utils::{
    bridge_order_storage_key, hash_secret, is_chain_supported, is_timelock_expired,
    swap_storage_key, validate_secret_hash, validate_timelock_duration,
};

const NOW: u64 = 1_000_000;

fn secret() -> [u8; 32] {
    [42u8; 32]
}

fn s(text: &str) -> String {
    text.to_string()
}

#[test]
fn token_htlc_is_withdrawn_by_the_receiver_with_the_secret() {
    let mut c = FusionHTLC::initialize(s("admin"));
    let id = c
        .create_htlc(NOW, s("sender"), s("receiver"), s("token"), 500, hash_secret(&secret()), NOW + 100)
        .unwrap();
    assert_eq!(id, 1);
    assert!(c.htlc_exists(1));
    assert!(!c.htlc_exists(0));
    assert!(!c.htlc_exists(2));
    assert_eq!(c.get_htlc_count(), 1);

    assert_eq!(c.withdraw(NOW, &s("receiver"), id, [0u8; 32]), Err(LockError::InvalidSecret));
    assert_eq!(c.withdraw(NOW, &s("sender"), id, secret()), Err(LockError::Unauthorized));
    assert_eq!(c.withdraw(NOW + 100, &s("receiver"), id, secret()), Err(LockError::TimelockExpired));
    assert_eq!(c.withdraw(NOW, &s("receiver"), 2, secret()), Err(LockError::NotFound));
    assert_eq!(c.refund(NOW + 99, &s("sender"), id), Err(LockError::TimelockNotExpired));
    assert!(!c.get_htlc(id).unwrap().withdrawn);

    let transfer = c.withdraw(NOW + 99, &s("receiver"), id, secret()).unwrap();
    assert_eq!(transfer, TokenTransfer { token: s("token"), to: s("receiver"), amount: 500 });
    let htlc = c.get_htlc(id).unwrap();
    assert!(htlc.withdrawn && !htlc.refunded);
    assert_eq!(htlc.secret, Some(secret()));
    assert_eq!(c.withdraw(NOW, &s("receiver"), id, secret()), Err(LockError::AlreadyWithdrawn));
    assert_eq!(c.refund(NOW + 200, &s("sender"), id), Err(LockError::AlreadyWithdrawn));
}

#[test]
fn token_htlc_is_refunded_once_after_the_deadline() {
    let mut c = FusionHTLC::initialize(s("admin"));
    let id = c
        .create_htlc(NOW, s("sender"), s("receiver"), s("token"), 500, hash_secret(&secret()), NOW + 100)
        .unwrap();
    assert_eq!(c.refund(NOW + 100, &s("receiver"), id), Err(LockError::Unauthorized));
    assert_eq!(c.refund(NOW + 100, &s("sender"), 3), Err(LockError::NotFound));
    let transfer = c.refund(NOW + 100, &s("sender"), id).unwrap();
    assert_eq!(transfer, TokenTransfer { token: s("token"), to: s("sender"), amount: 500 });
    assert_eq!(c.refund(NOW + 101, &s("sender"), id), Err(LockError::AlreadyRefunded));
    assert_eq!(c.withdraw(NOW, &s("receiver"), id, secret()), Err(LockError::AlreadyRefunded));
}

#[test]
fn token_htlc_creation_bounds_amount_and_timelock() {
    let mut c = FusionHTLC::initialize(s("admin"));
    let mut create = |amount: i128, timelock: u64| {
        c.create_htlc(NOW, s("a"), s("b"), s("t"), amount, [0u8; 32], timelock)
    };
    assert_eq!(create(0, NOW + 1), Err(LockError::AmountNotPositive));
    assert_eq!(create(-1, NOW + 1), Err(LockError::AmountNotPositive));
    assert_eq!(create(1, NOW), Err(LockError::TimelockNotInFuture));
    assert_eq!(create(1, NOW - 1), Err(LockError::TimelockNotInFuture));
    assert_eq!(create(1, NOW + 86401), Err(LockError::TimelockTooFar));
    assert_eq!(create(1, NOW + 86400), Ok(1));
    assert_eq!(create(1, NOW + 1), Ok(2));
}

#[test]
fn simple_htlc_takes_its_terms_as_they_are() {
    let mut c = SimpleHTLCContract::new();
    let id = c.create_simple_htlc(s("sender"), s("receiver"), s("token"), 5, hash_secret(&secret()), NOW);
    assert_eq!(id, 1);
    assert_eq!(c.withdraw(NOW, &s("receiver"), id, secret()), Err(LockError::TimelockExpired));
    assert_eq!(c.withdraw(NOW - 1, &s("receiver"), id, [1u8; 32]), Err(LockError::InvalidSecret));
    assert_eq!(c.withdraw(NOW - 1, &s("x"), id, secret()), Err(LockError::Unauthorized));
    assert_eq!(c.refund(NOW - 1, &s("sender"), id), Err(LockError::TimelockNotExpired));
    let transfer = c.withdraw(NOW - 1, &s("receiver"), id, secret()).unwrap();
    assert_eq!(transfer.amount, 5);
    assert!(c.get_htlc(id).unwrap().withdrawn);
    assert_eq!(c.refund(NOW, &s("sender"), id), Err(LockError::AlreadyWithdrawn));

    let id = c.create_simple_htlc(s("sender"), s("receiver"), s("token"), 6, [0u8; 32], NOW);
    assert_eq!(c.refund(NOW, &s("x"), id), Err(LockError::Unauthorized));
    assert_eq!(c.refund(NOW, &s("sender"), id).unwrap().to, "sender");
    assert_eq!(c.refund(NOW, &s("sender"), id), Err(LockError::AlreadyRefunded));
    assert_eq!(c.refund(NOW, &s("sender"), 9), Err(LockError::NotFound));
    assert!(c.get_htlc(9).is_none());
}

#[test]
fn multi_token_htlc_checks_the_token() {
    let mut c = MultiTokenHTLC::initialize(s("admin"));
    assert_eq!(
        c.add_token(&s("mallory"), s("usdc"), s("USDC"), 6, 10, 1000),
        Err(LockError::Unauthorized)
    );
    c.add_token(&s("admin"), s("usdc"), s("USDC"), 6, 10, 1000).unwrap();
    c.add_token(&s("admin"), s("xlm"), s("XLM"), 7, 1, 50).unwrap();
    c.add_token(&s("admin"), s("usdc"), s("USDC"), 6, 20, 2000).unwrap();
    assert_eq!(c.get_supported_tokens(), vec![s("usdc"), s("xlm")]);
    assert_eq!(c.get_token_config(&s("usdc")).unwrap().min_amount, 20);
    assert!(c.get_token_config(&s("btc")).is_none());

    let mut create = |c: &mut MultiTokenHTLC, token: &str, amount: i128, timelock: u64| {
        c.create_htlc(NOW, s("sender"), s("receiver"), s(token), amount, hash_secret(&secret()), timelock)
    };
    assert_eq!(create(&mut c, "btc", 100, NOW + 5), Err(LockError::TokenNotSupported));
    assert_eq!(create(&mut c, "usdc", 19, NOW + 5), Err(LockError::AmountBelowMinimum));
    assert_eq!(create(&mut c, "usdc", 2001, NOW + 5), Err(LockError::AmountAboveMaximum));
    assert_eq!(create(&mut c, "usdc", 100, NOW), Err(LockError::TimelockNotInFuture));
    assert_eq!(c.update_token(&s("admin"), &s("btc"), true, 1, 2), Err(LockError::TokenNotFound));
    assert_eq!(c.update_token(&s("mallory"), &s("usdc"), false, 1, 2), Err(LockError::Unauthorized));
    c.update_token(&s("admin"), &s("usdc"), false, -5, 2000).unwrap();
    assert_eq!(create(&mut c, "usdc", 100, NOW + 5), Err(LockError::TokenDisabled));
    c.update_token(&s("admin"), &s("usdc"), true, -5, 2000).unwrap();
    assert_eq!(create(&mut c, "usdc", 0, NOW + 5), Err(LockError::AmountNotPositive));
    c.set_paused(&s("admin"), true).unwrap();
    assert_eq!(create(&mut c, "usdc", 100, NOW + 5), Err(LockError::Paused));
    assert_eq!(c.set_paused(&s("mallory"), false), Err(LockError::Unauthorized));
    c.set_paused(&s("admin"), false).unwrap();
    assert_eq!(create(&mut c, "usdc", 100, NOW + 5), Ok(1));

    assert_eq!(c.withdraw(NOW, &s("receiver"), 1, [0u8; 32]), Err(LockError::InvalidSecret));
    let transfer = c.withdraw(NOW, &s("receiver"), 1, secret()).unwrap();
    assert_eq!(transfer, TokenTransfer { token: s("usdc"), to: s("receiver"), amount: 100 });
    assert_eq!(create(&mut c, "xlm", 50, NOW + 5), Ok(2));
    assert_eq!(c.refund(NOW + 5, &s("sender"), 2).unwrap().token, "xlm");
    assert!(c.get_htlc(2).unwrap().refunded);
}

#[test]
fn partial_fill_htlc_adds_up() {
    let mut c = PartialFillHTLC::initialize(s("admin"), 10, 2);
    let id = c
        .create_partial_htlc(NOW, s("sender"), s("receiver"), s("token"), 1000, 100, hash_secret(&secret()), NOW + 50, false)
        .unwrap();
    c.deposit_collateral(s("resolver"), 600).unwrap();
    assert_eq!(c.get_deposit(&s("resolver")), 600);
    assert_eq!(c.get_deposit(&s("nobody")), 0);

    assert_eq!(c.fill_htlc(NOW, id, s("resolver"), 99, secret()), Err(FillError::BelowMinimumFill));
    assert_eq!(c.fill_htlc(NOW, id, s("resolver"), 1001, secret()), Err(FillError::ExceedsTotal));
    assert_eq!(c.fill_htlc(NOW, id, s("resolver"), 400, [0u8; 32]), Err(FillError::InvalidSecret));
    assert_eq!(c.fill_htlc(NOW, id, s("nobody"), 400, secret()), Err(FillError::InsufficientDeposit));
    assert_eq!(c.fill_htlc(NOW, id, s("resolver"), 601, secret()), Err(FillError::InsufficientDeposit));
    assert_eq!(c.fill_htlc(NOW + 50, id, s("resolver"), 400, secret()), Err(FillError::TimelockExpired));
    assert_eq!(c.fill_htlc(NOW, 3, s("resolver"), 400, secret()), Err(FillError::NotFound));
    assert_eq!(c.get_htlc(id).unwrap().filled_amount, 0);

    let transfer = c.fill_htlc(NOW, id, s("resolver"), 400, secret()).unwrap();
    assert_eq!(transfer, TokenTransfer { token: s("token"), to: s("resolver"), amount: 400 });
    let htlc = c.get_htlc(id).unwrap();
    assert_eq!((htlc.filled_amount, htlc.completed, htlc.fills.len()), (400, false, 1));
    assert_eq!(htlc.fills[0].secret, Some(secret()));
    assert_eq!(
        c.withdraw_filled(&s("receiver"), id, secret()),
        Err(FillError::PartialWithdrawNotAllowed)
    );
    assert_eq!(c.fill_htlc(NOW, id, s("resolver"), 601, secret()), Err(FillError::ExceedsTotal));
    c.fill_htlc(NOW + 1, id, s("resolver"), 600, secret()).unwrap();
    let htlc = c.get_htlc(id).unwrap();
    assert_eq!((htlc.filled_amount, htlc.completed, htlc.fills.len()), (1000, true, 2));
    assert_eq!(htlc.fills.iter().map(|f| f.amount).sum::<i128>(), htlc.filled_amount);
    assert_eq!(htlc.fills[1].timestamp, NOW + 1);

    assert_eq!(c.withdraw_filled(&s("receiver"), id, secret()), Ok(1000));
    assert_eq!(c.withdraw_filled(&s("sender"), id, secret()), Err(FillError::Unauthorized));
    assert_eq!(c.withdraw_filled(&s("receiver"), id, [0u8; 32]), Err(FillError::InvalidSecret));
    assert_eq!(c.withdraw_filled(&s("receiver"), 9, secret()), Err(FillError::NotFound));
    assert_eq!(c.fill_htlc(NOW, id, s("resolver"), 100, secret()), Err(FillError::AlreadyClosed));
    assert_eq!(c.refund_unfilled(NOW + 50, &s("sender"), id), Err(FillError::AlreadyCompleted));
}

#[test]
fn partial_fill_htlc_refunds_what_is_unfilled() {
    let mut c = PartialFillHTLC::initialize(s("admin"), 10, 2);
    let create = |c: &mut PartialFillHTLC, total: i128, min: i128, timelock: u64| {
        c.create_partial_htlc(NOW, s("sender"), s("receiver"), s("token"), total, min, hash_secret(&secret()), timelock, true)
    };
    assert_eq!(create(&mut c, 0, 1, NOW + 1), Err(FillError::AmountNotPositive));
    assert_eq!(create(&mut c, 5, 0, NOW + 1), Err(FillError::InvalidMinFill));
    assert_eq!(create(&mut c, 5, 6, NOW + 1), Err(FillError::InvalidMinFill));
    assert_eq!(create(&mut c, 5, 5, NOW), Err(FillError::TimelockNotInFuture));
    let id = create(&mut c, 1000, 100, NOW + 50).unwrap();
    c.deposit_collateral(s("resolver"), 300).unwrap();
    c.fill_htlc(NOW, id, s("resolver"), 300, secret()).unwrap();
    assert_eq!(c.withdraw_filled(&s("receiver"), id, secret()), Ok(300));

    assert_eq!(c.refund_unfilled(NOW + 49, &s("sender"), id), Err(FillError::TimelockNotExpired));
    assert_eq!(c.refund_unfilled(NOW + 50, &s("receiver"), id), Err(FillError::Unauthorized));
    assert_eq!(c.refund_unfilled(NOW + 50, &s("sender"), 4), Err(FillError::NotFound));
    let transfer = c.refund_unfilled(NOW + 50, &s("sender"), id).unwrap();
    assert_eq!(transfer, TokenTransfer { token: s("token"), to: s("sender"), amount: 700 });
    assert_eq!(c.refund_unfilled(NOW + 51, &s("sender"), id), Err(FillError::AlreadyRefunded));
    assert_eq!(c.fill_htlc(NOW, id, s("resolver"), 100, secret()), Err(FillError::AlreadyClosed));
    let htlc = c.get_htlc(id).unwrap();
    assert_eq!((htlc.filled_amount, htlc.total_amount, htlc.refunded), (300, 1000, true));
}

#[test]
fn collateral_is_deposited_and_withdrawn() {
    let mut c = PartialFillHTLC::initialize(s("admin"), 10, 2);
    assert_eq!(c.withdraw_collateral(&s("r"), 1), Err(FillError::NoDeposit));
    assert_eq!(c.deposit_collateral(s("r"), -1), Err(FillError::NegativeAmount));
    c.deposit_collateral(s("r"), 100).unwrap();
    c.deposit_collateral(s("q"), 5).unwrap();
    c.deposit_collateral(s("r"), 50).unwrap();
    assert_eq!((c.get_deposit(&s("r")), c.get_deposit(&s("q"))), (150, 5));
    assert_eq!(c.deposit_collateral(s("r"), i128::MAX), Err(FillError::DepositOverflow));
    assert_eq!(c.withdraw_collateral(&s("r"), 151), Err(FillError::InsufficientDeposit));
    assert_eq!(c.withdraw_collateral(&s("r"), -1), Err(FillError::NegativeAmount));
    c.withdraw_collateral(&s("r"), 150).unwrap();
    assert_eq!((c.get_deposit(&s("r")), c.get_deposit(&s("q"))), (0, 5));
    assert_eq!(c.withdraw_collateral(&s("r"), 1), Err(FillError::InsufficientDeposit));
}

#[test]
fn relayer_order_is_filled_in_parts_and_completed_with_the_secret() {
    let mut c = FusionRelayer::initialize_relayer(s("admin"), s("htlc"));
    let id = c
        .create_order(NOW, s("alice"), s("0xbob"), s("token"), 1000, 100, hash_secret(&secret()), NOW + 3601, 2, s("0xtoken"), 1_000_000)
        .unwrap();
    let order = c.get_order(id).unwrap();
    assert_eq!(order.relayer_fee, 5);
    assert_eq!((order.filled_amount, order.remaining_amount), (0, 1000));
    assert_eq!(order.status, OrderStatus::Active);

    assert_eq!(c.fill_order(NOW, 7, id, &s("relayer"), 400), Err(RelayerError::RelayerNotAuthorized));
    assert_eq!(c.authorize_relayer(&s("mallory"), s("relayer")), Err(RelayerError::Unauthorized));
    c.authorize_relayer(&s("admin"), s("relayer")).unwrap();
    c.authorize_relayer(&s("admin"), s("relayer")).unwrap();
    assert_eq!(c.relayers.len(), 1);
    assert!(c.is_relayer_authorized(&s("relayer")));
    assert!(!c.is_relayer_authorized(&s("other")));

    assert_eq!(c.fill_order(NOW, 7, 5, &s("relayer"), 400), Err(RelayerError::NotFound));
    assert_eq!(c.fill_order(NOW, 7, id, &s("relayer"), 99), Err(RelayerError::FillTooSmall));
    assert_eq!(c.fill_order(NOW, 7, id, &s("relayer"), 1001), Err(RelayerError::FillExceedsRemaining));
    assert_eq!(c.fill_order(NOW + 3601, 7, id, &s("relayer"), 400), Err(RelayerError::Expired));

    assert_eq!(c.fill_order(NOW, 7, id, &s("relayer"), 400), Ok(8));
    let order = c.get_order(id).unwrap();
    assert_eq!((order.filled_amount, order.remaining_amount), (400, 600));
    assert_eq!(order.status, OrderStatus::PartiallyFilled);
    assert_eq!(c.fill_order(NOW, 9, id, &s("relayer"), 600), Ok(10));
    let order = c.get_order(id).unwrap();
    assert_eq!((order.filled_amount, order.remaining_amount), (1000, 0));
    assert_eq!(order.filled_amount + order.remaining_amount, order.total_amount);
    assert_eq!(order.status, OrderStatus::PartiallyFilled);
    assert_eq!(order.htlc_ids, vec![8, 10]);
    assert_eq!(c.fill_order(NOW, 9, id, &s("relayer"), 100), Err(RelayerError::FillExceedsRemaining));

    assert_eq!(c.complete_order(id, [0u8; 32]), Err(RelayerError::InvalidSecret));
    assert_eq!(c.complete_order(3, secret()), Err(RelayerError::NotFound));
    let returned = c.complete_order(id, secret()).unwrap().unwrap();
    assert_eq!(returned, TokenTransfer { token: s("token"), to: s("alice"), amount: 1_000_000 });
    let done = c.get_order(id).unwrap().clone();
    assert_eq!(done.status, OrderStatus::Completed);
    assert_eq!(c.complete_order(id, secret()), Err(RelayerError::AlreadyCompleted));
    assert_eq!(c.cancel_order(NOW + 4000, &s("alice"), id), Err(RelayerError::AlreadyCompleted));
    assert_eq!(c.fill_order(NOW, 9, id, &s("relayer"), 100), Err(RelayerError::NotFillable));
    assert_eq!(*c.get_order(id).unwrap(), done);
    assert_eq!(c.get_order_count(), 1);
}

#[test]
fn relayer_order_is_cancelled_once_after_expiry() {
    let mut c = FusionRelayer::initialize_relayer(s("admin"), s("htlc"));
    let mut create = |amount: i128, min: i128, timelock: u64, deposit: i128| {
        c.create_order(NOW, s("alice"), s("0xbob"), s("token"), amount, min, [0u8; 32], timelock, 2, s("0xtoken"), deposit)
    };
    assert_eq!(create(0, 1, NOW + 3601, 1_000_000), Err(RelayerError::AmountNotPositive));
    assert_eq!(create(10, 0, NOW + 3601, 1_000_000), Err(RelayerError::InvalidMinFill));
    assert_eq!(create(10, 11, NOW + 3601, 1_000_000), Err(RelayerError::InvalidMinFill));
    assert_eq!(create(10, 1, NOW + 3600, 1_000_000), Err(RelayerError::TimelockTooSoon));
    assert_eq!(create(10, 1, 5, 1_000_000), Err(RelayerError::TimelockTooSoon));
    assert_eq!(create(10, 1, NOW + 3601, 999_999), Err(RelayerError::SafetyDepositTooLow));
    assert_eq!(create(10, 1, NOW + 3601, 1_000_000), Ok(1));

    assert_eq!(c.cancel_order(NOW + 3600, &s("alice"), 1), Err(RelayerError::NotExpired));
    assert_eq!(c.cancel_order(NOW + 3601, &s("bob"), 1), Err(RelayerError::Unauthorized));
    assert_eq!(c.cancel_order(NOW + 3601, &s("alice"), 2), Err(RelayerError::NotFound));
    let returned = c.cancel_order(NOW + 3601, &s("alice"), 1).unwrap().unwrap();
    assert_eq!(returned.amount, 1_000_000);
    assert_eq!(c.get_order(1).unwrap().status, OrderStatus::Cancelled);
    assert_eq!(c.cancel_order(NOW + 3602, &s("alice"), 1), Err(RelayerError::AlreadyCancelled));
    assert_eq!(c.complete_order(1, [0u8; 32]), Err(RelayerError::AlreadyCancelled));
}

#[test]
fn plain_relayer_order_returns_the_deposit_once() {
    let mut c = SimpleRelayer::initialize(s("admin"), s("htlc"));
    assert_eq!(
        c.create_order(NOW, s("alice"), s("0xbob"), s("token"), 0, [0u8; 32], NOW + 3601, 2, s("t"), 1_000_000),
        Err(RelayerError::AmountNotPositive)
    );
    assert_eq!(
        c.create_order(NOW, s("alice"), s("0xbob"), s("token"), 5, [0u8; 32], NOW + 3600, 2, s("t"), 1_000_000),
        Err(RelayerError::TimelockTooSoon)
    );
    assert_eq!(
        c.create_order(NOW, s("alice"), s("0xbob"), s("token"), 5, [0u8; 32], NOW + 3601, 2, s("t"), 1),
        Err(RelayerError::SafetyDepositTooLow)
    );
    let id = c
        .create_order(NOW, s("alice"), s("0xbob"), s("token"), 10000, hash_secret(&secret()), NOW + 3601, 2, s("t"), 2_000_000)
        .unwrap();
    assert_eq!(c.get_order(id).unwrap().relayer_fee, 50);
    assert_eq!(c.get_order(id).unwrap().status, SimpleStatus::Active);
    assert_eq!(c.complete_order(id, [1u8; 32]), Err(RelayerError::InvalidSecret));
    assert_eq!(c.complete_order(id, secret()).unwrap().unwrap().amount, 2_000_000);
    assert_eq!(c.get_order(id).unwrap().status, SimpleStatus::Completed);
    assert_eq!(c.complete_order(id, secret()), Err(RelayerError::AlreadyCompleted));
    assert_eq!(c.cancel_order(NOW + 3601, &s("alice"), id), Err(RelayerError::AlreadyCompleted));

    let id = c
        .create_order(NOW, s("alice"), s("0xbob"), s("token"), 10000, hash_secret(&secret()), NOW + 3601, 2, s("t"), 2_000_000)
        .unwrap();
    assert_eq!(c.cancel_order(NOW, &s("alice"), id), Err(RelayerError::NotExpired));
    assert_eq!(c.cancel_order(NOW + 3601, &s("eve"), id), Err(RelayerError::Unauthorized));
    assert!(c.cancel_order(NOW + 3601, &s("alice"), id).unwrap().is_some());
    assert_eq!(c.cancel_order(NOW + 3601, &s("alice"), id), Err(RelayerError::AlreadyCancelled));
    assert_eq!(c.complete_order(id, secret()), Err(RelayerError::AlreadyCancelled));
    assert_eq!(c.get_order_count(), 2);
    c.authorize_relayer(&s("admin"), s("r")).unwrap();
    assert!(c.is_relayer_authorized(&s("r")));
    assert_eq!(c.authorize_relayer(&s("r"), s("q")), Err(RelayerError::Unauthorized));
}

#[test]
fn small_checks_answer_as_documented() {
    assert!(!is_chain_supported(0));
    assert!(is_chain_supported(1));
    assert!(is_chain_supported(10));
    assert!(!is_chain_supported(11));
    assert!(is_timelock_expired(10, 10));
    assert!(is_timelock_expired(11, 10));
    assert!(!is_timelock_expired(9, 10));
    assert!(!validate_timelock_duration(NOW, NOW + 3599));
    assert!(validate_timelock_duration(NOW, NOW + 3600));
    assert!(validate_timelock_duration(NOW, NOW + 86400));
    assert!(!validate_timelock_duration(NOW, NOW + 86401));
    assert!(!validate_timelock_duration(NOW, NOW - 1));
    assert!(!validate_timelock_duration(u64::MAX, u64::MAX));
    assert!(validate_secret_hash(&[3u8; 32]));
    assert_eq!(swap_storage_key(5), [0u8; 32]);
    assert_eq!(bridge_order_storage_key(6), [0u8; 32]);
    assert_eq!(TestContract::hello(s("world")), "world");
}

#[test]
fn errors_describe_themselves() {
    assert_eq!(LockError::TimelockExpired.message(), "Timelock expired");
    assert_eq!(FillError::InsufficientDeposit.message(), "Insufficient deposit");
    assert_eq!(RelayerError::FillTooSmall.message(), "Fill amount too small");
    assert_eq!(
        fusion_htlc::staged_htlc::StagedError::NotAuthorizedToWithdraw.message(),
        "Not authorized to withdraw at this stage"
    );
    assert_eq!(
        fusion_htlc::atomic_swap::ContractError::SwapAlreadyRefunded.message(),
        "Swap already refunded"
    );
    assert_eq!(
        fusion_htlc::cross_chain_bridge::ContractError::ChainNotSupported.message(),
        "Chain not supported"
    );
    assert_eq!(
        fusion_htlc::resolver::ContractError::InsufficientSafetyDeposit.message(),
        "Insufficient safety deposit"
    );
    assert_eq!(fusion_htlc::near_htlc::HtlcError::InvalidHexSecret.message(), "Invalid hex secret");
    assert_eq!(fusion_htlc::near_simple::SimpleError::AlreadyProcessed.message(), "Already processed");
    assert_eq!(fusion_htlc::near_partial::PartialError::NotFiller.message(), "Not the filler");
    assert_eq!(fusion_htlc::near_plus::PlusError::NoFills.message(), "No fills found");
}
