use fusion_htlc::staged_htlc::{
    contains_address, current_status, update_htlc_status, FusionHTLCContract, HTLCStatus,
    StageDurations, StagedError,
};
use fusion_htlc::utils::hash_secret;

const NOW: u64 = 1_000_000;

fn durations() -> StageDurations {
    StageDurations {
        finality_delay: 100,
        taker_exclusive_duration: 200,
        private_resolver_duration: 300,
        public_resolver_duration: 400,
        private_cancellation_duration: 500,
    }
}

fn contract() -> FusionHTLCContract {
    FusionHTLCContract::initialize("admin".to_string(), 50, 600, 100_000)
}

fn secret() -> [u8; 32] {
    [9u8; 32]
}

fn create(contract: &mut FusionHTLCContract, amount: i128, fee: Option<u32>) -> u64 {
    contract
        .create_fusion_htlc(
            NOW,
            "sender".to_string(),
            "receiver".to_string(),
            "token".to_string(),
            amount,
            hash_secret(&secret()),
            "taker".to_string(),
            vec!["friend".to_string(), "ally".to_string()],
            durations(),
            fee,
        )
        .unwrap()
}

#[test]
fn stages_follow_the_boundaries() {
    let mut c = contract();
    let id = create(&mut c, 10000, None);
    let stage = |c: &FusionHTLCContract, t: u64| c.get_htlc_stage(t, id).unwrap();
    assert_eq!(stage(&c, NOW), HTLCStatus::Pending);
    assert_eq!(stage(&c, NOW + 99), HTLCStatus::Pending);
    assert_eq!(stage(&c, NOW + 100), HTLCStatus::TakerSettlement);
    assert_eq!(stage(&c, NOW + 101), HTLCStatus::TakerSettlement);
    assert_eq!(stage(&c, NOW + 299), HTLCStatus::TakerSettlement);
    assert_eq!(stage(&c, NOW + 300), HTLCStatus::PrivateSettlement);
    assert_eq!(stage(&c, NOW + 301), HTLCStatus::PrivateSettlement);
    assert_eq!(stage(&c, NOW + 599), HTLCStatus::PrivateSettlement);
    assert_eq!(stage(&c, NOW + 600), HTLCStatus::PublicSettlement);
    assert_eq!(stage(&c, NOW + 601), HTLCStatus::PublicSettlement);
    assert_eq!(stage(&c, NOW + 999), HTLCStatus::PublicSettlement);
    assert_eq!(stage(&c, NOW + 1000), HTLCStatus::PrivateCancellation);
    assert_eq!(stage(&c, NOW + 1001), HTLCStatus::PrivateCancellation);
    assert_eq!(stage(&c, NOW + 1499), HTLCStatus::PrivateCancellation);
    assert_eq!(stage(&c, NOW + 1500), HTLCStatus::PublicCancellation);
    assert_eq!(stage(&c, NOW + 1501), HTLCStatus::PublicCancellation);
    assert_eq!(stage(&c, u64::MAX), HTLCStatus::PublicCancellation);
    assert_eq!(c.get_htlc_stage(NOW, 7), Err(StagedError::NotFound));

    let htlc = c.htlc_record(id).unwrap();
    assert_eq!(htlc.finality_time, NOW + 100);
    assert_eq!(htlc.taker_deadline, NOW + 300);
    assert_eq!(htlc.public_deadline, NOW + 600);
    assert_eq!(htlc.cancellation_start, NOW + 1000);
    assert_eq!(htlc.cancellation_public, NOW + 1500);
    assert_eq!(htlc.status, HTLCStatus::Pending);
    assert_eq!(htlc.resolver_fee_bps, 50);
}

#[test]
fn reading_an_htlc_stores_its_refreshed_stage() {
    let mut c = contract();
    let id = create(&mut c, 10000, None);
    assert_eq!(c.get_htlc(NOW + 650, id), Ok(HTLCStatus::PublicSettlement));
    assert_eq!(c.htlc_record(id).unwrap().status, HTLCStatus::PublicSettlement);
    // Refreshing again at the same time changes nothing.
    let once = c.htlc_record(id).unwrap().clone();
    assert_eq!(c.get_htlc(NOW + 650, id), Ok(HTLCStatus::PublicSettlement));
    assert_eq!(*c.htlc_record(id).unwrap(), once);

    let mut copy = once.clone();
    update_htlc_status(&mut copy, NOW + 1200);
    assert_eq!(copy.status, HTLCStatus::PrivateCancellation);
    assert_eq!(current_status(&copy, NOW + 50), HTLCStatus::Pending);
    assert_eq!(c.get_htlc(NOW, 3), Err(StagedError::NotFound));
}

#[test]
fn an_outsider_must_wait_for_the_public_stage() {
    let mut c = contract();
    c.add_global_resolver(&"admin".to_string(), "global".to_string(), 1, 10).unwrap();
    let id = create(&mut c, 10000, None);
    let private = NOW + 400;
    assert_eq!(c.get_htlc_stage(private, id), Ok(HTLCStatus::PrivateSettlement));
    let before = c.htlc_record(id).unwrap().clone();
    assert_eq!(
        c.withdraw(private, id, "outsider".to_string(), secret()),
        Err(StagedError::NotAuthorizedToWithdraw)
    );
    assert_eq!(*c.htlc_record(id).unwrap(), before);

    let public = NOW + 600;
    assert_eq!(c.get_htlc_stage(public, id), Ok(HTLCStatus::PublicSettlement));
    let payout = c.withdraw(public, id, "outsider".to_string(), secret()).unwrap();
    assert_eq!(payout.receiver, "receiver");
    assert_eq!(payout.receiver_amount, 9950);
    assert_eq!(payout.settler, "outsider");
    assert_eq!(payout.resolver_fee, 50);
    let done = c.htlc_record(id).unwrap();
    assert_eq!(done.status, HTLCStatus::Completed);
    assert_eq!(done.secret, Some(secret()));
    assert_eq!(done.withdrawn_by, Some("outsider".to_string()));
}

#[test]
fn the_private_stage_admits_taker_whitelist_and_global_resolvers() {
    for who in ["taker", "friend", "ally", "global"] {
        let mut c = contract();
        c.add_global_resolver(&"admin".to_string(), "global".to_string(), 1, 10).unwrap();
        let id = create(&mut c, 10000, None);
        let payout = c.withdraw(NOW + 400, id, who.to_string(), secret()).unwrap();
        assert_eq!(payout.settler, who);
        assert_eq!(payout.resolver_fee, 50);
    }
}

#[test]
fn the_taker_stage_admits_the_taker_only() {
    let mut c = contract();
    c.add_global_resolver(&"admin".to_string(), "global".to_string(), 1, 10).unwrap();
    let id = create(&mut c, 10000, None);
    let t = NOW + 100;
    for who in ["friend", "global", "receiver", "sender", "outsider"] {
        assert_eq!(
            c.withdraw(t, id, who.to_string(), secret()),
            Err(StagedError::NotAuthorizedToWithdraw)
        );
    }
    assert_eq!(
        c.withdraw(NOW + 99, id, "taker".to_string(), secret()),
        Err(StagedError::NotAuthorizedToWithdraw)
    );
    assert!(c.withdraw(t, id, "taker".to_string(), secret()).is_ok());
}

#[test]
fn a_receiver_who_settles_pays_no_fee() {
    let mut c = contract();
    let id = create(&mut c, 10000, Some(250));
    let payout = c.withdraw(NOW + 700, id, "receiver".to_string(), secret()).unwrap();
    assert_eq!(payout.receiver_amount, 10000);
    assert_eq!(payout.resolver_fee, 0);

    let id = create(&mut c, 10000, Some(250));
    let payout = c.withdraw(NOW + 700, id, "anyone".to_string(), secret()).unwrap();
    assert_eq!(payout.receiver_amount, 9750);
    assert_eq!(payout.resolver_fee, 250);

    let id = create(&mut c, 10000, Some(10001));
    assert_eq!(
        c.withdraw(NOW + 700, id, "anyone".to_string(), secret()),
        Err(StagedError::FeeExceedsAmount)
    );
    assert!(c.withdraw(NOW + 700, id, "receiver".to_string(), secret()).is_ok());
}

#[test]
fn a_wrong_secret_is_rejected_in_every_stage() {
    let mut c = contract();
    let id = create(&mut c, 10000, None);
    let before = c.htlc_record(id).unwrap().clone();
    for t in [NOW, NOW + 100, NOW + 400, NOW + 700, NOW + 1200, NOW + 1600] {
        assert_eq!(
            c.withdraw(t, id, "taker".to_string(), [1u8; 32]),
            Err(StagedError::InvalidSecret)
        );
    }
    assert_eq!(*c.htlc_record(id).unwrap(), before);
    assert_eq!(
        c.withdraw(NOW + 700, 2, "taker".to_string(), secret()),
        Err(StagedError::NotFound)
    );
}

#[test]
fn cancellation_opens_in_two_steps_and_happens_once() {
    let mut c = contract();
    c.add_global_resolver(&"admin".to_string(), "global".to_string(), 1, 10).unwrap();
    let id = create(&mut c, 10000, None);
    assert_eq!(
        c.cancel(NOW + 999, id, "sender".to_string()),
        Err(StagedError::NotAuthorizedToCancel)
    );
    assert_eq!(
        c.cancel(NOW + 1000, id, "outsider".to_string()),
        Err(StagedError::NotAuthorizedToCancel)
    );
    assert_eq!(
        c.cancel(NOW + 1000, id, "taker".to_string()),
        Err(StagedError::NotAuthorizedToCancel)
    );
    assert_eq!(
        c.withdraw(NOW + 1000, id, "taker".to_string(), secret()),
        Err(StagedError::NotAuthorizedToWithdraw)
    );
    let refund = c.cancel(NOW + 1000, id, "friend".to_string()).unwrap();
    assert_eq!(refund, ("sender".to_string(), 10000));
    let cancelled = c.htlc_record(id).unwrap().clone();
    assert_eq!(cancelled.status, HTLCStatus::Cancelled);
    assert_eq!(cancelled.cancelled_by, Some("friend".to_string()));

    assert_eq!(
        c.cancel(NOW + 1600, id, "sender".to_string()),
        Err(StagedError::AlreadyCancelled)
    );
    assert_eq!(
        c.withdraw(NOW + 700, id, "taker".to_string(), secret()),
        Err(StagedError::AlreadyCancelled)
    );
    assert_eq!(c.get_htlc(NOW + 700, id), Ok(HTLCStatus::Cancelled));
    assert_eq!(*c.htlc_record(id).unwrap(), cancelled);

    let id = create(&mut c, 10000, None);
    assert!(c.cancel(NOW + 1000, id, "global".to_string()).is_ok());
    let id = create(&mut c, 10000, None);
    assert!(c.cancel(NOW + 1499, id, "sender".to_string()).is_ok());
    let id = create(&mut c, 10000, None);
    assert!(c.cancel(NOW + 1500, id, "outsider".to_string()).is_ok());
    let id = create(&mut c, 10000, None);
    c.withdraw(NOW + 700, id, "taker".to_string(), secret()).unwrap();
    assert_eq!(
        c.cancel(NOW + 1600, id, "sender".to_string()),
        Err(StagedError::AlreadyWithdrawn)
    );
    assert_eq!(
        c.withdraw(NOW + 700, id, "taker".to_string(), secret()),
        Err(StagedError::AlreadyWithdrawn)
    );
}

#[test]
fn staged_creation_validates_its_input() {
    let mut c = contract();
    let create = |c: &mut FusionHTLCContract, now: u64, amount: i128, d: StageDurations| {
        c.create_fusion_htlc(
            now,
            "sender".to_string(),
            "receiver".to_string(),
            "token".to_string(),
            amount,
            [0u8; 32],
            "taker".to_string(),
            vec![],
            d,
            Some(7),
        )
    };
    assert_eq!(create(&mut c, NOW, 0, durations()), Err(StagedError::AmountNotPositive));
    assert_eq!(create(&mut c, NOW, -5, durations()), Err(StagedError::AmountNotPositive));
    let mut d = durations();
    d.public_resolver_duration = 0;
    assert_eq!(create(&mut c, NOW, 5, d), Err(StagedError::EmptyStage));
    let mut d = durations();
    d.finality_delay = 0;
    assert_eq!(create(&mut c, NOW, 5, d), Ok(1));
    assert_eq!(c.htlc_record(1).unwrap().resolver_fee_bps, 7);
    let short = StageDurations {
        finality_delay: 1,
        taker_exclusive_duration: 1,
        private_resolver_duration: 1,
        public_resolver_duration: 1,
        private_cancellation_duration: 595,
    };
    assert_eq!(create(&mut c, NOW, 5, short), Err(StagedError::TotalDurationTooShort));
    let mut exact = short;
    exact.private_cancellation_duration = 596;
    assert_eq!(create(&mut c, NOW, 5, exact), Ok(2));
    let mut long = durations();
    long.private_cancellation_duration = 100_000;
    assert_eq!(create(&mut c, NOW, 5, long), Err(StagedError::TotalDurationTooLong));
    assert_eq!(create(&mut c, u64::MAX - 10, 5, durations()), Err(StagedError::TotalDurationTooLong));

    assert_eq!(c.set_paused(&"mallory".to_string(), true), Err(StagedError::Unauthorized));
    c.set_paused(&"admin".to_string(), true).unwrap();
    assert_eq!(create(&mut c, NOW, 5, durations()), Err(StagedError::Paused));
    c.set_paused(&"admin".to_string(), false).unwrap();
    assert_eq!(create(&mut c, NOW, 5, durations()), Ok(3));
}

#[test]
fn the_registry_is_kept_by_the_administrator() {
    let mut c = contract();
    assert!(!c.is_global_resolver(&"global".to_string()));
    assert_eq!(
        c.add_global_resolver(&"mallory".to_string(), "global".to_string(), 1, 10),
        Err(StagedError::Unauthorized)
    );
    assert!(!c.is_global_resolver(&"global".to_string()));
    c.add_global_resolver(&"admin".to_string(), "global".to_string(), 1, 10).unwrap();
    c.add_global_resolver(&"admin".to_string(), "second".to_string(), 2, 0).unwrap();
    c.add_global_resolver(&"admin".to_string(), "global".to_string(), 5, 20).unwrap();
    assert!(c.is_global_resolver(&"global".to_string()));
    assert!(c.is_global_resolver(&"second".to_string()));
    assert!(!c.is_global_resolver(&"third".to_string()));
    assert_eq!(c.resolvers.len(), 2);
    assert_eq!(c.resolvers[0].priority, 5);
    assert_eq!(c.resolvers[0].fee_discount_bps, 20);
    c.resolvers[1].enabled = false;
    assert!(!c.is_global_resolver(&"second".to_string()));

    let list = vec!["a".to_string(), "b".to_string()];
    assert!(contains_address(&list, &"b".to_string()));
    assert!(!contains_address(&list, &"c".to_string()));
}
