use fusion_htlc::ledger::{Coin, Payment, Timestamp};
use fusion_htlc::resolver::{
    execute_cancel, execute_deploy_dst, execute_deploy_src, execute_update_config,
    execute_withdraw, instantiate, query_can_cancel, query_can_withdraw, query_config,
    query_order, query_order_by_secret_hash, CancelBlock, ContractError, InstantiateMsg, Store,
    WithdrawBlock,
};
use sha2::{Digest, Sha256};

const NOW: u64 = 1_700_000_000;

fn at(seconds: u64) -> Timestamp {
    Timestamp::from_seconds(seconds).unwrap()
}

fn coin(denom: &str, amount: u128) -> Coin {
    Coin { denom: denom.to_string(), amount }
}

fn hash_of(secret: &str) -> String {
    hex::encode(Sha256::digest(secret.as_bytes()))
}

fn store() -> Store {
    instantiate(
        "owner".to_string(),
        InstantiateMsg {
            atomic_swap_contract: "swap".to_string(),
            bridge_contract: "bridge".to_string(),
        },
    )
}

fn deploy(
    store: &mut Store,
    funds: &Vec<Coin>,
    src: Coin,
    deposit: Coin,
    hash: String,
    timelock: u64,
) -> Result<u64, ContractError> {
    execute_deploy_src(
        store,
        at(NOW),
        "resolver".to_string(),
        funds,
        "alice".to_string(),
        2,
        "0xrecipient".to_string(),
        "0xtoken".to_string(),
        src,
        "990".to_string(),
        hash,
        deposit,
        timelock,
    )
}

fn deployed(store: &mut Store) -> u64 {
    deploy(
        store,
        &vec![coin("uatom", 1100)],
        coin("uatom", 1000),
        coin("uatom", 100),
        hash_of("s3cret"),
        3600,
    )
    .unwrap()
}

#[test]
fn the_funds_must_cover_amount_and_deposit() {
    let mut s = store();
    let src = coin("uatom", 1000);
    let dep = coin("uatom", 100);
    let h = hash_of("s3cret");
    assert_eq!(
        deploy(&mut s, &vec![coin("uatom", 1099)], src.clone(), dep.clone(), h.clone(), 3600),
        Err(ContractError::InsufficientFunds)
    );
    assert_eq!(
        deploy(&mut s, &vec![coin("uosmo", 5000)], src.clone(), dep.clone(), h.clone(), 3600),
        Err(ContractError::InsufficientFunds)
    );
    assert_eq!(
        deploy(&mut s, &vec![], src.clone(), dep.clone(), h.clone(), 3600),
        Err(ContractError::InsufficientFunds)
    );
    // Only the first coin of a denomination counts.
    assert_eq!(
        deploy(
            &mut s,
            &vec![coin("uatom", 600), coin("uatom", 600)],
            src.clone(),
            dep.clone(),
            h.clone(),
            3600
        ),
        Err(ContractError::InsufficientFunds)
    );
    assert_eq!(
        deploy(&mut s, &vec![coin("uatom", 1100)], src.clone(), dep.clone(), h.clone(), 3600),
        Ok(1)
    );

    let other = coin("uosmo", 100);
    assert_eq!(
        deploy(&mut s, &vec![coin("uatom", 1000)], src.clone(), other.clone(), h.clone(), 3600),
        Err(ContractError::InsufficientSafetyDeposit)
    );
    assert_eq!(
        deploy(
            &mut s,
            &vec![coin("uatom", 1000), coin("uosmo", 99)],
            src.clone(),
            other.clone(),
            h.clone(),
            3600
        ),
        Err(ContractError::InsufficientSafetyDeposit)
    );
    assert_eq!(
        deploy(
            &mut s,
            &vec![coin("uosmo", 100), coin("uatom", 1000)],
            src.clone(),
            other.clone(),
            h.clone(),
            3600
        ),
        Ok(2)
    );
    assert_eq!(
        deploy(
            &mut s,
            &vec![coin("uatom", u128::MAX)],
            coin("uatom", u128::MAX),
            coin("uatom", 1),
            h.clone(),
            3600
        ),
        Err(ContractError::InsufficientFunds)
    );
}

#[test]
fn deployment_validates_its_input() {
    let mut s = store();
    let funds = vec![coin("uatom", 5000)];
    let h = hash_of("s3cret");
    assert_eq!(
        deploy(&mut s, &funds, coin("uatom", 0), coin("uatom", 1), h.clone(), 3600),
        Err(ContractError::InvalidAmount)
    );
    assert_eq!(
        deploy(&mut s, &funds, coin("uatom", 1), coin("uatom", 0), h.clone(), 3600),
        Err(ContractError::InsufficientSafetyDeposit)
    );
    assert_eq!(
        deploy(&mut s, &funds, coin("uatom", 1), coin("uatom", 1), "abc".to_string(), 3600),
        Err(ContractError::InvalidSecretHash)
    );
    assert_eq!(
        deploy(&mut s, &funds, coin("uatom", 1), coin("uatom", 1), h.clone(), 0),
        Err(ContractError::InvalidTimelock)
    );
    assert_eq!(
        deploy(&mut s, &funds, coin("uatom", 1), coin("uatom", 1), h.clone(), u64::MAX),
        Err(ContractError::InvalidTimelock)
    );
    assert_eq!(s.orders.len(), 0);
    assert_eq!(query_order(&s, 1).err(), Some(ContractError::OrderNotFound));

    let id = deployed(&mut s);
    let order = query_order(&s, id).unwrap();
    assert_eq!(order.order_id, 1);
    assert_eq!(order.resolver, "resolver");
    assert_eq!(order.initiator, "alice");
    assert_eq!(order.src_chain_id, 1);
    assert_eq!(order.src_timelock, at(NOW + 3600));
    assert_eq!(order.dst_timelock, at(NOW + 7200));
    assert!(order.src_deployed);
    assert!(!order.dst_deployed);
    assert_eq!(query_order_by_secret_hash(&s, &hash_of("s3cret")), Ok(1));
    assert_eq!(
        query_order_by_secret_hash(&s, &hash_of("other")),
        Err(ContractError::OrderNotFound)
    );
    let second = deployed(&mut s);
    assert_eq!(second, 2);
    assert_eq!(query_order_by_secret_hash(&s, &hash_of("s3cret")), Ok(2));
}

#[test]
fn the_resolver_collects_on_the_source_chain() {
    let mut s = store();
    let id = deployed(&mut s);
    let resolver = "resolver".to_string();
    assert_eq!(
        execute_withdraw(&mut s, at(NOW + 10), &resolver, id, "wrong".to_string(), true),
        Err(ContractError::InvalidSecret)
    );
    assert_eq!(
        execute_withdraw(&mut s, at(NOW + 10), &"alice".to_string(), id, "s3cret".to_string(), true),
        Err(ContractError::NotResolver)
    );
    // The deadline itself belongs to the cancellation.
    assert_eq!(
        execute_withdraw(&mut s, at(NOW + 3600), &resolver, id, "s3cret".to_string(), true),
        Err(ContractError::TimelockExpired)
    );
    assert!(!query_order(&s, id).unwrap().completed);

    let just_before = Timestamp { nanos: at(NOW + 3600).nanos - 1 };
    let payments =
        execute_withdraw(&mut s, just_before, &resolver, id, "s3cret".to_string(), true).unwrap();
    assert_eq!(
        payments,
        vec![
            Payment { to: "resolver".to_string(), coin: coin("uatom", 1000) },
            Payment { to: "resolver".to_string(), coin: coin("uatom", 100) },
        ]
    );
    let order = query_order(&s, id).unwrap();
    assert!(order.completed);
    assert_eq!(order.secret, Some("s3cret".to_string()));

    assert_eq!(
        execute_withdraw(&mut s, at(NOW + 20), &resolver, id, "s3cret".to_string(), true),
        Err(ContractError::OrderAlreadyCompleted)
    );
    assert_eq!(
        execute_cancel(&mut s, at(NOW + 4000), &resolver, id),
        Err(ContractError::OrderAlreadyCompleted)
    );
}

#[test]
fn the_initiator_completes_on_the_destination_side() {
    let mut s = store();
    let id = deployed(&mut s);
    assert_eq!(
        execute_withdraw(
            &mut s,
            at(NOW + 10),
            &"resolver".to_string(),
            id,
            "s3cret".to_string(),
            false
        ),
        Err(ContractError::Unauthorized)
    );
    let payments = execute_withdraw(
        &mut s,
        at(NOW + 99999),
        &"alice".to_string(),
        id,
        "s3cret".to_string(),
        false,
    )
    .unwrap();
    assert!(payments.is_empty());
    assert!(query_order(&s, id).unwrap().completed);
}

#[test]
fn cancellation_succeeds_once() {
    let mut s = store();
    let id = deployed(&mut s);
    let alice = "alice".to_string();
    let just_before = Timestamp { nanos: at(NOW + 3600).nanos - 1 };
    assert_eq!(
        execute_cancel(&mut s, just_before, &alice, id),
        Err(ContractError::TimelockNotExpired)
    );
    assert_eq!(
        execute_cancel(&mut s, at(NOW + 3600), &"mallory".to_string(), id),
        Err(ContractError::Unauthorized)
    );
    assert_eq!(execute_cancel(&mut s, at(NOW + 3600), &alice, 9), Err(ContractError::OrderNotFound));
    let payments = execute_cancel(&mut s, at(NOW + 3600), &alice, id).unwrap();
    assert_eq!(
        payments,
        vec![
            Payment { to: "alice".to_string(), coin: coin("uatom", 1000) },
            Payment { to: "resolver".to_string(), coin: coin("uatom", 100) },
        ]
    );
    let cancelled = query_order(&s, id).unwrap().clone();
    assert!(cancelled.cancelled);
    assert_eq!(
        execute_cancel(&mut s, at(NOW + 3602), &alice, id),
        Err(ContractError::OrderAlreadyCancelled)
    );
    assert_eq!(
        execute_cancel(&mut s, at(NOW + 3602), &"resolver".to_string(), id),
        Err(ContractError::OrderAlreadyCancelled)
    );
    assert_eq!(
        execute_withdraw(&mut s, at(NOW + 5), &"resolver".to_string(), id, "s3cret".to_string(), true),
        Err(ContractError::OrderAlreadyCancelled)
    );
    assert_eq!(*query_order(&s, id).unwrap(), cancelled);
}

#[test]
fn the_destination_is_deployed_once_by_the_resolver() {
    let mut s = store();
    let id = deployed(&mut s);
    assert_eq!(
        execute_deploy_dst(&mut s, &"alice".to_string(), id),
        Err(ContractError::NotResolver)
    );
    assert_eq!(
        execute_deploy_dst(&mut s, &"resolver".to_string(), 4),
        Err(ContractError::OrderNotFound)
    );
    assert_eq!(execute_deploy_dst(&mut s, &"resolver".to_string(), id), Ok(()));
    assert!(query_order(&s, id).unwrap().dst_deployed);
    assert_eq!(
        execute_deploy_dst(&mut s, &"resolver".to_string(), id),
        Err(ContractError::DestinationAlreadyDeployed)
    );
}

#[test]
fn queries_say_who_may_act_and_why_not() {
    let mut s = store();
    let id = deployed(&mut s);
    let resolver = "resolver".to_string();
    let alice = "alice".to_string();

    let answer = query_can_withdraw(&s, at(NOW + 3599), id, &resolver).unwrap();
    assert!(answer.can_withdraw);
    assert_eq!(answer.reason, None);
    let answer = query_can_withdraw(&s, at(NOW + 3600), id, &resolver).unwrap();
    assert!(!answer.can_withdraw);
    assert_eq!(answer.reason, Some(WithdrawBlock::NotAllowed));
    assert_eq!(answer.reason.unwrap().message(), "Not authorized or conditions not met");
    assert!(!query_can_withdraw(&s, at(NOW), id, &alice).unwrap().can_withdraw);
    execute_deploy_dst(&mut s, &resolver, id).unwrap();
    assert!(query_can_withdraw(&s, at(NOW), id, &alice).unwrap().can_withdraw);

    let answer = query_can_cancel(&s, at(NOW + 3599), id).unwrap();
    assert_eq!((answer.can_cancel, answer.reason), (false, Some(CancelBlock::NotExpired)));
    let answer = query_can_cancel(&s, at(NOW + 3600), id).unwrap();
    assert_eq!((answer.can_cancel, answer.reason), (true, None));

    execute_cancel(&mut s, at(NOW + 3601), &alice, id).unwrap();
    let answer = query_can_cancel(&s, at(NOW + 3601), id).unwrap();
    assert_eq!((answer.can_cancel, answer.reason), (false, Some(CancelBlock::Cancelled)));
    let answer = query_can_withdraw(&s, at(NOW), id, &alice).unwrap();
    assert_eq!((answer.can_withdraw, answer.reason), (false, Some(WithdrawBlock::Cancelled)));
    assert_eq!(query_can_cancel(&s, at(NOW), 8).err(), Some(ContractError::OrderNotFound));
}

#[test]
fn only_the_owner_changes_the_configuration() {
    let mut s = store();
    assert_eq!(
        execute_update_config(&mut s, &"mallory".to_string(), Some("m".to_string()), None, None),
        Err(ContractError::Unauthorized)
    );
    execute_update_config(&mut s, &"owner".to_string(), None, Some("swap2".to_string()), None)
        .unwrap();
    let config = query_config(&s);
    assert_eq!(config.owner, "owner");
    assert_eq!(config.atomic_swap_contract, "swap2");
    assert_eq!(config.bridge_contract, "bridge");
}
