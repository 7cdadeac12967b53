use fusion_htlc::cross_chain_bridge::{
    execute_complete_bridge_order, execute_create_bridge_order, execute_refund_bridge_order,
    execute_remove_chain_config, execute_update_chain_config, ibc_channel_close,
    ibc_channel_connect, ibc_channel_open, ibc_packet_ack, ibc_packet_receive, ibc_packet_timeout,
    instantiate, process_ibc_message, query_bridge_order, query_chain_config,
    validate_order_and_version, ChainConfig, ContractError, IbcAcknowledgement, IbcExecuteMsg,
    IbcOrder, InstantiateMsg, OrderStatus, Store,
};
use fusion_htlc::ledger::{Coin, Timestamp};
use sha2::{Digest, Sha256};

const NOW: u64 = 1_700_000_000;

fn at(seconds: u64) -> Timestamp {
    Timestamp::from_seconds(seconds).unwrap()
}

fn coin(amount: u128) -> Vec<Coin> {
    vec![Coin { denom: "uatom".to_string(), amount }]
}

fn hash_of(secret: &str) -> String {
    hex::encode(Sha256::digest(secret.as_bytes()))
}

fn chain(chain_id: u32, fee_multiplier: u64, is_active: bool) -> ChainConfig {
    ChainConfig {
        chain_id,
        chain_name: format!("chain-{}", chain_id),
        ibc_channel: format!("channel-{}", chain_id),
        is_active,
        fee_multiplier,
    }
}

fn bridge() -> Store {
    instantiate(
        "owner".to_string(),
        "bridge".to_string(),
        InstantiateMsg {
            protocol_fee_bps: 50,
            min_timelock_duration: 3600,
            max_timelock_duration: 86400,
            ibc_timeout_seconds: 600,
            initial_chains: vec![chain(137, 25, true), chain(2, 100, true), chain(56, 0, false)],
        },
    )
}

fn order(store: &mut Store, amount: u128, secret: &str) -> u64 {
    execute_create_bridge_order(
        store,
        at(NOW),
        "alice".to_string(),
        &coin(amount),
        2,
        "0xrecipient".to_string(),
        hash_of(secret),
        3600,
    )
    .unwrap()
}

#[test]
fn a_timed_out_transfer_fails_the_order_which_is_then_refunded() {
    let mut store = bridge();
    let id = order(&mut store, 10000, "s3cret");
    assert_eq!(query_bridge_order(&store, id).unwrap().status, OrderStatus::Pending);

    let dispatch =
        execute_complete_bridge_order(&mut store, at(NOW + 10), id, "s3cret".to_string()).unwrap();
    let sequence = dispatch.transfer.packet_sequence;
    assert_eq!(dispatch.fee, 50 + 100);
    assert_eq!(dispatch.transfer.amount.amount, 10000 - 150);
    assert_eq!(dispatch.transfer.channel_id, "channel-2");
    assert_eq!(dispatch.transfer.receiver, "0xrecipient");
    assert_eq!(dispatch.transfer.sender, "bridge");
    assert_eq!(dispatch.transfer.timeout_timestamp, at(NOW + 610));
    let active = query_bridge_order(&store, id).unwrap();
    assert_eq!(active.status, OrderStatus::Active);
    assert_eq!(active.ibc_packet_sequence, Some(sequence));
    assert_eq!(store.ibc_transfers.len(), 1);

    assert!(ibc_packet_timeout(&mut store, sequence));
    assert_eq!(query_bridge_order(&store, id).unwrap().status, OrderStatus::Failed);
    assert_eq!(store.ibc_transfers.len(), 0);

    // A repeated delivery for the same sequence is a no-op.
    let snapshot = query_bridge_order(&store, id).unwrap().clone();
    assert!(!ibc_packet_timeout(&mut store, sequence));
    assert!(!ibc_packet_ack(
        &mut store,
        sequence,
        &IbcAcknowledgement { success: true, error: None }
    ));
    assert_eq!(*query_bridge_order(&store, id).unwrap(), snapshot);

    // The failed order cannot be completed again, but its funds are not stranded.
    assert_eq!(
        execute_complete_bridge_order(&mut store, at(NOW + 20), id, "s3cret".to_string()),
        Err(ContractError::OrderAlreadyRefunded)
    );
    assert_eq!(
        execute_refund_bridge_order(&mut store, at(NOW + 30), &"alice".to_string(), id),
        Err(ContractError::TimelockNotExpired)
    );
    let payment =
        execute_refund_bridge_order(&mut store, at(NOW + 3600), &"alice".to_string(), id).unwrap();
    assert_eq!(payment.to, "alice");
    assert_eq!(payment.coin.amount, 10000);
    assert_eq!(query_bridge_order(&store, id).unwrap().status, OrderStatus::Refunded);
    assert_eq!(
        execute_refund_bridge_order(&mut store, at(NOW + 3700), &"alice".to_string(), id),
        Err(ContractError::OrderAlreadyRefunded)
    );
}

#[test]
fn an_acknowledged_transfer_completes_the_order() {
    let mut store = bridge();
    let id = order(&mut store, 10000, "s3cret");
    let dispatch =
        execute_complete_bridge_order(&mut store, at(NOW + 10), id, "s3cret".to_string()).unwrap();
    let sequence = dispatch.transfer.packet_sequence;
    assert!(ibc_packet_ack(
        &mut store,
        sequence,
        &IbcAcknowledgement { success: true, error: None }
    ));
    assert_eq!(query_bridge_order(&store, id).unwrap().status, OrderStatus::Completed);
    assert_eq!(
        execute_refund_bridge_order(&mut store, at(NOW + 4000), &"alice".to_string(), id),
        Err(ContractError::OrderAlreadyCompleted)
    );
}

#[test]
fn a_negative_acknowledgement_fails_the_order() {
    let mut store = bridge();
    let id = order(&mut store, 10000, "s3cret");
    let dispatch =
        execute_complete_bridge_order(&mut store, at(NOW + 10), id, "s3cret".to_string()).unwrap();
    assert!(ibc_packet_ack(
        &mut store,
        dispatch.transfer.packet_sequence,
        &IbcAcknowledgement { success: false, error: Some("no".to_string()) }
    ));
    assert_eq!(query_bridge_order(&store, id).unwrap().status, OrderStatus::Failed);
}

#[test]
fn a_late_acknowledgement_leaves_a_refunded_order_alone() {
    let mut store = bridge();
    let id = order(&mut store, 10000, "s3cret");
    let dispatch =
        execute_complete_bridge_order(&mut store, at(NOW + 10), id, "s3cret".to_string()).unwrap();
    execute_refund_bridge_order(&mut store, at(NOW + 3600), &"alice".to_string(), id).unwrap();
    let refunded = query_bridge_order(&store, id).unwrap().clone();
    assert!(ibc_packet_ack(
        &mut store,
        dispatch.transfer.packet_sequence,
        &IbcAcknowledgement { success: true, error: None }
    ));
    assert_eq!(*query_bridge_order(&store, id).unwrap(), refunded);
    assert_eq!(store.ibc_transfers.len(), 0);
}

#[test]
fn an_unknown_sequence_is_ignored() {
    let mut store = bridge();
    order(&mut store, 10000, "s3cret");
    assert!(!ibc_packet_timeout(&mut store, 99));
    assert_eq!(query_bridge_order(&store, 0).unwrap().status, OrderStatus::Pending);
}

#[test]
fn completion_checks_state_deadline_and_secret_in_turn() {
    let mut store = bridge();
    let id = order(&mut store, 10000, "s3cret");
    assert_eq!(
        execute_complete_bridge_order(&mut store, at(NOW + 10), 5, "s3cret".to_string()),
        Err(ContractError::OrderNotFound)
    );
    assert_eq!(
        execute_complete_bridge_order(&mut store, at(NOW + 3600), id, "s3cret".to_string()),
        Err(ContractError::TimelockExpired)
    );
    assert_eq!(
        execute_complete_bridge_order(&mut store, at(NOW + 10), id, "wrong".to_string()),
        Err(ContractError::InvalidSecret)
    );
    assert_eq!(query_bridge_order(&store, id).unwrap().status, OrderStatus::Pending);
    assert_eq!(query_bridge_order(&store, id).unwrap().secret, None);
    assert_eq!(store.ibc_transfers.len(), 0);
}

#[test]
fn fees_above_the_amount_are_rejected() {
    let mut store = bridge();
    execute_update_chain_config(&mut store, &"owner".to_string(), 2, chain(2, 9951, true)).unwrap();
    let id = order(&mut store, 10000, "s3cret");
    assert_eq!(
        execute_complete_bridge_order(&mut store, at(NOW + 10), id, "s3cret".to_string()),
        Err(ContractError::InsufficientFunds)
    );
    execute_update_chain_config(&mut store, &"owner".to_string(), 2, chain(2, 9950, true)).unwrap();
    let dispatch =
        execute_complete_bridge_order(&mut store, at(NOW + 10), id, "s3cret".to_string()).unwrap();
    assert_eq!(dispatch.fee, 10000);
    assert_eq!(dispatch.transfer.amount.amount, 0);
}

#[test]
fn bridge_order_creation_validates_its_input() {
    let mut store = bridge();
    let create = |store: &mut Store, chain_id: u32, funds: &Vec<Coin>, hash: String, t: u64| {
        execute_create_bridge_order(
            store,
            at(NOW),
            "alice".to_string(),
            funds,
            chain_id,
            "0xrecipient".to_string(),
            hash,
            t,
        )
    };
    let bounds = ContractError::InvalidTimelock { min: 3600, max: 86400 };
    assert_eq!(
        create(&mut store, 9, &coin(1), hash_of("x"), 3600),
        Err(ContractError::ChainNotSupported)
    );
    assert_eq!(
        create(&mut store, 56, &coin(1), hash_of("x"), 3600),
        Err(ContractError::ChainNotSupported)
    );
    assert_eq!(create(&mut store, 2, &coin(1), hash_of("x"), 10), Err(bounds));
    assert_eq!(
        create(&mut store, 2, &coin(1), "nothex".to_string(), 3600),
        Err(ContractError::InvalidSecretHash)
    );
    assert_eq!(create(&mut store, 2, &vec![], hash_of("x"), 3600), Err(ContractError::InvalidAmount));
    assert_eq!(create(&mut store, 2, &coin(0), hash_of("x"), 3600), Err(ContractError::InvalidAmount));
    assert_eq!(store.orders.len(), 0);
    assert_eq!(create(&mut store, 2, &coin(7), hash_of("x"), 3600), Ok(0));
    assert_eq!(create(&mut store, 137, &coin(8), hash_of("x"), 3600), Ok(1));
    assert_eq!(query_bridge_order(&store, 1).unwrap().target_chain_id, 137);
    assert_eq!(query_bridge_order(&store, 1).unwrap().source_chain_id, 1);
}

#[test]
fn chain_configurations_are_kept_by_ascending_id() {
    let mut store = bridge();
    let ids: Vec<u32> = store.chain_configs.iter().map(|(id, _)| *id).collect();
    assert_eq!(ids, vec![2, 56, 137]);

    execute_update_chain_config(&mut store, &"owner".to_string(), 10, chain(10, 5, true)).unwrap();
    execute_update_chain_config(&mut store, &"owner".to_string(), 56, chain(56, 7, true)).unwrap();
    execute_update_chain_config(&mut store, &"owner".to_string(), 1, chain(1, 1, true)).unwrap();
    execute_update_chain_config(&mut store, &"owner".to_string(), 42161, chain(42161, 2, true))
        .unwrap();
    let ids: Vec<u32> = store.chain_configs.iter().map(|(id, _)| *id).collect();
    assert_eq!(ids, vec![1, 2, 10, 56, 137, 42161]);
    assert_eq!(query_chain_config(&store, 56).unwrap().config.fee_multiplier, 7);
    assert!(query_chain_config(&store, 56).unwrap().config.is_active);

    execute_remove_chain_config(&mut store, &"owner".to_string(), 10).unwrap();
    execute_remove_chain_config(&mut store, &"owner".to_string(), 11).unwrap();
    let ids: Vec<u32> = store.chain_configs.iter().map(|(id, _)| *id).collect();
    assert_eq!(ids, vec![1, 2, 56, 137, 42161]);
    assert_eq!(query_chain_config(&store, 10).err(), Some(ContractError::ChainNotSupported));

    assert_eq!(
        execute_update_chain_config(&mut store, &"mallory".to_string(), 3, chain(3, 0, true)),
        Err(ContractError::Unauthorized)
    );
    assert_eq!(
        execute_remove_chain_config(&mut store, &"mallory".to_string(), 2),
        Err(ContractError::Unauthorized)
    );
}

#[test]
fn a_message_from_the_other_chain_completes_the_order() {
    let mut store = bridge();
    let id = order(&mut store, 10000, "s3cret");
    assert_eq!(
        process_ibc_message(
            &mut store,
            at(NOW + 5),
            IbcExecuteMsg { order_id: id, secret: "wrong".to_string() }
        ),
        Err(ContractError::InvalidSecret)
    );
    let ack = ibc_packet_receive(
        &mut store,
        at(NOW + 5),
        Ok(IbcExecuteMsg { order_id: id, secret: "s3cret".to_string() }),
    );
    assert_eq!(ack, IbcAcknowledgement { success: true, error: None });
    let done = query_bridge_order(&store, id).unwrap();
    assert_eq!(done.status, OrderStatus::Completed);
    assert_eq!(done.completed_at, Some(at(NOW + 5)));
    assert_eq!(done.secret, Some("s3cret".to_string()));

    let ack = ibc_packet_receive(
        &mut store,
        at(NOW + 6),
        Ok(IbcExecuteMsg { order_id: id, secret: "s3cret".to_string() }),
    );
    assert_eq!(
        ack,
        IbcAcknowledgement { success: false, error: Some("Order already completed".to_string()) }
    );
    let ack = ibc_packet_receive(&mut store, at(NOW + 6), Err("bad packet".to_string()));
    assert_eq!(ack, IbcAcknowledgement { success: false, error: Some("bad packet".to_string()) });
}

#[test]
fn channels_must_be_ordered_and_of_the_right_version() {
    let good = "fusion-bridge-v1".to_string();
    let bad = "fusion-bridge-v2".to_string();
    assert_eq!(validate_order_and_version(IbcOrder::Ordered, &good, None), Ok(()));
    assert_eq!(validate_order_and_version(IbcOrder::Ordered, &good, Some(&good)), Ok(()));
    assert_eq!(
        validate_order_and_version(IbcOrder::Unordered, &good, None),
        Err(ContractError::InvalidIbcChannel)
    );
    assert_eq!(
        validate_order_and_version(IbcOrder::Ordered, &bad, None),
        Err(ContractError::InvalidIbcChannel)
    );
    assert_eq!(
        validate_order_and_version(IbcOrder::Ordered, &good, Some(&bad)),
        Err(ContractError::InvalidIbcChannel)
    );
    assert_eq!(ibc_channel_open(IbcOrder::Ordered, &good, None), Ok(()));
    assert_eq!(
        ibc_channel_connect("channel-7".to_string(), IbcOrder::Ordered, &good, Some(&good)),
        Ok("channel-7".to_string())
    );
    assert_eq!(
        ibc_channel_connect("channel-7".to_string(), IbcOrder::Unordered, &good, None),
        Err(ContractError::InvalidIbcChannel)
    );
    assert_eq!(ibc_channel_close("channel-7".to_string()), Ok("channel-7".to_string()));
}
