use fusion_htlc::atomic_swap as swap;
use fusion_htlc::cross_chain_bridge as bridge;
use fusion_htlc::ledger::{Coin, Payment, Timestamp};
use fusion_htlc::resolver;
use sha2::{Digest, Sha256};

const NOW: u64 = 1_700_000_000;

fn at(seconds: u64) -> Timestamp {
    Timestamp::from_seconds(seconds).unwrap()
}

fn uatom(amount: u128) -> Coin {
    Coin { denom: "uatom".to_string(), amount }
}

fn hash_of(secret: &str) -> String {
    hex::encode(Sha256::digest(secret.as_bytes()))
}

fn swap_store() -> swap::Store {
    swap::instantiate(
        "owner".to_string(),
        swap::InstantiateMsg {
            protocol_fee_bps: 50,
            min_timelock_duration: 3600,
            max_timelock_duration: 86400,
        },
    )
}

fn swap_message(
    store: &mut swap::Store,
    seconds: u64,
    sender: &str,
    funds: Vec<Coin>,
    msg: swap::ExecuteMsg,
) -> Result<swap::ExecuteResponse, swap::ContractError> {
    swap::execute(store, at(seconds), sender.to_string(), &funds, vec![uatom(7)], msg)
}

#[test]
fn swap_messages_reach_their_operations() {
    let mut store = swap_store();
    let created = swap_message(
        &mut store,
        NOW,
        "alice",
        vec![uatom(10000)],
        swap::ExecuteMsg::CreateSwap {
            recipient: "bob".to_string(),
            secret_hash: hash_of("s3cret"),
            timelock: 3600,
        },
    );
    assert_eq!(created, Ok(swap::ExecuteResponse::SwapCreated { swap_id: 0 }));

    let wrong = swap_message(
        &mut store,
        NOW + 1,
        "bob",
        vec![],
        swap::ExecuteMsg::CompleteSwap { swap_id: 0, secret: "guess".to_string() },
    );
    assert_eq!(wrong, Err(swap::ContractError::InvalidSecret));
    assert_eq!(store.swaps[0].status, swap::SwapStatus::Active);

    let completed = swap_message(
        &mut store,
        NOW + 2,
        "bob",
        vec![],
        swap::ExecuteMsg::CompleteSwap { swap_id: 0, secret: "s3cret".to_string() },
    );
    assert_eq!(
        completed,
        Ok(swap::ExecuteResponse::SwapCompleted {
            settlement: swap::Settlement {
                payment: Payment { to: "bob".to_string(), coin: uatom(9950) },
                fee: 50,
            },
        })
    );

    let refund = swap_message(
        &mut store,
        NOW + 4000,
        "alice",
        vec![],
        swap::ExecuteMsg::RefundSwap { swap_id: 0 },
    );
    assert_eq!(refund, Err(swap::ContractError::SwapAlreadyCompleted));

    let missing =
        swap_message(&mut store, NOW, "alice", vec![], swap::ExecuteMsg::RefundSwap { swap_id: 1 });
    assert_eq!(missing, Err(swap::ContractError::SwapNotFound));
}

#[test]
fn only_the_owner_of_the_swaps_changes_parameters_and_takes_fees() {
    let mut store = swap_store();
    let update = swap::ExecuteMsg::UpdateConfig {
        owner: None,
        protocol_fee_bps: Some(30),
        min_timelock_duration: None,
        max_timelock_duration: None,
    };
    assert_eq!(
        swap_message(&mut store, NOW, "mallory", vec![], update.clone()),
        Err(swap::ContractError::Unauthorized)
    );
    assert_eq!(store.config.protocol_fee_bps, 50);
    assert_eq!(
        swap_message(&mut store, NOW, "owner", vec![], update),
        Ok(swap::ExecuteResponse::ConfigUpdated)
    );
    assert_eq!(store.config.protocol_fee_bps, 30);
    assert_eq!(store.config.min_timelock_duration, 3600);

    let fees = swap::ExecuteMsg::WithdrawFees { recipient: "treasury".to_string() };
    assert_eq!(
        swap_message(&mut store, NOW, "mallory", vec![], fees.clone()),
        Err(swap::ContractError::Unauthorized)
    );
    assert_eq!(
        swap_message(&mut store, NOW, "owner", vec![], fees.clone()),
        Ok(swap::ExecuteResponse::FeesWithdrawn {
            to: "treasury".to_string(),
            coins: vec![uatom(7)],
        })
    );
    assert_eq!(
        swap::execute(&mut store, at(NOW), "owner".to_string(), &vec![], vec![], fees),
        Err(swap::ContractError::InsufficientFunds)
    );
}

#[test]
fn swap_queries_reach_their_answers() {
    let mut store = swap_store();
    for (sender, recipient) in [("alice", "bob"), ("carol", "bob"), ("alice", "dave")] {
        swap_message(
            &mut store,
            NOW,
            sender,
            vec![uatom(100)],
            swap::ExecuteMsg::CreateSwap {
                recipient: recipient.to_string(),
                secret_hash: hash_of("s3cret"),
                timelock: 3600,
            },
        )
        .unwrap();
    }

    match swap::query(&store, swap::QueryMsg::Config {}) {
        Ok(swap::QueryResponse::Config(config)) => {
            assert_eq!(config.owner, "owner");
            assert_eq!(config.protocol_fee_bps, 50);
        }
        other => panic!("unexpected answer: {:?}", other),
    }
    match swap::query(&store, swap::QueryMsg::Swap { swap_id: 1 }) {
        Ok(swap::QueryResponse::Swap(found)) => assert_eq!(found.swap, store.swaps[1]),
        other => panic!("unexpected answer: {:?}", other),
    }
    assert_eq!(
        swap::query(&store, swap::QueryMsg::Swap { swap_id: 3 }),
        Err(swap::ContractError::SwapNotFound)
    );
    match swap::query(
        &store,
        swap::QueryMsg::SwapsByInitiator {
            initiator: "alice".to_string(),
            start_after: None,
            limit: None,
        },
    ) {
        Ok(swap::QueryResponse::Swaps(page)) => {
            let ids: Vec<u64> = page.swaps.iter().map(|s| s.id).collect();
            assert_eq!(ids, vec![0, 2]);
        }
        other => panic!("unexpected answer: {:?}", other),
    }
    match swap::query(
        &store,
        swap::QueryMsg::SwapsByRecipient {
            recipient: "bob".to_string(),
            start_after: Some(0),
            limit: Some(5),
        },
    ) {
        Ok(swap::QueryResponse::Swaps(page)) => {
            let ids: Vec<u64> = page.swaps.iter().map(|s| s.id).collect();
            assert_eq!(ids, vec![1]);
        }
        other => panic!("unexpected answer: {:?}", other),
    }
    match swap::query(
        &store,
        swap::QueryMsg::SwapsByStatus {
            status: swap::SwapStatus::Active,
            start_after: None,
            limit: Some(2),
        },
    ) {
        Ok(swap::QueryResponse::Swaps(page)) => assert_eq!(page.swaps.len(), 2),
        other => panic!("unexpected answer: {:?}", other),
    }
    assert_eq!(
        swap::query(
            &store,
            swap::QueryMsg::VerifySecret {
                secret: "s3cret".to_string(),
                secret_hash: hash_of("s3cret"),
            },
        ),
        Ok(swap::QueryResponse::VerifySecret(swap::VerifySecretResponse { is_valid: true }))
    );
    assert_eq!(
        swap::query(
            &store,
            swap::QueryMsg::VerifySecret {
                secret: "guess".to_string(),
                secret_hash: hash_of("s3cret"),
            },
        ),
        Ok(swap::QueryResponse::VerifySecret(swap::VerifySecretResponse { is_valid: false }))
    );
}

fn chain(chain_id: u32, fee_multiplier: u64) -> bridge::ChainConfig {
    bridge::ChainConfig {
        chain_id,
        chain_name: format!("chain-{}", chain_id),
        ibc_channel: format!("channel-{}", chain_id),
        is_active: true,
        fee_multiplier,
    }
}

fn bridge_store() -> bridge::Store {
    bridge::instantiate(
        "owner".to_string(),
        "bridge".to_string(),
        bridge::InstantiateMsg {
            protocol_fee_bps: 50,
            min_timelock_duration: 3600,
            max_timelock_duration: 86400,
            ibc_timeout_seconds: 600,
            initial_chains: vec![chain(137, 25), chain(2, 100)],
        },
    )
}

fn bridge_message(
    store: &mut bridge::Store,
    seconds: u64,
    sender: &str,
    funds: Vec<Coin>,
    msg: bridge::ExecuteMsg,
) -> Result<bridge::ExecuteResponse, bridge::ContractError> {
    bridge::execute(store, at(seconds), sender.to_string(), &funds, vec![uatom(7)], msg)
}

#[test]
fn bridge_messages_reach_their_operations() {
    let mut store = bridge_store();
    let created = bridge_message(
        &mut store,
        NOW,
        "alice",
        vec![uatom(10000)],
        bridge::ExecuteMsg::CreateBridgeOrder {
            target_chain_id: 2,
            recipient: "0xrecipient".to_string(),
            secret_hash: hash_of("s3cret"),
            timelock: 3600,
        },
    );
    assert_eq!(created, Ok(bridge::ExecuteResponse::OrderCreated { order_id: 0 }));

    let unknown = bridge_message(
        &mut store,
        NOW,
        "alice",
        vec![uatom(10000)],
        bridge::ExecuteMsg::CreateBridgeOrder {
            target_chain_id: 9,
            recipient: "0xrecipient".to_string(),
            secret_hash: hash_of("s3cret"),
            timelock: 3600,
        },
    );
    assert_eq!(unknown, Err(bridge::ContractError::ChainNotSupported));
    assert_eq!(store.orders.len(), 1);

    let started = bridge_message(
        &mut store,
        NOW + 10,
        "bob",
        vec![],
        bridge::ExecuteMsg::CompleteBridgeOrder { order_id: 0, secret: "s3cret".to_string() },
    );
    match started {
        Ok(bridge::ExecuteResponse::TransferStarted { dispatch }) => {
            // Half a percent for the protocol and one percent for the chain.
            assert_eq!(dispatch.fee, 150);
            assert_eq!(dispatch.transfer.amount, uatom(9850));
            assert_eq!(dispatch.transfer.order_id, 0);
            assert_eq!(dispatch.transfer.channel_id, "channel-2");
        }
        other => panic!("unexpected answer: {:?}", other),
    }
    assert_eq!(store.orders[0].status, bridge::OrderStatus::Active);

    let refund = bridge_message(
        &mut store,
        NOW + 10,
        "alice",
        vec![],
        bridge::ExecuteMsg::RefundBridgeOrder { order_id: 0 },
    );
    assert_eq!(refund, Err(bridge::ContractError::TimelockNotExpired));
    let refund = bridge_message(
        &mut store,
        NOW + 3600,
        "alice",
        vec![],
        bridge::ExecuteMsg::RefundBridgeOrder { order_id: 0 },
    );
    assert_eq!(
        refund,
        Ok(bridge::ExecuteResponse::OrderRefunded {
            payment: Payment { to: "alice".to_string(), coin: uatom(10000) },
        })
    );
}

#[test]
fn only_the_owner_of_the_bridge_changes_its_setup() {
    let mut store = bridge_store();
    let add = bridge::ExecuteMsg::UpdateChainConfig { chain_id: 56, config: chain(56, 10) };
    assert_eq!(
        bridge_message(&mut store, NOW, "mallory", vec![], add.clone()),
        Err(bridge::ContractError::Unauthorized)
    );
    assert_eq!(
        bridge_message(&mut store, NOW, "owner", vec![], add),
        Ok(bridge::ExecuteResponse::ChainConfigUpdated)
    );
    let ids: Vec<u32> = store.chain_configs.iter().map(|c| c.0).collect();
    assert_eq!(ids, vec![2, 56, 137]);

    assert_eq!(
        bridge_message(
            &mut store,
            NOW,
            "owner",
            vec![],
            bridge::ExecuteMsg::RemoveChainConfig { chain_id: 2 },
        ),
        Ok(bridge::ExecuteResponse::ChainConfigRemoved)
    );
    let ids: Vec<u32> = store.chain_configs.iter().map(|c| c.0).collect();
    assert_eq!(ids, vec![56, 137]);

    assert_eq!(
        bridge_message(
            &mut store,
            NOW,
            "owner",
            vec![],
            bridge::ExecuteMsg::UpdateConfig {
                owner: Some("heir".to_string()),
                protocol_fee_bps: None,
                min_timelock_duration: None,
                max_timelock_duration: None,
                ibc_timeout_seconds: Some(900),
            },
        ),
        Ok(bridge::ExecuteResponse::ConfigUpdated)
    );
    assert_eq!(store.config.owner, "heir");
    assert_eq!(store.config.ibc_timeout_seconds, 900);
    assert_eq!(store.config.protocol_fee_bps, 50);

    let fees = bridge::ExecuteMsg::WithdrawFees { recipient: "treasury".to_string() };
    assert_eq!(
        bridge_message(&mut store, NOW, "owner", vec![], fees.clone()),
        Err(bridge::ContractError::Unauthorized)
    );
    assert_eq!(
        bridge_message(&mut store, NOW, "heir", vec![], fees),
        Ok(bridge::ExecuteResponse::FeesWithdrawn {
            to: "treasury".to_string(),
            coins: vec![uatom(7)],
        })
    );
}

#[test]
fn bridge_queries_reach_their_answers() {
    let mut store = bridge_store();
    for (sender, target) in [("alice", 2), ("carol", 137), ("alice", 137)] {
        bridge_message(
            &mut store,
            NOW,
            sender,
            vec![uatom(100)],
            bridge::ExecuteMsg::CreateBridgeOrder {
                target_chain_id: target,
                recipient: "0xrecipient".to_string(),
                secret_hash: hash_of("s3cret"),
                timelock: 3600,
            },
        )
        .unwrap();
    }

    match bridge::query(&store, bridge::QueryMsg::Config {}) {
        Ok(bridge::QueryResponse::Config(config)) => {
            assert_eq!(config.owner, "owner");
            assert_eq!(config.ibc_timeout_seconds, 600);
        }
        other => panic!("unexpected answer: {:?}", other),
    }
    assert_eq!(
        bridge::query(&store, bridge::QueryMsg::ChainConfig { chain_id: 137 }),
        Ok(bridge::QueryResponse::ChainConfig(bridge::ChainConfigResponse {
            config: chain(137, 25),
        }))
    );
    assert_eq!(
        bridge::query(&store, bridge::QueryMsg::ChainConfig { chain_id: 3 }),
        Err(bridge::ContractError::ChainNotSupported)
    );
    assert_eq!(
        bridge::query(
            &store,
            bridge::QueryMsg::AllChainConfigs { start_after: Some(2), limit: None },
        ),
        Ok(bridge::QueryResponse::ChainConfigs(bridge::ChainConfigsResponse {
            configs: vec![(137, chain(137, 25))],
        }))
    );
    match bridge::query(&store, bridge::QueryMsg::BridgeOrder { order_id: 2 }) {
        Ok(bridge::QueryResponse::BridgeOrder(found)) => assert_eq!(found.order, store.orders[2]),
        other => panic!("unexpected answer: {:?}", other),
    }
    assert_eq!(
        bridge::query(&store, bridge::QueryMsg::BridgeOrder { order_id: 3 }),
        Err(bridge::ContractError::OrderNotFound)
    );
    match bridge::query(
        &store,
        bridge::QueryMsg::OrdersByInitiator {
            initiator: "alice".to_string(),
            start_after: None,
            limit: None,
        },
    ) {
        Ok(bridge::QueryResponse::BridgeOrders(page)) => {
            let ids: Vec<u64> = page.orders.iter().map(|o| o.order_id).collect();
            assert_eq!(ids, vec![0, 2]);
        }
        other => panic!("unexpected answer: {:?}", other),
    }
    match bridge::query(
        &store,
        bridge::QueryMsg::OrdersByChain { chain_id: 137, start_after: Some(1), limit: None },
    ) {
        Ok(bridge::QueryResponse::BridgeOrders(page)) => {
            let ids: Vec<u64> = page.orders.iter().map(|o| o.order_id).collect();
            assert_eq!(ids, vec![2]);
        }
        other => panic!("unexpected answer: {:?}", other),
    }
    match bridge::query(
        &store,
        bridge::QueryMsg::OrdersByStatus {
            status: bridge::OrderStatus::Pending,
            start_after: None,
            limit: Some(1),
        },
    ) {
        Ok(bridge::QueryResponse::BridgeOrders(page)) => {
            let ids: Vec<u64> = page.orders.iter().map(|o| o.order_id).collect();
            assert_eq!(ids, vec![0]);
        }
        other => panic!("unexpected answer: {:?}", other),
    }
    assert_eq!(
        bridge::query(
            &store,
            bridge::QueryMsg::VerifySecret {
                secret: "s3cret".to_string(),
                secret_hash: hash_of("s3cret"),
            },
        ),
        Ok(bridge::QueryResponse::VerifySecret(bridge::VerifySecretResponse { is_valid: true }))
    );
}

fn resolver_store() -> resolver::Store {
    resolver::instantiate(
        "owner".to_string(),
        resolver::InstantiateMsg {
            atomic_swap_contract: "swap".to_string(),
            bridge_contract: "bridge".to_string(),
        },
    )
}

fn deploy_src(initiator: &str, secret: &str) -> resolver::ExecuteMsg {
    resolver::ExecuteMsg::DeploySrc {
        initiator: initiator.to_string(),
        dst_chain_id: 2,
        dst_recipient: "0xrecipient".to_string(),
        dst_token: "0xtoken".to_string(),
        src_amount: uatom(1000),
        dst_amount: "990".to_string(),
        secret_hash: hash_of(secret),
        safety_deposit: uatom(100),
        timelock: 3600,
    }
}

fn resolver_message(
    store: &mut resolver::Store,
    seconds: u64,
    sender: &str,
    funds: Vec<Coin>,
    msg: resolver::ExecuteMsg,
) -> Result<resolver::ExecuteResponse, resolver::ContractError> {
    resolver::execute(store, at(seconds), sender.to_string(), &funds, msg)
}

#[test]
fn resolver_messages_reach_their_operations() {
    let mut store = resolver_store();
    assert_eq!(
        resolver_message(&mut store, NOW, "resolver", vec![uatom(1099)], deploy_src("alice", "a")),
        Err(resolver::ContractError::InsufficientFunds)
    );
    assert_eq!(store.orders.len(), 0);
    assert_eq!(
        resolver_message(&mut store, NOW, "resolver", vec![uatom(1100)], deploy_src("alice", "a")),
        Ok(resolver::ExecuteResponse::SourceDeployed { order_id: 1 })
    );
    assert_eq!(
        resolver_message(&mut store, NOW, "resolver", vec![uatom(1100)], deploy_src("carol", "b")),
        Ok(resolver::ExecuteResponse::SourceDeployed { order_id: 2 })
    );

    assert_eq!(
        resolver_message(
            &mut store,
            NOW,
            "mallory",
            vec![],
            resolver::ExecuteMsg::DeployDst { order_id: 1 },
        ),
        Err(resolver::ContractError::NotResolver)
    );
    assert_eq!(
        resolver_message(
            &mut store,
            NOW,
            "resolver",
            vec![],
            resolver::ExecuteMsg::DeployDst { order_id: 1 },
        ),
        Ok(resolver::ExecuteResponse::DestinationDeployed)
    );
    assert!(store.orders[0].dst_deployed);

    assert_eq!(
        resolver_message(
            &mut store,
            NOW + 10,
            "resolver",
            vec![],
            resolver::ExecuteMsg::Withdraw {
                order_id: 1,
                secret: "guess".to_string(),
                is_source_chain: true,
            },
        ),
        Err(resolver::ContractError::InvalidSecret)
    );
    assert_eq!(
        resolver_message(
            &mut store,
            NOW + 10,
            "resolver",
            vec![],
            resolver::ExecuteMsg::Withdraw {
                order_id: 1,
                secret: "a".to_string(),
                is_source_chain: true,
            },
        ),
        Ok(resolver::ExecuteResponse::Withdrawn {
            payments: vec![
                Payment { to: "resolver".to_string(), coin: uatom(1000) },
                Payment { to: "resolver".to_string(), coin: uatom(100) },
            ],
        })
    );
    assert!(store.orders[0].completed);

    assert_eq!(
        resolver_message(
            &mut store,
            NOW + 10,
            "carol",
            vec![],
            resolver::ExecuteMsg::Cancel { order_id: 2 },
        ),
        Err(resolver::ContractError::TimelockNotExpired)
    );
    assert_eq!(
        resolver_message(
            &mut store,
            NOW + 3600,
            "carol",
            vec![],
            resolver::ExecuteMsg::Cancel { order_id: 2 },
        ),
        Ok(resolver::ExecuteResponse::Cancelled {
            payments: vec![
                Payment { to: "carol".to_string(), coin: uatom(1000) },
                Payment { to: "resolver".to_string(), coin: uatom(100) },
            ],
        })
    );
    assert_eq!(
        resolver_message(
            &mut store,
            NOW + 3601,
            "carol",
            vec![],
            resolver::ExecuteMsg::Cancel { order_id: 2 },
        ),
        Err(resolver::ContractError::OrderAlreadyCancelled)
    );

    let update = resolver::ExecuteMsg::UpdateConfig {
        owner: None,
        atomic_swap_contract: Some("swap2".to_string()),
        bridge_contract: None,
    };
    assert_eq!(
        resolver_message(&mut store, NOW, "mallory", vec![], update.clone()),
        Err(resolver::ContractError::Unauthorized)
    );
    assert_eq!(
        resolver_message(&mut store, NOW, "owner", vec![], update),
        Ok(resolver::ExecuteResponse::ConfigUpdated)
    );
    assert_eq!(store.config.atomic_swap_contract, "swap2");
    assert_eq!(store.config.bridge_contract, "bridge");
}

#[test]
fn resolver_queries_reach_their_answers() {
    let mut store = resolver_store();
    for (initiator, secret) in [("alice", "a"), ("carol", "b"), ("alice", "c")] {
        resolver_message(
            &mut store,
            NOW,
            "resolver",
            vec![uatom(1100)],
            deploy_src(initiator, secret),
        )
        .unwrap();
    }

    match resolver::query(&store, at(NOW), resolver::QueryMsg::Config {}) {
        Ok(resolver::QueryResponse::Config(config)) => {
            assert_eq!(config.owner, "owner");
            assert_eq!(config.bridge_contract, "bridge");
        }
        other => panic!("unexpected answer: {:?}", other),
    }
    match resolver::query(&store, at(NOW), resolver::QueryMsg::Order { order_id: 2 }) {
        Ok(resolver::QueryResponse::Order(found)) => assert_eq!(found.order, store.orders[1]),
        other => panic!("unexpected answer: {:?}", other),
    }
    assert_eq!(
        resolver::query(&store, at(NOW), resolver::QueryMsg::Order { order_id: 0 }),
        Err(resolver::ContractError::OrderNotFound)
    );
    assert_eq!(
        resolver::query(
            &store,
            at(NOW),
            resolver::QueryMsg::OrderBySecretHash { secret_hash: hash_of("b") },
        ),
        Ok(resolver::QueryResponse::OrderId(2))
    );
    assert_eq!(
        resolver::query(
            &store,
            at(NOW),
            resolver::QueryMsg::OrderBySecretHash { secret_hash: hash_of("z") },
        ),
        Err(resolver::ContractError::OrderNotFound)
    );
    match resolver::query(
        &store,
        at(NOW),
        resolver::QueryMsg::OrdersByInitiator {
            initiator: "alice".to_string(),
            start_after: Some(1),
            limit: None,
        },
    ) {
        Ok(resolver::QueryResponse::Orders(page)) => {
            let ids: Vec<u64> = page.orders.iter().map(|o| o.order_id).collect();
            assert_eq!(ids, vec![3]);
        }
        other => panic!("unexpected answer: {:?}", other),
    }
    match resolver::query(
        &store,
        at(NOW),
        resolver::QueryMsg::OrdersByResolver {
            resolver: "resolver".to_string(),
            start_after: None,
            limit: Some(2),
        },
    ) {
        Ok(resolver::QueryResponse::Orders(page)) => {
            let ids: Vec<u64> = page.orders.iter().map(|o| o.order_id).collect();
            assert_eq!(ids, vec![1, 2]);
        }
        other => panic!("unexpected answer: {:?}", other),
    }
    assert_eq!(
        resolver::query(
            &store,
            at(NOW),
            resolver::QueryMsg::CanWithdraw { order_id: 1, user: "mallory".to_string() },
        ),
        Ok(resolver::QueryResponse::CanWithdraw(resolver::CanWithdrawResponse {
            can_withdraw: false,
            reason: Some(resolver::WithdrawBlock::NotAllowed),
        }))
    );
    assert_eq!(
        resolver::query(&store, at(NOW), resolver::QueryMsg::CanCancel { order_id: 1 }),
        Ok(resolver::QueryResponse::CanCancel(resolver::CanCancelResponse {
            can_cancel: false,
            reason: Some(resolver::CancelBlock::NotExpired),
        }))
    );
    assert_eq!(
        resolver::query(&store, at(NOW + 3600), resolver::QueryMsg::CanCancel { order_id: 1 }),
        Ok(resolver::QueryResponse::CanCancel(resolver::CanCancelResponse {
            can_cancel: true,
            reason: None,
        }))
    );
    match resolver::query(&store, at(NOW), resolver::QueryMsg::GetEscrowImmutables { order_id: 1 }) {
        Ok(resolver::QueryResponse::EscrowImmutables(response)) => {
            assert_eq!(response.immutables.src_amount, "1000");
            assert_eq!(response.immutables.safety_deposit, "100");
            assert_eq!(response.immutables.secret_hash, hash_of("a"));
            assert_eq!(response.immutables.finality_timestamp, NOW + 3600 - 7200);
        }
        other => panic!("unexpected answer: {:?}", other),
    }
    assert_eq!(
        resolver::query(&store, at(NOW), resolver::QueryMsg::GetEscrowImmutables { order_id: 9 }),
        Err(resolver::ContractError::OrderNotFound)
    );
}
