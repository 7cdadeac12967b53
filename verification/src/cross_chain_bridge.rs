//! Cross-chain bridge orders: funds are locked against a hashlock, a transfer
//! to the target chain is initiated once the secret is revealed, and the order
//! is finalized by the acknowledgement or the timeout of that transfer.

use vstd::prelude::*;
use crate::fees::{checked_fee, fee_of};
use crate::hashing::{check_text_secret, is_hashlock_text, is_valid_hashlock, text_secret_matches};
use crate::ledger::{
    duplicate_text, effective_limit, page_bounds, page_entries, page_limit, page_range, select,
    Coin, Payment, Timestamp,
};

verus! {

/// Chain identifier of the Cosmos ledger.
pub const CHAIN_ID_COSMOS: u32 = 1;

/// Chain identifier of Ethereum.
pub const CHAIN_ID_ETHEREUM: u32 = 2;

/// Chain identifier of BNB Smart Chain.
pub const CHAIN_ID_BSC: u32 = 56;

/// Chain identifier of Polygon.
pub const CHAIN_ID_POLYGON: u32 = 137;

/// Chain identifier of Arbitrum.
pub const CHAIN_ID_ARBITRUM: u32 = 42161;

/// Chain identifier of Optimism.
pub const CHAIN_ID_OPTIMISM: u32 = 10;

/// The channel version that both ends must speak.
pub const IBC_VERSION: &'static str = "fusion-bridge-v1";

/// Why an operation on a bridge order was rejected.
#[derive(Clone, Copy, Debug, PartialEq, Eq, Structural)]
pub enum ContractError {
    Unauthorized,
    OrderNotFound,
    OrderAlreadyExists,
    InvalidSecret,
    InvalidSecretHash,
    OrderAlreadyCompleted,
    OrderAlreadyRefunded,
    TimelockNotExpired,
    TimelockExpired,
    InvalidTimelock { min: u64, max: u64 },
    InvalidAmount,
    InsufficientFunds,
    InvalidChainId,
    ChainNotSupported,
    InvalidIbcChannel,
    IbcTransferFailed,
    InvalidRecipientAddress,
}

impl ContractError {
    /// The text of the message that describes the error, without the bounds of a timelock.
    pub open spec fn text(self) -> Seq<char> {
        match self {
            ContractError::Unauthorized => "Unauthorized"@,
            ContractError::OrderNotFound => "Bridge order not found"@,
            ContractError::OrderAlreadyExists => "Bridge order already exists"@,
            ContractError::InvalidSecret => "Invalid secret"@,
            ContractError::InvalidSecretHash => "Invalid secret hash"@,
            ContractError::OrderAlreadyCompleted => "Order already completed"@,
            ContractError::OrderAlreadyRefunded => "Order already refunded"@,
            ContractError::TimelockNotExpired => "Timelock not expired"@,
            ContractError::TimelockExpired => "Timelock already expired"@,
            ContractError::InvalidTimelock { .. } => "Invalid timelock"@,
            ContractError::InvalidAmount => "Invalid amount"@,
            ContractError::InsufficientFunds => "Insufficient funds"@,
            ContractError::InvalidChainId => "Invalid chain ID"@,
            ContractError::ChainNotSupported => "Chain not supported"@,
            ContractError::InvalidIbcChannel => "Invalid IBC channel"@,
            ContractError::IbcTransferFailed => "IBC transfer failed"@,
            ContractError::InvalidRecipientAddress => "Invalid recipient address"@,
        }
    }

    /// The message that describes the error, without the bounds of a timelock.
    pub fn message(&self) -> (message: &'static str)
        ensures
            message@ == self.text(),
    {
        match self {
            ContractError::Unauthorized => "Unauthorized",
            ContractError::OrderNotFound => "Bridge order not found",
            ContractError::OrderAlreadyExists => "Bridge order already exists",
            ContractError::InvalidSecret => "Invalid secret",
            ContractError::InvalidSecretHash => "Invalid secret hash",
            ContractError::OrderAlreadyCompleted => "Order already completed",
            ContractError::OrderAlreadyRefunded => "Order already refunded",
            ContractError::TimelockNotExpired => "Timelock not expired",
            ContractError::TimelockExpired => "Timelock already expired",
            ContractError::InvalidTimelock { .. } => "Invalid timelock",
            ContractError::InvalidAmount => "Invalid amount",
            ContractError::InsufficientFunds => "Insufficient funds",
            ContractError::InvalidChainId => "Invalid chain ID",
            ContractError::ChainNotSupported => "Chain not supported",
            ContractError::InvalidIbcChannel => "Invalid IBC channel",
            ContractError::IbcTransferFailed => "IBC transfer failed",
            ContractError::InvalidRecipientAddress => "Invalid recipient address",
        }
    }
}

/// The parameters of the bridge.
#[derive(Clone, Debug, PartialEq, Eq)]
pub struct Config {
    pub owner: String,
    pub protocol_fee_bps: u64,
    pub min_timelock_duration: u64,
    pub max_timelock_duration: u64,
    pub ibc_timeout_seconds: u64,
}

/// What the bridge knows of one target chain.
#[derive(Clone, Debug, PartialEq, Eq)]
pub struct ChainConfig {
    pub chain_id: u32,
    pub chain_name: String,
    pub ibc_channel: String,
    pub is_active: bool,
    /// The chain-specific fee, in basis points, added to the protocol fee.
    pub fee_multiplier: u64,
}

impl ChainConfig {
    /// A copy of the configuration.
    pub fn duplicate(&self) -> (copy: ChainConfig)
        ensures
            copy == *self,
    {
        ChainConfig {
            chain_id: self.chain_id,
            chain_name: self.chain_name.clone(),
            ibc_channel: self.ibc_channel.clone(),
            is_active: self.is_active,
            fee_multiplier: self.fee_multiplier,
        }
    }
}

/// The lifecycle of a bridge order. `Completed` and `Refunded` are final;
/// a `Failed` order can still be refunded.
#[derive(Clone, Copy, Debug, PartialEq, Eq, Structural)]
pub enum OrderStatus {
    Pending,
    Active,
    Completed,
    Refunded,
    Failed,
}

/// One order to move funds to another chain.
#[derive(Clone, Debug, PartialEq, Eq)]
pub struct BridgeOrder {
    pub order_id: u64,
    pub initiator: String,
    pub source_chain_id: u32,
    pub target_chain_id: u32,
    pub recipient: String,
    pub amount: Coin,
    pub secret_hash: String,
    pub timelock: Timestamp,
    pub status: OrderStatus,
    pub created_at: Timestamp,
    pub completed_at: Option<Timestamp>,
    pub secret: Option<String>,
    pub ibc_packet_sequence: Option<u64>,
}

impl BridgeOrder {
    /// A copy of the order.
    pub fn duplicate(&self) -> (copy: BridgeOrder)
        ensures
            copy == *self,
    {
        BridgeOrder {
            order_id: self.order_id,
            initiator: self.initiator.clone(),
            source_chain_id: self.source_chain_id,
            target_chain_id: self.target_chain_id,
            recipient: self.recipient.clone(),
            amount: self.amount.duplicate(),
            secret_hash: self.secret_hash.clone(),
            timelock: self.timelock,
            status: self.status,
            created_at: self.created_at,
            completed_at: self.completed_at,
            secret: duplicate_text(&self.secret),
            ibc_packet_sequence: self.ibc_packet_sequence,
        }
    }
}

/// A transfer to the target chain that awaits its acknowledgement.
#[derive(Clone, Debug, PartialEq, Eq)]
pub struct IbcTransfer {
    pub order_id: u64,
    pub packet_sequence: u64,
    pub channel_id: String,
    pub sender: String,
    pub receiver: String,
    pub amount: Coin,
    pub timeout_timestamp: Timestamp,
}

impl IbcTransfer {
    /// A copy of the record.
    pub fn duplicate(&self) -> (copy: IbcTransfer)
        ensures
            copy == *self,
    {
        IbcTransfer {
            order_id: self.order_id,
            packet_sequence: self.packet_sequence,
            channel_id: self.channel_id.clone(),
            sender: self.sender.clone(),
            receiver: self.receiver.clone(),
            amount: self.amount.duplicate(),
            timeout_timestamp: self.timeout_timestamp,
        }
    }
}

/// Configuration handed over at instantiation.
#[derive(Clone, Debug, PartialEq, Eq)]
pub struct InstantiateMsg {
    pub protocol_fee_bps: u64,
    pub min_timelock_duration: u64,
    pub max_timelock_duration: u64,
    pub ibc_timeout_seconds: u64,
    pub initial_chains: Vec<ChainConfig>,
}

/// Nothing is needed to migrate.
#[derive(Clone, Copy, Debug, PartialEq, Eq, Structural)]
pub struct MigrateMsg {}

/// The messages that change the bridge.
#[allow(inconsistent_fields)]
#[derive(Clone, Debug, PartialEq, Eq)]
pub enum ExecuteMsg {
    /// Locks the attached funds toward `target_chain_id`; `timelock` is in
    /// seconds from now.
    CreateBridgeOrder { target_chain_id: u32, recipient: String, secret_hash: String, timelock: u64 },
    CompleteBridgeOrder { order_id: u64, secret: String },
    RefundBridgeOrder { order_id: u64 },
    UpdateChainConfig { chain_id: u32, config: ChainConfig },
    RemoveChainConfig { chain_id: u32 },
    UpdateConfig {
        owner: Option<String>,
        protocol_fee_bps: Option<u64>,
        min_timelock_duration: Option<u64>,
        max_timelock_duration: Option<u64>,
        ibc_timeout_seconds: Option<u64>,
    },
    WithdrawFees { recipient: String },
}

/// The queries that the bridge answers.
#[allow(inconsistent_fields)]
#[derive(Clone, Debug, PartialEq, Eq)]
pub enum QueryMsg {
    Config {},
    ChainConfig { chain_id: u32 },
    AllChainConfigs { start_after: Option<u32>, limit: Option<u32> },
    BridgeOrder { order_id: u64 },
    OrdersByInitiator { initiator: String, start_after: Option<u64>, limit: Option<u32> },
    OrdersByStatus { status: OrderStatus, start_after: Option<u64>, limit: Option<u32> },
    OrdersByChain { chain_id: u32, start_after: Option<u64>, limit: Option<u32> },
    VerifySecret { secret: String, secret_hash: String },
}

/// The parameters of the bridge, as a query returns them.
#[derive(Clone, Debug, PartialEq, Eq)]
pub struct ConfigResponse {
    pub owner: String,
    pub protocol_fee_bps: u64,
    pub min_timelock_duration: u64,
    pub max_timelock_duration: u64,
    pub ibc_timeout_seconds: u64,
}

/// The configuration of one chain.
#[derive(Clone, Debug, PartialEq, Eq)]
pub struct ChainConfigResponse {
    pub config: ChainConfig,
}

/// A page of chain configurations, by ascending chain id.
#[derive(Clone, Debug, PartialEq, Eq)]
pub struct ChainConfigsResponse {
    pub configs: Vec<(u32, ChainConfig)>,
}

/// Whether a secret hashes to a given hash.
#[derive(Clone, Copy, Debug, PartialEq, Eq, Structural)]
pub struct VerifySecretResponse {
    pub is_valid: bool,
}

/// The message that completes an order from the other chain.
#[derive(Clone, Debug, PartialEq, Eq)]
pub struct IbcExecuteMsg {
    pub order_id: u64,
    pub secret: String,
}

/// The acknowledgement that answers a received packet.
#[derive(Clone, Debug, PartialEq, Eq)]
pub struct IbcAcknowledgement {
    pub success: bool,
    pub error: Option<String>,
}

/// The ordering of a channel.
#[derive(Clone, Copy, Debug, PartialEq, Eq, Structural)]
pub enum IbcOrder {
    Unordered,
    Ordered,
}

/// What a successful completion hands to the messaging layer: the transfer to
/// send, and the fee that stays behind.
#[derive(Clone, Debug, PartialEq, Eq)]
pub struct Dispatch {
    pub transfer: IbcTransfer,
    pub fee: u128,
}

/// What an accepted message did, and what the ledger has to send for it.
#[allow(inconsistent_fields)]
#[derive(Clone, Debug, PartialEq, Eq)]
pub enum ExecuteResponse {
    OrderCreated { order_id: u64 },
    TransferStarted { dispatch: Dispatch },
    OrderRefunded { payment: Payment },
    ChainConfigUpdated,
    ChainConfigRemoved,
    ConfigUpdated,
    FeesWithdrawn { to: String, coins: Vec<Coin> },
}

/// One order, as a query returns it.
#[derive(Clone, Debug, PartialEq, Eq)]
pub struct BridgeOrderResponse {
    pub order: BridgeOrder,
}

/// A page of orders, as a query returns it.
#[derive(Clone, Debug, PartialEq, Eq)]
pub struct BridgeOrdersResponse {
    pub orders: Vec<BridgeOrder>,
}

/// The answer to a query.
#[derive(Clone, Debug, PartialEq, Eq)]
pub enum QueryResponse {
    Config(ConfigResponse),
    ChainConfig(ChainConfigResponse),
    ChainConfigs(ChainConfigsResponse),
    BridgeOrder(BridgeOrderResponse),
    BridgeOrders(BridgeOrdersResponse),
    VerifySecret(VerifySecretResponse),
}

/// The state of the bridge. Order `n` is at index `n`; chain configurations are
/// kept by ascending key; no two pending transfers share a sequence.
#[derive(Debug, PartialEq, Eq)]
pub struct Store {
    pub config: Config,
    pub contract_address: String,
    pub chain_configs: Vec<(u32, ChainConfig)>,
    pub order_counter: u64,
    pub orders: Vec<BridgeOrder>,
    pub ibc_transfers: Vec<IbcTransfer>,
}

/// The first index at or after `from` whose key is at least `chain_id`; the
/// length where there is none.
pub open spec fn chain_slot_from(chains: Seq<(u32, ChainConfig)>, chain_id: u32, from: int) -> int
    decreases chains.len() - from,
{
    if from < 0 || from >= chains.len() || chains[from].0 >= chain_id {
        from
    } else {
        chain_slot_from(chains, chain_id, from + 1)
    }
}

/// Where `chain_id` is, or would be inserted, among the ascending keys.
pub open spec fn chain_slot(chains: Seq<(u32, ChainConfig)>, chain_id: u32) -> int {
    chain_slot_from(chains, chain_id, 0)
}

/// The configuration stored under `chain_id`, if any.
pub open spec fn chain_config_of(chains: Seq<(u32, ChainConfig)>, chain_id: u32) -> Option<
    ChainConfig,
> {
    let slot = chain_slot(chains, chain_id);
    if 0 <= slot < chains.len() && chains[slot].0 == chain_id {
        Some(chains[slot].1)
    } else {
        None
    }
}

/// Whether the keys are strictly ascending.
pub open spec fn chains_sorted(chains: Seq<(u32, ChainConfig)>) -> bool {
    forall|i: int, j: int| 0 <= i < j < chains.len() ==> (#[trigger] chains[i]).0 < (
    #[trigger] chains[j]).0
}

/// The index of the first pending transfer at or after `from` with the given
/// sequence, or `-1`.
pub open spec fn find_transfer_from(transfers: Seq<IbcTransfer>, sequence: u64, from: int) -> int
    decreases transfers.len() - from,
{
    if from < 0 || from >= transfers.len() {
        -1
    } else if transfers[from].packet_sequence == sequence {
        from
    } else {
        find_transfer_from(transfers, sequence, from + 1)
    }
}

/// The index of the pending transfer with the given sequence, or `-1`.
pub open spec fn find_transfer(transfers: Seq<IbcTransfer>, sequence: u64) -> int {
    find_transfer_from(transfers, sequence, 0)
}

/// Whether no two pending transfers share a sequence.
pub open spec fn sequences_unique(transfers: Seq<IbcTransfer>) -> bool {
    forall|i: int, j: int|
        0 <= i < j < transfers.len() ==> (#[trigger] transfers[i]).packet_sequence != (
        #[trigger] transfers[j]).packet_sequence
}

/// A found transfer has the sequence that was looked for, and nothing before it has.
pub proof fn lemma_find_transfer(transfers: Seq<IbcTransfer>, sequence: u64, from: int)
    requires
        0 <= from,
    ensures
        ({
            let k = find_transfer_from(transfers, sequence, from);
            &&& k == -1 || (from <= k < transfers.len() && transfers[k].packet_sequence
                == sequence)
            &&& forall|j: int|
                from <= j < (if k == -1 {
                    transfers.len() as int
                } else {
                    k
                }) ==> (#[trigger] transfers[j]).packet_sequence != sequence
        }),
    decreases transfers.len() - from,
{
    if from < transfers.len() && transfers[from].packet_sequence != sequence {
        lemma_find_transfer(transfers, sequence, from + 1);
    }
}

/// The slot of a key lies within bounds, everything before it is smaller and
/// the entry at it, if any, is not.
pub proof fn lemma_chain_slot(chains: Seq<(u32, ChainConfig)>, chain_id: u32, from: int)
    requires
        0 <= from <= chains.len(),
    ensures
        ({
            let k = chain_slot_from(chains, chain_id, from);
            &&& from <= k <= chains.len()
            &&& k < chains.len() ==> chains[k].0 >= chain_id
            &&& forall|j: int| from <= j < k ==> (#[trigger] chains[j]).0 < chain_id
        }),
    decreases chains.len() - from,
{
    if from < chains.len() && chains[from].0 < chain_id {
        lemma_chain_slot(chains, chain_id, from + 1);
    }
}

/// The slot of a key is the one place that splits the smaller keys from the rest.
pub proof fn lemma_slot_unique(chains: Seq<(u32, ChainConfig)>, chain_id: u32, slot: int)
    requires
        0 <= slot <= chains.len(),
        forall|j: int| 0 <= j < slot ==> (#[trigger] chains[j]).0 < chain_id,
        slot < chains.len() ==> chains[slot].0 >= chain_id,
    ensures
        chain_slot(chains, chain_id) == slot,
{
    lemma_chain_slot(chains, chain_id, 0);
}

/// The status that an order may still be completed or refunded from.
pub open spec fn is_open(status: OrderStatus) -> bool {
    status == OrderStatus::Pending || status == OrderStatus::Active
}

/// The statuses that no operation leaves again.
pub open spec fn is_final(status: OrderStatus) -> bool {
    status == OrderStatus::Completed || status == OrderStatus::Refunded
}

/// The protocol fee plus the chain fee on `amount`.
pub open spec fn total_fee(amount: nat, protocol_fee_bps: nat, fee_multiplier: nat) -> nat {
    fee_of(amount, protocol_fee_bps) + fee_of(amount, fee_multiplier)
}

impl Store {
    /// The invariant of the store.
    pub open spec fn wf(&self) -> bool {
        &&& self.order_counter == self.orders@.len()
        &&& self.orders@.len() < u64::MAX
        &&& forall|i: int| 0 <= i < self.orders@.len() ==> (#[trigger] self.orders@[i]).order_id == i
        &&& chains_sorted(self.chain_configs@)
        &&& sequences_unique(self.ibc_transfers@)
    }

    /// Whether an order with this id exists.
    pub open spec fn has_order(&self, order_id: u64) -> bool {
        order_id < self.orders@.len()
    }

    /// The order with this id.
    pub open spec fn order(&self, order_id: u64) -> BridgeOrder {
        self.orders@[order_id as int]
    }

    /// The configuration of a chain, if the bridge has one.
    pub open spec fn chain(&self, chain_id: u32) -> Option<ChainConfig> {
        chain_config_of(self.chain_configs@, chain_id)
    }

    fn locate_chain(&self, chain_id: u32) -> (slot: usize)
        ensures
            slot == chain_slot(self.chain_configs@, chain_id),
            slot <= self.chain_configs@.len(),
            slot < self.chain_configs@.len() ==> self.chain_configs@[slot as int].0 >= chain_id,
            forall|j: int| 0 <= j < slot ==> (#[trigger] self.chain_configs@[j]).0 < chain_id,
    {
        let mut i: usize = 0;
        while i < self.chain_configs.len() && self.chain_configs[i].0 < chain_id
            invariant
                i <= self.chain_configs@.len(),
                chain_slot(self.chain_configs@, chain_id) == chain_slot_from(
                    self.chain_configs@,
                    chain_id,
                    i as int,
                ),
                forall|j: int| 0 <= j < i ==> (#[trigger] self.chain_configs@[j]).0 < chain_id,
            decreases self.chain_configs@.len() - i,
        {
            i += 1;
        }
        i
    }

    fn find_chain(&self, chain_id: u32) -> (found: Option<usize>)
        ensures
            found.is_some() == self.chain(chain_id).is_some(),
            found matches Some(i) ==> i < self.chain_configs@.len() && i == chain_slot(
                self.chain_configs@,
                chain_id,
            ) && self.chain_configs@[i as int].0 == chain_id && self.chain(chain_id) == Some(
                self.chain_configs@[i as int].1,
            ),
    {
        let slot = self.locate_chain(chain_id);
        if slot < self.chain_configs.len() && self.chain_configs[slot].0 == chain_id {
            Some(slot)
        } else {
            None
        }
    }

    fn locate_transfer(&self, sequence: u64) -> (found: Option<usize>)
        ensures
            found.is_some() == (find_transfer(self.ibc_transfers@, sequence) >= 0),
            found matches Some(i) ==> i == find_transfer(self.ibc_transfers@, sequence) && i
                < self.ibc_transfers@.len() && self.ibc_transfers@[i as int].packet_sequence
                == sequence,
            found is None ==> find_transfer(self.ibc_transfers@, sequence) == -1,
    {
        let mut i: usize = 0;
        while i < self.ibc_transfers.len()
            invariant
                i <= self.ibc_transfers@.len(),
                find_transfer(self.ibc_transfers@, sequence) == find_transfer_from(
                    self.ibc_transfers@,
                    sequence,
                    i as int,
                ),
            decreases self.ibc_transfers@.len() - i,
        {
            if self.ibc_transfers[i].packet_sequence == sequence {
                return Some(i);
            }
            i += 1;
        }
        None
    }

    fn index_of(&self, order_id: u64) -> (index: Option<usize>)
        requires
            self.wf(),
        ensures
            index.is_some() == self.has_order(order_id),
            index matches Some(i) ==> i == order_id,
    {
        let count = self.orders.len();
        if order_id < self.order_counter {
            assert(order_id < count);
            Some(order_id as usize)
        } else {
            None
        }
    }

    /// Stores `config` under `chain_id`, replacing what was there.
    fn put_chain(&mut self, chain_id: u32, config: ChainConfig)
        requires
            chains_sorted(old(self).chain_configs@),
        ensures
            chains_sorted(final(self).chain_configs@),
            final(self).chain(chain_id) == Some(config),
            forall|other: u32|
                other != chain_id ==> #[trigger] final(self).chain(other) == old(self).chain(other),
            final(self).chain_configs@ == (if old(self).chain(chain_id).is_some() {
                old(self).chain_configs@.update(
                    chain_slot(old(self).chain_configs@, chain_id),
                    (chain_id, config),
                )
            } else {
                old(self).chain_configs@.insert(
                    chain_slot(old(self).chain_configs@, chain_id),
                    (chain_id, config),
                )
            }),
            final(self).config == old(self).config,
            final(self).contract_address == old(self).contract_address,
            final(self).order_counter == old(self).order_counter,
            final(self).orders == old(self).orders,
            final(self).ibc_transfers == old(self).ibc_transfers,
    {
        let slot = self.locate_chain(chain_id);
        let ghost before = self.chain_configs@;
        if slot < self.chain_configs.len() && self.chain_configs[slot].0 == chain_id {
            self.chain_configs[slot] = (chain_id, config);
        } else {
            self.chain_configs.insert(slot, (chain_id, config));
        }
        proof {
            let after = self.chain_configs@;
            let slot_int = slot as int;
            assert forall|other: u32| true implies chain_slot(after, other) == (if other
                <= chain_id || before.len() == after.len() {
                chain_slot(before, other)
            } else {
                chain_slot(before, other) + 1
            }) && #[trigger] chain_config_of(after, other) == (if other == chain_id {
                Some(config)
            } else {
                chain_config_of(before, other)
            }) by {
                lemma_chain_slot(before, other, 0);
                let q = chain_slot(before, other);
                if before.len() == after.len() {
                    lemma_slot_unique(after, other, q);
                } else if other <= chain_id {
                    assert(q <= slot_int);
                    lemma_slot_unique(after, other, q);
                } else {
                    assert(q >= slot_int);
                    assert forall|j: int| 0 <= j < q + 1 implies (#[trigger] after[j]).0
                        < other by {
                        if j > slot_int {
                            assert(after[j] == before[j - 1]);
                        }
                    }
                    lemma_slot_unique(after, other, q + 1);
                }
            }
            assert(chains_sorted(after));
        }
    }
}

/// The chain configurations after `config` is stored under `chain_id`.
pub open spec fn put_chain_spec(chains: Seq<(u32, ChainConfig)>, chain_id: u32, config: ChainConfig)
    -> Seq<(u32, ChainConfig)> {
    if chain_config_of(chains, chain_id).is_some() {
        chains.update(chain_slot(chains, chain_id), (chain_id, config))
    } else {
        chains.insert(chain_slot(chains, chain_id), (chain_id, config))
    }
}

/// The chain configurations after the first `count` of `initial` are stored,
/// each under its own chain id, in order.
pub open spec fn initial_chains_spec(initial: Seq<ChainConfig>, count: int) -> Seq<(u32, ChainConfig)>
    decreases count,
{
    if count <= 0 {
        Seq::empty()
    } else {
        put_chain_spec(
            initial_chains_spec(initial, count - 1),
            initial[count - 1].chain_id,
            initial[count - 1],
        )
    }
}

/// The pending transfers after `transfer` is stored under its sequence.
pub open spec fn put_transfer_spec(transfers: Seq<IbcTransfer>, transfer: IbcTransfer) -> Seq<
    IbcTransfer,
> {
    let k = find_transfer(transfers, transfer.packet_sequence);
    if k >= 0 {
        transfers.update(k, transfer)
    } else {
        transfers.push(transfer)
    }
}

/// The orders after the transfer of order `order_id` was acknowledged: an
/// order that awaits its acknowledgement becomes completed or failed, any
/// other order stays as it is.
pub open spec fn acknowledged(orders: Seq<BridgeOrder>, order_id: u64, success: bool) -> Seq<
    BridgeOrder,
> {
    if order_id < orders.len() && orders[order_id as int].status == OrderStatus::Active {
        orders.update(
            order_id as int,
            BridgeOrder {
                status: if success {
                    OrderStatus::Completed
                } else {
                    OrderStatus::Failed
                },
                ..orders[order_id as int]
            },
        )
    } else {
        orders
    }
}

/// The first reason for which a new bridge order is rejected, if any.
pub open spec fn create_error(
    config: Config,
    target: Option<ChainConfig>,
    now: Timestamp,
    funds: Seq<Coin>,
    secret_hash: Seq<char>,
    timelock_seconds: u64,
) -> Option<ContractError> {
    let bounds = ContractError::InvalidTimelock {
        min: config.min_timelock_duration,
        max: config.max_timelock_duration,
    };
    if target is None || !target.unwrap().is_active {
        Some(ContractError::ChainNotSupported)
    } else if timelock_seconds < config.min_timelock_duration || timelock_seconds
        > config.max_timelock_duration {
        Some(bounds)
    } else if !is_hashlock_text(secret_hash) {
        Some(ContractError::InvalidSecretHash)
    } else if funds.len() == 0 || funds[0].amount == 0 {
        Some(ContractError::InvalidAmount)
    } else if now.plus_seconds_spec(timelock_seconds) > u64::MAX {
        Some(bounds)
    } else {
        None
    }
}

impl Store {
    /// The first reason for which completing order `order_id` is rejected, if
    /// any. `secret_ok` says whether the revealed secret hashes to the hashlock.
    pub open spec fn complete_outcome(&self, now: Timestamp, order_id: u64, secret_ok: bool)
        -> Option<ContractError> {
        if !self.has_order(order_id) {
            Some(ContractError::OrderNotFound)
        } else {
            let order = self.order(order_id);
            if order.status == OrderStatus::Completed {
                Some(ContractError::OrderAlreadyCompleted)
            } else if order.status == OrderStatus::Refunded || order.status
                == OrderStatus::Failed {
                Some(ContractError::OrderAlreadyRefunded)
            } else if now.nanos >= order.timelock.nanos {
                Some(ContractError::TimelockExpired)
            } else if !secret_ok {
                Some(ContractError::InvalidSecret)
            } else {
                match self.chain(order.target_chain_id) {
                    None => Some(ContractError::ChainNotSupported),
                    Some(chain) => if total_fee(
                        order.amount.amount as nat,
                        self.config.protocol_fee_bps as nat,
                        chain.fee_multiplier as nat,
                    ) > order.amount.amount {
                        Some(ContractError::InsufficientFunds)
                    } else if now.plus_seconds_spec(self.config.ibc_timeout_seconds) > u64::MAX {
                        Some(
                            ContractError::InvalidTimelock {
                                min: self.config.min_timelock_duration,
                                max: self.config.max_timelock_duration,
                            },
                        )
                    } else {
                        None
                    },
                }
            }
        }
    }

    /// The transfer that completing order `order_id` at `now` initiates.
    pub open spec fn transfer_for(&self, now: Timestamp, order_id: u64) -> IbcTransfer {
        let order = self.order(order_id);
        let chain = self.chain(order.target_chain_id).unwrap();
        IbcTransfer {
            order_id,
            packet_sequence: (self.order_counter + 1) as u64,
            channel_id: chain.ibc_channel,
            sender: self.contract_address,
            receiver: order.recipient,
            amount: Coin {
                denom: order.amount.denom,
                amount: (order.amount.amount - total_fee(
                    order.amount.amount as nat,
                    self.config.protocol_fee_bps as nat,
                    chain.fee_multiplier as nat,
                )) as u128,
            },
            timeout_timestamp: Timestamp {
                nanos: now.plus_seconds_spec(self.config.ibc_timeout_seconds) as u64,
            },
        }
    }

    /// The first reason for which refunding order `order_id` is rejected, if any.
    pub open spec fn refund_outcome(&self, now: Timestamp, sender: Seq<char>, order_id: u64)
        -> Option<ContractError> {
        if !self.has_order(order_id) {
            Some(ContractError::OrderNotFound)
        } else {
            let order = self.order(order_id);
            if sender != order.initiator@ {
                Some(ContractError::Unauthorized)
            } else if order.status == OrderStatus::Completed {
                Some(ContractError::OrderAlreadyCompleted)
            } else if order.status == OrderStatus::Refunded {
                Some(ContractError::OrderAlreadyRefunded)
            } else if now.nanos < order.timelock.nanos {
                Some(ContractError::TimelockNotExpired)
            } else {
                None
            }
        }
    }

    /// The first reason for which a completion message from the other chain is
    /// rejected, if any.
    pub open spec fn message_outcome(&self, order_id: u64, secret_ok: bool) -> Option<
        ContractError,
    > {
        if !self.has_order(order_id) {
            Some(ContractError::OrderNotFound)
        } else if self.order(order_id).status == OrderStatus::Completed {
            Some(ContractError::OrderAlreadyCompleted)
        } else if self.order(order_id).status == OrderStatus::Refunded {
            Some(ContractError::OrderAlreadyRefunded)
        } else if !secret_ok {
            Some(ContractError::InvalidSecret)
        } else {
            None
        }
    }

    /// Whether everything but the orders and the pending transfers is as in `other`.
    pub open spec fn same_setup(&self, other: &Store) -> bool {
        &&& self.config == other.config
        &&& self.contract_address == other.contract_address
        &&& self.chain_configs == other.chain_configs
        &&& self.order_counter == other.order_counter
    }

    /// Whether everything but the chain configurations is as in `other`.
    pub open spec fn same_books(&self, other: &Store) -> bool {
        &&& self.config == other.config
        &&& self.contract_address == other.contract_address
        &&& self.order_counter == other.order_counter
        &&& self.orders == other.orders
        &&& self.ibc_transfers == other.ibc_transfers
    }

    fn put_transfer(&mut self, transfer: IbcTransfer)
        requires
            sequences_unique(old(self).ibc_transfers@),
        ensures
            sequences_unique(final(self).ibc_transfers@),
            final(self).ibc_transfers@ == put_transfer_spec(old(self).ibc_transfers@, transfer),
            final(self).same_setup(old(self)),
            final(self).orders == old(self).orders,
    {
        proof {
            lemma_find_transfer(self.ibc_transfers@, transfer.packet_sequence, 0);
        }
        match self.locate_transfer(transfer.packet_sequence) {
            Some(i) => {
                self.ibc_transfers[i] = transfer;
            },
            None => {
                self.ibc_transfers.push(transfer);
            },
        }
    }
}

/// Sets the bridge up with the given parameters and chains, and with no orders.
pub fn instantiate(sender: String, contract_address: String, msg: InstantiateMsg) -> (store: Store)
    ensures
        store.wf(),
        store.orders@.len() == 0,
        store.ibc_transfers@.len() == 0,
        store.contract_address == contract_address,
        store.config == (Config {
            owner: sender,
            protocol_fee_bps: msg.protocol_fee_bps,
            min_timelock_duration: msg.min_timelock_duration,
            max_timelock_duration: msg.max_timelock_duration,
            ibc_timeout_seconds: msg.ibc_timeout_seconds,
        }),
        store.chain_configs@ == initial_chains_spec(
            msg.initial_chains@,
            msg.initial_chains@.len() as int,
        ),
{
    let mut store = Store {
        config: Config {
            owner: sender,
            protocol_fee_bps: msg.protocol_fee_bps,
            min_timelock_duration: msg.min_timelock_duration,
            max_timelock_duration: msg.max_timelock_duration,
            ibc_timeout_seconds: msg.ibc_timeout_seconds,
        },
        contract_address,
        chain_configs: Vec::new(),
        order_counter: 0,
        orders: Vec::new(),
        ibc_transfers: Vec::new(),
    };
    let ghost config = store.config;
    let mut i: usize = 0;
    while i < msg.initial_chains.len()
        invariant
            i <= msg.initial_chains@.len(),
            store.wf(),
            store.orders@.len() == 0,
            store.ibc_transfers@.len() == 0,
            store.contract_address == contract_address,
            store.config == config,
            store.chain_configs@ == initial_chains_spec(msg.initial_chains@, i as int),
        decreases msg.initial_chains@.len() - i,
    {
        let chain = msg.initial_chains[i].duplicate();
        store.put_chain(chain.chain_id, chain);
        i += 1;
    }
    store
}

/// Locks the first attached coin in a new order toward `target_chain_id` and
/// returns the id of the order.
pub fn execute_create_bridge_order(
    store: &mut Store,
    now: Timestamp,
    sender: String,
    funds: &Vec<Coin>,
    target_chain_id: u32,
    recipient: String,
    secret_hash: String,
    timelock_seconds: u64,
) -> (result: Result<u64, ContractError>)
    requires
        old(store).wf(),
        old(store).orders@.len() + 1 < u64::MAX,
    ensures
        final(store).wf(),
        match result {
            Ok(order_id) => {
                &&& create_error(
                    old(store).config,
                    old(store).chain(target_chain_id),
                    now,
                    funds@,
                    secret_hash@,
                    timelock_seconds,
                ) is None
                &&& order_id == old(store).order_counter
                &&& final(store).order_counter == order_id + 1
                &&& final(store).config == old(store).config
                &&& final(store).contract_address == old(store).contract_address
                &&& final(store).chain_configs == old(store).chain_configs
                &&& final(store).ibc_transfers == old(store).ibc_transfers
                &&& final(store).orders@ == old(store).orders@.push(
                    (BridgeOrder {
                        order_id,
                        initiator: sender,
                        source_chain_id: CHAIN_ID_COSMOS,
                        target_chain_id,
                        recipient,
                        amount: funds@[0],
                        secret_hash,
                        timelock: Timestamp { nanos: now.plus_seconds_spec(timelock_seconds) as u64 },
                        status: OrderStatus::Pending,
                        created_at: now,
                        completed_at: None,
                        secret: None,
                        ibc_packet_sequence: None,
                    }),
                )
            },
            Err(e) => {
                &&& create_error(
                    old(store).config,
                    old(store).chain(target_chain_id),
                    now,
                    funds@,
                    secret_hash@,
                    timelock_seconds,
                ) == Some(e)
                &&& *final(store) == *old(store)
            },
        },
{
    let bounds = ContractError::InvalidTimelock {
        min: store.config.min_timelock_duration,
        max: store.config.max_timelock_duration,
    };
    match store.find_chain(target_chain_id) {
        None => { return Err(ContractError::ChainNotSupported); },
        Some(slot) => {
            if !store.chain_configs[slot].1.is_active {
                return Err(ContractError::ChainNotSupported);
            }
        },
    }
    if timelock_seconds < store.config.min_timelock_duration || timelock_seconds
        > store.config.max_timelock_duration {
        return Err(bounds);
    }
    if !is_valid_hashlock(&secret_hash) {
        return Err(ContractError::InvalidSecretHash);
    }
    if funds.len() == 0 {
        return Err(ContractError::InvalidAmount);
    }
    if funds[0].amount == 0 {
        return Err(ContractError::InvalidAmount);
    }
    let timelock = match now.plus_seconds(timelock_seconds) {
        Some(t) => t,
        None => { return Err(bounds); },
    };
    let order_id: u64 = store.order_counter;
    let order = BridgeOrder {
        order_id,
        initiator: sender,
        source_chain_id: CHAIN_ID_COSMOS,
        target_chain_id,
        recipient,
        amount: funds[0].duplicate(),
        secret_hash,
        timelock,
        status: OrderStatus::Pending,
        created_at: now,
        completed_at: None,
        secret: None,
        ibc_packet_sequence: None,
    };
    store.orders.push(order);
    store.order_counter = order_id + 1;
    Ok(order_id)
}

/// Completes order `order_id` on this side, given whether the revealed
/// `secret` hashes to the order's hashlock (`secret_ok`): the order keeps the
/// secret and awaits the acknowledgement of the transfer that is initiated.
///
/// The protocol fee and the fee of the target chain are both taken from the
/// amount; the rest is transferred. A rejected completion changes nothing.
pub fn settle_bridge_order(
    store: &mut Store,
    now: Timestamp,
    order_id: u64,
    secret: String,
    secret_ok: bool,
) -> (result: Result<Dispatch, ContractError>)
    requires
        old(store).wf(),
    ensures
        final(store).wf(),
        match result {
            Ok(dispatch) => {
                &&& old(store).complete_outcome(now, order_id, secret_ok) is None
                &&& final(store).same_setup(old(store))
                &&& dispatch.transfer == old(store).transfer_for(now, order_id)
                &&& dispatch.fee + dispatch.transfer.amount.amount == old(store).order(
                    order_id,
                ).amount.amount
                &&& final(store).orders@ == old(store).orders@.update(
                    order_id as int,
                    (BridgeOrder {
                        status: OrderStatus::Active,
                        secret: Some(secret),
                        ibc_packet_sequence: Some(dispatch.transfer.packet_sequence),
                        ..old(store).order(order_id)
                    }),
                )
                &&& final(store).ibc_transfers@ == put_transfer_spec(
                    old(store).ibc_transfers@,
                    dispatch.transfer,
                )
            },
            Err(e) => {
                &&& old(store).complete_outcome(now, order_id, secret_ok) == Some(e)
                &&& *final(store) == *old(store)
            },
        },
{
    let index = match store.index_of(order_id) {
        Some(i) => i,
        None => { return Err(ContractError::OrderNotFound); },
    };
    let order = &store.orders[index];
    match order.status {
        OrderStatus::Pending | OrderStatus::Active => {},
        OrderStatus::Completed => { return Err(ContractError::OrderAlreadyCompleted); },
        OrderStatus::Refunded => { return Err(ContractError::OrderAlreadyRefunded); },
        OrderStatus::Failed => { return Err(ContractError::OrderAlreadyRefunded); },
    }
    if now.nanos >= order.timelock.nanos {
        return Err(ContractError::TimelockExpired);
    }
    if !secret_ok {
        return Err(ContractError::InvalidSecret);
    }
    let slot = match store.find_chain(order.target_chain_id) {
        Some(s) => s,
        None => { return Err(ContractError::ChainNotSupported); },
    };
    let chain = &store.chain_configs[slot].1;
    let amount = order.amount.amount;
    let fee = match (
        checked_fee(amount, store.config.protocol_fee_bps),
        checked_fee(amount, chain.fee_multiplier),
    ) {
        (Some(base), Some(extra)) => match base.checked_add(extra) {
            Some(total) => if total <= amount {
                total
            } else {
                return Err(ContractError::InsufficientFunds);
            },
            None => { return Err(ContractError::InsufficientFunds); },
        },
        _ => { return Err(ContractError::InsufficientFunds); },
    };
    let timeout = match now.plus_seconds(store.config.ibc_timeout_seconds) {
        Some(t) => t,
        None => {
            return Err(
                ContractError::InvalidTimelock {
                    min: store.config.min_timelock_duration,
                    max: store.config.max_timelock_duration,
                },
            );
        },
    };
    let packet_sequence: u64 = store.order_counter + 1;
    let transfer = IbcTransfer {
        order_id,
        packet_sequence,
        channel_id: chain.ibc_channel.clone(),
        sender: store.contract_address.clone(),
        receiver: order.recipient.clone(),
        amount: Coin { denom: order.amount.denom.clone(), amount: amount - fee },
        timeout_timestamp: timeout,
    };
    let sent = transfer.duplicate();
    store.put_transfer(transfer);
    store.orders[index].status = OrderStatus::Active;
    store.orders[index].secret = Some(secret);
    store.orders[index].ibc_packet_sequence = Some(packet_sequence);
    Ok(Dispatch { transfer: sent, fee })
}

/// Completes order `order_id` by revealing `secret`: hashes the secret,
/// compares the digest with the order's hashlock and settles accordingly.
pub fn execute_complete_bridge_order(
    store: &mut Store,
    now: Timestamp,
    order_id: u64,
    secret: String,
) -> (result: Result<Dispatch, ContractError>)
    requires
        old(store).wf(),
    ensures
        final(store).wf(),
        match result {
            Ok(dispatch) => {
                &&& old(store).has_order(order_id)
                &&& text_secret_matches(secret@, old(store).order(order_id).secret_hash@)
                &&& old(store).complete_outcome(now, order_id, true) is None
                &&& final(store).same_setup(old(store))
                &&& dispatch.transfer == old(store).transfer_for(now, order_id)
                &&& dispatch.fee + dispatch.transfer.amount.amount == old(store).order(
                    order_id,
                ).amount.amount
                &&& final(store).orders@ == old(store).orders@.update(
                    order_id as int,
                    (BridgeOrder {
                        status: OrderStatus::Active,
                        secret: Some(secret),
                        ibc_packet_sequence: Some(dispatch.transfer.packet_sequence),
                        ..old(store).order(order_id)
                    }),
                )
                &&& final(store).ibc_transfers@ == put_transfer_spec(
                    old(store).ibc_transfers@,
                    dispatch.transfer,
                )
            },
            Err(e) => {
                &&& Some(e) == old(store).complete_outcome(
                    now,
                    order_id,
                    old(store).has_order(order_id) && text_secret_matches(
                        secret@,
                        old(store).order(order_id).secret_hash@,
                    ),
                )
                &&& *final(store) == *old(store)
            },
        },
{
    let secret_ok = match store.index_of(order_id) {
        Some(i) => check_text_secret(&secret, &store.orders[i].secret_hash),
        None => false,
    };
    settle_bridge_order(store, now, order_id, secret, secret_ok)
}

/// Refunds order `order_id` to its initiator once the timelock has passed. An
/// order that is open or whose transfer failed can be refunded; a completed or
/// refunded one cannot, so a second refund is rejected.
pub fn execute_refund_bridge_order(store: &mut Store, now: Timestamp, sender: &String, order_id: u64)
    -> (result: Result<Payment, ContractError>)
    requires
        old(store).wf(),
    ensures
        final(store).wf(),
        match result {
            Ok(payment) => {
                &&& old(store).refund_outcome(now, sender@, order_id) is None
                &&& final(store).same_setup(old(store))
                &&& final(store).ibc_transfers == old(store).ibc_transfers
                &&& final(store).orders@ == old(store).orders@.update(
                    order_id as int,
                    (BridgeOrder {
                        status: OrderStatus::Refunded,
                        completed_at: Some(now),
                        ..old(store).order(order_id)
                    }),
                )
                &&& payment == (Payment {
                    to: old(store).order(order_id).initiator,
                    coin: old(store).order(order_id).amount,
                })
            },
            Err(e) => {
                &&& old(store).refund_outcome(now, sender@, order_id) == Some(e)
                &&& *final(store) == *old(store)
            },
        },
{
    let index = match store.index_of(order_id) {
        Some(i) => i,
        None => { return Err(ContractError::OrderNotFound); },
    };
    let order = &store.orders[index];
    if *sender != order.initiator {
        return Err(ContractError::Unauthorized);
    }
    match order.status {
        OrderStatus::Pending | OrderStatus::Active | OrderStatus::Failed => {},
        OrderStatus::Completed => { return Err(ContractError::OrderAlreadyCompleted); },
        OrderStatus::Refunded => { return Err(ContractError::OrderAlreadyRefunded); },
    }
    if now.nanos < order.timelock.nanos {
        return Err(ContractError::TimelockNotExpired);
    }
    let payment = Payment { to: order.initiator.clone(), coin: order.amount.duplicate() };
    store.orders[index].status = OrderStatus::Refunded;
    store.orders[index].completed_at = Some(now);
    Ok(payment)
}

/// Handles the outcome of the transfer with the given sequence: the order that
/// awaits it becomes completed on success and failed otherwise, and the
/// pending transfer is dropped. Where no transfer with that sequence is
/// pending, as for a repeated delivery, nothing changes and `false` is returned.
pub fn finalize_transfer(store: &mut Store, sequence: u64, success: bool) -> (handled: bool)
    requires
        old(store).wf(),
    ensures
        final(store).wf(),
        handled == (find_transfer(old(store).ibc_transfers@, sequence) >= 0),
        !handled ==> *final(store) == *old(store),
        find_transfer(final(store).ibc_transfers@, sequence) == -1,
        handled ==> {
            let k = find_transfer(old(store).ibc_transfers@, sequence);
            &&& final(store).same_setup(old(store))
            &&& final(store).ibc_transfers@ == old(store).ibc_transfers@.remove(k)
            &&& final(store).orders@ == acknowledged(
                old(store).orders@,
                old(store).ibc_transfers@[k].order_id,
                success,
            )
        },
{
    proof {
        lemma_find_transfer(store.ibc_transfers@, sequence, 0);
    }
    let k = match store.locate_transfer(sequence) {
        Some(k) => k,
        None => { return false; },
    };
    let ghost before = store.ibc_transfers@;
    let order_id = store.ibc_transfers[k].order_id;
    match store.index_of(order_id) {
        Some(i) => {
            if store.orders[i].status == OrderStatus::Active {
                store.orders[i].status = if success {
                    OrderStatus::Completed
                } else {
                    OrderStatus::Failed
                };
            }
        },
        None => {},
    }
    let _ = store.ibc_transfers.remove(k);
    proof {
        let after = store.ibc_transfers@;
        assert forall|j: int| 0 <= j < after.len() implies (#[trigger] after[j]).packet_sequence
            != sequence by {
            if j < k {
                assert(after[j] == before[j]);
            } else {
                assert(after[j] == before[j + 1]);
            }
        }
        assert forall|i: int, j: int| 0 <= i < j < after.len() implies (
        #[trigger] after[i]).packet_sequence != (#[trigger] after[j]).packet_sequence by {
            let a = if i < k { i } else { i + 1 };
            let b = if j < k { j } else { j + 1 };
            assert(after[i] == before[a]);
            assert(after[j] == before[b]);
        }
        lemma_find_transfer(after, sequence, 0);
    }
    true
}

/// Handles the acknowledgement of the transfer with the given sequence.
pub fn ibc_packet_ack(store: &mut Store, sequence: u64, ack: &IbcAcknowledgement) -> (handled: bool)
    requires
        old(store).wf(),
    ensures
        final(store).wf(),
        handled == (find_transfer(old(store).ibc_transfers@, sequence) >= 0),
        !handled ==> *final(store) == *old(store),
        find_transfer(final(store).ibc_transfers@, sequence) == -1,
        handled ==> {
            let k = find_transfer(old(store).ibc_transfers@, sequence);
            &&& final(store).same_setup(old(store))
            &&& final(store).ibc_transfers@ == old(store).ibc_transfers@.remove(k)
            &&& final(store).orders@ == acknowledged(
                old(store).orders@,
                old(store).ibc_transfers@[k].order_id,
                ack.success,
            )
        },
{
    finalize_transfer(store, sequence, ack.success)
}

/// Handles the timeout of the transfer with the given sequence: the order that
/// awaits it has failed.
pub fn ibc_packet_timeout(store: &mut Store, sequence: u64) -> (handled: bool)
    requires
        old(store).wf(),
    ensures
        final(store).wf(),
        handled == (find_transfer(old(store).ibc_transfers@, sequence) >= 0),
        !handled ==> *final(store) == *old(store),
        find_transfer(final(store).ibc_transfers@, sequence) == -1,
        handled ==> {
            let k = find_transfer(old(store).ibc_transfers@, sequence);
            &&& final(store).same_setup(old(store))
            &&& final(store).ibc_transfers@ == old(store).ibc_transfers@.remove(k)
            &&& final(store).orders@ == acknowledged(
                old(store).orders@,
                old(store).ibc_transfers@[k].order_id,
                false,
            )
        },
{
    finalize_transfer(store, sequence, false)
}

/// Completes order `order_id` on behalf of the other chain, given whether the
/// revealed `secret` hashes to the order's hashlock (`secret_ok`). An order
/// that is already completed or refunded is left as it is.
pub fn settle_ibc_message(
    store: &mut Store,
    now: Timestamp,
    order_id: u64,
    secret: String,
    secret_ok: bool,
) -> (result: Result<(), ContractError>)
    requires
        old(store).wf(),
    ensures
        final(store).wf(),
        match result {
            Ok(()) => {
                &&& old(store).message_outcome(order_id, secret_ok) is None
                &&& final(store).same_setup(old(store))
                &&& final(store).ibc_transfers == old(store).ibc_transfers
                &&& final(store).orders@ == old(store).orders@.update(
                    order_id as int,
                    (BridgeOrder {
                        status: OrderStatus::Completed,
                        completed_at: Some(now),
                        secret: Some(secret),
                        ..old(store).order(order_id)
                    }),
                )
            },
            Err(e) => {
                &&& old(store).message_outcome(order_id, secret_ok) == Some(e)
                &&& *final(store) == *old(store)
            },
        },
{
    let index = match store.index_of(order_id) {
        Some(i) => i,
        None => { return Err(ContractError::OrderNotFound); },
    };
    match store.orders[index].status {
        OrderStatus::Completed => { return Err(ContractError::OrderAlreadyCompleted); },
        OrderStatus::Refunded => { return Err(ContractError::OrderAlreadyRefunded); },
        _ => {},
    }
    if !secret_ok {
        return Err(ContractError::InvalidSecret);
    }
    store.orders[index].status = OrderStatus::Completed;
    store.orders[index].completed_at = Some(now);
    store.orders[index].secret = Some(secret);
    Ok(())
}

/// Processes a completion message from the other chain: hashes the secret it
/// carries, compares the digest with the order's hashlock and completes the order.
pub fn process_ibc_message(store: &mut Store, now: Timestamp, msg: IbcExecuteMsg) -> (result: Result<
    (),
    ContractError,
>)
    requires
        old(store).wf(),
    ensures
        final(store).wf(),
        match result {
            Ok(()) => {
                &&& old(store).has_order(msg.order_id)
                &&& text_secret_matches(msg.secret@, old(store).order(msg.order_id).secret_hash@)
                &&& old(store).message_outcome(msg.order_id, true) is None
                &&& final(store).same_setup(old(store))
                &&& final(store).ibc_transfers == old(store).ibc_transfers
                &&& final(store).orders@ == old(store).orders@.update(
                    msg.order_id as int,
                    (BridgeOrder {
                        status: OrderStatus::Completed,
                        completed_at: Some(now),
                        secret: Some(msg.secret),
                        ..old(store).order(msg.order_id)
                    }),
                )
            },
            Err(e) => {
                &&& Some(e) == old(store).message_outcome(
                    msg.order_id,
                    old(store).has_order(msg.order_id) && text_secret_matches(
                        msg.secret@,
                        old(store).order(msg.order_id).secret_hash@,
                    ),
                )
                &&& *final(store) == *old(store)
            },
        },
{
    let secret_ok = match store.index_of(msg.order_id) {
        Some(i) => check_text_secret(&msg.secret, &store.orders[i].secret_hash),
        None => false,
    };
    settle_ibc_message(store, now, msg.order_id, msg.secret, secret_ok)
}

/// Handles a received packet. `parsed` is the message that the packet carries,
/// or the text that says why it could not be read. The acknowledgement reports
/// success exactly when the message was read and processed.
pub fn ibc_packet_receive(store: &mut Store, now: Timestamp, parsed: Result<IbcExecuteMsg, String>)
    -> (ack: IbcAcknowledgement)
    requires
        old(store).wf(),
    ensures
        final(store).wf(),
        match parsed {
            Ok(msg) => {
                let outcome = old(store).message_outcome(
                    msg.order_id,
                    old(store).has_order(msg.order_id) && text_secret_matches(
                        msg.secret@,
                        old(store).order(msg.order_id).secret_hash@,
                    ),
                );
                &&& ack.success == (outcome is None)
                &&& ack.success ==> ack.error is None && final(store).same_setup(old(store))
                    && final(store).ibc_transfers == old(store).ibc_transfers
                    && final(store).orders@ == old(store).orders@.update(
                    msg.order_id as int,
                    (BridgeOrder {
                        status: OrderStatus::Completed,
                        completed_at: Some(now),
                        secret: Some(msg.secret),
                        ..old(store).order(msg.order_id)
                    }),
                )
                &&& !ack.success ==> *final(store) == *old(store) && (ack.error matches Some(text)
                    && text@ == outcome.unwrap().text())
            },
            Err(text) => {
                &&& !ack.success
                &&& ack.error == Some(text)
                &&& *final(store) == *old(store)
            },
        },
{
    match parsed {
        Ok(msg) => match process_ibc_message(store, now, msg) {
            Ok(()) => IbcAcknowledgement { success: true, error: None },
            Err(e) => IbcAcknowledgement {
                success: false,
                error: Some(String::from_str(e.message())),
            },
        },
        Err(text) => IbcAcknowledgement { success: false, error: Some(text) },
    }
}

/// Accepts a channel exactly if it is ordered and both ends speak the version
/// of this bridge; a counterparty that names no version is not held to one.
pub fn validate_order_and_version(
    order: IbcOrder,
    version: &String,
    counterparty_version: Option<&String>,
) -> (result: Result<(), ContractError>)
    ensures
        result is Ok <==> {
            &&& order == IbcOrder::Ordered
            &&& version@ == IBC_VERSION@
            &&& counterparty_version matches Some(v) ==> v@ == IBC_VERSION@
        },
        result matches Err(e) ==> e == ContractError::InvalidIbcChannel,
{
    let expected = String::from_str(IBC_VERSION);
    if order != IbcOrder::Ordered {
        return Err(ContractError::InvalidIbcChannel);
    }
    if *version != expected {
        return Err(ContractError::InvalidIbcChannel);
    }
    if let Some(v) = counterparty_version {
        if *v != expected {
            return Err(ContractError::InvalidIbcChannel);
        }
    }
    Ok(())
}

/// Accepts the opening of a channel that is ordered and speaks the right version.
pub fn ibc_channel_open(order: IbcOrder, version: &String, counterparty_version: Option<&String>)
    -> (result: Result<(), ContractError>)
    ensures
        result is Ok <==> {
            &&& order == IbcOrder::Ordered
            &&& version@ == IBC_VERSION@
            &&& counterparty_version matches Some(v) ==> v@ == IBC_VERSION@
        },
        result matches Err(e) ==> e == ContractError::InvalidIbcChannel,
{
    validate_order_and_version(order, version, counterparty_version)
}

/// Accepts the connection of a channel that is ordered and speaks the right
/// version, and returns the id of the channel.
pub fn ibc_channel_connect(
    channel_id: String,
    order: IbcOrder,
    version: &String,
    counterparty_version: Option<&String>,
) -> (result: Result<String, ContractError>)
    ensures
        result is Ok <==> {
            &&& order == IbcOrder::Ordered
            &&& version@ == IBC_VERSION@
            &&& counterparty_version matches Some(v) ==> v@ == IBC_VERSION@
        },
        result matches Ok(id) ==> id == channel_id,
        result matches Err(e) ==> e == ContractError::InvalidIbcChannel,
{
    match validate_order_and_version(order, version, counterparty_version) {
        Ok(()) => Ok(channel_id),
        Err(e) => Err(e),
    }
}

/// Accepts the closing of any channel, and returns the id of the channel.
pub fn ibc_channel_close(channel_id: String) -> (result: Result<String, ContractError>)
    ensures
        result == Ok::<String, ContractError>(channel_id),
{
    Ok(channel_id)
}

/// Stores `config` under `chain_id`, replacing what was there; only the owner may do so.
pub fn execute_update_chain_config(
    store: &mut Store,
    sender: &String,
    chain_id: u32,
    config: ChainConfig,
) -> (result: Result<(), ContractError>)
    requires
        old(store).wf(),
    ensures
        final(store).wf(),
        match result {
            Ok(()) => {
                &&& sender@ == old(store).config.owner@
                &&& final(store).chain_configs@ == put_chain_spec(
                    old(store).chain_configs@,
                    chain_id,
                    config,
                )
                &&& final(store).chain(chain_id) == Some(config)
                &&& forall|other: u32|
                    other != chain_id ==> #[trigger] final(store).chain(other) == old(store).chain(
                        other,
                    )
                &&& final(store).config == old(store).config
                &&& final(store).contract_address == old(store).contract_address
                &&& final(store).order_counter == old(store).order_counter
                &&& final(store).orders == old(store).orders
                &&& final(store).ibc_transfers == old(store).ibc_transfers
            },
            Err(e) => {
                &&& e == ContractError::Unauthorized
                &&& sender@ != old(store).config.owner@
                &&& *final(store) == *old(store)
            },
        },
{
    if *sender != store.config.owner {
        return Err(ContractError::Unauthorized);
    }
    store.put_chain(chain_id, config);
    Ok(())
}

/// Forgets the configuration of `chain_id`, if there is one; only the owner may do so.
pub fn execute_remove_chain_config(store: &mut Store, sender: &String, chain_id: u32) -> (result:
    Result<(), ContractError>)
    requires
        old(store).wf(),
    ensures
        final(store).wf(),
        match result {
            Ok(()) => {
                &&& sender@ == old(store).config.owner@
                &&& final(store).chain_configs@ == (if old(store).chain(chain_id).is_some() {
                    old(store).chain_configs@.remove(chain_slot(old(store).chain_configs@, chain_id))
                } else {
                    old(store).chain_configs@
                })
                &&& final(store).chain(chain_id) is None
                &&& forall|other: u32|
                    other != chain_id ==> #[trigger] final(store).chain(other) == old(store).chain(
                        other,
                    )
                &&& final(store).config == old(store).config
                &&& final(store).contract_address == old(store).contract_address
                &&& final(store).order_counter == old(store).order_counter
                &&& final(store).orders == old(store).orders
                &&& final(store).ibc_transfers == old(store).ibc_transfers
            },
            Err(e) => {
                &&& e == ContractError::Unauthorized
                &&& sender@ != old(store).config.owner@
                &&& *final(store) == *old(store)
            },
        },
{
    if *sender != store.config.owner {
        return Err(ContractError::Unauthorized);
    }
    let ghost before = store.chain_configs@;
    match store.find_chain(chain_id) {
        None => {
            proof {
                assert forall|other: u32| true implies #[trigger] store.chain(other) == store.chain(
                    other,
                ) by {}
            }
        },
        Some(slot) => {
            let _ = store.chain_configs.remove(slot);
            proof {
                let after = store.chain_configs@;
                let slot_int = slot as int;
                assert forall|j: int| 0 <= j < after.len() implies #[trigger] after[j] == (if j
                    < slot_int {
                    before[j]
                } else {
                    before[j + 1]
                }) by {}
                assert forall|i: int, j: int| 0 <= i < j < after.len() implies (
                #[trigger] after[i]).0 < (#[trigger] after[j]).0 by {
                    let a = if i < slot_int { i } else { i + 1 };
                    let b = if j < slot_int { j } else { j + 1 };
                    assert(before[a].0 < before[b].0);
                }
                assert forall|other: u32| true implies #[trigger] chain_config_of(after, other)
                    == (if other == chain_id {
                    None
                } else {
                    chain_config_of(before, other)
                }) by {
                    lemma_chain_slot(before, other, 0);
                    let q = chain_slot(before, other);
                    if other <= chain_id {
                        assert(q <= slot_int);
                        if q < after.len() {
                            assert(after[q].0 >= other);
                        }
                        lemma_slot_unique(after, other, q);
                        if other == chain_id && q < after.len() {
                            assert(before[slot_int].0 < before[slot_int + 1].0);
                        }
                    } else {
                        assert(q > slot_int);
                        assert forall|j: int| 0 <= j < q - 1 implies (#[trigger] after[j]).0
                            < other by {}
                        lemma_slot_unique(after, other, q - 1);
                    }
                }
            }
        },
    }
    Ok(())
}

/// Replaces the parameters that are given; only the owner may do so.
pub fn execute_update_config(
    store: &mut Store,
    sender: &String,
    owner: Option<String>,
    protocol_fee_bps: Option<u64>,
    min_timelock_duration: Option<u64>,
    max_timelock_duration: Option<u64>,
    ibc_timeout_seconds: Option<u64>,
) -> (result: Result<(), ContractError>)
    ensures
        final(store).contract_address == old(store).contract_address,
        final(store).chain_configs == old(store).chain_configs,
        final(store).order_counter == old(store).order_counter,
        final(store).orders == old(store).orders,
        final(store).ibc_transfers == old(store).ibc_transfers,
        match result {
            Ok(()) => {
                &&& sender@ == old(store).config.owner@
                &&& final(store).config == (Config {
                    owner: match owner {
                        Some(o) => o,
                        None => old(store).config.owner,
                    },
                    protocol_fee_bps: match protocol_fee_bps {
                        Some(v) => v,
                        None => old(store).config.protocol_fee_bps,
                    },
                    min_timelock_duration: match min_timelock_duration {
                        Some(v) => v,
                        None => old(store).config.min_timelock_duration,
                    },
                    max_timelock_duration: match max_timelock_duration {
                        Some(v) => v,
                        None => old(store).config.max_timelock_duration,
                    },
                    ibc_timeout_seconds: match ibc_timeout_seconds {
                        Some(v) => v,
                        None => old(store).config.ibc_timeout_seconds,
                    },
                })
            },
            Err(e) => {
                &&& e == ContractError::Unauthorized
                &&& sender@ != old(store).config.owner@
                &&& *final(store) == *old(store)
            },
        },
{
    if *sender != store.config.owner {
        return Err(ContractError::Unauthorized);
    }
    if let Some(o) = owner {
        store.config.owner = o;
    }
    if let Some(v) = protocol_fee_bps {
        store.config.protocol_fee_bps = v;
    }
    if let Some(v) = min_timelock_duration {
        store.config.min_timelock_duration = v;
    }
    if let Some(v) = max_timelock_duration {
        store.config.max_timelock_duration = v;
    }
    if let Some(v) = ibc_timeout_seconds {
        store.config.ibc_timeout_seconds = v;
    }
    Ok(())
}

/// Hands all `balances` of the contract to `recipient`; only the owner may ask
/// for it, and only when there is something to hand over.
pub fn execute_withdraw_fees(store: &Store, sender: &String, recipient: String, balances: Vec<Coin>)
    -> (result: Result<(String, Vec<Coin>), ContractError>)
    ensures
        match result {
            Ok((to, coins)) => sender@ == store.config.owner@ && balances@.len() > 0 && to
                == recipient && coins == balances,
            Err(e) => if sender@ != store.config.owner@ {
                e == ContractError::Unauthorized
            } else {
                e == ContractError::InsufficientFunds && balances@.len() == 0
            },
        },
{
    if *sender != store.config.owner {
        return Err(ContractError::Unauthorized);
    }
    if balances.len() == 0 {
        return Err(ContractError::InsufficientFunds);
    }
    Ok((recipient, balances))
}

/// Carries out `msg` for `sender` at `now`. `funds` are the coins attached to
/// the message and `balances` the coins that the bridge holds, which only a
/// withdrawal of fees reads. A rejected message changes nothing.
pub fn execute(
    store: &mut Store,
    now: Timestamp,
    sender: String,
    funds: &Vec<Coin>,
    balances: Vec<Coin>,
    msg: ExecuteMsg,
) -> (result: Result<ExecuteResponse, ContractError>)
    requires
        old(store).wf(),
        msg is CreateBridgeOrder ==> old(store).orders@.len() + 1 < u64::MAX,
    ensures
        final(store).wf(),
        result is Err ==> *final(store) == *old(store),
        match msg {
            ExecuteMsg::CreateBridgeOrder { target_chain_id, recipient, secret_hash, timelock } => {
                let error = create_error(
                    old(store).config,
                    old(store).chain(target_chain_id),
                    now,
                    funds@,
                    secret_hash@,
                    timelock,
                );
                match result {
                    Ok(response) => {
                        &&& error is None
                        &&& response == (ExecuteResponse::OrderCreated {
                            order_id: old(store).order_counter,
                        })
                        &&& final(store).order_counter == old(store).order_counter + 1
                        &&& final(store).config == old(store).config
                        &&& final(store).contract_address == old(store).contract_address
                        &&& final(store).chain_configs == old(store).chain_configs
                        &&& final(store).ibc_transfers == old(store).ibc_transfers
                        &&& final(store).orders@ == old(store).orders@.push(
                            (BridgeOrder {
                                order_id: old(store).order_counter,
                                initiator: sender,
                                source_chain_id: CHAIN_ID_COSMOS,
                                target_chain_id,
                                recipient,
                                amount: funds@[0],
                                secret_hash,
                                timelock: Timestamp {
                                    nanos: now.plus_seconds_spec(timelock) as u64,
                                },
                                status: OrderStatus::Pending,
                                created_at: now,
                                completed_at: None,
                                secret: None,
                                ibc_packet_sequence: None,
                            }),
                        )
                    },
                    Err(e) => error == Some(e),
                }
            },
            ExecuteMsg::CompleteBridgeOrder { order_id, secret } => {
                let secret_ok = old(store).has_order(order_id) && text_secret_matches(
                    secret@,
                    old(store).order(order_id).secret_hash@,
                );
                match result {
                    Ok(response) => {
                        &&& old(store).complete_outcome(now, order_id, secret_ok) is None
                        &&& response matches ExecuteResponse::TransferStarted { dispatch }
                        &&& dispatch.transfer == old(store).transfer_for(now, order_id)
                        &&& dispatch.fee + dispatch.transfer.amount.amount == old(store).order(
                            order_id,
                        ).amount.amount
                        &&& final(store).same_setup(old(store))
                        &&& final(store).orders@ == old(store).orders@.update(
                            order_id as int,
                            (BridgeOrder {
                                status: OrderStatus::Active,
                                secret: Some(secret),
                                ibc_packet_sequence: Some(dispatch.transfer.packet_sequence),
                                ..old(store).order(order_id)
                            }),
                        )
                        &&& final(store).ibc_transfers@ == put_transfer_spec(
                            old(store).ibc_transfers@,
                            dispatch.transfer,
                        )
                    },
                    Err(e) => old(store).complete_outcome(now, order_id, secret_ok) == Some(e),
                }
            },
            ExecuteMsg::RefundBridgeOrder { order_id } => match result {
                Ok(response) => {
                    &&& old(store).refund_outcome(now, sender@, order_id) is None
                    &&& response == (ExecuteResponse::OrderRefunded {
                        payment: Payment {
                            to: old(store).order(order_id).initiator,
                            coin: old(store).order(order_id).amount,
                        },
                    })
                    &&& final(store).same_setup(old(store))
                    &&& final(store).ibc_transfers == old(store).ibc_transfers
                    &&& final(store).orders@ == old(store).orders@.update(
                        order_id as int,
                        (BridgeOrder {
                            status: OrderStatus::Refunded,
                            completed_at: Some(now),
                            ..old(store).order(order_id)
                        }),
                    )
                },
                Err(e) => old(store).refund_outcome(now, sender@, order_id) == Some(e),
            },
            ExecuteMsg::UpdateChainConfig { chain_id, config } => match result {
                Ok(response) => {
                    &&& sender@ == old(store).config.owner@
                    &&& response == ExecuteResponse::ChainConfigUpdated
                    &&& final(store).chain_configs@ == put_chain_spec(
                        old(store).chain_configs@,
                        chain_id,
                        config,
                    )
                    &&& final(store).same_books(old(store))
                },
                Err(e) => e == ContractError::Unauthorized && sender@ != old(store).config.owner@,
            },
            ExecuteMsg::RemoveChainConfig { chain_id } => match result {
                Ok(response) => {
                    &&& sender@ == old(store).config.owner@
                    &&& response == ExecuteResponse::ChainConfigRemoved
                    &&& final(store).chain_configs@ == (if old(store).chain(chain_id).is_some() {
                        old(store).chain_configs@.remove(
                            chain_slot(old(store).chain_configs@, chain_id),
                        )
                    } else {
                        old(store).chain_configs@
                    })
                    &&& final(store).same_books(old(store))
                },
                Err(e) => e == ContractError::Unauthorized && sender@ != old(store).config.owner@,
            },
            ExecuteMsg::UpdateConfig {
                owner,
                protocol_fee_bps,
                min_timelock_duration,
                max_timelock_duration,
                ibc_timeout_seconds,
            } => match result {
                Ok(response) => {
                    &&& sender@ == old(store).config.owner@
                    &&& response == ExecuteResponse::ConfigUpdated
                    &&& final(store).contract_address == old(store).contract_address
                    &&& final(store).chain_configs == old(store).chain_configs
                    &&& final(store).order_counter == old(store).order_counter
                    &&& final(store).orders == old(store).orders
                    &&& final(store).ibc_transfers == old(store).ibc_transfers
                    &&& final(store).config == (Config {
                        owner: match owner {
                            Some(o) => o,
                            None => old(store).config.owner,
                        },
                        protocol_fee_bps: match protocol_fee_bps {
                            Some(v) => v,
                            None => old(store).config.protocol_fee_bps,
                        },
                        min_timelock_duration: match min_timelock_duration {
                            Some(v) => v,
                            None => old(store).config.min_timelock_duration,
                        },
                        max_timelock_duration: match max_timelock_duration {
                            Some(v) => v,
                            None => old(store).config.max_timelock_duration,
                        },
                        ibc_timeout_seconds: match ibc_timeout_seconds {
                            Some(v) => v,
                            None => old(store).config.ibc_timeout_seconds,
                        },
                    })
                },
                Err(e) => e == ContractError::Unauthorized && sender@ != old(store).config.owner@,
            },
            ExecuteMsg::WithdrawFees { recipient } => match result {
                Ok(response) => {
                    &&& sender@ == old(store).config.owner@
                    &&& balances@.len() > 0
                    &&& response == (ExecuteResponse::FeesWithdrawn { to: recipient, coins: balances })
                    &&& *final(store) == *old(store)
                },
                Err(e) => if sender@ != old(store).config.owner@ {
                    e == ContractError::Unauthorized
                } else {
                    e == ContractError::InsufficientFunds && balances@.len() == 0
                },
            },
        },
{
    match msg {
        ExecuteMsg::CreateBridgeOrder { target_chain_id, recipient, secret_hash, timelock } => {
            match execute_create_bridge_order(
                store,
                now,
                sender,
                funds,
                target_chain_id,
                recipient,
                secret_hash,
                timelock,
            ) {
                Ok(order_id) => Ok(ExecuteResponse::OrderCreated { order_id }),
                Err(e) => Err(e),
            }
        },
        ExecuteMsg::CompleteBridgeOrder { order_id, secret } => {
            match execute_complete_bridge_order(store, now, order_id, secret) {
                Ok(dispatch) => Ok(ExecuteResponse::TransferStarted { dispatch }),
                Err(e) => Err(e),
            }
        },
        ExecuteMsg::RefundBridgeOrder { order_id } => {
            match execute_refund_bridge_order(store, now, &sender, order_id) {
                Ok(payment) => Ok(ExecuteResponse::OrderRefunded { payment }),
                Err(e) => Err(e),
            }
        },
        ExecuteMsg::UpdateChainConfig { chain_id, config } => {
            match execute_update_chain_config(store, &sender, chain_id, config) {
                Ok(()) => Ok(ExecuteResponse::ChainConfigUpdated),
                Err(e) => Err(e),
            }
        },
        ExecuteMsg::RemoveChainConfig { chain_id } => {
            match execute_remove_chain_config(store, &sender, chain_id) {
                Ok(()) => Ok(ExecuteResponse::ChainConfigRemoved),
                Err(e) => Err(e),
            }
        },
        ExecuteMsg::UpdateConfig {
            owner,
            protocol_fee_bps,
            min_timelock_duration,
            max_timelock_duration,
            ibc_timeout_seconds,
        } => {
            match execute_update_config(
                store,
                &sender,
                owner,
                protocol_fee_bps,
                min_timelock_duration,
                max_timelock_duration,
                ibc_timeout_seconds,
            ) {
                Ok(()) => Ok(ExecuteResponse::ConfigUpdated),
                Err(e) => Err(e),
            }
        },
        ExecuteMsg::WithdrawFees { recipient } => {
            match execute_withdraw_fees(store, &sender, recipient, balances) {
                Ok((to, coins)) => Ok(ExecuteResponse::FeesWithdrawn { to, coins }),
                Err(e) => Err(e),
            }
        },
    }
}

/// The parameters of the bridge.
pub fn query_config(store: &Store) -> (response: ConfigResponse)
    ensures
        response.owner == store.config.owner,
        response.protocol_fee_bps == store.config.protocol_fee_bps,
        response.min_timelock_duration == store.config.min_timelock_duration,
        response.max_timelock_duration == store.config.max_timelock_duration,
        response.ibc_timeout_seconds == store.config.ibc_timeout_seconds,
{
    ConfigResponse {
        owner: store.config.owner.clone(),
        protocol_fee_bps: store.config.protocol_fee_bps,
        min_timelock_duration: store.config.min_timelock_duration,
        max_timelock_duration: store.config.max_timelock_duration,
        ibc_timeout_seconds: store.config.ibc_timeout_seconds,
    }
}

/// The configuration of `chain_id`.
pub fn query_chain_config(store: &Store, chain_id: u32) -> (result: Result<
    ChainConfigResponse,
    ContractError,
>)
    ensures
        match result {
            Ok(response) => store.chain(chain_id) == Some(response.config),
            Err(e) => store.chain(chain_id) is None && e == ContractError::ChainNotSupported,
        },
{
    match store.find_chain(chain_id) {
        Some(slot) => Ok(ChainConfigResponse { config: store.chain_configs[slot].1.duplicate() }),
        None => Err(ContractError::ChainNotSupported),
    }
}

/// The order with the given id.
pub fn query_bridge_order(store: &Store, order_id: u64) -> (result: Result<
    &BridgeOrder,
    ContractError,
>)
    requires
        store.wf(),
    ensures
        match result {
            Ok(order) => store.has_order(order_id) && *order == store.order(order_id),
            Err(e) => !store.has_order(order_id) && e == ContractError::OrderNotFound,
        },
{
    match store.index_of(order_id) {
        Some(i) => Ok(&store.orders[i]),
        None => Err(ContractError::OrderNotFound),
    }
}

/// Whether `secret` hashes to `secret_hash`.
pub fn query_verify_secret(secret: &String, secret_hash: &String) -> (response: VerifySecretResponse)
    ensures
        response.is_valid == text_secret_matches(secret@, secret_hash@),
{
    VerifySecretResponse { is_valid: check_text_secret(secret, secret_hash) }
}

/// Nothing is migrated.
pub fn migrate(_msg: MigrateMsg) {
}

/// The orders of `initiator` among the page of orders that follows `start_after`.
pub fn query_orders_by_initiator<'a>(store: &'a Store, initiator: &String, start_after: Option<u64>, limit: Option<u32>) -> (page: Vec<
    &'a BridgeOrder,
>)
    ensures
        ({
            let entries = page_entries(store.orders@, start_after, 0, limit);
            let wanted = select(entries, |o: BridgeOrder| o.initiator@ == initiator@, entries.len() as int);
            &&& page@.len() == wanted.len()
            &&& forall|k: int| 0 <= k < page@.len() ==> *(#[trigger] page@[k]) == wanted[k]
        }),
{
    let range = page_range(store.orders.len(), start_after, false, limit);
    let ghost entries = store.orders@.subrange(range.0 as int, range.1 as int);
    let ghost keep = |o: BridgeOrder| o.initiator@ == initiator@;
    let mut page: Vec<&'a BridgeOrder> = Vec::new();
    let mut i: usize = range.0;
    while i < range.1
        invariant
            range.0 <= i <= range.1 <= store.orders@.len(),
            entries == store.orders@.subrange(range.0 as int, range.1 as int),
            keep == |o: BridgeOrder| o.initiator@ == initiator@,
            page@.len() == select(entries, keep, i - range.0).len(),
            forall|k: int|
                0 <= k < page@.len() ==> *(#[trigger] page@[k]) == select(entries, keep, i - range.0)[k],
        decreases range.1 - i,
    {
        let item = &store.orders[i];
        assert(entries[i - range.0] == store.orders@[i as int]);
        if item.initiator == *initiator {
            page.push(item);
        }
        i += 1;
    }
    page
}

/// The orders in `status` among the page of orders that follows `start_after`.
pub fn query_orders_by_status<'a>(store: &'a Store, status: OrderStatus, start_after: Option<u64>, limit: Option<u32>) -> (page: Vec<
    &'a BridgeOrder,
>)
    ensures
        ({
            let entries = page_entries(store.orders@, start_after, 0, limit);
            let wanted = select(entries, |o: BridgeOrder| o.status == status, entries.len() as int);
            &&& page@.len() == wanted.len()
            &&& forall|k: int| 0 <= k < page@.len() ==> *(#[trigger] page@[k]) == wanted[k]
        }),
{
    let range = page_range(store.orders.len(), start_after, false, limit);
    let ghost entries = store.orders@.subrange(range.0 as int, range.1 as int);
    let ghost keep = |o: BridgeOrder| o.status == status;
    let mut page: Vec<&'a BridgeOrder> = Vec::new();
    let mut i: usize = range.0;
    while i < range.1
        invariant
            range.0 <= i <= range.1 <= store.orders@.len(),
            entries == store.orders@.subrange(range.0 as int, range.1 as int),
            keep == |o: BridgeOrder| o.status == status,
            page@.len() == select(entries, keep, i - range.0).len(),
            forall|k: int|
                0 <= k < page@.len() ==> *(#[trigger] page@[k]) == select(entries, keep, i - range.0)[k],
        decreases range.1 - i,
    {
        let item = &store.orders[i];
        assert(entries[i - range.0] == store.orders@[i as int]);
        if item.status == status {
            page.push(item);
        }
        i += 1;
    }
    page
}

/// The orders from or to `chain_id` among the page of orders that follows `start_after`.
pub fn query_orders_by_chain<'a>(store: &'a Store, chain_id: u32, start_after: Option<u64>, limit: Option<u32>) -> (page: Vec<
    &'a BridgeOrder,
>)
    ensures
        ({
            let entries = page_entries(store.orders@, start_after, 0, limit);
            let wanted = select(entries, |o: BridgeOrder| o.target_chain_id == chain_id || o.source_chain_id == chain_id, entries.len() as int);
            &&& page@.len() == wanted.len()
            &&& forall|k: int| 0 <= k < page@.len() ==> *(#[trigger] page@[k]) == wanted[k]
        }),
{
    let range = page_range(store.orders.len(), start_after, false, limit);
    let ghost entries = store.orders@.subrange(range.0 as int, range.1 as int);
    let ghost keep = |o: BridgeOrder| o.target_chain_id == chain_id || o.source_chain_id == chain_id;
    let mut page: Vec<&'a BridgeOrder> = Vec::new();
    let mut i: usize = range.0;
    while i < range.1
        invariant
            range.0 <= i <= range.1 <= store.orders@.len(),
            entries == store.orders@.subrange(range.0 as int, range.1 as int),
            keep == |o: BridgeOrder| o.target_chain_id == chain_id || o.source_chain_id == chain_id,
            page@.len() == select(entries, keep, i - range.0).len(),
            forall|k: int|
                0 <= k < page@.len() ==> *(#[trigger] page@[k]) == select(entries, keep, i - range.0)[k],
        decreases range.1 - i,
    {
        let item = &store.orders[i];
        assert(entries[i - range.0] == store.orders@[i as int]);
        if item.target_chain_id == chain_id || item.source_chain_id == chain_id {
            page.push(item);
        }
        i += 1;
    }
    page
}

/// The position of the first chain configuration whose id is greater than
/// the one that `start_after` names.
pub open spec fn chains_after(chains: Seq<(u32, ChainConfig)>, start_after: Option<u32>) -> int {
    match start_after {
        None => 0,
        Some(id) => if id < u32::MAX {
            chain_slot(chains, (id + 1) as u32)
        } else {
            chains.len() as int
        },
    }
}

/// A page of chain configurations by ascending chain id: those after
/// `start_after`, at most `limit` of them.
pub fn query_all_chain_configs<'a>(store: &'a Store, start_after: Option<u32>, limit: Option<u32>)
    -> (page: Vec<&'a (u32, ChainConfig)>)
    ensures
        ({
            let bounds = page_bounds(
                store.chain_configs@.len() as int,
                chains_after(store.chain_configs@, start_after),
                page_limit(limit) as int,
            );
            &&& 0 <= bounds.0 <= bounds.1 <= store.chain_configs@.len()
            &&& page@.len() == bounds.1 - bounds.0
            &&& forall|k: int|
                0 <= k < page@.len() ==> *(#[trigger] page@[k]) == store.chain_configs@[bounds.0 + k]
        }),
{
    let len = store.chain_configs.len();
    let lo: usize = match start_after {
        None => 0,
        Some(id) => if id < u32::MAX {
            store.locate_chain(id + 1)
        } else {
            len
        },
    };
    let count = effective_limit(limit);
    let hi: usize = if count <= len - lo {
        lo + count
    } else {
        len
    };
    let mut page: Vec<&'a (u32, ChainConfig)> = Vec::new();
    let mut i: usize = lo;
    while i < hi
        invariant
            lo <= i <= hi <= store.chain_configs@.len(),
            page@.len() == i - lo,
            forall|k: int|
                0 <= k < page@.len() ==> *(#[trigger] page@[k]) == store.chain_configs@[lo + k],
        decreases hi - i,
    {
        page.push(&store.chain_configs[i]);
        i += 1;
    }
    page
}

/// An order that was refunded is not refunded again, whoever asks and whenever.
pub proof fn lemma_refund_once(store: Store, now: Timestamp, sender: Seq<char>, order_id: u64)
    requires
        store.has_order(order_id),
        store.order(order_id).status == OrderStatus::Refunded,
    ensures
        store.refund_outcome(now, sender, order_id) is Some,
{
}

/// Once an order is completed or refunded, nothing changes it any more:
/// completion, refund and messages from the other chain are rejected, and the
/// outcome of a transfer leaves it as it is.
pub proof fn lemma_final_order_stays(
    store: Store,
    now: Timestamp,
    sender: Seq<char>,
    order_id: u64,
    secret_ok: bool,
    success: bool,
)
    requires
        store.has_order(order_id),
        is_final(store.order(order_id).status),
    ensures
        store.complete_outcome(now, order_id, secret_ok) is Some,
        store.refund_outcome(now, sender, order_id) is Some,
        store.message_outcome(order_id, secret_ok) is Some,
        acknowledged(store.orders@, order_id, success) == store.orders@,
{
}

/// A failed order is never stranded: once its timelock has passed, its
/// initiator can have it refunded.
pub proof fn lemma_failed_order_is_refundable(store: Store, now: Timestamp, order_id: u64)
    requires
        store.has_order(order_id),
        store.order(order_id).status == OrderStatus::Failed,
        now.nanos >= store.order(order_id).timelock.nanos,
    ensures
        store.refund_outcome(now, store.order(order_id).initiator@, order_id) is None,
{
}

/// Nothing is completed without a secret that hashes to the hashlock.
pub proof fn lemma_complete_needs_secret(store: Store, now: Timestamp, order_id: u64)
    ensures
        store.complete_outcome(now, order_id, false) is Some,
        store.message_outcome(order_id, false) is Some,
{
}

/// Copies of the orders of a page.
fn copies(page: &Vec<&BridgeOrder>) -> (orders: Vec<BridgeOrder>)
    ensures
        orders@.len() == page@.len(),
        forall|k: int| 0 <= k < orders@.len() ==> #[trigger] orders@[k] == *page@[k],
{
    let mut orders: Vec<BridgeOrder> = Vec::new();
    let mut i: usize = 0;
    while i < page.len()
        invariant
            i <= page@.len(),
            orders@.len() == i,
            forall|k: int| 0 <= k < i ==> #[trigger] orders@[k] == *page@[k],
        decreases page.len() - i,
    {
        orders.push(page[i].duplicate());
        i += 1;
    }
    orders
}

/// Copies of the chain configurations of a page.
fn chain_copies(page: &Vec<&(u32, ChainConfig)>) -> (configs: Vec<(u32, ChainConfig)>)
    ensures
        configs@.len() == page@.len(),
        forall|k: int| 0 <= k < configs@.len() ==> #[trigger] configs@[k] == *page@[k],
{
    let mut configs: Vec<(u32, ChainConfig)> = Vec::new();
    let mut i: usize = 0;
    while i < page.len()
        invariant
            i <= page@.len(),
            configs@.len() == i,
            forall|k: int| 0 <= k < i ==> #[trigger] configs@[k] == *page@[k],
        decreases page.len() - i,
    {
        let entry = page[i];
        configs.push((entry.0, entry.1.duplicate()));
        i += 1;
    }
    configs
}

/// Answers `msg`. A page of orders holds, of the entries that follow
/// `start_after`, at most as many as the limit allows, those that the query
/// asks for, in the order of their creation.
pub fn query(store: &Store, msg: QueryMsg) -> (result: Result<QueryResponse, ContractError>)
    requires
        store.wf(),
    ensures
        match msg {
            QueryMsg::Config {  } => result == Ok::<QueryResponse, ContractError>(
                QueryResponse::Config(
                    ConfigResponse {
                        owner: store.config.owner,
                        protocol_fee_bps: store.config.protocol_fee_bps,
                        min_timelock_duration: store.config.min_timelock_duration,
                        max_timelock_duration: store.config.max_timelock_duration,
                        ibc_timeout_seconds: store.config.ibc_timeout_seconds,
                    },
                ),
            ),
            QueryMsg::ChainConfig { chain_id } => match store.chain(chain_id) {
                Some(config) => result == Ok::<QueryResponse, ContractError>(
                    QueryResponse::ChainConfig(ChainConfigResponse { config }),
                ),
                None => result == Err::<QueryResponse, ContractError>(
                    ContractError::ChainNotSupported,
                ),
            },
            QueryMsg::AllChainConfigs { start_after, limit } => {
                let bounds = page_bounds(
                    store.chain_configs@.len() as int,
                    chains_after(store.chain_configs@, start_after),
                    page_limit(limit) as int,
                );
                &&& result matches Ok(QueryResponse::ChainConfigs(page))
                &&& page.configs@ == store.chain_configs@.subrange(bounds.0, bounds.1)
            },
            QueryMsg::BridgeOrder { order_id } => if store.has_order(order_id) {
                result == Ok::<QueryResponse, ContractError>(
                    QueryResponse::BridgeOrder(BridgeOrderResponse { order: store.order(order_id) }),
                )
            } else {
                result == Err::<QueryResponse, ContractError>(ContractError::OrderNotFound)
            },
            QueryMsg::OrdersByInitiator { initiator, start_after, limit } => {
                let entries = page_entries(store.orders@, start_after, 0, limit);
                &&& result matches Ok(QueryResponse::BridgeOrders(page))
                &&& page.orders@ == select(
                    entries,
                    |o: BridgeOrder| o.initiator@ == initiator@,
                    entries.len() as int,
                )
            },
            QueryMsg::OrdersByStatus { status, start_after, limit } => {
                let entries = page_entries(store.orders@, start_after, 0, limit);
                &&& result matches Ok(QueryResponse::BridgeOrders(page))
                &&& page.orders@ == select(
                    entries,
                    |o: BridgeOrder| o.status == status,
                    entries.len() as int,
                )
            },
            QueryMsg::OrdersByChain { chain_id, start_after, limit } => {
                let entries = page_entries(store.orders@, start_after, 0, limit);
                &&& result matches Ok(QueryResponse::BridgeOrders(page))
                &&& page.orders@ == select(
                    entries,
                    |o: BridgeOrder| o.target_chain_id == chain_id || o.source_chain_id == chain_id,
                    entries.len() as int,
                )
            },
            QueryMsg::VerifySecret { secret, secret_hash } => result == Ok::<
                QueryResponse,
                ContractError,
            >(
                QueryResponse::VerifySecret(
                    VerifySecretResponse { is_valid: text_secret_matches(secret@, secret_hash@) },
                ),
            ),
        },
{
    match msg {
        QueryMsg::Config {  } => Ok(QueryResponse::Config(query_config(store))),
        QueryMsg::ChainConfig { chain_id } => match query_chain_config(store, chain_id) {
            Ok(response) => Ok(QueryResponse::ChainConfig(response)),
            Err(e) => Err(e),
        },
        QueryMsg::AllChainConfigs { start_after, limit } => {
            let page = query_all_chain_configs(store, start_after, limit);
            let configs = chain_copies(&page);
            proof {
                let bounds = page_bounds(
                    store.chain_configs@.len() as int,
                    chains_after(store.chain_configs@, start_after),
                    page_limit(limit) as int,
                );
                assert(configs@ =~= store.chain_configs@.subrange(bounds.0, bounds.1));
            }
            Ok(QueryResponse::ChainConfigs(ChainConfigsResponse { configs }))
        },
        QueryMsg::BridgeOrder { order_id } => match query_bridge_order(store, order_id) {
            Ok(order) => Ok(
                QueryResponse::BridgeOrder(BridgeOrderResponse { order: order.duplicate() }),
            ),
            Err(e) => Err(e),
        },
        QueryMsg::OrdersByInitiator { initiator, start_after, limit } => {
            let page = query_orders_by_initiator(store, &initiator, start_after, limit);
            let orders = copies(&page);
            proof {
                let entries = page_entries(store.orders@, start_after, 0, limit);
                assert(orders@ =~= select(
                    entries,
                    |o: BridgeOrder| o.initiator@ == initiator@,
                    entries.len() as int,
                ));
            }
            Ok(QueryResponse::BridgeOrders(BridgeOrdersResponse { orders }))
        },
        QueryMsg::OrdersByStatus { status, start_after, limit } => {
            let page = query_orders_by_status(store, status, start_after, limit);
            let orders = copies(&page);
            proof {
                let entries = page_entries(store.orders@, start_after, 0, limit);
                assert(orders@ =~= select(
                    entries,
                    |o: BridgeOrder| o.status == status,
                    entries.len() as int,
                ));
            }
            Ok(QueryResponse::BridgeOrders(BridgeOrdersResponse { orders }))
        },
        QueryMsg::OrdersByChain { chain_id, start_after, limit } => {
            let page = query_orders_by_chain(store, chain_id, start_after, limit);
            let orders = copies(&page);
            proof {
                let entries = page_entries(store.orders@, start_after, 0, limit);
                assert(orders@ =~= select(
                    entries,
                    |o: BridgeOrder| o.target_chain_id == chain_id || o.source_chain_id == chain_id,
                    entries.len() as int,
                ));
            }
            Ok(QueryResponse::BridgeOrders(BridgeOrdersResponse { orders }))
        },
        QueryMsg::VerifySecret { secret, secret_hash } => Ok(
            QueryResponse::VerifySecret(query_verify_secret(&secret, &secret_hash)),
        ),
    }
}

} // verus!
