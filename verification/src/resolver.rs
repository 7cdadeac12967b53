//! Resolver-driven escrow: a resolver locks the source funds together with a
//! safety deposit, settles against the secret, and the order can be cancelled
//! from the source timelock on.

use vstd::prelude::*;
use crate::hashing::{check_text_secret, is_hashlock_text, is_valid_hashlock, text_secret_matches};
use crate::ledger::{
    decimal_digits, duplicate_text, page_entries, page_range, paid_in, payment_in, select, Coin,
    Payment, Timestamp,
};

verus! {

/// Chain identifier of the Cosmos ledger.
pub const CHAIN_ID_COSMOS: u32 = 1;

/// Chain identifier of Ethereum.
pub const CHAIN_ID_ETHEREUM: u32 = 2;

/// Chain identifier of BNB Smart Chain.
pub const CHAIN_ID_BSC: u32 = 56;

/// Chain identifier of Polygon.
pub const CHAIN_ID_POLYGON: u32 = 137;

/// Seconds by which the destination timelock trails the source timelock.
pub const DST_TIMELOCK_EXTRA: u64 = 3600;

/// Seconds by which the finality time precedes the source timelock.
pub const FINALITY_LEAD: u64 = 7200;

/// Why an operation on a resolver order was rejected.
#[derive(Clone, Copy, Debug, PartialEq, Eq, Structural)]
pub enum ContractError {
    Unauthorized,
    OrderNotFound,
    OrderAlreadyExists,
    InvalidSecret,
    InvalidSecretHash,
    OrderAlreadyCompleted,
    OrderAlreadyCancelled,
    TimelockNotExpired,
    TimelockExpired,
    InvalidAmount,
    InsufficientFunds,
    InsufficientSafetyDeposit,
    SourceNotDeployed,
    DestinationAlreadyDeployed,
    NotResolver,
    InvalidChainId,
    InvalidTimelock,
}

impl ContractError {
    /// The text of the message that describes the error.
    pub open spec fn text(self) -> Seq<char> {
        match self {
            ContractError::Unauthorized => "Unauthorized"@,
            ContractError::OrderNotFound => "Order not found"@,
            ContractError::OrderAlreadyExists => "Order already exists"@,
            ContractError::InvalidSecret => "Invalid secret"@,
            ContractError::InvalidSecretHash => "Invalid secret hash"@,
            ContractError::OrderAlreadyCompleted => "Order already completed"@,
            ContractError::OrderAlreadyCancelled => "Order already cancelled"@,
            ContractError::TimelockNotExpired => "Timelock not expired"@,
            ContractError::TimelockExpired => "Timelock already expired"@,
            ContractError::InvalidAmount => "Invalid amount"@,
            ContractError::InsufficientFunds => "Insufficient funds"@,
            ContractError::InsufficientSafetyDeposit => "Insufficient safety deposit"@,
            ContractError::SourceNotDeployed => "Source not deployed"@,
            ContractError::DestinationAlreadyDeployed => "Destination already deployed"@,
            ContractError::NotResolver => "Not resolver"@,
            ContractError::InvalidChainId => "Invalid chain ID"@,
            ContractError::InvalidTimelock => "Invalid timelock: must be greater than current time"@,
        }
    }

    /// The message that describes the error.
    pub fn message(&self) -> (message: &'static str)
        ensures
            message@ == self.text(),
    {
        match self {
            ContractError::Unauthorized => "Unauthorized",
            ContractError::OrderNotFound => "Order not found",
            ContractError::OrderAlreadyExists => "Order already exists",
            ContractError::InvalidSecret => "Invalid secret",
            ContractError::InvalidSecretHash => "Invalid secret hash",
            ContractError::OrderAlreadyCompleted => "Order already completed",
            ContractError::OrderAlreadyCancelled => "Order already cancelled",
            ContractError::TimelockNotExpired => "Timelock not expired",
            ContractError::TimelockExpired => "Timelock already expired",
            ContractError::InvalidAmount => "Invalid amount",
            ContractError::InsufficientFunds => "Insufficient funds",
            ContractError::InsufficientSafetyDeposit => "Insufficient safety deposit",
            ContractError::SourceNotDeployed => "Source not deployed",
            ContractError::DestinationAlreadyDeployed => "Destination already deployed",
            ContractError::NotResolver => "Not resolver",
            ContractError::InvalidChainId => "Invalid chain ID",
            ContractError::InvalidTimelock => "Invalid timelock: must be greater than current time",
        }
    }
}

/// Addresses that the resolver contract is configured with.
#[derive(Clone, Debug, PartialEq, Eq)]
pub struct Config {
    pub owner: String,
    pub atomic_swap_contract: String,
    pub bridge_contract: String,
}

/// One escrowed order, with its source leg on this ledger.
#[derive(Clone, Debug, PartialEq, Eq)]
pub struct ResolverOrder {
    pub order_id: u64,
    pub initiator: String,
    pub resolver: String,
    pub src_chain_id: u32,
    pub dst_chain_id: u32,
    pub src_amount: Coin,
    pub dst_amount: String,
    pub dst_token: String,
    pub dst_recipient: String,
    pub safety_deposit: Coin,
    pub secret_hash: String,
    pub src_timelock: Timestamp,
    pub dst_timelock: Timestamp,
    pub src_deployed: bool,
    pub dst_deployed: bool,
    pub completed: bool,
    pub cancelled: bool,
    pub secret: Option<String>,
}

impl ResolverOrder {
    /// A copy of the order.
    pub fn duplicate(&self) -> (copy: ResolverOrder)
        ensures
            copy == *self,
    {
        ResolverOrder {
            order_id: self.order_id,
            initiator: self.initiator.clone(),
            resolver: self.resolver.clone(),
            src_chain_id: self.src_chain_id,
            dst_chain_id: self.dst_chain_id,
            src_amount: self.src_amount.duplicate(),
            dst_amount: self.dst_amount.clone(),
            dst_token: self.dst_token.clone(),
            dst_recipient: self.dst_recipient.clone(),
            safety_deposit: self.safety_deposit.duplicate(),
            secret_hash: self.secret_hash.clone(),
            src_timelock: self.src_timelock,
            dst_timelock: self.dst_timelock,
            src_deployed: self.src_deployed,
            dst_deployed: self.dst_deployed,
            completed: self.completed,
            cancelled: self.cancelled,
            secret: duplicate_text(&self.secret),
        }
    }
}

/// The immutable terms of an escrow, as the other chain needs them.
#[derive(Clone, Debug, PartialEq, Eq)]
pub struct EscrowImmutables {
    pub order_hash: String,
    pub src_chain_id: u32,
    pub dst_chain_id: u32,
    pub src_token: String,
    pub dst_token: String,
    pub src_amount: String,
    pub dst_amount: String,
    pub resolver: String,
    pub beneficiary: String,
    pub secret_hash: String,
    pub finality_timestamp: u64,
    pub resolver_timestamp: u64,
    pub beneficiary_timestamp: u64,
    pub safety_deposit: String,
}

/// Configuration handed over at instantiation.
#[derive(Clone, Debug, PartialEq, Eq)]
pub struct InstantiateMsg {
    pub atomic_swap_contract: String,
    pub bridge_contract: String,
}

/// Nothing is needed to migrate.
#[derive(Clone, Copy, Debug, PartialEq, Eq, Structural)]
pub struct MigrateMsg {}

/// The messages that change the contract.
#[allow(inconsistent_fields)]
#[derive(Clone, Debug, PartialEq, Eq)]
pub enum ExecuteMsg {
    /// Opens an order with its source escrow; `timelock` is in seconds from now.
    DeploySrc {
        initiator: String,
        dst_chain_id: u32,
        dst_recipient: String,
        dst_token: String,
        src_amount: Coin,
        dst_amount: String,
        secret_hash: String,
        safety_deposit: Coin,
        timelock: u64,
    },
    DeployDst { order_id: u64 },
    Withdraw { order_id: u64, secret: String, is_source_chain: bool },
    Cancel { order_id: u64 },
    UpdateConfig {
        owner: Option<String>,
        atomic_swap_contract: Option<String>,
        bridge_contract: Option<String>,
    },
}

/// What an accepted message did, and what the ledger has to pay for it.
#[allow(inconsistent_fields)]
#[derive(Clone, Debug, PartialEq, Eq)]
pub enum ExecuteResponse {
    SourceDeployed { order_id: u64 },
    DestinationDeployed,
    Withdrawn { payments: Vec<Payment> },
    Cancelled { payments: Vec<Payment> },
    ConfigUpdated,
}

/// The queries that the contract answers.
#[derive(Clone, Debug, PartialEq, Eq)]
pub enum QueryMsg {
    Config {},
    Order { order_id: u64 },
    OrderBySecretHash { secret_hash: String },
    OrdersByResolver { resolver: String, start_after: Option<u64>, limit: Option<u32> },
    OrdersByInitiator { initiator: String, start_after: Option<u64>, limit: Option<u32> },
    CanWithdraw { order_id: u64, user: String },
    CanCancel { order_id: u64 },
    GetEscrowImmutables { order_id: u64 },
}

/// The configured addresses, as text.
#[derive(Clone, Debug, PartialEq, Eq)]
pub struct ConfigResponse {
    pub owner: String,
    pub atomic_swap_contract: String,
    pub bridge_contract: String,
}

/// One order, as a query returns it.
#[derive(Clone, Debug, PartialEq, Eq)]
pub struct OrderResponse {
    pub order: ResolverOrder,
}

/// A page of orders, as a query returns it.
#[derive(Clone, Debug, PartialEq, Eq)]
pub struct OrdersResponse {
    pub orders: Vec<ResolverOrder>,
}

/// Why a withdrawal is not possible, where it is not.
#[derive(Clone, Copy, Debug, PartialEq, Eq, Structural)]
pub enum WithdrawBlock {
    /// The order is already completed.
    Completed,
    /// The order is cancelled.
    Cancelled,
    /// The user has no right to withdraw now.
    NotAllowed,
}

/// Whether a user may withdraw, and if not, why.
#[derive(Clone, Copy, Debug, PartialEq, Eq, Structural)]
pub struct CanWithdrawResponse {
    pub can_withdraw: bool,
    pub reason: Option<WithdrawBlock>,
}

/// Why a cancellation is not possible, where it is not.
#[derive(Clone, Copy, Debug, PartialEq, Eq, Structural)]
pub enum CancelBlock {
    /// The order is already completed.
    Completed,
    /// The order is already cancelled.
    Cancelled,
    /// The source timelock has not passed yet.
    NotExpired,
}

/// Whether an order may be cancelled, and if not, why.
#[derive(Clone, Copy, Debug, PartialEq, Eq, Structural)]
pub struct CanCancelResponse {
    pub can_cancel: bool,
    pub reason: Option<CancelBlock>,
}

/// The escrow terms of one order.
#[derive(Clone, Debug, PartialEq, Eq)]
pub struct EscrowImmutablesResponse {
    pub immutables: EscrowImmutables,
}

/// The answer to a query.
#[derive(Clone, Debug, PartialEq, Eq)]
pub enum QueryResponse {
    Config(ConfigResponse),
    Order(OrderResponse),
    OrderId(u64),
    Orders(OrdersResponse),
    CanWithdraw(CanWithdrawResponse),
    CanCancel(CanCancelResponse),
    EscrowImmutables(EscrowImmutablesResponse),
}

impl WithdrawBlock {
    /// The text of the reason.
    pub open spec fn text(self) -> Seq<char> {
        match self {
            WithdrawBlock::Completed => "Order already completed"@,
            WithdrawBlock::Cancelled => "Order cancelled"@,
            WithdrawBlock::NotAllowed => "Not authorized or conditions not met"@,
        }
    }

    /// The reason in words.
    pub fn message(&self) -> (message: &'static str)
        ensures
            message@ == self.text(),
    {
        match self {
            WithdrawBlock::Completed => "Order already completed",
            WithdrawBlock::Cancelled => "Order cancelled",
            WithdrawBlock::NotAllowed => "Not authorized or conditions not met",
        }
    }
}

impl CancelBlock {
    /// The text of the reason.
    pub open spec fn text(self) -> Seq<char> {
        match self {
            CancelBlock::Completed => "Order already completed"@,
            CancelBlock::Cancelled => "Order already cancelled"@,
            CancelBlock::NotExpired => "Timelock not expired"@,
        }
    }

    /// The reason in words.
    pub fn message(&self) -> (message: &'static str)
        ensures
            message@ == self.text(),
    {
        match self {
            CancelBlock::Completed => "Order already completed",
            CancelBlock::Cancelled => "Order already cancelled",
            CancelBlock::NotExpired => "Timelock not expired",
        }
    }
}

/// The orders of the resolver contract. Order `n` is the `n`-th one created.
#[derive(Debug, PartialEq, Eq)]
pub struct Store {
    pub config: Config,
    pub order_counter: u64,
    pub orders: Vec<ResolverOrder>,
}

/// The first reason for which a new source escrow is rejected, if any.
pub open spec fn deploy_src_error(
    now: Timestamp,
    funds: Seq<Coin>,
    src_amount: Coin,
    safety_deposit: Coin,
    secret_hash: Seq<char>,
    timelock_seconds: u64,
) -> Option<ContractError> {
    if src_amount.amount == 0 {
        Some(ContractError::InvalidAmount)
    } else if safety_deposit.amount == 0 {
        Some(ContractError::InsufficientSafetyDeposit)
    } else if !is_hashlock_text(secret_hash) {
        Some(ContractError::InvalidSecretHash)
    } else if timelock_seconds == 0 || now.plus_seconds_spec(timelock_seconds) + 3600
        * 1_000_000_000 > u64::MAX {
        Some(ContractError::InvalidTimelock)
    } else if src_amount.denom@ == safety_deposit.denom@ {
        match paid_in(funds, src_amount.denom@) {
            Some(paid) if paid >= src_amount.amount + safety_deposit.amount => None,
            _ => Some(ContractError::InsufficientFunds),
        }
    } else {
        match paid_in(funds, src_amount.denom@) {
            Some(paid) if paid >= src_amount.amount => match paid_in(funds, safety_deposit.denom@) {
                Some(deposit) if deposit >= safety_deposit.amount => None,
                _ => Some(ContractError::InsufficientSafetyDeposit),
            },
            _ => Some(ContractError::InsufficientFunds),
        }
    }
}

/// The first reason for which recording the destination escrow is rejected, if any.
pub open spec fn deploy_dst_error(order: ResolverOrder, sender: Seq<char>) -> Option<ContractError> {
    if sender != order.resolver@ {
        Some(ContractError::NotResolver)
    } else if !order.src_deployed {
        Some(ContractError::SourceNotDeployed)
    } else if order.dst_deployed {
        Some(ContractError::DestinationAlreadyDeployed)
    } else {
        None
    }
}

/// The first reason for which a withdrawal from `order` is rejected, if any.
/// `secret_ok` says whether the revealed secret hashes to the order's hashlock.
pub open spec fn withdraw_error(
    order: ResolverOrder,
    now: Timestamp,
    sender: Seq<char>,
    secret_ok: bool,
    is_source_chain: bool,
) -> Option<ContractError> {
    if order.completed {
        Some(ContractError::OrderAlreadyCompleted)
    } else if order.cancelled {
        Some(ContractError::OrderAlreadyCancelled)
    } else if !secret_ok {
        Some(ContractError::InvalidSecret)
    } else if is_source_chain {
        if sender != order.resolver@ {
            Some(ContractError::NotResolver)
        } else if now.nanos >= order.src_timelock.nanos {
            Some(ContractError::TimelockExpired)
        } else {
            None
        }
    } else if sender != order.initiator@ {
        Some(ContractError::Unauthorized)
    } else {
        None
    }
}

/// The first reason for which a cancellation of `order` is rejected, if any.
pub open spec fn cancel_error(order: ResolverOrder, now: Timestamp, sender: Seq<char>) -> Option<
    ContractError,
> {
    if order.completed {
        Some(ContractError::OrderAlreadyCompleted)
    } else if order.cancelled {
        Some(ContractError::OrderAlreadyCancelled)
    } else if now.nanos < order.src_timelock.nanos {
        Some(ContractError::TimelockNotExpired)
    } else if sender != order.initiator@ && sender != order.resolver@ {
        Some(ContractError::Unauthorized)
    } else {
        None
    }
}

/// What the ledger pays out when `order` is settled on the source chain: the
/// source funds and the safety deposit, both to the resolver.
pub open spec fn source_payout(order: ResolverOrder) -> Seq<Payment> {
    seq![
        Payment { to: order.resolver, coin: order.src_amount },
        Payment { to: order.resolver, coin: order.safety_deposit },
    ]
}

/// What the ledger pays out when `order` is cancelled: the source funds back to
/// the initiator and the safety deposit back to the resolver, if the source
/// escrow was deployed.
pub open spec fn cancel_payout(order: ResolverOrder) -> Seq<Payment> {
    if order.src_deployed {
        seq![
            Payment { to: order.initiator, coin: order.src_amount },
            Payment { to: order.resolver, coin: order.safety_deposit },
        ]
    } else {
        Seq::empty()
    }
}

/// The answer to "may `user` withdraw from `order` now?".
pub open spec fn can_withdraw_answer(order: ResolverOrder, now: Timestamp, user: Seq<char>)
    -> CanWithdrawResponse {
    if order.completed {
        CanWithdrawResponse { can_withdraw: false, reason: Some(WithdrawBlock::Completed) }
    } else if order.cancelled {
        CanWithdrawResponse { can_withdraw: false, reason: Some(WithdrawBlock::Cancelled) }
    } else if user == order.resolver@ && now.nanos < order.src_timelock.nanos {
        CanWithdrawResponse { can_withdraw: true, reason: None }
    } else if user == order.initiator@ && order.dst_deployed {
        CanWithdrawResponse { can_withdraw: true, reason: None }
    } else {
        CanWithdrawResponse { can_withdraw: false, reason: Some(WithdrawBlock::NotAllowed) }
    }
}

/// The answer to "may `order` be cancelled now?".
pub open spec fn can_cancel_answer(order: ResolverOrder, now: Timestamp) -> CanCancelResponse {
    if order.completed {
        CanCancelResponse { can_cancel: false, reason: Some(CancelBlock::Completed) }
    } else if order.cancelled {
        CanCancelResponse { can_cancel: false, reason: Some(CancelBlock::Cancelled) }
    } else if now.nanos < order.src_timelock.nanos {
        CanCancelResponse { can_cancel: false, reason: Some(CancelBlock::NotExpired) }
    } else {
        CanCancelResponse { can_cancel: true, reason: None }
    }
}

impl Store {
    /// Orders are numbered from one, in the order of their creation.
    pub open spec fn wf(&self) -> bool {
        &&& self.order_counter == self.orders@.len()
        &&& forall|i: int| 0 <= i < self.orders@.len() ==> (#[trigger] self.orders@[i]).order_id == i + 1
    }

    /// Whether an order with this id exists.
    pub open spec fn has_order(&self, order_id: u64) -> bool {
        1 <= order_id <= self.orders@.len()
    }

    /// The order with this id.
    pub open spec fn order(&self, order_id: u64) -> ResolverOrder {
        self.orders@[order_id - 1]
    }

    /// The id of the latest order with the given secret hash, or 0.
    pub open spec fn latest_with_hash(&self, secret_hash: Seq<char>, upto: int) -> int
        decreases upto,
    {
        if upto <= 0 {
            0
        } else if self.orders@[upto - 1].secret_hash@ == secret_hash {
            upto
        } else {
            self.latest_with_hash(secret_hash, upto - 1)
        }
    }

    fn index_of(&self, order_id: u64) -> (index: Option<usize>)
        requires
            self.wf(),
        ensures
            index.is_some() == self.has_order(order_id),
            index matches Some(i) ==> i == order_id - 1,
    {
        let count = self.orders.len();
        if order_id >= 1 && order_id - 1 < self.order_counter {
            assert(order_id - 1 < count);
            Some((order_id - 1) as usize)
        } else {
            None
        }
    }
}

/// Sets the contract up with no orders.
pub fn instantiate(sender: String, msg: InstantiateMsg) -> (store: Store)
    ensures
        store.wf(),
        store.orders@.len() == 0,
        store.config.owner == sender,
        store.config.atomic_swap_contract == msg.atomic_swap_contract,
        store.config.bridge_contract == msg.bridge_contract,
{
    Store {
        config: Config {
            owner: sender,
            atomic_swap_contract: msg.atomic_swap_contract,
            bridge_contract: msg.bridge_contract,
        },
        order_counter: 0,
        orders: Vec::new(),
    }
}

/// Locks the source funds and the safety deposit of a new order, on behalf of
/// the resolver `sender`, and returns the id of the order.
///
/// The attached `funds` must cover the source amount and the safety deposit:
/// together where both are of one denomination, each on its own otherwise.
pub fn execute_deploy_src(
    store: &mut Store,
    now: Timestamp,
    sender: String,
    funds: &Vec<Coin>,
    initiator: String,
    dst_chain_id: u32,
    dst_recipient: String,
    dst_token: String,
    src_amount: Coin,
    dst_amount: String,
    secret_hash: String,
    safety_deposit: Coin,
    timelock_seconds: u64,
) -> (result: Result<u64, ContractError>)
    requires
        old(store).wf(),
        old(store).order_counter < u64::MAX,
    ensures
        final(store).wf(),
        final(store).config == old(store).config,
        match result {
            Ok(order_id) => {
                &&& deploy_src_error(
                    now,
                    funds@,
                    src_amount,
                    safety_deposit,
                    secret_hash@,
                    timelock_seconds,
                ) is None
                &&& order_id == old(store).order_counter + 1
                &&& final(store).orders@ == old(store).orders@.push(
                    (ResolverOrder {
                        order_id,
                        initiator,
                        resolver: sender,
                        src_chain_id: CHAIN_ID_COSMOS,
                        dst_chain_id,
                        src_amount,
                        dst_amount,
                        dst_token,
                        dst_recipient,
                        safety_deposit,
                        secret_hash,
                        src_timelock: Timestamp {
                            nanos: now.plus_seconds_spec(timelock_seconds) as u64,
                        },
                        dst_timelock: Timestamp {
                            nanos: (now.plus_seconds_spec(timelock_seconds) + 3600
                                * 1_000_000_000) as u64,
                        },
                        src_deployed: true,
                        dst_deployed: false,
                        completed: false,
                        cancelled: false,
                        secret: None,
                    }),
                )
            },
            Err(e) => {
                &&& deploy_src_error(
                    now,
                    funds@,
                    src_amount,
                    safety_deposit,
                    secret_hash@,
                    timelock_seconds,
                ) == Some(e)
                &&& *final(store) == *old(store)
            },
        },
{
    if src_amount.amount == 0 {
        return Err(ContractError::InvalidAmount);
    }
    if safety_deposit.amount == 0 {
        return Err(ContractError::InsufficientSafetyDeposit);
    }
    if !is_valid_hashlock(&secret_hash) {
        return Err(ContractError::InvalidSecretHash);
    }
    if timelock_seconds == 0 {
        return Err(ContractError::InvalidTimelock);
    }
    let src_timelock = match now.plus_seconds(timelock_seconds) {
        Some(t) => t,
        None => { return Err(ContractError::InvalidTimelock); },
    };
    let dst_timelock = match src_timelock.plus_seconds(DST_TIMELOCK_EXTRA) {
        Some(t) => t,
        None => { return Err(ContractError::InvalidTimelock); },
    };
    let same_denom = src_amount.denom == safety_deposit.denom;
    let paid = payment_in(funds, &src_amount.denom);
    if same_denom {
        let enough = match (paid, src_amount.amount.checked_add(safety_deposit.amount)) {
            (Some(p), Some(total)) => p >= total,
            _ => false,
        };
        if !enough {
            return Err(ContractError::InsufficientFunds);
        }
    } else {
        let enough = match paid {
            Some(p) => p >= src_amount.amount,
            None => false,
        };
        if !enough {
            return Err(ContractError::InsufficientFunds);
        }
        let deposit_paid = match payment_in(funds, &safety_deposit.denom) {
            Some(d) => d >= safety_deposit.amount,
            None => false,
        };
        if !deposit_paid {
            return Err(ContractError::InsufficientSafetyDeposit);
        }
    }
    let order_id: u64 = store.order_counter + 1;
    let order = ResolverOrder {
        order_id,
        initiator,
        resolver: sender,
        src_chain_id: CHAIN_ID_COSMOS,
        dst_chain_id,
        src_amount,
        dst_amount,
        dst_token,
        dst_recipient,
        safety_deposit,
        secret_hash,
        src_timelock,
        dst_timelock,
        src_deployed: true,
        dst_deployed: false,
        completed: false,
        cancelled: false,
        secret: None,
    };
    store.orders.push(order);
    store.order_counter = order_id;
    Ok(order_id)
}

impl Store {
    /// The first reason for which recording the destination escrow of order
    /// `order_id` is rejected, if any.
    pub open spec fn deploy_dst_outcome(&self, sender: Seq<char>, order_id: u64) -> Option<
        ContractError,
    > {
        if !self.has_order(order_id) {
            Some(ContractError::OrderNotFound)
        } else {
            deploy_dst_error(self.order(order_id), sender)
        }
    }

    /// The first reason for which a withdrawal from order `order_id` is rejected, if any.
    pub open spec fn withdraw_outcome(
        &self,
        now: Timestamp,
        sender: Seq<char>,
        order_id: u64,
        secret_ok: bool,
        is_source_chain: bool,
    ) -> Option<ContractError> {
        if !self.has_order(order_id) {
            Some(ContractError::OrderNotFound)
        } else {
            withdraw_error(self.order(order_id), now, sender, secret_ok, is_source_chain)
        }
    }

    /// The first reason for which a cancellation of order `order_id` is rejected, if any.
    pub open spec fn cancel_outcome(&self, now: Timestamp, sender: Seq<char>, order_id: u64)
        -> Option<ContractError> {
        if !self.has_order(order_id) {
            Some(ContractError::OrderNotFound)
        } else {
            cancel_error(self.order(order_id), now, sender)
        }
    }
}

/// Records that the destination escrow of an order was deployed. Only the
/// resolver of the order may do so, and only once.
pub fn execute_deploy_dst(store: &mut Store, sender: &String, order_id: u64) -> (result: Result<
    (),
    ContractError,
>)
    requires
        old(store).wf(),
    ensures
        final(store).wf(),
        match result {
            Ok(()) => {
                &&& old(store).deploy_dst_outcome(sender@, order_id) is None
                &&& final(store).config == old(store).config
                &&& final(store).orders@ == old(store).orders@.update(
                    order_id - 1,
                    (ResolverOrder { dst_deployed: true, ..old(store).order(order_id) }),
                )
            },
            Err(e) => {
                &&& old(store).deploy_dst_outcome(sender@, order_id) == Some(e)
                &&& *final(store) == *old(store)
            },
        },
{
    let index = match store.index_of(order_id) {
        Some(i) => i,
        None => { return Err(ContractError::OrderNotFound); },
    };
    let order = &store.orders[index];
    if *sender != order.resolver {
        return Err(ContractError::NotResolver);
    }
    if !order.src_deployed {
        return Err(ContractError::SourceNotDeployed);
    }
    if order.dst_deployed {
        return Err(ContractError::DestinationAlreadyDeployed);
    }
    store.orders[index].dst_deployed = true;
    Ok(())
}

/// Settles order `order_id` for `sender`, given whether the revealed `secret`
/// hashes to the order's hashlock (`secret_ok`).
///
/// On the source chain the resolver collects the source funds and gets the
/// safety deposit back, provided the source timelock has not passed; on the
/// destination side the initiator completes the order and nothing is paid from
/// this ledger. Either way the order becomes completed and keeps the secret.
/// A rejected withdrawal changes nothing.
pub fn settle_withdraw(
    store: &mut Store,
    now: Timestamp,
    sender: &String,
    order_id: u64,
    secret: String,
    secret_ok: bool,
    is_source_chain: bool,
) -> (result: Result<Vec<Payment>, ContractError>)
    requires
        old(store).wf(),
    ensures
        final(store).wf(),
        match result {
            Ok(payments) => {
                &&& old(store).withdraw_outcome(now, sender@, order_id, secret_ok, is_source_chain)
                    is None
                &&& final(store).config == old(store).config
                &&& final(store).orders@ == old(store).orders@.update(
                    order_id - 1,
                    (ResolverOrder {
                        completed: true,
                        secret: Some(secret),
                        ..old(store).order(order_id)
                    }),
                )
                &&& payments@ == (if is_source_chain {
                    source_payout(old(store).order(order_id))
                } else {
                    Seq::empty()
                })
            },
            Err(e) => {
                &&& old(store).withdraw_outcome(now, sender@, order_id, secret_ok, is_source_chain)
                    == Some(e)
                &&& *final(store) == *old(store)
            },
        },
{
    let index = match store.index_of(order_id) {
        Some(i) => i,
        None => { return Err(ContractError::OrderNotFound); },
    };
    let order = &store.orders[index];
    if order.completed {
        return Err(ContractError::OrderAlreadyCompleted);
    }
    if order.cancelled {
        return Err(ContractError::OrderAlreadyCancelled);
    }
    if !secret_ok {
        return Err(ContractError::InvalidSecret);
    }
    let mut payments: Vec<Payment> = Vec::new();
    if is_source_chain {
        if *sender != order.resolver {
            return Err(ContractError::NotResolver);
        }
        if now.nanos >= order.src_timelock.nanos {
            return Err(ContractError::TimelockExpired);
        }
        payments.push(Payment { to: order.resolver.clone(), coin: order.src_amount.duplicate() });
        payments.push(
            Payment { to: order.resolver.clone(), coin: order.safety_deposit.duplicate() },
        );
    } else {
        if *sender != order.initiator {
            return Err(ContractError::Unauthorized);
        }
    }
    store.orders[index].completed = true;
    store.orders[index].secret = Some(secret);
    Ok(payments)
}

/// Withdraws from order `order_id` by revealing `secret`: hashes the secret,
/// compares the digest with the order's hashlock and settles accordingly.
pub fn execute_withdraw(
    store: &mut Store,
    now: Timestamp,
    sender: &String,
    order_id: u64,
    secret: String,
    is_source_chain: bool,
) -> (result: Result<Vec<Payment>, ContractError>)
    requires
        old(store).wf(),
    ensures
        final(store).wf(),
        match result {
            Ok(payments) => {
                &&& old(store).has_order(order_id)
                &&& text_secret_matches(secret@, old(store).order(order_id).secret_hash@)
                &&& old(store).withdraw_outcome(now, sender@, order_id, true, is_source_chain)
                    is None
                &&& final(store).config == old(store).config
                &&& final(store).orders@ == old(store).orders@.update(
                    order_id - 1,
                    (ResolverOrder {
                        completed: true,
                        secret: Some(secret),
                        ..old(store).order(order_id)
                    }),
                )
                &&& payments@ == (if is_source_chain {
                    source_payout(old(store).order(order_id))
                } else {
                    Seq::empty()
                })
            },
            Err(e) => {
                &&& Some(e) == old(store).withdraw_outcome(
                    now,
                    sender@,
                    order_id,
                    old(store).has_order(order_id) && text_secret_matches(
                        secret@,
                        old(store).order(order_id).secret_hash@,
                    ),
                    is_source_chain,
                )
                &&& *final(store) == *old(store)
            },
        },
{
    let secret_ok = match store.index_of(order_id) {
        Some(i) => check_text_secret(&secret, &store.orders[i].secret_hash),
        None => false,
    };
    settle_withdraw(store, now, sender, order_id, secret, secret_ok, is_source_chain)
}

/// Cancels order `order_id`, from its source timelock on; before it, the
/// resolver can still withdraw on the source chain. The initiator
/// or the resolver may cancel; the source funds go back to the initiator and
/// the safety deposit back to the resolver. A second cancellation is rejected.
pub fn execute_cancel(store: &mut Store, now: Timestamp, sender: &String, order_id: u64) -> (result:
    Result<Vec<Payment>, ContractError>)
    requires
        old(store).wf(),
    ensures
        final(store).wf(),
        match result {
            Ok(payments) => {
                &&& old(store).cancel_outcome(now, sender@, order_id) is None
                &&& final(store).config == old(store).config
                &&& final(store).orders@ == old(store).orders@.update(
                    order_id - 1,
                    (ResolverOrder { cancelled: true, ..old(store).order(order_id) }),
                )
                &&& payments@ == cancel_payout(old(store).order(order_id))
            },
            Err(e) => {
                &&& old(store).cancel_outcome(now, sender@, order_id) == Some(e)
                &&& *final(store) == *old(store)
            },
        },
{
    let index = match store.index_of(order_id) {
        Some(i) => i,
        None => { return Err(ContractError::OrderNotFound); },
    };
    let order = &store.orders[index];
    if order.completed {
        return Err(ContractError::OrderAlreadyCompleted);
    }
    if order.cancelled {
        return Err(ContractError::OrderAlreadyCancelled);
    }
    if now.nanos < order.src_timelock.nanos {
        return Err(ContractError::TimelockNotExpired);
    }
    if *sender != order.initiator && *sender != order.resolver {
        return Err(ContractError::Unauthorized);
    }
    let mut payments: Vec<Payment> = Vec::new();
    if order.src_deployed {
        payments.push(Payment { to: order.initiator.clone(), coin: order.src_amount.duplicate() });
        payments.push(
            Payment { to: order.resolver.clone(), coin: order.safety_deposit.duplicate() },
        );
    }
    store.orders[index].cancelled = true;
    Ok(payments)
}

/// Replaces the configured addresses that are given; only the owner may do so.
pub fn execute_update_config(
    store: &mut Store,
    sender: &String,
    owner: Option<String>,
    atomic_swap_contract: Option<String>,
    bridge_contract: Option<String>,
) -> (result: Result<(), ContractError>)
    ensures
        final(store).orders == old(store).orders,
        final(store).order_counter == old(store).order_counter,
        match result {
            Ok(()) => {
                &&& sender@ == old(store).config.owner@
                &&& final(store).config.owner == (match owner {
                    Some(o) => o,
                    None => old(store).config.owner,
                })
                &&& final(store).config.atomic_swap_contract == (match atomic_swap_contract {
                    Some(a) => a,
                    None => old(store).config.atomic_swap_contract,
                })
                &&& final(store).config.bridge_contract == (match bridge_contract {
                    Some(b) => b,
                    None => old(store).config.bridge_contract,
                })
            },
            Err(e) => {
                &&& e == ContractError::Unauthorized
                &&& sender@ != old(store).config.owner@
                &&& *final(store) == *old(store)
            },
        },
{
    if *sender != store.config.owner {
        return Err(ContractError::Unauthorized);
    }
    if let Some(o) = owner {
        store.config.owner = o;
    }
    if let Some(a) = atomic_swap_contract {
        store.config.atomic_swap_contract = a;
    }
    if let Some(b) = bridge_contract {
        store.config.bridge_contract = b;
    }
    Ok(())
}

/// Carries out `msg` for `sender` at `now`, with the coins `funds` attached to
/// the message. A rejected message changes nothing.
pub fn execute(store: &mut Store, now: Timestamp, sender: String, funds: &Vec<Coin>, msg: ExecuteMsg)
    -> (result: Result<ExecuteResponse, ContractError>)
    requires
        old(store).wf(),
        msg is DeploySrc ==> old(store).order_counter < u64::MAX,
    ensures
        final(store).wf(),
        result is Err ==> *final(store) == *old(store),
        match msg {
            ExecuteMsg::DeploySrc {
                initiator,
                dst_chain_id,
                dst_recipient,
                dst_token,
                src_amount,
                dst_amount,
                secret_hash,
                safety_deposit,
                timelock,
            } => {
                let error = deploy_src_error(
                    now,
                    funds@,
                    src_amount,
                    safety_deposit,
                    secret_hash@,
                    timelock,
                );
                match result {
                    Ok(response) => {
                        &&& error is None
                        &&& response == (ExecuteResponse::SourceDeployed {
                            order_id: (old(store).order_counter + 1) as u64,
                        })
                        &&& final(store).config == old(store).config
                        &&& final(store).orders@ == old(store).orders@.push(
                            (ResolverOrder {
                                order_id: (old(store).order_counter + 1) as u64,
                                initiator,
                                resolver: sender,
                                src_chain_id: CHAIN_ID_COSMOS,
                                dst_chain_id,
                                src_amount,
                                dst_amount,
                                dst_token,
                                dst_recipient,
                                safety_deposit,
                                secret_hash,
                                src_timelock: Timestamp {
                                    nanos: now.plus_seconds_spec(timelock) as u64,
                                },
                                dst_timelock: Timestamp {
                                    nanos: (now.plus_seconds_spec(timelock) + 3600
                                        * 1_000_000_000) as u64,
                                },
                                src_deployed: true,
                                dst_deployed: false,
                                completed: false,
                                cancelled: false,
                                secret: None,
                            }),
                        )
                    },
                    Err(e) => error == Some(e),
                }
            },
            ExecuteMsg::DeployDst { order_id } => match result {
                Ok(response) => {
                    &&& old(store).deploy_dst_outcome(sender@, order_id) is None
                    &&& response == ExecuteResponse::DestinationDeployed
                    &&& final(store).config == old(store).config
                    &&& final(store).orders@ == old(store).orders@.update(
                        order_id - 1,
                        (ResolverOrder { dst_deployed: true, ..old(store).order(order_id) }),
                    )
                },
                Err(e) => old(store).deploy_dst_outcome(sender@, order_id) == Some(e),
            },
            ExecuteMsg::Withdraw { order_id, secret, is_source_chain } => {
                let secret_ok = old(store).has_order(order_id) && text_secret_matches(
                    secret@,
                    old(store).order(order_id).secret_hash@,
                );
                let error = old(store).withdraw_outcome(
                    now,
                    sender@,
                    order_id,
                    secret_ok,
                    is_source_chain,
                );
                match result {
                    Ok(response) => {
                        &&& error is None
                        &&& response matches ExecuteResponse::Withdrawn { payments }
                        &&& payments@ == (if is_source_chain {
                            source_payout(old(store).order(order_id))
                        } else {
                            Seq::empty()
                        })
                        &&& final(store).config == old(store).config
                        &&& final(store).orders@ == old(store).orders@.update(
                            order_id - 1,
                            (ResolverOrder {
                                completed: true,
                                secret: Some(secret),
                                ..old(store).order(order_id)
                            }),
                        )
                    },
                    Err(e) => error == Some(e),
                }
            },
            ExecuteMsg::Cancel { order_id } => match result {
                Ok(response) => {
                    &&& old(store).cancel_outcome(now, sender@, order_id) is None
                    &&& response matches ExecuteResponse::Cancelled { payments }
                    &&& payments@ == cancel_payout(old(store).order(order_id))
                    &&& final(store).config == old(store).config
                    &&& final(store).orders@ == old(store).orders@.update(
                        order_id - 1,
                        (ResolverOrder { cancelled: true, ..old(store).order(order_id) }),
                    )
                },
                Err(e) => old(store).cancel_outcome(now, sender@, order_id) == Some(e),
            },
            ExecuteMsg::UpdateConfig { owner, atomic_swap_contract, bridge_contract } => match result {
                Ok(response) => {
                    &&& sender@ == old(store).config.owner@
                    &&& response == ExecuteResponse::ConfigUpdated
                    &&& final(store).orders == old(store).orders
                    &&& final(store).order_counter == old(store).order_counter
                    &&& final(store).config.owner == (match owner {
                        Some(o) => o,
                        None => old(store).config.owner,
                    })
                    &&& final(store).config.atomic_swap_contract == (match atomic_swap_contract {
                        Some(a) => a,
                        None => old(store).config.atomic_swap_contract,
                    })
                    &&& final(store).config.bridge_contract == (match bridge_contract {
                        Some(b) => b,
                        None => old(store).config.bridge_contract,
                    })
                },
                Err(e) => e == ContractError::Unauthorized && sender@ != old(store).config.owner@,
            },
        },
{
    match msg {
        ExecuteMsg::DeploySrc {
            initiator,
            dst_chain_id,
            dst_recipient,
            dst_token,
            src_amount,
            dst_amount,
            secret_hash,
            safety_deposit,
            timelock,
        } => {
            match execute_deploy_src(
                store,
                now,
                sender,
                funds,
                initiator,
                dst_chain_id,
                dst_recipient,
                dst_token,
                src_amount,
                dst_amount,
                secret_hash,
                safety_deposit,
                timelock,
            ) {
                Ok(order_id) => Ok(ExecuteResponse::SourceDeployed { order_id }),
                Err(e) => Err(e),
            }
        },
        ExecuteMsg::DeployDst { order_id } => match execute_deploy_dst(store, &sender, order_id) {
            Ok(()) => Ok(ExecuteResponse::DestinationDeployed),
            Err(e) => Err(e),
        },
        ExecuteMsg::Withdraw { order_id, secret, is_source_chain } => {
            match execute_withdraw(store, now, &sender, order_id, secret, is_source_chain) {
                Ok(payments) => Ok(ExecuteResponse::Withdrawn { payments }),
                Err(e) => Err(e),
            }
        },
        ExecuteMsg::Cancel { order_id } => match execute_cancel(store, now, &sender, order_id) {
            Ok(payments) => Ok(ExecuteResponse::Cancelled { payments }),
            Err(e) => Err(e),
        },
        ExecuteMsg::UpdateConfig { owner, atomic_swap_contract, bridge_contract } => {
            match execute_update_config(store, &sender, owner, atomic_swap_contract, bridge_contract) {
                Ok(()) => Ok(ExecuteResponse::ConfigUpdated),
                Err(e) => Err(e),
            }
        },
    }
}

/// The configured addresses.
pub fn query_config(store: &Store) -> (response: ConfigResponse)
    ensures
        response.owner == store.config.owner,
        response.atomic_swap_contract == store.config.atomic_swap_contract,
        response.bridge_contract == store.config.bridge_contract,
{
    ConfigResponse {
        owner: store.config.owner.clone(),
        atomic_swap_contract: store.config.atomic_swap_contract.clone(),
        bridge_contract: store.config.bridge_contract.clone(),
    }
}

/// The order with the given id.
pub fn query_order(store: &Store, order_id: u64) -> (result: Result<&ResolverOrder, ContractError>)
    requires
        store.wf(),
    ensures
        match result {
            Ok(order) => store.has_order(order_id) && *order == store.order(order_id),
            Err(e) => !store.has_order(order_id) && e == ContractError::OrderNotFound,
        },
{
    match store.index_of(order_id) {
        Some(i) => Ok(&store.orders[i]),
        None => Err(ContractError::OrderNotFound),
    }
}

/// The id of the latest order that was created with the given secret hash.
pub fn query_order_by_secret_hash(store: &Store, secret_hash: &String) -> (result: Result<
    u64,
    ContractError,
>)
    requires
        store.wf(),
    ensures
        match result {
            Ok(order_id) => order_id == store.latest_with_hash(
                secret_hash@,
                store.orders@.len() as int,
            ) && order_id >= 1 && store.has_order(order_id) && store.order(
                order_id,
            ).secret_hash@ == secret_hash@,
            Err(e) => e == ContractError::OrderNotFound && store.latest_with_hash(
                secret_hash@,
                store.orders@.len() as int,
            ) == 0,
        },
{
    let mut i: usize = store.orders.len();
    while i > 0
        invariant
            i <= store.orders@.len(),
            store.wf(),
            store.latest_with_hash(secret_hash@, store.orders@.len() as int)
                == store.latest_with_hash(secret_hash@, i as int),
        decreases i,
    {
        if store.orders[i - 1].secret_hash == *secret_hash {
            return Ok(store.orders[i - 1].order_id);
        }
        i -= 1;
    }
    Err(ContractError::OrderNotFound)
}

/// Whether `user` may withdraw from order `order_id` now, and if not, why.
pub fn query_can_withdraw(store: &Store, now: Timestamp, order_id: u64, user: &String) -> (result:
    Result<CanWithdrawResponse, ContractError>)
    requires
        store.wf(),
    ensures
        match result {
            Ok(response) => store.has_order(order_id) && response == can_withdraw_answer(
                store.order(order_id),
                now,
                user@,
            ),
            Err(e) => !store.has_order(order_id) && e == ContractError::OrderNotFound,
        },
{
    let order = match store.index_of(order_id) {
        Some(i) => &store.orders[i],
        None => { return Err(ContractError::OrderNotFound); },
    };
    if order.completed {
        return Ok(
            CanWithdrawResponse { can_withdraw: false, reason: Some(WithdrawBlock::Completed) },
        );
    }
    if order.cancelled {
        return Ok(
            CanWithdrawResponse { can_withdraw: false, reason: Some(WithdrawBlock::Cancelled) },
        );
    }
    if *user == order.resolver && now.nanos < order.src_timelock.nanos {
        return Ok(CanWithdrawResponse { can_withdraw: true, reason: None });
    }
    if *user == order.initiator && order.dst_deployed {
        return Ok(CanWithdrawResponse { can_withdraw: true, reason: None });
    }
    Ok(CanWithdrawResponse { can_withdraw: false, reason: Some(WithdrawBlock::NotAllowed) })
}

/// Whether order `order_id` may be cancelled now, and if not, why.
pub fn query_can_cancel(store: &Store, now: Timestamp, order_id: u64) -> (result: Result<
    CanCancelResponse,
    ContractError,
>)
    requires
        store.wf(),
    ensures
        match result {
            Ok(response) => store.has_order(order_id) && response == can_cancel_answer(
                store.order(order_id),
                now,
            ),
            Err(e) => !store.has_order(order_id) && e == ContractError::OrderNotFound,
        },
{
    let order = match store.index_of(order_id) {
        Some(i) => &store.orders[i],
        None => { return Err(ContractError::OrderNotFound); },
    };
    if order.completed {
        return Ok(CanCancelResponse { can_cancel: false, reason: Some(CancelBlock::Completed) });
    }
    if order.cancelled {
        return Ok(CanCancelResponse { can_cancel: false, reason: Some(CancelBlock::Cancelled) });
    }
    if now.nanos < order.src_timelock.nanos {
        return Ok(CanCancelResponse { can_cancel: false, reason: Some(CancelBlock::NotExpired) });
    }
    Ok(CanCancelResponse { can_cancel: true, reason: None })
}

/// Nothing is migrated.
pub fn migrate(_msg: MigrateMsg) {
}

/// The orders of `resolver` among the page of orders that follows `start_after`.
pub fn query_orders_by_resolver<'a>(store: &'a Store, resolver: &String, start_after: Option<u64>, limit: Option<u32>) -> (page: Vec<
    &'a ResolverOrder,
>)
    ensures
        ({
            let entries = page_entries(store.orders@, start_after, 1, limit);
            let wanted = select(entries, |o: ResolverOrder| o.resolver@ == resolver@, entries.len() as int);
            &&& page@.len() == wanted.len()
            &&& forall|k: int| 0 <= k < page@.len() ==> *(#[trigger] page@[k]) == wanted[k]
        }),
{
    let range = page_range(store.orders.len(), start_after, true, limit);
    let ghost entries = store.orders@.subrange(range.0 as int, range.1 as int);
    let ghost keep = |o: ResolverOrder| o.resolver@ == resolver@;
    let mut page: Vec<&'a ResolverOrder> = Vec::new();
    let mut i: usize = range.0;
    while i < range.1
        invariant
            range.0 <= i <= range.1 <= store.orders@.len(),
            entries == store.orders@.subrange(range.0 as int, range.1 as int),
            keep == |o: ResolverOrder| o.resolver@ == resolver@,
            page@.len() == select(entries, keep, i - range.0).len(),
            forall|k: int|
                0 <= k < page@.len() ==> *(#[trigger] page@[k]) == select(entries, keep, i - range.0)[k],
        decreases range.1 - i,
    {
        let item = &store.orders[i];
        assert(entries[i - range.0] == store.orders@[i as int]);
        if item.resolver == *resolver {
            page.push(item);
        }
        i += 1;
    }
    page
}

/// The orders of `initiator` among the page of orders that follows `start_after`.
pub fn query_orders_by_initiator<'a>(store: &'a Store, initiator: &String, start_after: Option<u64>, limit: Option<u32>) -> (page: Vec<
    &'a ResolverOrder,
>)
    ensures
        ({
            let entries = page_entries(store.orders@, start_after, 1, limit);
            let wanted = select(entries, |o: ResolverOrder| o.initiator@ == initiator@, entries.len() as int);
            &&& page@.len() == wanted.len()
            &&& forall|k: int| 0 <= k < page@.len() ==> *(#[trigger] page@[k]) == wanted[k]
        }),
{
    let range = page_range(store.orders.len(), start_after, true, limit);
    let ghost entries = store.orders@.subrange(range.0 as int, range.1 as int);
    let ghost keep = |o: ResolverOrder| o.initiator@ == initiator@;
    let mut page: Vec<&'a ResolverOrder> = Vec::new();
    let mut i: usize = range.0;
    while i < range.1
        invariant
            range.0 <= i <= range.1 <= store.orders@.len(),
            entries == store.orders@.subrange(range.0 as int, range.1 as int),
            keep == |o: ResolverOrder| o.initiator@ == initiator@,
            page@.len() == select(entries, keep, i - range.0).len(),
            forall|k: int|
                0 <= k < page@.len() ==> *(#[trigger] page@[k]) == select(entries, keep, i - range.0)[k],
        decreases range.1 - i,
    {
        let item = &store.orders[i];
        assert(entries[i - range.0] == store.orders@[i as int]);
        if item.initiator == *initiator {
            page.push(item);
        }
        i += 1;
    }
    page
}

/// The hash that stands for order `order_id`: `0x` and then the id as 64 hex
/// digits, most significant first.
pub open spec fn order_hash_text(order_id: u64) -> Seq<char> {
    Seq::new(
        66,
        |i: int|
            if i == 0 {
                '0'
            } else if i == 1 {
                'x'
            } else {
                crate::hashing::hex_digit(
                    (order_id as int / vstd::arithmetic::power::pow(16, (65 - i) as nat)) % 16,
                )
            },
    )
}

/// Formats `amount` with `format!`: the display of an integer is its decimal
/// digits, without sign or padding.
#[verifier::external_body]
fn amount_text(amount: u128) -> (text: String)
    ensures
        text@ == decimal_digits(amount as nat),
{
    format!("{}", amount)
}

/// Formats `order_id` with `format!` as `0x` and 64 lower-case hex digits,
/// padded with zeros on the left.
#[verifier::external_body]
fn order_hash(order_id: u64) -> (text: String)
    ensures
        text@ == order_hash_text(order_id),
{
    format!("0x{:064x}", order_id)
}

/// The escrow terms of `order`, as the other chain needs them, given the text
/// forms of its hash and amounts.
pub open spec fn immutables_of(order: ResolverOrder, immutables: EscrowImmutables) -> bool {
    &&& immutables.order_hash@ == order_hash_text(order.order_id)
    &&& immutables.src_chain_id == order.src_chain_id
    &&& immutables.dst_chain_id == order.dst_chain_id
    &&& immutables.src_token == order.src_amount.denom
    &&& immutables.dst_token == order.dst_token
    &&& immutables.src_amount@ == decimal_digits(order.src_amount.amount as nat)
    &&& immutables.dst_amount == order.dst_amount
    &&& immutables.resolver == order.resolver
    &&& immutables.beneficiary == order.dst_recipient
    &&& immutables.secret_hash == order.secret_hash
    &&& immutables.finality_timestamp == order.src_timelock.nanos / 1_000_000_000 - 7200
    &&& immutables.resolver_timestamp == order.src_timelock.nanos / 1_000_000_000
    &&& immutables.beneficiary_timestamp == order.dst_timelock.nanos / 1_000_000_000
    &&& immutables.safety_deposit@ == decimal_digits(order.safety_deposit.amount as nat)
}

/// The escrow terms of order `order_id`. The finality time lies two hours
/// before the source timelock, which must be that far from the epoch.
pub fn query_escrow_immutables(store: &Store, order_id: u64) -> (result: Result<
    EscrowImmutablesResponse,
    ContractError,
>)
    requires
        store.wf(),
    ensures
        match result {
            Ok(response) => {
                &&& store.has_order(order_id)
                &&& store.order(order_id).src_timelock.nanos / 1_000_000_000 >= 7200
                &&& immutables_of(store.order(order_id), response.immutables)
            },
            Err(e) => if !store.has_order(order_id) {
                e == ContractError::OrderNotFound
            } else {
                e == ContractError::InvalidTimelock && store.order(order_id).src_timelock.nanos
                    / 1_000_000_000 < 7200
            },
        },
{
    let order = match store.index_of(order_id) {
        Some(i) => &store.orders[i],
        None => { return Err(ContractError::OrderNotFound); },
    };
    let resolver_timestamp = order.src_timelock.seconds();
    if resolver_timestamp < FINALITY_LEAD {
        return Err(ContractError::InvalidTimelock);
    }
    Ok(
        EscrowImmutablesResponse {
            immutables: EscrowImmutables {
                order_hash: order_hash(order.order_id),
                src_chain_id: order.src_chain_id,
                dst_chain_id: order.dst_chain_id,
                src_token: order.src_amount.denom.clone(),
                dst_token: order.dst_token.clone(),
                src_amount: amount_text(order.src_amount.amount),
                dst_amount: order.dst_amount.clone(),
                resolver: order.resolver.clone(),
                beneficiary: order.dst_recipient.clone(),
                secret_hash: order.secret_hash.clone(),
                finality_timestamp: resolver_timestamp - FINALITY_LEAD,
                resolver_timestamp,
                beneficiary_timestamp: order.dst_timelock.seconds(),
                safety_deposit: amount_text(order.safety_deposit.amount),
            },
        },
    )
}

/// An order that was cancelled is not cancelled again, and one that was
/// completed is not completed again, whoever asks and whenever.
pub proof fn lemma_settled_once(
    order: ResolverOrder,
    secret: String,
    now: Timestamp,
    sender: Seq<char>,
    secret_ok: bool,
    is_source_chain: bool,
)
    ensures
        cancel_error(ResolverOrder { cancelled: true, ..order }, now, sender) is Some,
        withdraw_error(
            ResolverOrder { completed: true, secret: Some(secret), ..order },
            now,
            sender,
            secret_ok,
            is_source_chain,
        ) is Some,
{
}

/// Once an order is completed or cancelled, neither a withdrawal nor a
/// cancellation is accepted any more.
pub proof fn lemma_final_order_stays(
    order: ResolverOrder,
    now: Timestamp,
    sender: Seq<char>,
    secret_ok: bool,
    is_source_chain: bool,
)
    requires
        order.completed || order.cancelled,
    ensures
        withdraw_error(order, now, sender, secret_ok, is_source_chain) is Some,
        cancel_error(order, now, sender) is Some,
{
}

/// Nothing is withdrawn without a secret that hashes to the hashlock, and on
/// the source chain the resolver with the secret is held back only by the
/// state of the order and the timelock.
pub proof fn lemma_withdraw_needs_secret(order: ResolverOrder, now: Timestamp, sender: Seq<char>, is_source_chain: bool)
    ensures
        withdraw_error(order, now, sender, false, is_source_chain) is Some,
        withdraw_error(order, now, order.resolver@, true, true) is None <==> !order.completed
            && !order.cancelled && now.nanos < order.src_timelock.nanos,
{
}

/// On the source chain, settlement ends where cancellation begins.
pub proof fn lemma_withdraw_excludes_cancel(
    order: ResolverOrder,
    now: Timestamp,
    sender: Seq<char>,
    secret_ok: bool,
)
    ensures
        !(withdraw_error(order, now, sender, secret_ok, true) is None && cancel_error(
            order,
            now,
            sender,
        ) is None),
{
}

/// Copies of the orders of a page.
fn copies(page: &Vec<&ResolverOrder>) -> (orders: Vec<ResolverOrder>)
    ensures
        orders@.len() == page@.len(),
        forall|k: int| 0 <= k < orders@.len() ==> #[trigger] orders@[k] == *page@[k],
{
    let mut orders: Vec<ResolverOrder> = Vec::new();
    let mut i: usize = 0;
    while i < page.len()
        invariant
            i <= page@.len(),
            orders@.len() == i,
            forall|k: int| 0 <= k < i ==> #[trigger] orders@[k] == *page@[k],
        decreases page.len() - i,
    {
        orders.push(page[i].duplicate());
        i += 1;
    }
    orders
}

/// Answers `msg` at `now`. A page of orders holds, of the entries that follow
/// `start_after`, at most as many as the limit allows, those that the query
/// asks for, in the order of their creation.
pub fn query(store: &Store, now: Timestamp, msg: QueryMsg) -> (result: Result<
    QueryResponse,
    ContractError,
>)
    requires
        store.wf(),
    ensures
        match msg {
            QueryMsg::Config {  } => result == Ok::<QueryResponse, ContractError>(
                QueryResponse::Config(
                    ConfigResponse {
                        owner: store.config.owner,
                        atomic_swap_contract: store.config.atomic_swap_contract,
                        bridge_contract: store.config.bridge_contract,
                    },
                ),
            ),
            QueryMsg::Order { order_id } => if store.has_order(order_id) {
                result == Ok::<QueryResponse, ContractError>(
                    QueryResponse::Order(OrderResponse { order: store.order(order_id) }),
                )
            } else {
                result == Err::<QueryResponse, ContractError>(ContractError::OrderNotFound)
            },
            QueryMsg::OrderBySecretHash { secret_hash } => {
                let latest = store.latest_with_hash(secret_hash@, store.orders@.len() as int);
                if latest == 0 {
                    result == Err::<QueryResponse, ContractError>(ContractError::OrderNotFound)
                } else {
                    &&& result matches Ok(QueryResponse::OrderId(order_id))
                    &&& order_id == latest
                    &&& store.has_order(order_id)
                    &&& store.order(order_id).secret_hash@ == secret_hash@
                }
            },
            QueryMsg::OrdersByResolver { resolver, start_after, limit } => {
                let entries = page_entries(store.orders@, start_after, 1, limit);
                &&& result matches Ok(QueryResponse::Orders(page))
                &&& page.orders@ == select(
                    entries,
                    |o: ResolverOrder| o.resolver@ == resolver@,
                    entries.len() as int,
                )
            },
            QueryMsg::OrdersByInitiator { initiator, start_after, limit } => {
                let entries = page_entries(store.orders@, start_after, 1, limit);
                &&& result matches Ok(QueryResponse::Orders(page))
                &&& page.orders@ == select(
                    entries,
                    |o: ResolverOrder| o.initiator@ == initiator@,
                    entries.len() as int,
                )
            },
            QueryMsg::CanWithdraw { order_id, user } => if store.has_order(order_id) {
                result == Ok::<QueryResponse, ContractError>(
                    QueryResponse::CanWithdraw(
                        can_withdraw_answer(store.order(order_id), now, user@),
                    ),
                )
            } else {
                result == Err::<QueryResponse, ContractError>(ContractError::OrderNotFound)
            },
            QueryMsg::CanCancel { order_id } => if store.has_order(order_id) {
                result == Ok::<QueryResponse, ContractError>(
                    QueryResponse::CanCancel(can_cancel_answer(store.order(order_id), now)),
                )
            } else {
                result == Err::<QueryResponse, ContractError>(ContractError::OrderNotFound)
            },
            QueryMsg::GetEscrowImmutables { order_id } => if !store.has_order(order_id) {
                result == Err::<QueryResponse, ContractError>(ContractError::OrderNotFound)
            } else if store.order(order_id).src_timelock.nanos / 1_000_000_000 < 7200 {
                result == Err::<QueryResponse, ContractError>(ContractError::InvalidTimelock)
            } else {
                &&& result matches Ok(QueryResponse::EscrowImmutables(response))
                &&& immutables_of(store.order(order_id), response.immutables)
            },
        },
{
    match msg {
        QueryMsg::Config {  } => Ok(QueryResponse::Config(query_config(store))),
        QueryMsg::Order { order_id } => match query_order(store, order_id) {
            Ok(order) => Ok(QueryResponse::Order(OrderResponse { order: order.duplicate() })),
            Err(e) => Err(e),
        },
        QueryMsg::OrderBySecretHash { secret_hash } => {
            match query_order_by_secret_hash(store, &secret_hash) {
                Ok(order_id) => Ok(QueryResponse::OrderId(order_id)),
                Err(e) => Err(e),
            }
        },
        QueryMsg::OrdersByResolver { resolver, start_after, limit } => {
            let page = query_orders_by_resolver(store, &resolver, start_after, limit);
            let orders = copies(&page);
            proof {
                let entries = page_entries(store.orders@, start_after, 1, limit);
                assert(orders@ =~= select(
                    entries,
                    |o: ResolverOrder| o.resolver@ == resolver@,
                    entries.len() as int,
                ));
            }
            Ok(QueryResponse::Orders(OrdersResponse { orders }))
        },
        QueryMsg::OrdersByInitiator { initiator, start_after, limit } => {
            let page = query_orders_by_initiator(store, &initiator, start_after, limit);
            let orders = copies(&page);
            proof {
                let entries = page_entries(store.orders@, start_after, 1, limit);
                assert(orders@ =~= select(
                    entries,
                    |o: ResolverOrder| o.initiator@ == initiator@,
                    entries.len() as int,
                ));
            }
            Ok(QueryResponse::Orders(OrdersResponse { orders }))
        },
        QueryMsg::CanWithdraw { order_id, user } => {
            match query_can_withdraw(store, now, order_id, &user) {
                Ok(response) => Ok(QueryResponse::CanWithdraw(response)),
                Err(e) => Err(e),
            }
        },
        QueryMsg::CanCancel { order_id } => match query_can_cancel(store, now, order_id) {
            Ok(response) => Ok(QueryResponse::CanCancel(response)),
            Err(e) => Err(e),
        },
        QueryMsg::GetEscrowImmutables { order_id } => {
            match query_escrow_immutables(store, order_id) {
                Ok(response) => Ok(QueryResponse::EscrowImmutables(response)),
                Err(e) => Err(e),
            }
        },
    }
}

} // verus!
