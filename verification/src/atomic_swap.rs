//! Single-ledger atomic swaps: funds are locked against a hashlock until a
//! deadline, paid to the recipient when the secret is revealed in time, and
//! refunded to the initiator afterwards.

use vstd::prelude::*;
use crate::fees::{checked_fee, fee_of};
use crate::hashing::{check_text_secret, is_hashlock_text, is_valid_hashlock, text_secret_matches};
use crate::ledger::{
    duplicate_text, page_entries, page_range, select, Coin, Payment, Timestamp,
};

verus! {

/// Why an operation on a swap was rejected.
#[derive(Clone, Copy, Debug, PartialEq, Eq, Structural)]
pub enum ContractError {
    Unauthorized,
    SwapNotFound,
    SwapAlreadyExists,
    InvalidSecret,
    InvalidSecretHash,
    SwapAlreadyCompleted,
    SwapAlreadyRefunded,
    TimelockNotExpired,
    TimelockExpired,
    InvalidTimelock { min: u64, max: u64 },
    InvalidAmount,
    InsufficientFunds,
}

impl ContractError {
    /// The text of the message that describes the error, without the bounds of a timelock.
    pub open spec fn text(self) -> Seq<char> {
        match self {
            ContractError::Unauthorized => "Unauthorized"@,
            ContractError::SwapNotFound => "Swap not found"@,
            ContractError::SwapAlreadyExists => "Swap already exists"@,
            ContractError::InvalidSecret => "Invalid secret"@,
            ContractError::InvalidSecretHash => "Invalid secret hash"@,
            ContractError::SwapAlreadyCompleted => "Swap already completed"@,
            ContractError::SwapAlreadyRefunded => "Swap already refunded"@,
            ContractError::TimelockNotExpired => "Timelock not expired"@,
            ContractError::TimelockExpired => "Timelock already expired"@,
            ContractError::InvalidTimelock { .. } => "Invalid timelock"@,
            ContractError::InvalidAmount => "Invalid amount"@,
            ContractError::InsufficientFunds => "Insufficient funds"@,
        }
    }

    /// The message that describes the error, without the bounds of a timelock.
    pub fn message(&self) -> (message: &'static str)
        ensures
            message@ == self.text(),
    {
        match self {
            ContractError::Unauthorized => "Unauthorized",
            ContractError::SwapNotFound => "Swap not found",
            ContractError::SwapAlreadyExists => "Swap already exists",
            ContractError::InvalidSecret => "Invalid secret",
            ContractError::InvalidSecretHash => "Invalid secret hash",
            ContractError::SwapAlreadyCompleted => "Swap already completed",
            ContractError::SwapAlreadyRefunded => "Swap already refunded",
            ContractError::TimelockNotExpired => "Timelock not expired",
            ContractError::TimelockExpired => "Timelock already expired",
            ContractError::InvalidTimelock { .. } => "Invalid timelock",
            ContractError::InvalidAmount => "Invalid amount",
            ContractError::InsufficientFunds => "Insufficient funds",
        }
    }
}

/// The parameters of the swap contract.
#[derive(Clone, Debug, PartialEq, Eq)]
pub struct Config {
    pub owner: String,
    /// The protocol fee, in basis points of the swapped amount.
    pub protocol_fee_bps: u64,
    /// The shortest timelock accepted, in seconds.
    pub min_timelock_duration: u64,
    /// The longest timelock accepted, in seconds.
    pub max_timelock_duration: u64,
}

/// The lifecycle of a swap. `Completed` and `Refunded` are final.
#[derive(Clone, Copy, Debug, PartialEq, Eq, Structural)]
pub enum SwapStatus {
    Active,
    Completed,
    Refunded,
}

/// One swap.
#[derive(Clone, Debug, PartialEq, Eq)]
pub struct Swap {
    pub id: u64,
    pub initiator: String,
    pub recipient: String,
    pub amount: Coin,
    pub secret_hash: String,
    pub timelock: Timestamp,
    pub status: SwapStatus,
    pub created_at: Timestamp,
    pub completed_at: Option<Timestamp>,
    pub secret: Option<String>,
}

impl Swap {
    /// A copy of the swap.
    pub fn duplicate(&self) -> (copy: Swap)
        ensures
            copy == *self,
    {
        Swap {
            id: self.id,
            initiator: self.initiator.clone(),
            recipient: self.recipient.clone(),
            amount: self.amount.duplicate(),
            secret_hash: self.secret_hash.clone(),
            timelock: self.timelock,
            status: self.status,
            created_at: self.created_at,
            completed_at: self.completed_at,
            secret: duplicate_text(&self.secret),
        }
    }
}

/// Configuration handed over at instantiation.
#[derive(Clone, Copy, Debug, PartialEq, Eq, Structural)]
pub struct InstantiateMsg {
    pub protocol_fee_bps: u64,
    pub min_timelock_duration: u64,
    pub max_timelock_duration: u64,
}

/// Nothing is needed to migrate.
#[derive(Clone, Copy, Debug, PartialEq, Eq, Structural)]
pub struct MigrateMsg {}

/// The messages that change the contract.
#[allow(inconsistent_fields)]
#[derive(Clone, Debug, PartialEq, Eq)]
pub enum ExecuteMsg {
    /// Locks the attached funds for `recipient`; `timelock` is in seconds from now.
    CreateSwap { recipient: String, secret_hash: String, timelock: u64 },
    CompleteSwap { swap_id: u64, secret: String },
    RefundSwap { swap_id: u64 },
    UpdateConfig {
        owner: Option<String>,
        protocol_fee_bps: Option<u64>,
        min_timelock_duration: Option<u64>,
        max_timelock_duration: Option<u64>,
    },
    WithdrawFees { recipient: String },
}

/// What an accepted message did, and what the ledger has to pay for it.
#[allow(inconsistent_fields)]
#[derive(Clone, Debug, PartialEq, Eq)]
pub enum ExecuteResponse {
    SwapCreated { swap_id: u64 },
    SwapCompleted { settlement: Settlement },
    SwapRefunded { payment: Payment },
    ConfigUpdated,
    FeesWithdrawn { to: String, coins: Vec<Coin> },
}

/// The queries that the contract answers.
#[allow(inconsistent_fields)]
#[derive(Clone, Debug, PartialEq, Eq)]
pub enum QueryMsg {
    Config {},
    Swap { swap_id: u64 },
    SwapsByInitiator { initiator: String, start_after: Option<u64>, limit: Option<u32> },
    SwapsByRecipient { recipient: String, start_after: Option<u64>, limit: Option<u32> },
    SwapsByStatus { status: SwapStatus, start_after: Option<u64>, limit: Option<u32> },
    VerifySecret { secret: String, secret_hash: String },
}

/// The parameters of the contract, as a query returns them.
#[derive(Clone, Debug, PartialEq, Eq)]
pub struct ConfigResponse {
    pub owner: String,
    pub protocol_fee_bps: u64,
    pub min_timelock_duration: u64,
    pub max_timelock_duration: u64,
}

/// Whether a secret hashes to a given hash.
#[derive(Clone, Copy, Debug, PartialEq, Eq, Structural)]
pub struct VerifySecretResponse {
    pub is_valid: bool,
}

/// One swap, as a query returns it.
#[derive(Clone, Debug, PartialEq, Eq)]
pub struct SwapResponse {
    pub swap: Swap,
}

/// A page of swaps, as a query returns it.
#[derive(Clone, Debug, PartialEq, Eq)]
pub struct SwapsResponse {
    pub swaps: Vec<Swap>,
}

/// The answer to a query.
#[derive(Clone, Debug, PartialEq, Eq)]
pub enum QueryResponse {
    Config(ConfigResponse),
    Swap(SwapResponse),
    Swaps(SwapsResponse),
    VerifySecret(VerifySecretResponse),
}

/// What a completed swap pays: the amount less the fee to the recipient; the
/// fee stays with the contract.
#[derive(Clone, Debug, PartialEq, Eq)]
pub struct Settlement {
    pub payment: Payment,
    pub fee: u128,
}

/// The swaps of the contract. Swap `n` is at index `n`.
#[derive(Debug, PartialEq, Eq)]
pub struct Store {
    pub config: Config,
    pub swap_counter: u64,
    pub swaps: Vec<Swap>,
}

/// The first reason for which a new swap is rejected, if any.
pub open spec fn create_error(
    config: Config,
    now: Timestamp,
    funds: Seq<Coin>,
    secret_hash: Seq<char>,
    timelock_seconds: u64,
) -> Option<ContractError> {
    let bounds = ContractError::InvalidTimelock {
        min: config.min_timelock_duration,
        max: config.max_timelock_duration,
    };
    if timelock_seconds < config.min_timelock_duration || timelock_seconds
        > config.max_timelock_duration {
        Some(bounds)
    } else if !is_hashlock_text(secret_hash) {
        Some(ContractError::InvalidSecretHash)
    } else if funds.len() == 0 || funds[0].amount == 0 {
        Some(ContractError::InvalidAmount)
    } else if now.plus_seconds_spec(timelock_seconds) > u64::MAX {
        Some(bounds)
    } else {
        None
    }
}

/// The first reason for which completing `swap` is rejected, if any.
/// `secret_ok` says whether the revealed secret hashes to the hashlock.
pub open spec fn complete_error(swap: Swap, protocol_fee_bps: u64, now: Timestamp, secret_ok: bool)
    -> Option<ContractError> {
    if swap.status == SwapStatus::Completed {
        Some(ContractError::SwapAlreadyCompleted)
    } else if swap.status == SwapStatus::Refunded {
        Some(ContractError::SwapAlreadyRefunded)
    } else if now.nanos >= swap.timelock.nanos {
        Some(ContractError::TimelockExpired)
    } else if !secret_ok {
        Some(ContractError::InvalidSecret)
    } else if fee_of(swap.amount.amount as nat, protocol_fee_bps as nat) > swap.amount.amount {
        Some(ContractError::InsufficientFunds)
    } else {
        None
    }
}

/// The first reason for which refunding `swap` is rejected, if any.
pub open spec fn refund_error(swap: Swap, now: Timestamp, sender: Seq<char>) -> Option<
    ContractError,
> {
    if sender != swap.initiator@ {
        Some(ContractError::Unauthorized)
    } else if swap.status == SwapStatus::Completed {
        Some(ContractError::SwapAlreadyCompleted)
    } else if swap.status == SwapStatus::Refunded {
        Some(ContractError::SwapAlreadyRefunded)
    } else if now.nanos < swap.timelock.nanos {
        Some(ContractError::TimelockNotExpired)
    } else {
        None
    }
}

/// `swap` once it is completed at `now` with `secret`.
pub open spec fn completed_swap(swap: Swap, now: Timestamp, secret: String) -> Swap {
    Swap { status: SwapStatus::Completed, completed_at: Some(now), secret: Some(secret), ..swap }
}

/// `swap` once it is refunded at `now`.
pub open spec fn refunded_swap(swap: Swap, now: Timestamp) -> Swap {
    Swap { status: SwapStatus::Refunded, completed_at: Some(now), ..swap }
}

/// What completing `swap` pays at a protocol fee of `protocol_fee_bps`.
pub open spec fn settlement_of(swap: Swap, protocol_fee_bps: u64) -> Settlement {
    let fee = fee_of(swap.amount.amount as nat, protocol_fee_bps as nat);
    Settlement {
        payment: Payment {
            to: swap.recipient,
            coin: Coin { denom: swap.amount.denom, amount: (swap.amount.amount - fee) as u128 },
        },
        fee: fee as u128,
    }
}

/// Whether no operation changes the swap any more.
pub open spec fn is_final(status: SwapStatus) -> bool {
    status == SwapStatus::Completed || status == SwapStatus::Refunded
}

/// A swap that was refunded cannot be refunded again, whoever asks and whenever.
pub proof fn lemma_refund_once(swap: Swap, first: Timestamp, again: Timestamp, sender: Seq<char>)
    ensures
        refund_error(refunded_swap(swap, first), again, sender) is Some,
{
}

/// Once a swap is completed or refunded, completing and refunding are both
/// rejected, whatever the time, the caller and the secret.
pub proof fn lemma_final_swap_stays(
    swap: Swap,
    protocol_fee_bps: u64,
    now: Timestamp,
    sender: Seq<char>,
    secret_ok: bool,
)
    requires
        is_final(swap.status),
    ensures
        complete_error(swap, protocol_fee_bps, now, secret_ok) is Some,
        refund_error(swap, now, sender) is Some,
{
}

/// A swap is completed only with a secret that hashes to its hashlock, and
/// with such a secret the only obstacles are the state of the swap, the
/// deadline and a fee above the amount.
pub proof fn lemma_complete_needs_secret(swap: Swap, protocol_fee_bps: u64, now: Timestamp)
    ensures
        complete_error(swap, protocol_fee_bps, now, false) is Some,
        complete_error(swap, protocol_fee_bps, now, true) is None <==> {
            &&& swap.status == SwapStatus::Active
            &&& now.nanos < swap.timelock.nanos
            &&& fee_of(swap.amount.amount as nat, protocol_fee_bps as nat) <= swap.amount.amount
        },
{
}

/// What a settlement pays and what it keeps add up to the swapped amount.
pub proof fn lemma_settlement_conserves(swap: Swap, protocol_fee_bps: u64)
    requires
        fee_of(swap.amount.amount as nat, protocol_fee_bps as nat) <= swap.amount.amount,
    ensures
        settlement_of(swap, protocol_fee_bps).payment.coin.amount + settlement_of(
            swap,
            protocol_fee_bps,
        ).fee == swap.amount.amount,
{
}

impl Store {
    /// Swaps are numbered from zero, in the order of their creation.
    pub open spec fn wf(&self) -> bool {
        &&& self.swap_counter == self.swaps@.len()
        &&& forall|i: int| 0 <= i < self.swaps@.len() ==> (#[trigger] self.swaps@[i]).id == i
    }

    /// Whether a swap with this id exists.
    pub open spec fn has_swap(&self, swap_id: u64) -> bool {
        swap_id < self.swaps@.len()
    }

    /// The swap with this id.
    pub open spec fn swap(&self, swap_id: u64) -> Swap {
        self.swaps@[swap_id as int]
    }

    /// The first reason for which completing swap `swap_id` is rejected, if any.
    pub open spec fn complete_outcome(&self, now: Timestamp, swap_id: u64, secret_ok: bool)
        -> Option<ContractError> {
        if !self.has_swap(swap_id) {
            Some(ContractError::SwapNotFound)
        } else {
            complete_error(self.swap(swap_id), self.config.protocol_fee_bps, now, secret_ok)
        }
    }

    /// The first reason for which refunding swap `swap_id` is rejected, if any.
    pub open spec fn refund_outcome(&self, now: Timestamp, sender: Seq<char>, swap_id: u64)
        -> Option<ContractError> {
        if !self.has_swap(swap_id) {
            Some(ContractError::SwapNotFound)
        } else {
            refund_error(self.swap(swap_id), now, sender)
        }
    }

    fn index_of(&self, swap_id: u64) -> (index: Option<usize>)
        requires
            self.wf(),
        ensures
            index.is_some() == self.has_swap(swap_id),
            index matches Some(i) ==> i == swap_id,
    {
        let count = self.swaps.len();
        if swap_id < self.swap_counter {
            assert(swap_id < count);
            Some(swap_id as usize)
        } else {
            None
        }
    }
}

/// Sets the contract up with the given parameters and no swaps.
pub fn instantiate(sender: String, msg: InstantiateMsg) -> (store: Store)
    ensures
        store.wf(),
        store.swaps@.len() == 0,
        store.config == (Config {
            owner: sender,
            protocol_fee_bps: msg.protocol_fee_bps,
            min_timelock_duration: msg.min_timelock_duration,
            max_timelock_duration: msg.max_timelock_duration,
        }),
{
    Store {
        config: Config {
            owner: sender,
            protocol_fee_bps: msg.protocol_fee_bps,
            min_timelock_duration: msg.min_timelock_duration,
            max_timelock_duration: msg.max_timelock_duration,
        },
        swap_counter: 0,
        swaps: Vec::new(),
    }
}

/// Locks the first attached coin in a new swap for `recipient` and returns the
/// id of the swap.
pub fn execute_create_swap(
    store: &mut Store,
    now: Timestamp,
    sender: String,
    funds: &Vec<Coin>,
    recipient: String,
    secret_hash: String,
    timelock_seconds: u64,
) -> (result: Result<u64, ContractError>)
    requires
        old(store).wf(),
        old(store).swap_counter < u64::MAX,
    ensures
        final(store).wf(),
        final(store).config == old(store).config,
        match result {
            Ok(swap_id) => {
                &&& create_error(old(store).config, now, funds@, secret_hash@, timelock_seconds)
                    is None
                &&& swap_id == old(store).swap_counter
                &&& final(store).swaps@ == old(store).swaps@.push(
                    (Swap {
                        id: swap_id,
                        initiator: sender,
                        recipient,
                        amount: funds@[0],
                        secret_hash,
                        timelock: Timestamp { nanos: now.plus_seconds_spec(timelock_seconds) as u64 },
                        status: SwapStatus::Active,
                        created_at: now,
                        completed_at: None,
                        secret: None,
                    }),
                )
            },
            Err(e) => {
                &&& create_error(old(store).config, now, funds@, secret_hash@, timelock_seconds)
                    == Some(e)
                &&& *final(store) == *old(store)
            },
        },
{
    let bounds = ContractError::InvalidTimelock {
        min: store.config.min_timelock_duration,
        max: store.config.max_timelock_duration,
    };
    if timelock_seconds < store.config.min_timelock_duration || timelock_seconds
        > store.config.max_timelock_duration {
        return Err(bounds);
    }
    if !is_valid_hashlock(&secret_hash) {
        return Err(ContractError::InvalidSecretHash);
    }
    if funds.len() == 0 {
        return Err(ContractError::InvalidAmount);
    }
    if funds[0].amount == 0 {
        return Err(ContractError::InvalidAmount);
    }
    let timelock = match now.plus_seconds(timelock_seconds) {
        Some(t) => t,
        None => { return Err(bounds); },
    };
    let swap_id: u64 = store.swap_counter;
    let swap = Swap {
        id: swap_id,
        initiator: sender,
        recipient,
        amount: funds[0].duplicate(),
        secret_hash,
        timelock,
        status: SwapStatus::Active,
        created_at: now,
        completed_at: None,
        secret: None,
    };
    store.swaps.push(swap);
    store.swap_counter = swap_id + 1;
    Ok(swap_id)
}

/// Completes swap `swap_id`, given whether the revealed `secret` hashes to the
/// swap's hashlock (`secret_ok`): the amount less the protocol fee is paid to
/// the recipient and the swap keeps the secret. A rejected completion changes
/// nothing.
pub fn settle_swap(store: &mut Store, now: Timestamp, swap_id: u64, secret: String, secret_ok: bool)
    -> (result: Result<Settlement, ContractError>)
    requires
        old(store).wf(),
    ensures
        final(store).wf(),
        match result {
            Ok(settlement) => {
                &&& old(store).complete_outcome(now, swap_id, secret_ok) is None
                &&& final(store).config == old(store).config
                &&& final(store).swaps@ == old(store).swaps@.update(
                    swap_id as int,
                    completed_swap(old(store).swap(swap_id), now, secret),
                )
                &&& settlement == settlement_of(
                    old(store).swap(swap_id),
                    old(store).config.protocol_fee_bps,
                )
            },
            Err(e) => {
                &&& old(store).complete_outcome(now, swap_id, secret_ok) == Some(e)
                &&& *final(store) == *old(store)
            },
        },
{
    let index = match store.index_of(swap_id) {
        Some(i) => i,
        None => { return Err(ContractError::SwapNotFound); },
    };
    let swap = &store.swaps[index];
    match swap.status {
        SwapStatus::Active => {},
        SwapStatus::Completed => { return Err(ContractError::SwapAlreadyCompleted); },
        SwapStatus::Refunded => { return Err(ContractError::SwapAlreadyRefunded); },
    }
    if now.nanos >= swap.timelock.nanos {
        return Err(ContractError::TimelockExpired);
    }
    if !secret_ok {
        return Err(ContractError::InvalidSecret);
    }
    let amount = swap.amount.amount;
    let fee = match checked_fee(amount, store.config.protocol_fee_bps) {
        Some(f) => if f <= amount {
            f
        } else {
            return Err(ContractError::InsufficientFunds);
        },
        None => { return Err(ContractError::InsufficientFunds); },
    };
    let settlement = Settlement {
        payment: Payment {
            to: swap.recipient.clone(),
            coin: Coin { denom: swap.amount.denom.clone(), amount: amount - fee },
        },
        fee,
    };
    store.swaps[index].status = SwapStatus::Completed;
    store.swaps[index].completed_at = Some(now);
    store.swaps[index].secret = Some(secret);
    Ok(settlement)
}

/// Completes swap `swap_id` by revealing `secret`: hashes the secret, compares
/// the digest with the swap's hashlock and settles accordingly.
pub fn execute_complete_swap(store: &mut Store, now: Timestamp, swap_id: u64, secret: String) -> (result:
    Result<Settlement, ContractError>)
    requires
        old(store).wf(),
    ensures
        final(store).wf(),
        match result {
            Ok(settlement) => {
                &&& old(store).has_swap(swap_id)
                &&& text_secret_matches(secret@, old(store).swap(swap_id).secret_hash@)
                &&& old(store).complete_outcome(now, swap_id, true) is None
                &&& final(store).config == old(store).config
                &&& final(store).swaps@ == old(store).swaps@.update(
                    swap_id as int,
                    completed_swap(old(store).swap(swap_id), now, secret),
                )
                &&& settlement == settlement_of(
                    old(store).swap(swap_id),
                    old(store).config.protocol_fee_bps,
                )
            },
            Err(e) => {
                &&& Some(e) == old(store).complete_outcome(
                    now,
                    swap_id,
                    old(store).has_swap(swap_id) && text_secret_matches(
                        secret@,
                        old(store).swap(swap_id).secret_hash@,
                    ),
                )
                &&& *final(store) == *old(store)
            },
        },
{
    let secret_ok = match store.index_of(swap_id) {
        Some(i) => check_text_secret(&secret, &store.swaps[i].secret_hash),
        None => false,
    };
    settle_swap(store, now, swap_id, secret, secret_ok)
}

/// Refunds swap `swap_id` in full to its initiator once the timelock has
/// passed. A swap that is completed or refunded is not refunded again.
pub fn execute_refund_swap(store: &mut Store, now: Timestamp, sender: &String, swap_id: u64) -> (result:
    Result<Payment, ContractError>)
    requires
        old(store).wf(),
    ensures
        final(store).wf(),
        match result {
            Ok(payment) => {
                &&& old(store).refund_outcome(now, sender@, swap_id) is None
                &&& final(store).config == old(store).config
                &&& final(store).swaps@ == old(store).swaps@.update(
                    swap_id as int,
                    refunded_swap(old(store).swap(swap_id), now),
                )
                &&& payment == (Payment {
                    to: old(store).swap(swap_id).initiator,
                    coin: old(store).swap(swap_id).amount,
                })
            },
            Err(e) => {
                &&& old(store).refund_outcome(now, sender@, swap_id) == Some(e)
                &&& *final(store) == *old(store)
            },
        },
{
    let index = match store.index_of(swap_id) {
        Some(i) => i,
        None => { return Err(ContractError::SwapNotFound); },
    };
    let swap = &store.swaps[index];
    if *sender != swap.initiator {
        return Err(ContractError::Unauthorized);
    }
    match swap.status {
        SwapStatus::Active => {},
        SwapStatus::Completed => { return Err(ContractError::SwapAlreadyCompleted); },
        SwapStatus::Refunded => { return Err(ContractError::SwapAlreadyRefunded); },
    }
    if now.nanos < swap.timelock.nanos {
        return Err(ContractError::TimelockNotExpired);
    }
    let payment = Payment { to: swap.initiator.clone(), coin: swap.amount.duplicate() };
    store.swaps[index].status = SwapStatus::Refunded;
    store.swaps[index].completed_at = Some(now);
    Ok(payment)
}

/// Replaces the parameters that are given; only the owner may do so.
pub fn execute_update_config(
    store: &mut Store,
    sender: &String,
    owner: Option<String>,
    protocol_fee_bps: Option<u64>,
    min_timelock_duration: Option<u64>,
    max_timelock_duration: Option<u64>,
) -> (result: Result<(), ContractError>)
    ensures
        final(store).swap_counter == old(store).swap_counter,
        final(store).swaps == old(store).swaps,
        match result {
            Ok(()) => {
                &&& sender@ == old(store).config.owner@
                &&& final(store).config == (Config {
                    owner: match owner {
                        Some(o) => o,
                        None => old(store).config.owner,
                    },
                    protocol_fee_bps: match protocol_fee_bps {
                        Some(v) => v,
                        None => old(store).config.protocol_fee_bps,
                    },
                    min_timelock_duration: match min_timelock_duration {
                        Some(v) => v,
                        None => old(store).config.min_timelock_duration,
                    },
                    max_timelock_duration: match max_timelock_duration {
                        Some(v) => v,
                        None => old(store).config.max_timelock_duration,
                    },
                })
            },
            Err(e) => {
                &&& e == ContractError::Unauthorized
                &&& sender@ != old(store).config.owner@
                &&& *final(store) == *old(store)
            },
        },
{
    if *sender != store.config.owner {
        return Err(ContractError::Unauthorized);
    }
    if let Some(o) = owner {
        store.config.owner = o;
    }
    if let Some(v) = protocol_fee_bps {
        store.config.protocol_fee_bps = v;
    }
    if let Some(v) = min_timelock_duration {
        store.config.min_timelock_duration = v;
    }
    if let Some(v) = max_timelock_duration {
        store.config.max_timelock_duration = v;
    }
    Ok(())
}

/// Hands all `balances` of the contract to `recipient`; only the owner may ask
/// for it, and only when there is something to hand over.
pub fn execute_withdraw_fees(store: &Store, sender: &String, recipient: String, balances: Vec<Coin>)
    -> (result: Result<(String, Vec<Coin>), ContractError>)
    ensures
        match result {
            Ok((to, coins)) => sender@ == store.config.owner@ && balances@.len() > 0 && to
                == recipient && coins == balances,
            Err(e) => if sender@ != store.config.owner@ {
                e == ContractError::Unauthorized
            } else {
                e == ContractError::InsufficientFunds && balances@.len() == 0
            },
        },
{
    if *sender != store.config.owner {
        return Err(ContractError::Unauthorized);
    }
    if balances.len() == 0 {
        return Err(ContractError::InsufficientFunds);
    }
    Ok((recipient, balances))
}

/// Carries out `msg` for `sender` at `now`. `funds` are the coins attached to
/// the message and `balances` the coins that the contract holds, which only a
/// withdrawal of fees reads. A rejected message changes nothing.
pub fn execute(
    store: &mut Store,
    now: Timestamp,
    sender: String,
    funds: &Vec<Coin>,
    balances: Vec<Coin>,
    msg: ExecuteMsg,
) -> (result: Result<ExecuteResponse, ContractError>)
    requires
        old(store).wf(),
        msg is CreateSwap ==> old(store).swap_counter < u64::MAX,
    ensures
        final(store).wf(),
        result is Err ==> *final(store) == *old(store),
        match msg {
            ExecuteMsg::CreateSwap { recipient, secret_hash, timelock } => match result {
                Ok(response) => {
                    &&& create_error(old(store).config, now, funds@, secret_hash@, timelock) is None
                    &&& response == (ExecuteResponse::SwapCreated {
                        swap_id: old(store).swap_counter,
                    })
                    &&& final(store).config == old(store).config
                    &&& final(store).swaps@ == old(store).swaps@.push(
                        (Swap {
                            id: old(store).swap_counter,
                            initiator: sender,
                            recipient,
                            amount: funds@[0],
                            secret_hash,
                            timelock: Timestamp { nanos: now.plus_seconds_spec(timelock) as u64 },
                            status: SwapStatus::Active,
                            created_at: now,
                            completed_at: None,
                            secret: None,
                        }),
                    )
                },
                Err(e) => create_error(old(store).config, now, funds@, secret_hash@, timelock)
                    == Some(e),
            },
            ExecuteMsg::CompleteSwap { swap_id, secret } => {
                let secret_ok = old(store).has_swap(swap_id) && text_secret_matches(
                    secret@,
                    old(store).swap(swap_id).secret_hash@,
                );
                match result {
                    Ok(response) => {
                        &&& old(store).complete_outcome(now, swap_id, secret_ok) is None
                        &&& response == (ExecuteResponse::SwapCompleted {
                            settlement: settlement_of(
                                old(store).swap(swap_id),
                                old(store).config.protocol_fee_bps,
                            ),
                        })
                        &&& final(store).config == old(store).config
                        &&& final(store).swaps@ == old(store).swaps@.update(
                            swap_id as int,
                            completed_swap(old(store).swap(swap_id), now, secret),
                        )
                    },
                    Err(e) => old(store).complete_outcome(now, swap_id, secret_ok) == Some(e),
                }
            },
            ExecuteMsg::RefundSwap { swap_id } => match result {
                Ok(response) => {
                    &&& old(store).refund_outcome(now, sender@, swap_id) is None
                    &&& response == (ExecuteResponse::SwapRefunded {
                        payment: Payment {
                            to: old(store).swap(swap_id).initiator,
                            coin: old(store).swap(swap_id).amount,
                        },
                    })
                    &&& final(store).config == old(store).config
                    &&& final(store).swaps@ == old(store).swaps@.update(
                        swap_id as int,
                        refunded_swap(old(store).swap(swap_id), now),
                    )
                },
                Err(e) => old(store).refund_outcome(now, sender@, swap_id) == Some(e),
            },
            ExecuteMsg::UpdateConfig {
                owner,
                protocol_fee_bps,
                min_timelock_duration,
                max_timelock_duration,
            } => match result {
                Ok(response) => {
                    &&& sender@ == old(store).config.owner@
                    &&& response == ExecuteResponse::ConfigUpdated
                    &&& final(store).swaps == old(store).swaps
                    &&& final(store).swap_counter == old(store).swap_counter
                    &&& final(store).config == (Config {
                        owner: match owner {
                            Some(o) => o,
                            None => old(store).config.owner,
                        },
                        protocol_fee_bps: match protocol_fee_bps {
                            Some(v) => v,
                            None => old(store).config.protocol_fee_bps,
                        },
                        min_timelock_duration: match min_timelock_duration {
                            Some(v) => v,
                            None => old(store).config.min_timelock_duration,
                        },
                        max_timelock_duration: match max_timelock_duration {
                            Some(v) => v,
                            None => old(store).config.max_timelock_duration,
                        },
                    })
                },
                Err(e) => e == ContractError::Unauthorized && sender@ != old(store).config.owner@,
            },
            ExecuteMsg::WithdrawFees { recipient } => match result {
                Ok(response) => {
                    &&& sender@ == old(store).config.owner@
                    &&& balances@.len() > 0
                    &&& response == (ExecuteResponse::FeesWithdrawn { to: recipient, coins: balances })
                    &&& *final(store) == *old(store)
                },
                Err(e) => if sender@ != old(store).config.owner@ {
                    e == ContractError::Unauthorized
                } else {
                    e == ContractError::InsufficientFunds && balances@.len() == 0
                },
            },
        },
{
    match msg {
        ExecuteMsg::CreateSwap { recipient, secret_hash, timelock } => {
            match execute_create_swap(store, now, sender, funds, recipient, secret_hash, timelock) {
                Ok(swap_id) => Ok(ExecuteResponse::SwapCreated { swap_id }),
                Err(e) => Err(e),
            }
        },
        ExecuteMsg::CompleteSwap { swap_id, secret } => {
            match execute_complete_swap(store, now, swap_id, secret) {
                Ok(settlement) => Ok(ExecuteResponse::SwapCompleted { settlement }),
                Err(e) => Err(e),
            }
        },
        ExecuteMsg::RefundSwap { swap_id } => {
            match execute_refund_swap(store, now, &sender, swap_id) {
                Ok(payment) => Ok(ExecuteResponse::SwapRefunded { payment }),
                Err(e) => Err(e),
            }
        },
        ExecuteMsg::UpdateConfig {
            owner,
            protocol_fee_bps,
            min_timelock_duration,
            max_timelock_duration,
        } => {
            match execute_update_config(
                store,
                &sender,
                owner,
                protocol_fee_bps,
                min_timelock_duration,
                max_timelock_duration,
            ) {
                Ok(()) => Ok(ExecuteResponse::ConfigUpdated),
                Err(e) => Err(e),
            }
        },
        ExecuteMsg::WithdrawFees { recipient } => {
            match execute_withdraw_fees(store, &sender, recipient, balances) {
                Ok((to, coins)) => Ok(ExecuteResponse::FeesWithdrawn { to, coins }),
                Err(e) => Err(e),
            }
        },
    }
}

/// The parameters of the contract.
pub fn query_config(store: &Store) -> (response: ConfigResponse)
    ensures
        response.owner == store.config.owner,
        response.protocol_fee_bps == store.config.protocol_fee_bps,
        response.min_timelock_duration == store.config.min_timelock_duration,
        response.max_timelock_duration == store.config.max_timelock_duration,
{
    ConfigResponse {
        owner: store.config.owner.clone(),
        protocol_fee_bps: store.config.protocol_fee_bps,
        min_timelock_duration: store.config.min_timelock_duration,
        max_timelock_duration: store.config.max_timelock_duration,
    }
}

/// The swap with the given id.
pub fn query_swap(store: &Store, swap_id: u64) -> (result: Result<&Swap, ContractError>)
    requires
        store.wf(),
    ensures
        match result {
            Ok(swap) => store.has_swap(swap_id) && *swap == store.swap(swap_id),
            Err(e) => !store.has_swap(swap_id) && e == ContractError::SwapNotFound,
        },
{
    match store.index_of(swap_id) {
        Some(i) => Ok(&store.swaps[i]),
        None => Err(ContractError::SwapNotFound),
    }
}

/// Whether `secret` hashes to `secret_hash`.
pub fn query_verify_secret(secret: &String, secret_hash: &String) -> (response: VerifySecretResponse)
    ensures
        response.is_valid == text_secret_matches(secret@, secret_hash@),
{
    VerifySecretResponse { is_valid: check_text_secret(secret, secret_hash) }
}

/// Nothing is migrated.
pub fn migrate(_msg: MigrateMsg) {
}

/// The swaps of `initiator` among the page of swaps that follows `start_after`.
pub fn query_swaps_by_initiator<'a>(store: &'a Store, initiator: &String, start_after: Option<u64>, limit: Option<u32>) -> (page: Vec<
    &'a Swap,
>)
    ensures
        ({
            let entries = page_entries(store.swaps@, start_after, 0, limit);
            let wanted = select(entries, |s: Swap| s.initiator@ == initiator@, entries.len() as int);
            &&& page@.len() == wanted.len()
            &&& forall|k: int| 0 <= k < page@.len() ==> *(#[trigger] page@[k]) == wanted[k]
        }),
{
    let range = page_range(store.swaps.len(), start_after, false, limit);
    let ghost entries = store.swaps@.subrange(range.0 as int, range.1 as int);
    let ghost keep = |s: Swap| s.initiator@ == initiator@;
    let mut page: Vec<&'a Swap> = Vec::new();
    let mut i: usize = range.0;
    while i < range.1
        invariant
            range.0 <= i <= range.1 <= store.swaps@.len(),
            entries == store.swaps@.subrange(range.0 as int, range.1 as int),
            keep == |s: Swap| s.initiator@ == initiator@,
            page@.len() == select(entries, keep, i - range.0).len(),
            forall|k: int|
                0 <= k < page@.len() ==> *(#[trigger] page@[k]) == select(entries, keep, i - range.0)[k],
        decreases range.1 - i,
    {
        let item = &store.swaps[i];
        assert(entries[i - range.0] == store.swaps@[i as int]);
        if item.initiator == *initiator {
            page.push(item);
        }
        i += 1;
    }
    page
}

/// The swaps for `recipient` among the page of swaps that follows `start_after`.
pub fn query_swaps_by_recipient<'a>(store: &'a Store, recipient: &String, start_after: Option<u64>, limit: Option<u32>) -> (page: Vec<
    &'a Swap,
>)
    ensures
        ({
            let entries = page_entries(store.swaps@, start_after, 0, limit);
            let wanted = select(entries, |s: Swap| s.recipient@ == recipient@, entries.len() as int);
            &&& page@.len() == wanted.len()
            &&& forall|k: int| 0 <= k < page@.len() ==> *(#[trigger] page@[k]) == wanted[k]
        }),
{
    let range = page_range(store.swaps.len(), start_after, false, limit);
    let ghost entries = store.swaps@.subrange(range.0 as int, range.1 as int);
    let ghost keep = |s: Swap| s.recipient@ == recipient@;
    let mut page: Vec<&'a Swap> = Vec::new();
    let mut i: usize = range.0;
    while i < range.1
        invariant
            range.0 <= i <= range.1 <= store.swaps@.len(),
            entries == store.swaps@.subrange(range.0 as int, range.1 as int),
            keep == |s: Swap| s.recipient@ == recipient@,
            page@.len() == select(entries, keep, i - range.0).len(),
            forall|k: int|
                0 <= k < page@.len() ==> *(#[trigger] page@[k]) == select(entries, keep, i - range.0)[k],
        decreases range.1 - i,
    {
        let item = &store.swaps[i];
        assert(entries[i - range.0] == store.swaps@[i as int]);
        if item.recipient == *recipient {
            page.push(item);
        }
        i += 1;
    }
    page
}

/// The swaps in `status` among the page of swaps that follows `start_after`.
pub fn query_swaps_by_status<'a>(store: &'a Store, status: SwapStatus, start_after: Option<u64>, limit: Option<u32>) -> (page: Vec<
    &'a Swap,
>)
    ensures
        ({
            let entries = page_entries(store.swaps@, start_after, 0, limit);
            let wanted = select(entries, |s: Swap| s.status == status, entries.len() as int);
            &&& page@.len() == wanted.len()
            &&& forall|k: int| 0 <= k < page@.len() ==> *(#[trigger] page@[k]) == wanted[k]
        }),
{
    let range = page_range(store.swaps.len(), start_after, false, limit);
    let ghost entries = store.swaps@.subrange(range.0 as int, range.1 as int);
    let ghost keep = |s: Swap| s.status == status;
    let mut page: Vec<&'a Swap> = Vec::new();
    let mut i: usize = range.0;
    while i < range.1
        invariant
            range.0 <= i <= range.1 <= store.swaps@.len(),
            entries == store.swaps@.subrange(range.0 as int, range.1 as int),
            keep == |s: Swap| s.status == status,
            page@.len() == select(entries, keep, i - range.0).len(),
            forall|k: int|
                0 <= k < page@.len() ==> *(#[trigger] page@[k]) == select(entries, keep, i - range.0)[k],
        decreases range.1 - i,
    {
        let item = &store.swaps[i];
        assert(entries[i - range.0] == store.swaps@[i as int]);
        if item.status == status {
            page.push(item);
        }
        i += 1;
    }
    page
}

/// Copies of the swaps of a page.
fn copies(page: &Vec<&Swap>) -> (swaps: Vec<Swap>)
    ensures
        swaps@.len() == page@.len(),
        forall|k: int| 0 <= k < swaps@.len() ==> #[trigger] swaps@[k] == *page@[k],
{
    let mut swaps: Vec<Swap> = Vec::new();
    let mut i: usize = 0;
    while i < page.len()
        invariant
            i <= page@.len(),
            swaps@.len() == i,
            forall|k: int| 0 <= k < i ==> #[trigger] swaps@[k] == *page@[k],
        decreases page.len() - i,
    {
        swaps.push(page[i].duplicate());
        i += 1;
    }
    swaps
}

/// Answers `msg`. A page of swaps holds, of the entries that follow
/// `start_after`, at most as many as the limit allows, those that the query
/// asks for, in the order of their creation.
pub fn query(store: &Store, msg: QueryMsg) -> (result: Result<QueryResponse, ContractError>)
    requires
        store.wf(),
    ensures
        match msg {
            QueryMsg::Config {  } => result == Ok::<QueryResponse, ContractError>(
                QueryResponse::Config(
                    ConfigResponse {
                        owner: store.config.owner,
                        protocol_fee_bps: store.config.protocol_fee_bps,
                        min_timelock_duration: store.config.min_timelock_duration,
                        max_timelock_duration: store.config.max_timelock_duration,
                    },
                ),
            ),
            QueryMsg::Swap { swap_id } => if store.has_swap(swap_id) {
                result == Ok::<QueryResponse, ContractError>(
                    QueryResponse::Swap(SwapResponse { swap: store.swap(swap_id) }),
                )
            } else {
                result == Err::<QueryResponse, ContractError>(ContractError::SwapNotFound)
            },
            QueryMsg::SwapsByInitiator { initiator, start_after, limit } => {
                let entries = page_entries(store.swaps@, start_after, 0, limit);
                &&& result matches Ok(QueryResponse::Swaps(page))
                &&& page.swaps@ == select(
                    entries,
                    |s: Swap| s.initiator@ == initiator@,
                    entries.len() as int,
                )
            },
            QueryMsg::SwapsByRecipient { recipient, start_after, limit } => {
                let entries = page_entries(store.swaps@, start_after, 0, limit);
                &&& result matches Ok(QueryResponse::Swaps(page))
                &&& page.swaps@ == select(
                    entries,
                    |s: Swap| s.recipient@ == recipient@,
                    entries.len() as int,
                )
            },
            QueryMsg::SwapsByStatus { status, start_after, limit } => {
                let entries = page_entries(store.swaps@, start_after, 0, limit);
                &&& result matches Ok(QueryResponse::Swaps(page))
                &&& page.swaps@ == select(entries, |s: Swap| s.status == status, entries.len() as int)
            },
            QueryMsg::VerifySecret { secret, secret_hash } => result == Ok::<
                QueryResponse,
                ContractError,
            >(
                QueryResponse::VerifySecret(
                    VerifySecretResponse { is_valid: text_secret_matches(secret@, secret_hash@) },
                ),
            ),
        },
{
    match msg {
        QueryMsg::Config {  } => Ok(QueryResponse::Config(query_config(store))),
        QueryMsg::Swap { swap_id } => match query_swap(store, swap_id) {
            Ok(swap) => Ok(QueryResponse::Swap(SwapResponse { swap: swap.duplicate() })),
            Err(e) => Err(e),
        },
        QueryMsg::SwapsByInitiator { initiator, start_after, limit } => {
            let page = query_swaps_by_initiator(store, &initiator, start_after, limit);
            let swaps = copies(&page);
            proof {
                let entries = page_entries(store.swaps@, start_after, 0, limit);
                assert(swaps@ =~= select(
                    entries,
                    |s: Swap| s.initiator@ == initiator@,
                    entries.len() as int,
                ));
            }
            Ok(QueryResponse::Swaps(SwapsResponse { swaps }))
        },
        QueryMsg::SwapsByRecipient { recipient, start_after, limit } => {
            let page = query_swaps_by_recipient(store, &recipient, start_after, limit);
            let swaps = copies(&page);
            proof {
                let entries = page_entries(store.swaps@, start_after, 0, limit);
                assert(swaps@ =~= select(
                    entries,
                    |s: Swap| s.recipient@ == recipient@,
                    entries.len() as int,
                ));
            }
            Ok(QueryResponse::Swaps(SwapsResponse { swaps }))
        },
        QueryMsg::SwapsByStatus { status, start_after, limit } => {
            let page = query_swaps_by_status(store, status, start_after, limit);
            let swaps = copies(&page);
            proof {
                let entries = page_entries(store.swaps@, start_after, 0, limit);
                assert(swaps@ =~= select(entries, |s: Swap| s.status == status, entries.len() as int));
            }
            Ok(QueryResponse::Swaps(SwapsResponse { swaps }))
        },
        QueryMsg::VerifySecret { secret, secret_hash } => Ok(
            QueryResponse::VerifySecret(query_verify_secret(&secret, &secret_hash)),
        ),
    }
}

} // verus!
