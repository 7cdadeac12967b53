//! Cross-chain orders that a relayer completes by revealing the secret. The
//! initiator posts a safety deposit that is returned when the order is
//! completed or cancelled.

use vstd::prelude::*;
use crate::fees::{fee_amount, fee_of};
use crate::hashing::{check_raw_secret, raw_secret_matches};
use crate::stellar_htlc::TokenTransfer;

verus! {

/// The smallest safety deposit that the contract accepts by default.
pub const DEFAULT_MIN_SAFETY_DEPOSIT: i128 = 1000000;

/// The relayer fee that the contract charges by default, in basis points.
pub const DEFAULT_RELAYER_FEE_RATE: u32 = 50;

/// How far in the future the timelock of an order must lie, in seconds.
pub const MIN_TIMELOCK_AHEAD: u64 = 3600;

/// Why an operation was rejected.
#[derive(Clone, Copy, Debug, PartialEq, Eq, Structural)]
pub enum RelayerError {
    Unauthorized,
    AmountNotPositive,
    InvalidMinFill,
    TimelockTooSoon,
    SafetyDepositTooLow,
    NotFound,
    RelayerNotAuthorized,
    NotFillable,
    Expired,
    NotExpired,
    FillTooSmall,
    FillExceedsRemaining,
    InvalidSecret,
    AlreadyCompleted,
    AlreadyCancelled,
}

impl RelayerError {
    /// The text of the message that describes the error.
    pub open spec fn text(self) -> Seq<char> {
        match self {
            RelayerError::Unauthorized => "Unauthorized"@,
            RelayerError::AmountNotPositive => "Amount must be positive"@,
            RelayerError::InvalidMinFill => "Invalid min fill amount"@,
            RelayerError::TimelockTooSoon => "Timelock must be at least 1 hour"@,
            RelayerError::SafetyDepositTooLow => "Safety deposit too low"@,
            RelayerError::NotFound => "Order not found"@,
            RelayerError::RelayerNotAuthorized => "Relayer not authorized"@,
            RelayerError::NotFillable => "Order not fillable"@,
            RelayerError::Expired => "Order expired"@,
            RelayerError::NotExpired => "Order not expired"@,
            RelayerError::FillTooSmall => "Fill amount too small"@,
            RelayerError::FillExceedsRemaining => "Fill amount exceeds remaining"@,
            RelayerError::InvalidSecret => "Invalid secret"@,
            RelayerError::AlreadyCompleted => "Already completed"@,
            RelayerError::AlreadyCancelled => "Already cancelled"@,
        }
    }

    /// The message that describes the error.
    pub fn message(&self) -> (message: &'static str)
        ensures
            message@ == self.text(),
    {
        match self {
            RelayerError::Unauthorized => "Unauthorized",
            RelayerError::AmountNotPositive => "Amount must be positive",
            RelayerError::InvalidMinFill => "Invalid min fill amount",
            RelayerError::TimelockTooSoon => "Timelock must be at least 1 hour",
            RelayerError::SafetyDepositTooLow => "Safety deposit too low",
            RelayerError::NotFound => "Order not found",
            RelayerError::RelayerNotAuthorized => "Relayer not authorized",
            RelayerError::NotFillable => "Order not fillable",
            RelayerError::Expired => "Order expired",
            RelayerError::NotExpired => "Order not expired",
            RelayerError::FillTooSmall => "Fill amount too small",
            RelayerError::FillExceedsRemaining => "Fill amount exceeds remaining",
            RelayerError::InvalidSecret => "Invalid secret",
            RelayerError::AlreadyCompleted => "Already completed",
            RelayerError::AlreadyCancelled => "Already cancelled",
        }
    }
}

/// The lifecycle of an order. `Completed` and `Cancelled` are final.
#[derive(Clone, Copy, Debug, PartialEq, Eq, Structural)]
pub enum OrderStatus {
    Active,
    Completed,
    Cancelled,
    Expired,
}

/// One cross-chain order.
#[derive(Clone, Debug, PartialEq, Eq)]
pub struct RelayerOrder {
    pub id: u64,
    pub initiator: String,
    /// The address on the destination chain.
    pub receiver: String,
    pub token: String,
    pub amount: i128,
    pub hashlock: [u8; 32],
    pub timelock: u64,
    pub dest_chain: u32,
    pub dest_token: String,
    pub relayer_fee: i128,
    pub safety_deposit: i128,
    pub status: OrderStatus,
    pub created_at: u64,
}

/// The contract: its parameters, its orders, numbered from one, and the
/// relayers that the administrator authorized.
#[derive(Debug, PartialEq, Eq)]
pub struct FusionRelayer {
    pub admin: String,
    pub htlc_contract: String,
    pub min_safety_deposit: i128,
    pub relayer_fee_rate: u32,
    pub orders: Vec<RelayerOrder>,
    pub relayers: Vec<String>,
}

/// Whether `address` is among `list`.
pub open spec fn listed(list: Seq<String>, address: Seq<char>) -> bool {
    exists|i: int| 0 <= i < list.len() && (#[trigger] list[i])@ == address
}

/// Whether no operation changes an order in this status any more.
pub open spec fn is_final(status: OrderStatus) -> bool {
    status == OrderStatus::Completed || status == OrderStatus::Cancelled
}

/// The first reason for which the terms of a new order are rejected, if any.
pub open spec fn create_error(
    min_safety_deposit: i128,
    now: u64,
    amount: i128,
    timelock: u64,
    safety_deposit: i128,
) -> Option<RelayerError> {
    if amount <= 0 {
        Some(RelayerError::AmountNotPositive)
    } else if timelock <= now + MIN_TIMELOCK_AHEAD {
        Some(RelayerError::TimelockTooSoon)
    } else if safety_deposit < min_safety_deposit {
        Some(RelayerError::SafetyDepositTooLow)
    } else {
        None
    }
}

/// The first reason for which completing `order` is rejected, if any.
/// `secret_ok` says whether the revealed secret hashes to the hashlock.
pub open spec fn complete_error(order: RelayerOrder, secret_ok: bool) -> Option<RelayerError> {
    if order.status == OrderStatus::Completed {
        Some(RelayerError::AlreadyCompleted)
    } else if order.status == OrderStatus::Cancelled {
        Some(RelayerError::AlreadyCancelled)
    } else if !secret_ok {
        Some(RelayerError::InvalidSecret)
    } else {
        None
    }
}

/// The first reason for which cancelling `order` is rejected, if any.
pub open spec fn cancel_error(order: RelayerOrder, now: u64, caller: Seq<char>) -> Option<
    RelayerError,
> {
    if now < order.timelock {
        Some(RelayerError::NotExpired)
    } else if order.status == OrderStatus::Cancelled {
        Some(RelayerError::AlreadyCancelled)
    } else if order.status == OrderStatus::Completed {
        Some(RelayerError::AlreadyCompleted)
    } else if caller != order.initiator@ {
        Some(RelayerError::Unauthorized)
    } else {
        None
    }
}

/// What goes back to the initiator when `order` is completed or cancelled:
/// the safety deposit, if any.
pub open spec fn deposit_return(order: RelayerOrder) -> Option<TokenTransfer> {
    if order.safety_deposit > 0 {
        Some(TokenTransfer { token: order.token, to: order.initiator, amount: order.safety_deposit })
    } else {
        None
    }
}

/// An order that is completed or cancelled is neither completed nor cancelled
/// again: the safety deposit is returned once.
pub proof fn lemma_final_order_stays(order: RelayerOrder, now: u64, caller: Seq<char>, secret_ok: bool)
    requires
        is_final(order.status),
    ensures
        complete_error(order, secret_ok) is Some,
        cancel_error(order, now, caller) is Some,
{
}

/// An order is completed only with a secret that hashes to its hashlock.
pub proof fn lemma_complete_needs_secret(order: RelayerOrder)
    ensures
        complete_error(order, false) is Some,
        complete_error(order, true) is None <==> !is_final(order.status),
{
}

/// Whether `address` is among `list`.
pub fn is_listed(list: &Vec<String>, address: &String) -> (yes: bool)
    ensures
        yes == listed(list@, address@),
{
    let mut i: usize = 0;
    while i < list.len()
        invariant
            i <= list@.len(),
            forall|j: int| 0 <= j < i ==> (#[trigger] list@[j])@ != address@,
        decreases list@.len() - i,
    {
        if list[i] == *address {
            return true;
        }
        i += 1;
    }
    false
}

impl FusionRelayer {
    /// Orders are numbered from one, and the fee rate is at most 100%.
    pub open spec fn wf(&self) -> bool {
        &&& self.orders@.len() < u64::MAX
        &&& self.relayer_fee_rate <= 10000
        &&& forall|i: int| 0 <= i < self.orders@.len() ==> (#[trigger] self.orders@[i]).id == i + 1
    }

    /// Whether an order with this id exists.
    pub open spec fn has_order(&self, order_id: u64) -> bool {
        1 <= order_id <= self.orders@.len()
    }

    /// The order with this id.
    pub open spec fn order(&self, order_id: u64) -> RelayerOrder {
        self.orders@[order_id - 1]
    }

    /// Whether everything but the orders is as in `other`.
    pub open spec fn same_setup(&self, other: &FusionRelayer) -> bool {
        &&& self.admin == other.admin
        &&& self.htlc_contract == other.htlc_contract
        &&& self.min_safety_deposit == other.min_safety_deposit
        &&& self.relayer_fee_rate == other.relayer_fee_rate
        &&& self.relayers == other.relayers
    }

    fn index_of(&self, order_id: u64) -> (index: Option<usize>)
        ensures
            index.is_some() == self.has_order(order_id),
            index matches Some(i) ==> i == order_id - 1,
    {
        let count = self.orders.len();
        if order_id >= 1 && order_id - 1 < count as u64 {
            Some((order_id - 1) as usize)
        } else {
            None
        }
    }

    /// Sets the contract up with its administrator and the default parameters.
    pub fn initialize(admin: String, htlc_contract: String) -> (contract: FusionRelayer)
        ensures
            contract.wf(),
            contract.admin == admin,
            contract.htlc_contract == htlc_contract,
            contract.min_safety_deposit == DEFAULT_MIN_SAFETY_DEPOSIT,
            contract.relayer_fee_rate == DEFAULT_RELAYER_FEE_RATE,
            contract.orders@.len() == 0,
            contract.relayers@.len() == 0,
    {
        FusionRelayer {
            admin,
            htlc_contract,
            min_safety_deposit: DEFAULT_MIN_SAFETY_DEPOSIT,
            relayer_fee_rate: DEFAULT_RELAYER_FEE_RATE,
            orders: Vec::new(),
            relayers: Vec::new(),
        }
    }

    /// Creates an order of `initiator` over `amount` of `token`, to be
    /// delivered on `dest_chain`, and returns its id. The timelock must lie
    /// more than an hour ahead and the safety deposit must reach the minimum.
    /// The order records the relayer fee on the amount.
    pub fn create_order(
        &mut self,
        now: u64,
        initiator: String,
        receiver: String,
        token: String,
        amount: i128,
        hashlock: [u8; 32],
        timelock: u64,
        dest_chain: u32,
        dest_token: String,
        safety_deposit: i128,
    ) -> (result: Result<u64, RelayerError>)
        requires
            old(self).wf(),
            old(self).orders@.len() + 1 < u64::MAX,
        ensures
            final(self).wf(),
            final(self).same_setup(old(self)),
            match result {
                Ok(order_id) => {
                    &&& create_error(
                        old(self).min_safety_deposit,
                        now,
                        amount,
                        timelock,
                        safety_deposit,
                    ) is None
                    &&& order_id == old(self).orders@.len() + 1
                    &&& final(self).orders@ == old(self).orders@.push(
                        (RelayerOrder {
                            id: order_id,
                            initiator,
                            receiver,
                            token,
                            amount,
                            hashlock,
                            timelock,
                            dest_chain,
                            dest_token,
                            relayer_fee: fee_of(amount as nat, old(self).relayer_fee_rate as nat) as i128,
                            safety_deposit,
                            status: OrderStatus::Active,
                            created_at: now,
                        }),
                    )
                },
                Err(e) => {
                    &&& create_error(
                        old(self).min_safety_deposit,
                        now,
                        amount,
                        timelock,
                        safety_deposit,
                    ) == Some(e)
                    &&& *final(self) == *old(self)
                },
            },
    {
        if amount <= 0 {
            return Err(RelayerError::AmountNotPositive);
        }
        if timelock < MIN_TIMELOCK_AHEAD || timelock - MIN_TIMELOCK_AHEAD <= now {
            return Err(RelayerError::TimelockTooSoon);
        }
        if safety_deposit < self.min_safety_deposit {
            return Err(RelayerError::SafetyDepositTooLow);
        }
        let relayer_fee: i128 = fee_amount(amount as u128, self.relayer_fee_rate as u64) as i128;
        let order_id: u64 = self.orders.len() as u64 + 1;
        self.orders.push(
            RelayerOrder {
                id: order_id,
                initiator,
                receiver,
                token,
                amount,
                hashlock,
                timelock,
                dest_chain,
                dest_token,
                relayer_fee,
                safety_deposit,
                status: OrderStatus::Active,
                created_at: now,
            },
        );
        Ok(order_id)
    }

    /// Authorizes `relayer`; only the administrator may do so.
    pub fn authorize_relayer(&mut self, caller: &String, relayer: String) -> (result: Result<
        (),
        RelayerError,
    >)
        ensures
            final(self).admin == old(self).admin,
            final(self).htlc_contract == old(self).htlc_contract,
            final(self).min_safety_deposit == old(self).min_safety_deposit,
            final(self).relayer_fee_rate == old(self).relayer_fee_rate,
            final(self).orders == old(self).orders,
            match result {
                Ok(()) => {
                    &&& caller@ == old(self).admin@
                    &&& listed(final(self).relayers@, relayer@)
                    &&& final(self).relayers@ == (if listed(old(self).relayers@, relayer@) {
                        old(self).relayers@
                    } else {
                        old(self).relayers@.push(relayer)
                    })
                },
                Err(e) => {
                    &&& e == RelayerError::Unauthorized
                    &&& caller@ != old(self).admin@
                    &&& *final(self) == *old(self)
                },
            },
    {
        if *caller != self.admin {
            return Err(RelayerError::Unauthorized);
        }
        if !is_listed(&self.relayers, &relayer) {
            self.relayers.push(relayer);
            assert(self.relayers@[old(self).relayers@.len() as int]@ == relayer@);
        }
        Ok(())
    }

    /// Completes order `order_id`, given whether the revealed secret hashes to
    /// the hashlock (`secret_ok`), and returns the safety deposit to the
    /// initiator. A rejected completion changes nothing.
    pub fn settle_order(&mut self, order_id: u64, secret_ok: bool) -> (result: Result<
        Option<TokenTransfer>,
        RelayerError,
    >)
        requires
            old(self).wf(),
        ensures
            final(self).wf(),
            final(self).same_setup(old(self)),
            match result {
                Ok(returned) => {
                    let order = old(self).order(order_id);
                    &&& old(self).has_order(order_id)
                    &&& complete_error(order, secret_ok) is None
                    &&& final(self).orders@ == old(self).orders@.update(
                        order_id - 1,
                        (RelayerOrder { status: OrderStatus::Completed, ..order }),
                    )
                    &&& returned == deposit_return(order)
                },
                Err(e) => {
                    &&& *final(self) == *old(self)
                    &&& Some(e) == (if old(self).has_order(order_id) {
                        complete_error(old(self).order(order_id), secret_ok)
                    } else {
                        Some(RelayerError::NotFound)
                    })
                },
            },
    {
        let index = match self.index_of(order_id) {
            Some(i) => i,
            None => { return Err(RelayerError::NotFound); },
        };
        let order = &self.orders[index];
        if order.status == OrderStatus::Completed {
            return Err(RelayerError::AlreadyCompleted);
        }
        if order.status == OrderStatus::Cancelled {
            return Err(RelayerError::AlreadyCancelled);
        }
        if !secret_ok {
            return Err(RelayerError::InvalidSecret);
        }
        let returned = if order.safety_deposit > 0 {
            Some(
                TokenTransfer {
                    token: order.token.clone(),
                    to: order.initiator.clone(),
                    amount: order.safety_deposit,
                },
            )
        } else {
            None
        };
        self.orders[index].status = OrderStatus::Completed;
        Ok(returned)
    }

    /// Completes order `order_id` by revealing `secret`: hashes the secret,
    /// compares the digest with the hashlock and settles accordingly.
    pub fn complete_order(&mut self, order_id: u64, secret: [u8; 32]) -> (result: Result<
        Option<TokenTransfer>,
        RelayerError,
    >)
        requires
            old(self).wf(),
        ensures
            final(self).wf(),
            final(self).same_setup(old(self)),
            match result {
                Ok(returned) => {
                    let order = old(self).order(order_id);
                    &&& old(self).has_order(order_id)
                    &&& raw_secret_matches(secret@, order.hashlock@)
                    &&& complete_error(order, true) is None
                    &&& final(self).orders@ == old(self).orders@.update(
                        order_id - 1,
                        (RelayerOrder { status: OrderStatus::Completed, ..order }),
                    )
                    &&& returned == deposit_return(order)
                },
                Err(e) => {
                    &&& *final(self) == *old(self)
                    &&& Some(e) == (if old(self).has_order(order_id) {
                        complete_error(
                            old(self).order(order_id),
                            raw_secret_matches(secret@, old(self).order(order_id).hashlock@),
                        )
                    } else {
                        Some(RelayerError::NotFound)
                    })
                },
            },
    {
        let secret_ok = match self.index_of(order_id) {
            Some(i) => check_raw_secret(&secret, &self.orders[i].hashlock),
            None => false,
        };
        self.settle_order(order_id, secret_ok)
    }

    /// Cancels order `order_id` for its initiator, who must be the caller,
    /// once the timelock has passed, and returns the safety deposit. An order
    /// that is completed or cancelled is not cancelled again.
    pub fn cancel_order(&mut self, now: u64, caller: &String, order_id: u64) -> (result: Result<
        Option<TokenTransfer>,
        RelayerError,
    >)
        requires
            old(self).wf(),
        ensures
            final(self).wf(),
            final(self).same_setup(old(self)),
            match result {
                Ok(returned) => {
                    let order = old(self).order(order_id);
                    &&& old(self).has_order(order_id)
                    &&& cancel_error(order, now, caller@) is None
                    &&& final(self).orders@ == old(self).orders@.update(
                        order_id - 1,
                        (RelayerOrder { status: OrderStatus::Cancelled, ..order }),
                    )
                    &&& returned == deposit_return(order)
                },
                Err(e) => {
                    &&& *final(self) == *old(self)
                    &&& Some(e) == (if old(self).has_order(order_id) {
                        cancel_error(old(self).order(order_id), now, caller@)
                    } else {
                        Some(RelayerError::NotFound)
                    })
                },
            },
    {
        let index = match self.index_of(order_id) {
            Some(i) => i,
            None => { return Err(RelayerError::NotFound); },
        };
        let order = &self.orders[index];
        if now < order.timelock {
            return Err(RelayerError::NotExpired);
        }
        if order.status == OrderStatus::Cancelled {
            return Err(RelayerError::AlreadyCancelled);
        }
        if order.status == OrderStatus::Completed {
            return Err(RelayerError::AlreadyCompleted);
        }
        if *caller != order.initiator {
            return Err(RelayerError::Unauthorized);
        }
        let returned = if order.safety_deposit > 0 {
            Some(
                TokenTransfer {
                    token: order.token.clone(),
                    to: order.initiator.clone(),
                    amount: order.safety_deposit,
                },
            )
        } else {
            None
        };
        self.orders[index].status = OrderStatus::Cancelled;
        Ok(returned)
    }

    /// The order with the given id, if there is one.
    pub fn get_order(&self, order_id: u64) -> (order: Option<&RelayerOrder>)
        ensures
            order.is_some() == self.has_order(order_id),
            order matches Some(o) ==> *o == self.order(order_id),
    {
        match self.index_of(order_id) {
            Some(i) => Some(&self.orders[i]),
            None => None,
        }
    }

    /// Whether the administrator authorized `relayer`.
    pub fn is_relayer_authorized(&self, relayer: &String) -> (yes: bool)
        ensures
            yes == listed(self.relayers@, relayer@),
    {
        is_listed(&self.relayers, relayer)
    }

    /// The number of orders that were created.
    pub fn get_order_count(&self) -> (count: u64)
        requires
            self.wf(),
        ensures
            count == self.orders@.len(),
    {
        self.orders.len() as u64
    }
}

} // verus!
