//! Cross-chain orders that authorized relayers fill in parts. What is filled
//! and what remains of an order always add up to its total.

use vstd::prelude::*;
use crate::fees::{fee_amount, fee_of};
use crate::hashing::{check_raw_secret, raw_secret_matches};
use crate::relayer_contract::{
    is_listed, listed, RelayerError, DEFAULT_MIN_SAFETY_DEPOSIT, DEFAULT_RELAYER_FEE_RATE,
    MIN_TIMELOCK_AHEAD,
};
use crate::stellar_htlc::TokenTransfer;

verus! {

/// The largest number of orders for which the ids of fills stay in range.
pub const MAX_ORDERS: u64 = 0xFFFF_FFFE_0000_0000;

/// The lifecycle of an order. `Completed` and `Cancelled` are final; an order
/// that is partially filled with nothing remaining awaits its completion.
#[derive(Clone, Copy, Debug, PartialEq, Eq, Structural)]
pub enum OrderStatus {
    Active,
    PartiallyFilled,
    Completed,
    Cancelled,
    Expired,
}

/// One cross-chain order that can be filled in parts.
#[derive(Clone, Debug, PartialEq, Eq)]
pub struct RelayerOrder {
    pub id: u64,
    pub initiator: String,
    /// The address on the destination chain.
    pub receiver: String,
    pub token: String,
    pub total_amount: i128,
    pub filled_amount: i128,
    pub remaining_amount: i128,
    pub min_fill_amount: i128,
    pub hashlock: [u8; 32],
    pub timelock: u64,
    pub dest_chain: u32,
    pub dest_token: String,
    pub relayer_fee: i128,
    pub safety_deposit: i128,
    pub status: OrderStatus,
    pub created_at: u64,
    /// The ids of the HTLCs that were opened for the fills, in order.
    pub htlc_ids: Vec<u64>,
}

/// The contract: its parameters, its orders, numbered from one, and the
/// relayers that the administrator authorized.
#[derive(Debug, PartialEq, Eq)]
pub struct FusionRelayer {
    pub admin: String,
    pub htlc_contract: String,
    pub min_safety_deposit: i128,
    pub relayer_fee_rate: u32,
    pub orders: Vec<RelayerOrder>,
    pub relayers: Vec<String>,
}

/// Whether an order in this status takes fills.
pub open spec fn is_fillable(status: OrderStatus) -> bool {
    status == OrderStatus::Active || status == OrderStatus::PartiallyFilled
}

/// Whether no operation changes an order in this status any more.
pub open spec fn is_final(status: OrderStatus) -> bool {
    status == OrderStatus::Completed || status == OrderStatus::Cancelled
}

/// Whether the books of `order` balance: what is filled and what remains are
/// not negative and add up to the total.
pub open spec fn order_balanced(order: RelayerOrder) -> bool {
    &&& order.filled_amount >= 0
    &&& order.remaining_amount >= 0
    &&& order.filled_amount + order.remaining_amount == order.total_amount
    &&& order.min_fill_amount > 0
}

/// The first reason for which the terms of a new order are rejected, if any.
pub open spec fn create_error(
    min_safety_deposit: i128,
    now: u64,
    amount: i128,
    min_fill_amount: i128,
    timelock: u64,
    safety_deposit: i128,
) -> Option<RelayerError> {
    if amount <= 0 {
        Some(RelayerError::AmountNotPositive)
    } else if min_fill_amount <= 0 || min_fill_amount > amount {
        Some(RelayerError::InvalidMinFill)
    } else if timelock <= now + MIN_TIMELOCK_AHEAD {
        Some(RelayerError::TimelockTooSoon)
    } else if safety_deposit < min_safety_deposit {
        Some(RelayerError::SafetyDepositTooLow)
    } else {
        None
    }
}

/// The first reason for which a fill of `fill_amount` of `order` is rejected, if any.
pub open spec fn fill_error(order: RelayerOrder, now: u64, fill_amount: i128) -> Option<RelayerError> {
    if !is_fillable(order.status) {
        Some(RelayerError::NotFillable)
    } else if now >= order.timelock {
        Some(RelayerError::Expired)
    } else if fill_amount < order.min_fill_amount {
        Some(RelayerError::FillTooSmall)
    } else if fill_amount > order.remaining_amount {
        Some(RelayerError::FillExceedsRemaining)
    } else {
        None
    }
}

/// The first reason for which completing `order` is rejected, if any.
/// `secret_ok` says whether the revealed secret hashes to the hashlock.
pub open spec fn complete_error(order: RelayerOrder, secret_ok: bool) -> Option<RelayerError> {
    if order.status == OrderStatus::Completed {
        Some(RelayerError::AlreadyCompleted)
    } else if order.status == OrderStatus::Cancelled {
        Some(RelayerError::AlreadyCancelled)
    } else if !secret_ok {
        Some(RelayerError::InvalidSecret)
    } else {
        None
    }
}

/// The first reason for which cancelling `order` is rejected, if any.
pub open spec fn cancel_error(order: RelayerOrder, now: u64, caller: Seq<char>) -> Option<
    RelayerError,
> {
    if now < order.timelock {
        Some(RelayerError::NotExpired)
    } else if order.status == OrderStatus::Cancelled {
        Some(RelayerError::AlreadyCancelled)
    } else if order.status == OrderStatus::Completed {
        Some(RelayerError::AlreadyCompleted)
    } else if caller != order.initiator@ {
        Some(RelayerError::Unauthorized)
    } else {
        None
    }
}

/// What goes back to the initiator when `order` is completed or cancelled:
/// the safety deposit, if any.
pub open spec fn deposit_return(order: RelayerOrder) -> Option<TokenTransfer> {
    if order.safety_deposit > 0 {
        Some(TokenTransfer { token: order.token, to: order.initiator, amount: order.safety_deposit })
    } else {
        None
    }
}

/// A fill that is accepted keeps the books of the order balanced.
pub proof fn lemma_fill_keeps_balance(order: RelayerOrder, now: u64, fill_amount: i128)
    requires
        order_balanced(order),
        fill_error(order, now, fill_amount) is None,
    ensures
        fill_amount > 0,
        order.filled_amount + fill_amount <= order.total_amount,
        order_balanced(
            RelayerOrder {
                filled_amount: (order.filled_amount + fill_amount) as i128,
                remaining_amount: (order.remaining_amount - fill_amount) as i128,
                ..order
            },
        ),
{
}

/// An order that is completed or cancelled takes no fill and is neither
/// completed nor cancelled again: its status and amounts stay as they are.
pub proof fn lemma_final_order_stays(
    order: RelayerOrder,
    now: u64,
    caller: Seq<char>,
    fill_amount: i128,
    secret_ok: bool,
)
    requires
        is_final(order.status),
    ensures
        fill_error(order, now, fill_amount) is Some,
        complete_error(order, secret_ok) is Some,
        cancel_error(order, now, caller) is Some,
{
}

/// An order is completed only with a secret that hashes to its hashlock.
pub proof fn lemma_complete_needs_secret(order: RelayerOrder)
    ensures
        complete_error(order, false) is Some,
        complete_error(order, true) is None <==> !is_final(order.status),
{
}

impl FusionRelayer {
    /// Orders are numbered from one and their books balance; the fee rate is
    /// at most 100%.
    pub open spec fn wf(&self) -> bool {
        &&& self.orders@.len() <= MAX_ORDERS
        &&& self.relayer_fee_rate <= 10000
        &&& forall|i: int|
            0 <= i < self.orders@.len() ==> (#[trigger] self.orders@[i]).id == i + 1
                && order_balanced(self.orders@[i])
    }

    /// Whether an order with this id exists.
    pub open spec fn has_order(&self, order_id: u64) -> bool {
        1 <= order_id <= self.orders@.len()
    }

    /// The order with this id.
    pub open spec fn order(&self, order_id: u64) -> RelayerOrder {
        self.orders@[order_id - 1]
    }

    /// Whether everything but the orders is as in `other`.
    pub open spec fn same_setup(&self, other: &FusionRelayer) -> bool {
        &&& self.admin == other.admin
        &&& self.htlc_contract == other.htlc_contract
        &&& self.min_safety_deposit == other.min_safety_deposit
        &&& self.relayer_fee_rate == other.relayer_fee_rate
        &&& self.relayers == other.relayers
    }

    fn index_of(&self, order_id: u64) -> (index: Option<usize>)
        ensures
            index.is_some() == self.has_order(order_id),
            index matches Some(i) ==> i == order_id - 1,
    {
        let count = self.orders.len();
        if order_id >= 1 && order_id - 1 < count as u64 {
            Some((order_id - 1) as usize)
        } else {
            None
        }
    }

    /// The books of every order balance: what is filled and what remains add
    /// up to the total.
    pub proof fn lemma_books_balance(&self, order_id: u64)
        requires
            self.wf(),
            self.has_order(order_id),
        ensures
            self.order(order_id).filled_amount + self.order(order_id).remaining_amount
                == self.order(order_id).total_amount,
            0 <= self.order(order_id).remaining_amount <= self.order(order_id).total_amount,
    {
    }

    /// Sets the contract up with its administrator and the default parameters.
    pub fn initialize_relayer(admin: String, htlc_contract: String) -> (contract: FusionRelayer)
        ensures
            contract.wf(),
            contract.admin == admin,
            contract.htlc_contract == htlc_contract,
            contract.min_safety_deposit == DEFAULT_MIN_SAFETY_DEPOSIT,
            contract.relayer_fee_rate == DEFAULT_RELAYER_FEE_RATE,
            contract.orders@.len() == 0,
            contract.relayers@.len() == 0,
    {
        FusionRelayer {
            admin,
            htlc_contract,
            min_safety_deposit: DEFAULT_MIN_SAFETY_DEPOSIT,
            relayer_fee_rate: DEFAULT_RELAYER_FEE_RATE,
            orders: Vec::new(),
            relayers: Vec::new(),
        }
    }

    /// Creates an order of `initiator` over `amount` of `token`, to be filled
    /// in parts of at least `min_fill_amount` and delivered on `dest_chain`,
    /// and returns its id. Nothing of a new order is filled.
    pub fn create_order(
        &mut self,
        now: u64,
        initiator: String,
        receiver: String,
        token: String,
        amount: i128,
        min_fill_amount: i128,
        hashlock: [u8; 32],
        timelock: u64,
        dest_chain: u32,
        dest_token: String,
        safety_deposit: i128,
    ) -> (result: Result<u64, RelayerError>)
        requires
            old(self).wf(),
            old(self).orders@.len() < MAX_ORDERS,
        ensures
            final(self).wf(),
            final(self).same_setup(old(self)),
            match result {
                Ok(order_id) => {
                    let created = final(self).orders@.last();
                    &&& create_error(
                        old(self).min_safety_deposit,
                        now,
                        amount,
                        min_fill_amount,
                        timelock,
                        safety_deposit,
                    ) is None
                    &&& order_id == old(self).orders@.len() + 1
                    &&& final(self).orders@ == old(self).orders@.push(created)
                    &&& created.htlc_ids@.len() == 0
                    &&& created == (RelayerOrder {
                        id: order_id,
                        initiator,
                        receiver,
                        token,
                        total_amount: amount,
                        filled_amount: 0,
                        remaining_amount: amount,
                        min_fill_amount,
                        hashlock,
                        timelock,
                        dest_chain,
                        dest_token,
                        relayer_fee: fee_of(amount as nat, old(self).relayer_fee_rate as nat) as i128,
                        safety_deposit,
                        status: OrderStatus::Active,
                        created_at: now,
                        htlc_ids: created.htlc_ids,
                    })
                },
                Err(e) => {
                    &&& create_error(
                        old(self).min_safety_deposit,
                        now,
                        amount,
                        min_fill_amount,
                        timelock,
                        safety_deposit,
                    ) == Some(e)
                    &&& *final(self) == *old(self)
                },
            },
    {
        if amount <= 0 {
            return Err(RelayerError::AmountNotPositive);
        }
        if min_fill_amount <= 0 || min_fill_amount > amount {
            return Err(RelayerError::InvalidMinFill);
        }
        if timelock < MIN_TIMELOCK_AHEAD || timelock - MIN_TIMELOCK_AHEAD <= now {
            return Err(RelayerError::TimelockTooSoon);
        }
        if safety_deposit < self.min_safety_deposit {
            return Err(RelayerError::SafetyDepositTooLow);
        }
        let relayer_fee: i128 = fee_amount(amount as u128, self.relayer_fee_rate as u64) as i128;
        let order_id: u64 = self.orders.len() as u64 + 1;
        self.orders.push(
            RelayerOrder {
                id: order_id,
                initiator,
                receiver,
                token,
                total_amount: amount,
                filled_amount: 0,
                remaining_amount: amount,
                min_fill_amount,
                hashlock,
                timelock,
                dest_chain,
                dest_token,
                relayer_fee,
                safety_deposit,
                status: OrderStatus::Active,
                created_at: now,
                htlc_ids: Vec::new(),
            },
        );
        Ok(order_id)
    }

    /// Authorizes `relayer` to fill orders; only the administrator may do so.
    pub fn authorize_relayer(&mut self, caller: &String, relayer: String) -> (result: Result<
        (),
        RelayerError,
    >)
        ensures
            final(self).admin == old(self).admin,
            final(self).htlc_contract == old(self).htlc_contract,
            final(self).min_safety_deposit == old(self).min_safety_deposit,
            final(self).relayer_fee_rate == old(self).relayer_fee_rate,
            final(self).orders == old(self).orders,
            match result {
                Ok(()) => {
                    &&& caller@ == old(self).admin@
                    &&& listed(final(self).relayers@, relayer@)
                    &&& final(self).relayers@ == (if listed(old(self).relayers@, relayer@) {
                        old(self).relayers@
                    } else {
                        old(self).relayers@.push(relayer)
                    })
                },
                Err(e) => {
                    &&& e == RelayerError::Unauthorized
                    &&& caller@ != old(self).admin@
                    &&& *final(self) == *old(self)
                },
            },
    {
        if *caller != self.admin {
            return Err(RelayerError::Unauthorized);
        }
        if !is_listed(&self.relayers, &relayer) {
            self.relayers.push(relayer);
            assert(self.relayers@[old(self).relayers@.len() as int]@ == relayer@);
        }
        Ok(())
    }

    /// Fills `fill_amount` of order `order_id` for the authorized `relayer`
    /// and returns the id of the HTLC that stands for the fill: the number of
    /// the ledger plus the id of the order. What is filled grows and what
    /// remains shrinks by the amount, and the order is partially filled, even
    /// where nothing remains: it is completed only with the secret.
    pub fn fill_order(
        &mut self,
        now: u64,
        ledger_sequence: u32,
        order_id: u64,
        relayer: &String,
        fill_amount: i128,
    ) -> (result: Result<u64, RelayerError>)
        requires
            old(self).wf(),
        ensures
            final(self).wf(),
            final(self).same_setup(old(self)),
            match result {
                Ok(htlc_id) => {
                    let before = old(self).order(order_id);
                    let after = final(self).order(order_id);
                    &&& listed(old(self).relayers@, relayer@)
                    &&& old(self).has_order(order_id)
                    &&& fill_error(before, now, fill_amount) is None
                    &&& htlc_id == ledger_sequence + order_id
                    &&& final(self).orders@ == old(self).orders@.update(order_id - 1, after)
                    &&& after.htlc_ids@ == before.htlc_ids@.push(htlc_id)
                    &&& after == (RelayerOrder {
                        filled_amount: (before.filled_amount + fill_amount) as i128,
                        remaining_amount: (before.remaining_amount - fill_amount) as i128,
                        status: OrderStatus::PartiallyFilled,
                        htlc_ids: after.htlc_ids,
                        ..before
                    })
                },
                Err(e) => {
                    &&& *final(self) == *old(self)
                    &&& Some(e) == (if !listed(old(self).relayers@, relayer@) {
                        Some(RelayerError::RelayerNotAuthorized)
                    } else if !old(self).has_order(order_id) {
                        Some(RelayerError::NotFound)
                    } else {
                        fill_error(old(self).order(order_id), now, fill_amount)
                    })
                },
            },
    {
        if !is_listed(&self.relayers, relayer) {
            return Err(RelayerError::RelayerNotAuthorized);
        }
        let index = match self.index_of(order_id) {
            Some(i) => i,
            None => { return Err(RelayerError::NotFound); },
        };
        let order = &self.orders[index];
        if !(order.status == OrderStatus::Active || order.status == OrderStatus::PartiallyFilled) {
            return Err(RelayerError::NotFillable);
        }
        if now >= order.timelock {
            return Err(RelayerError::Expired);
        }
        if fill_amount < order.min_fill_amount {
            return Err(RelayerError::FillTooSmall);
        }
        if fill_amount > order.remaining_amount {
            return Err(RelayerError::FillExceedsRemaining);
        }
        let htlc_id: u64 = ledger_sequence as u64 + order_id;
        let filled = order.filled_amount + fill_amount;
        let remaining = order.remaining_amount - fill_amount;
        self.orders[index].filled_amount = filled;
        self.orders[index].remaining_amount = remaining;
        self.orders[index].htlc_ids.push(htlc_id);
        self.orders[index].status = OrderStatus::PartiallyFilled;
        Ok(htlc_id)
    }

    /// Completes order `order_id`, given whether the revealed secret hashes to
    /// the hashlock (`secret_ok`), and returns the safety deposit to the
    /// initiator. A rejected completion changes nothing.
    pub fn settle_order(&mut self, order_id: u64, secret_ok: bool) -> (result: Result<
        Option<TokenTransfer>,
        RelayerError,
    >)
        requires
            old(self).wf(),
        ensures
            final(self).wf(),
            final(self).same_setup(old(self)),
            match result {
                Ok(returned) => {
                    let order = old(self).order(order_id);
                    &&& old(self).has_order(order_id)
                    &&& complete_error(order, secret_ok) is None
                    &&& final(self).orders@ == old(self).orders@.update(
                        order_id - 1,
                        (RelayerOrder { status: OrderStatus::Completed, ..order }),
                    )
                    &&& returned == deposit_return(order)
                },
                Err(e) => {
                    &&& *final(self) == *old(self)
                    &&& Some(e) == (if old(self).has_order(order_id) {
                        complete_error(old(self).order(order_id), secret_ok)
                    } else {
                        Some(RelayerError::NotFound)
                    })
                },
            },
    {
        let index = match self.index_of(order_id) {
            Some(i) => i,
            None => { return Err(RelayerError::NotFound); },
        };
        let order = &self.orders[index];
        if order.status == OrderStatus::Completed {
            return Err(RelayerError::AlreadyCompleted);
        }
        if order.status == OrderStatus::Cancelled {
            return Err(RelayerError::AlreadyCancelled);
        }
        if !secret_ok {
            return Err(RelayerError::InvalidSecret);
        }
        let returned = if order.safety_deposit > 0 {
            Some(
                TokenTransfer {
                    token: order.token.clone(),
                    to: order.initiator.clone(),
                    amount: order.safety_deposit,
                },
            )
        } else {
            None
        };
        self.orders[index].status = OrderStatus::Completed;
        Ok(returned)
    }

    /// Completes order `order_id` by revealing `secret`: hashes the secret,
    /// compares the digest with the hashlock and settles accordingly.
    pub fn complete_order(&mut self, order_id: u64, secret: [u8; 32]) -> (result: Result<
        Option<TokenTransfer>,
        RelayerError,
    >)
        requires
            old(self).wf(),
        ensures
            final(self).wf(),
            final(self).same_setup(old(self)),
            match result {
                Ok(returned) => {
                    let order = old(self).order(order_id);
                    &&& old(self).has_order(order_id)
                    &&& raw_secret_matches(secret@, order.hashlock@)
                    &&& complete_error(order, true) is None
                    &&& final(self).orders@ == old(self).orders@.update(
                        order_id - 1,
                        (RelayerOrder { status: OrderStatus::Completed, ..order }),
                    )
                    &&& returned == deposit_return(order)
                },
                Err(e) => {
                    &&& *final(self) == *old(self)
                    &&& Some(e) == (if old(self).has_order(order_id) {
                        complete_error(
                            old(self).order(order_id),
                            raw_secret_matches(secret@, old(self).order(order_id).hashlock@),
                        )
                    } else {
                        Some(RelayerError::NotFound)
                    })
                },
            },
    {
        let secret_ok = match self.index_of(order_id) {
            Some(i) => check_raw_secret(&secret, &self.orders[i].hashlock),
            None => false,
        };
        self.settle_order(order_id, secret_ok)
    }

    /// Cancels order `order_id` for its initiator, who must be the caller,
    /// once the timelock has passed, and returns the safety deposit. An order
    /// that is completed or cancelled is not cancelled again.
    pub fn cancel_order(&mut self, now: u64, caller: &String, order_id: u64) -> (result: Result<
        Option<TokenTransfer>,
        RelayerError,
    >)
        requires
            old(self).wf(),
        ensures
            final(self).wf(),
            final(self).same_setup(old(self)),
            match result {
                Ok(returned) => {
                    let order = old(self).order(order_id);
                    &&& old(self).has_order(order_id)
                    &&& cancel_error(order, now, caller@) is None
                    &&& final(self).orders@ == old(self).orders@.update(
                        order_id - 1,
                        (RelayerOrder { status: OrderStatus::Cancelled, ..order }),
                    )
                    &&& returned == deposit_return(order)
                },
                Err(e) => {
                    &&& *final(self) == *old(self)
                    &&& Some(e) == (if old(self).has_order(order_id) {
                        cancel_error(old(self).order(order_id), now, caller@)
                    } else {
                        Some(RelayerError::NotFound)
                    })
                },
            },
    {
        let index = match self.index_of(order_id) {
            Some(i) => i,
            None => { return Err(RelayerError::NotFound); },
        };
        let order = &self.orders[index];
        if now < order.timelock {
            return Err(RelayerError::NotExpired);
        }
        if order.status == OrderStatus::Cancelled {
            return Err(RelayerError::AlreadyCancelled);
        }
        if order.status == OrderStatus::Completed {
            return Err(RelayerError::AlreadyCompleted);
        }
        if *caller != order.initiator {
            return Err(RelayerError::Unauthorized);
        }
        let returned = if order.safety_deposit > 0 {
            Some(
                TokenTransfer {
                    token: order.token.clone(),
                    to: order.initiator.clone(),
                    amount: order.safety_deposit,
                },
            )
        } else {
            None
        };
        self.orders[index].status = OrderStatus::Cancelled;
        Ok(returned)
    }

    /// The order with the given id, if there is one.
    pub fn get_order(&self, order_id: u64) -> (order: Option<&RelayerOrder>)
        ensures
            order.is_some() == self.has_order(order_id),
            order matches Some(o) ==> *o == self.order(order_id),
    {
        match self.index_of(order_id) {
            Some(i) => Some(&self.orders[i]),
            None => None,
        }
    }

    /// Whether the administrator authorized `relayer`.
    pub fn is_relayer_authorized(&self, relayer: &String) -> (yes: bool)
        ensures
            yes == listed(self.relayers@, relayer@),
    {
        is_listed(&self.relayers, relayer)
    }

    /// The number of orders that were created.
    pub fn get_order_count(&self) -> (count: u64)
        requires
            self.wf(),
        ensures
            count == self.orders@.len(),
    {
        self.orders.len() as u64
    }
}

} // verus!
