//! Token HTLCs that resolvers fill in parts. A resolver reveals the secret
//! with each fill and must hold enough collateral with the contract.

use vstd::prelude::*;
use crate::hashing::{check_raw_secret, raw_secret_matches};
use crate::stellar_htlc::TokenTransfer;

verus! {

/// Why an operation was rejected.
#[derive(Clone, Copy, Debug, PartialEq, Eq, Structural)]
pub enum FillError {
    Unauthorized,
    AmountNotPositive,
    InvalidMinFill,
    TimelockNotInFuture,
    NotFound,
    AlreadyClosed,
    AlreadyCompleted,
    AlreadyRefunded,
    TimelockExpired,
    TimelockNotExpired,
    BelowMinimumFill,
    ExceedsTotal,
    InvalidSecret,
    InsufficientDeposit,
    PartialWithdrawNotAllowed,
    NoDeposit,
    NegativeAmount,
    DepositOverflow,
}

impl FillError {
    /// The text of the message that describes the error.
    pub open spec fn text(self) -> Seq<char> {
        match self {
            FillError::Unauthorized => "Unauthorized"@,
            FillError::AmountNotPositive => "Amount must be positive"@,
            FillError::InvalidMinFill => "Invalid min fill"@,
            FillError::TimelockNotInFuture => "Timelock must be in the future"@,
            FillError::NotFound => "HTLC not found"@,
            FillError::AlreadyClosed => "HTLC already closed"@,
            FillError::AlreadyCompleted => "Already completed"@,
            FillError::AlreadyRefunded => "Already refunded"@,
            FillError::TimelockExpired => "Timelock expired"@,
            FillError::TimelockNotExpired => "Timelock not expired"@,
            FillError::BelowMinimumFill => "Amount below minimum fill"@,
            FillError::ExceedsTotal => "Exceeds total amount"@,
            FillError::InvalidSecret => "Invalid secret"@,
            FillError::InsufficientDeposit => "Insufficient deposit"@,
            FillError::PartialWithdrawNotAllowed => "Partial withdraw not allowed"@,
            FillError::NoDeposit => "No deposit found"@,
            FillError::NegativeAmount => "Negative amount"@,
            FillError::DepositOverflow => "Deposit too large"@,
        }
    }

    /// The message that describes the error.
    pub fn message(&self) -> (message: &'static str)
        ensures
            message@ == self.text(),
    {
        match self {
            FillError::Unauthorized => "Unauthorized",
            FillError::AmountNotPositive => "Amount must be positive",
            FillError::InvalidMinFill => "Invalid min fill",
            FillError::TimelockNotInFuture => "Timelock must be in the future",
            FillError::NotFound => "HTLC not found",
            FillError::AlreadyClosed => "HTLC already closed",
            FillError::AlreadyCompleted => "Already completed",
            FillError::AlreadyRefunded => "Already refunded",
            FillError::TimelockExpired => "Timelock expired",
            FillError::TimelockNotExpired => "Timelock not expired",
            FillError::BelowMinimumFill => "Amount below minimum fill",
            FillError::ExceedsTotal => "Exceeds total amount",
            FillError::InvalidSecret => "Invalid secret",
            FillError::InsufficientDeposit => "Insufficient deposit",
            FillError::PartialWithdrawNotAllowed => "Partial withdraw not allowed",
            FillError::NoDeposit => "No deposit found",
            FillError::NegativeAmount => "Negative amount",
            FillError::DepositOverflow => "Deposit too large",
        }
    }
}

/// One fill of an HTLC.
#[derive(Clone, Debug, PartialEq, Eq)]
pub struct Fill {
    pub filler: String,
    pub amount: i128,
    pub timestamp: u64,
    pub secret: Option<[u8; 32]>,
}

/// An HTLC that is filled in parts.
#[derive(Clone, Debug, PartialEq, Eq)]
pub struct PartialHTLC {
    pub id: u64,
    pub sender: String,
    pub receiver: String,
    pub token: String,
    pub total_amount: i128,
    pub filled_amount: i128,
    pub min_fill_amount: i128,
    pub hashlock: [u8; 32],
    pub timelock: u64,
    pub allow_partial_withdraw: bool,
    pub completed: bool,
    pub refunded: bool,
    pub fills: Vec<Fill>,
}

/// The collateral that one resolver holds with the contract.
#[derive(Clone, Debug, PartialEq, Eq)]
pub struct Collateral {
    pub resolver: String,
    pub amount: i128,
}

/// The contract: its parameters, its HTLCs, numbered from one, and the
/// collateral of each resolver.
#[derive(Debug, PartialEq, Eq)]
pub struct PartialFillHTLC {
    pub admin: String,
    pub min_deposit: i128,
    pub deposit_multiplier: u32,
    pub htlcs: Vec<PartialHTLC>,
    pub deposits: Vec<Collateral>,
}

/// The sum of the amounts of `fills`.
pub open spec fn fills_total(fills: Seq<Fill>) -> int
    decreases fills.len(),
{
    if fills.len() == 0 {
        0
    } else {
        fills_total(fills.drop_last()) + fills.last().amount
    }
}

/// A new fill adds its amount to the total.
pub proof fn lemma_fills_total_push(fills: Seq<Fill>, fill: Fill)
    ensures
        fills_total(fills.push(fill)) == fills_total(fills) + fill.amount,
{
    assert(fills.push(fill).drop_last() =~= fills);
}

/// What remains to be filled of `htlc`.
pub open spec fn remaining_amount(htlc: PartialHTLC) -> int {
    htlc.total_amount - htlc.filled_amount
}

/// Whether the books of `htlc` are in order: what is filled is the sum of the
/// fills and lies within the total, and the HTLC is completed exactly when it
/// is filled entirely.
pub open spec fn htlc_balanced(htlc: PartialHTLC) -> bool {
    &&& htlc.total_amount > 0
    &&& 0 < htlc.min_fill_amount <= htlc.total_amount
    &&& 0 <= htlc.filled_amount <= htlc.total_amount
    &&& htlc.filled_amount == fills_total(htlc.fills@)
    &&& htlc.completed == (htlc.filled_amount == htlc.total_amount)
    &&& !(htlc.completed && htlc.refunded)
}

/// The index of the first entry at or after `from` that belongs to `resolver`, or `-1`.
pub open spec fn find_collateral_from(deposits: Seq<Collateral>, resolver: Seq<char>, from: int)
    -> int
    decreases deposits.len() - from,
{
    if from < 0 || from >= deposits.len() {
        -1
    } else if deposits[from].resolver@ == resolver {
        from
    } else {
        find_collateral_from(deposits, resolver, from + 1)
    }
}

/// The collateral that `resolver` holds, if any was ever deposited.
pub open spec fn collateral_of(deposits: Seq<Collateral>, resolver: Seq<char>) -> Option<i128> {
    let k = find_collateral_from(deposits, resolver, 0);
    if k >= 0 {
        Some(deposits[k].amount)
    } else {
        None
    }
}

/// The collateral that `resolver` holds; nothing where none was deposited.
pub open spec fn deposit_of(deposits: Seq<Collateral>, resolver: Seq<char>) -> i128 {
    match collateral_of(deposits, resolver) {
        Some(amount) => amount,
        None => 0,
    }
}

/// The first reason for which the terms of a new HTLC are rejected, if any.
pub open spec fn create_error(now: u64, total_amount: i128, min_fill_amount: i128, timelock: u64)
    -> Option<FillError> {
    if total_amount <= 0 {
        Some(FillError::AmountNotPositive)
    } else if min_fill_amount <= 0 || min_fill_amount > total_amount {
        Some(FillError::InvalidMinFill)
    } else if timelock <= now {
        Some(FillError::TimelockNotInFuture)
    } else {
        None
    }
}

/// The first reason for which a fill of `amount` of `htlc` is rejected, if
/// any. `secret_ok` says whether the revealed secret hashes to the hashlock,
/// and `deposit` is the collateral of the filler.
pub open spec fn fill_error(htlc: PartialHTLC, now: u64, amount: i128, secret_ok: bool, deposit: i128)
    -> Option<FillError> {
    if htlc.completed || htlc.refunded {
        Some(FillError::AlreadyClosed)
    } else if now >= htlc.timelock {
        Some(FillError::TimelockExpired)
    } else if amount < htlc.min_fill_amount {
        Some(FillError::BelowMinimumFill)
    } else if htlc.filled_amount + amount > htlc.total_amount {
        Some(FillError::ExceedsTotal)
    } else if !secret_ok {
        Some(FillError::InvalidSecret)
    } else if deposit < amount {
        Some(FillError::InsufficientDeposit)
    } else {
        None
    }
}

/// The first reason for which a refund of what is unfilled of `htlc` is
/// rejected, if any.
pub open spec fn refund_error(htlc: PartialHTLC, now: u64, caller: Seq<char>) -> Option<FillError> {
    if htlc.completed {
        Some(FillError::AlreadyCompleted)
    } else if htlc.refunded {
        Some(FillError::AlreadyRefunded)
    } else if now < htlc.timelock {
        Some(FillError::TimelockNotExpired)
    } else if caller != htlc.sender@ {
        Some(FillError::Unauthorized)
    } else {
        None
    }
}

/// An HTLC that is completed or refunded takes no fill and gives no refund:
/// its amounts stay as they are.
pub proof fn lemma_closed_htlc_stays(
    htlc: PartialHTLC,
    now: u64,
    caller: Seq<char>,
    amount: i128,
    secret_ok: bool,
    deposit: i128,
)
    requires
        htlc.completed || htlc.refunded,
    ensures
        fill_error(htlc, now, amount, secret_ok, deposit) is Some,
        refund_error(htlc, now, caller) is Some,
{
}

/// Nothing is filled without a secret that hashes to the hashlock.
pub proof fn lemma_fill_needs_secret(htlc: PartialHTLC, now: u64, amount: i128, deposit: i128)
    ensures
        fill_error(htlc, now, amount, false, deposit) is Some,
{
}

/// A fill that is accepted keeps the books in order: what is filled and what
/// remains still add up to the total.
pub proof fn lemma_fill_keeps_balance(htlc: PartialHTLC, now: u64, amount: i128, deposit: i128, fill: Fill)
    requires
        htlc_balanced(htlc),
        fill_error(htlc, now, amount, true, deposit) is None,
        fill.amount == amount,
    ensures
        0 <= htlc.filled_amount + amount <= htlc.total_amount,
        fills_total(htlc.fills@.push(fill)) == htlc.filled_amount + amount,
        (htlc.filled_amount + amount) + (remaining_amount(htlc) - amount) == htlc.total_amount,
{
    lemma_fills_total_push(htlc.fills@, fill);
}

impl PartialFillHTLC {
    /// HTLCs are numbered from one and their books are in order.
    pub open spec fn wf(&self) -> bool {
        &&& self.htlcs@.len() < u64::MAX
        &&& forall|i: int|
            0 <= i < self.htlcs@.len() ==> (#[trigger] self.htlcs@[i]).id == i + 1 && htlc_balanced(
                self.htlcs@[i],
            )
    }

    /// Whether an HTLC with this id exists.
    pub open spec fn has_htlc(&self, htlc_id: u64) -> bool {
        1 <= htlc_id <= self.htlcs@.len()
    }

    /// The HTLC with this id.
    pub open spec fn htlc(&self, htlc_id: u64) -> PartialHTLC {
        self.htlcs@[htlc_id - 1]
    }

    /// Whether everything but the HTLCs is as in `other`.
    pub open spec fn same_setup(&self, other: &PartialFillHTLC) -> bool {
        &&& self.admin == other.admin
        &&& self.min_deposit == other.min_deposit
        &&& self.deposit_multiplier == other.deposit_multiplier
        &&& self.deposits == other.deposits
    }

    fn index_of(&self, htlc_id: u64) -> (index: Option<usize>)
        ensures
            index.is_some() == self.has_htlc(htlc_id),
            index matches Some(i) ==> i == htlc_id - 1,
    {
        let count = self.htlcs.len();
        if htlc_id >= 1 && htlc_id - 1 < count as u64 {
            Some((htlc_id - 1) as usize)
        } else {
            None
        }
    }

    fn locate_collateral(&self, resolver: &String) -> (found: Option<usize>)
        ensures
            found.is_some() == collateral_of(self.deposits@, resolver@).is_some(),
            found matches Some(i) ==> i == find_collateral_from(self.deposits@, resolver@, 0) && i
                < self.deposits@.len() && self.deposits@[i as int].resolver@ == resolver@,
            found is None ==> find_collateral_from(self.deposits@, resolver@, 0) == -1,
    {
        let mut i: usize = 0;
        while i < self.deposits.len()
            invariant
                i <= self.deposits@.len(),
                find_collateral_from(self.deposits@, resolver@, 0) == find_collateral_from(
                    self.deposits@,
                    resolver@,
                    i as int,
                ),
            decreases self.deposits@.len() - i,
        {
            if self.deposits[i].resolver == *resolver {
                return Some(i);
            }
            i += 1;
        }
        None
    }

    /// The books of every HTLC balance: what is filled is the sum of the fills,
    /// and together with what remains it makes up the total.
    pub proof fn lemma_books_balance(&self, htlc_id: u64)
        requires
            self.wf(),
            self.has_htlc(htlc_id),
        ensures
            self.htlc(htlc_id).filled_amount == fills_total(self.htlc(htlc_id).fills@),
            self.htlc(htlc_id).filled_amount + remaining_amount(self.htlc(htlc_id)) == self.htlc(
                htlc_id,
            ).total_amount,
            0 <= remaining_amount(self.htlc(htlc_id)) <= self.htlc(htlc_id).total_amount,
    {
    }

    /// Sets the contract up with its administrator and parameters.
    pub fn initialize(admin: String, min_deposit: i128, deposit_multiplier: u32) -> (contract:
        PartialFillHTLC)
        ensures
            contract.wf(),
            contract.admin == admin,
            contract.min_deposit == min_deposit,
            contract.deposit_multiplier == deposit_multiplier,
            contract.htlcs@.len() == 0,
            contract.deposits@.len() == 0,
    {
        PartialFillHTLC {
            admin,
            min_deposit,
            deposit_multiplier,
            htlcs: Vec::new(),
            deposits: Vec::new(),
        }
    }

    /// Locks `total_amount` of `token` from `sender` for `receiver` behind
    /// `hashlock` until `timelock`, to be filled in parts of at least
    /// `min_fill_amount`, and returns the id of the new HTLC.
    pub fn create_partial_htlc(
        &mut self,
        now: u64,
        sender: String,
        receiver: String,
        token: String,
        total_amount: i128,
        min_fill_amount: i128,
        hashlock: [u8; 32],
        timelock: u64,
        allow_partial_withdraw: bool,
    ) -> (result: Result<u64, FillError>)
        requires
            old(self).wf(),
            old(self).htlcs@.len() + 1 < u64::MAX,
        ensures
            final(self).wf(),
            final(self).same_setup(old(self)),
            match result {
                Ok(htlc_id) => {
                    let created = final(self).htlcs@.last();
                    &&& create_error(now, total_amount, min_fill_amount, timelock) is None
                    &&& htlc_id == old(self).htlcs@.len() + 1
                    &&& final(self).htlcs@ == old(self).htlcs@.push(created)
                    &&& created.fills@.len() == 0
                    &&& created == (PartialHTLC {
                        id: htlc_id,
                        sender,
                        receiver,
                        token,
                        total_amount,
                        filled_amount: 0,
                        min_fill_amount,
                        hashlock,
                        timelock,
                        allow_partial_withdraw,
                        completed: false,
                        refunded: false,
                        fills: created.fills,
                    })
                },
                Err(e) => {
                    &&& create_error(now, total_amount, min_fill_amount, timelock) == Some(e)
                    &&& *final(self) == *old(self)
                },
            },
    {
        if total_amount <= 0 {
            return Err(FillError::AmountNotPositive);
        }
        if min_fill_amount <= 0 || min_fill_amount > total_amount {
            return Err(FillError::InvalidMinFill);
        }
        if timelock <= now {
            return Err(FillError::TimelockNotInFuture);
        }
        let htlc_id: u64 = self.htlcs.len() as u64 + 1;
        self.htlcs.push(
            PartialHTLC {
                id: htlc_id,
                sender,
                receiver,
                token,
                total_amount,
                filled_amount: 0,
                min_fill_amount,
                hashlock,
                timelock,
                allow_partial_withdraw,
                completed: false,
                refunded: false,
                fills: Vec::new(),
            },
        );
        Ok(htlc_id)
    }

    /// Fills `amount` of HTLC `htlc_id` for `filler`, given whether the
    /// revealed `secret` hashes to the hashlock (`secret_ok`). The filler must
    /// hold collateral of at least the amount, and receives the amount. The
    /// fill is recorded with the secret; an HTLC that is filled entirely is
    /// completed. A rejected fill changes nothing.
    pub fn record_fill(
        &mut self,
        now: u64,
        htlc_id: u64,
        filler: String,
        amount: i128,
        secret: [u8; 32],
        secret_ok: bool,
    ) -> (result: Result<TokenTransfer, FillError>)
        requires
            old(self).wf(),
        ensures
            final(self).wf(),
            final(self).same_setup(old(self)),
            match result {
                Ok(transfer) => {
                    let before = old(self).htlc(htlc_id);
                    let after = final(self).htlc(htlc_id);
                    let fill = after.fills@.last();
                    &&& old(self).has_htlc(htlc_id)
                    &&& fill_error(
                        before,
                        now,
                        amount,
                        secret_ok,
                        deposit_of(old(self).deposits@, filler@),
                    ) is None
                    &&& final(self).htlcs@ == old(self).htlcs@.update(htlc_id - 1, after)
                    &&& after.fills@ == before.fills@.push(fill)
                    &&& fill == (Fill { filler, amount, timestamp: now, secret: Some(secret) })
                    &&& after == (PartialHTLC {
                        filled_amount: (before.filled_amount + amount) as i128,
                        completed: before.filled_amount + amount == before.total_amount,
                        fills: after.fills,
                        ..before
                    })
                    &&& transfer == (TokenTransfer { token: before.token, to: filler, amount })
                },
                Err(e) => {
                    &&& *final(self) == *old(self)
                    &&& Some(e) == (if old(self).has_htlc(htlc_id) {
                        fill_error(
                            old(self).htlc(htlc_id),
                            now,
                            amount,
                            secret_ok,
                            deposit_of(old(self).deposits@, filler@),
                        )
                    } else {
                        Some(FillError::NotFound)
                    })
                },
            },
    {
        let index = match self.index_of(htlc_id) {
            Some(i) => i,
            None => { return Err(FillError::NotFound); },
        };
        let htlc = &self.htlcs[index];
        if htlc.completed || htlc.refunded {
            return Err(FillError::AlreadyClosed);
        }
        if now >= htlc.timelock {
            return Err(FillError::TimelockExpired);
        }
        if amount < htlc.min_fill_amount {
            return Err(FillError::BelowMinimumFill);
        }
        if amount > htlc.total_amount - htlc.filled_amount {
            return Err(FillError::ExceedsTotal);
        }
        if !secret_ok {
            return Err(FillError::InvalidSecret);
        }
        let deposit = match self.locate_collateral(&filler) {
            Some(k) => self.deposits[k].amount,
            None => 0,
        };
        if deposit < amount {
            return Err(FillError::InsufficientDeposit);
        }
        let transfer = TokenTransfer { token: htlc.token.clone(), to: filler.clone(), amount };
        let filled = htlc.filled_amount + amount;
        let complete = filled == htlc.total_amount;
        let fill = Fill { filler, amount, timestamp: now, secret: Some(secret) };
        proof {
            lemma_fills_total_push(htlc.fills@, fill);
        }
        self.htlcs[index].fills.push(fill);
        self.htlcs[index].filled_amount = filled;
        self.htlcs[index].completed = complete;
        Ok(transfer)
    }

    /// Fills `amount` of HTLC `htlc_id` for `filler` by revealing `secret`:
    /// hashes the secret, compares the digest with the hashlock and records
    /// the fill accordingly.
    pub fn fill_htlc(&mut self, now: u64, htlc_id: u64, filler: String, amount: i128, secret: [u8; 32])
        -> (result: Result<TokenTransfer, FillError>)
        requires
            old(self).wf(),
        ensures
            final(self).wf(),
            final(self).same_setup(old(self)),
            match result {
                Ok(transfer) => {
                    let before = old(self).htlc(htlc_id);
                    let after = final(self).htlc(htlc_id);
                    let fill = after.fills@.last();
                    &&& old(self).has_htlc(htlc_id)
                    &&& raw_secret_matches(secret@, before.hashlock@)
                    &&& fill_error(before, now, amount, true, deposit_of(old(self).deposits@, filler@))
                        is None
                    &&& final(self).htlcs@ == old(self).htlcs@.update(htlc_id - 1, after)
                    &&& after.fills@ == before.fills@.push(fill)
                    &&& fill == (Fill { filler, amount, timestamp: now, secret: Some(secret) })
                    &&& after == (PartialHTLC {
                        filled_amount: (before.filled_amount + amount) as i128,
                        completed: before.filled_amount + amount == before.total_amount,
                        fills: after.fills,
                        ..before
                    })
                    &&& transfer == (TokenTransfer { token: before.token, to: filler, amount })
                },
                Err(e) => {
                    &&& *final(self) == *old(self)
                    &&& Some(e) == (if old(self).has_htlc(htlc_id) {
                        fill_error(
                            old(self).htlc(htlc_id),
                            now,
                            amount,
                            raw_secret_matches(secret@, old(self).htlc(htlc_id).hashlock@),
                            deposit_of(old(self).deposits@, filler@),
                        )
                    } else {
                        Some(FillError::NotFound)
                    })
                },
            },
    {
        let secret_ok = match self.index_of(htlc_id) {
            Some(i) => check_raw_secret(&secret, &self.htlcs[i].hashlock),
            None => false,
        };
        self.record_fill(now, htlc_id, filler, amount, secret, secret_ok)
    }

    /// Confirms to the receiver, who must be the caller and reveal `secret`,
    /// what has been filled of HTLC `htlc_id`. Unless partial withdrawals are
    /// allowed, the HTLC must be completed. Nothing changes.
    pub fn withdraw_filled(&self, caller: &String, htlc_id: u64, secret: [u8; 32]) -> (result: Result<
        i128,
        FillError,
    >)
        ensures
            match result {
                Ok(filled) => {
                    let htlc = self.htlc(htlc_id);
                    &&& self.has_htlc(htlc_id)
                    &&& caller@ == htlc.receiver@
                    &&& raw_secret_matches(secret@, htlc.hashlock@)
                    &&& htlc.allow_partial_withdraw || htlc.completed
                    &&& filled == htlc.filled_amount
                },
                Err(e) => e == (if !self.has_htlc(htlc_id) {
                    FillError::NotFound
                } else if caller@ != self.htlc(htlc_id).receiver@ {
                    FillError::Unauthorized
                } else if !raw_secret_matches(secret@, self.htlc(htlc_id).hashlock@) {
                    FillError::InvalidSecret
                } else {
                    FillError::PartialWithdrawNotAllowed
                }) && (self.has_htlc(htlc_id) && caller@ == self.htlc(htlc_id).receiver@
                    && raw_secret_matches(secret@, self.htlc(htlc_id).hashlock@) ==> !(self.htlc(
                    htlc_id,
                ).allow_partial_withdraw || self.htlc(htlc_id).completed)),
            },
    {
        let index = match self.index_of(htlc_id) {
            Some(i) => i,
            None => { return Err(FillError::NotFound); },
        };
        let htlc = &self.htlcs[index];
        if *caller != htlc.receiver {
            return Err(FillError::Unauthorized);
        }
        if !check_raw_secret(&secret, &htlc.hashlock) {
            return Err(FillError::InvalidSecret);
        }
        if !(htlc.allow_partial_withdraw || htlc.completed) {
            return Err(FillError::PartialWithdrawNotAllowed);
        }
        Ok(htlc.filled_amount)
    }

    /// Refunds what is unfilled of HTLC `htlc_id` to its sender, who must be
    /// the caller, once the deadline has passed. An HTLC that is completed or
    /// refunded is not refunded again.
    pub fn refund_unfilled(&mut self, now: u64, caller: &String, htlc_id: u64) -> (result: Result<
        TokenTransfer,
        FillError,
    >)
        requires
            old(self).wf(),
        ensures
            final(self).wf(),
            final(self).same_setup(old(self)),
            match result {
                Ok(transfer) => {
                    let htlc = old(self).htlc(htlc_id);
                    &&& old(self).has_htlc(htlc_id)
                    &&& refund_error(htlc, now, caller@) is None
                    &&& final(self).htlcs@ == old(self).htlcs@.update(
                        htlc_id - 1,
                        (PartialHTLC { refunded: true, ..htlc }),
                    )
                    &&& transfer == (TokenTransfer {
                        token: htlc.token,
                        to: htlc.sender,
                        amount: remaining_amount(htlc) as i128,
                    })
                },
                Err(e) => {
                    &&& *final(self) == *old(self)
                    &&& Some(e) == (if old(self).has_htlc(htlc_id) {
                        refund_error(old(self).htlc(htlc_id), now, caller@)
                    } else {
                        Some(FillError::NotFound)
                    })
                },
            },
    {
        let index = match self.index_of(htlc_id) {
            Some(i) => i,
            None => { return Err(FillError::NotFound); },
        };
        let htlc = &self.htlcs[index];
        if htlc.completed {
            return Err(FillError::AlreadyCompleted);
        }
        if htlc.refunded {
            return Err(FillError::AlreadyRefunded);
        }
        if now < htlc.timelock {
            return Err(FillError::TimelockNotExpired);
        }
        if *caller != htlc.sender {
            return Err(FillError::Unauthorized);
        }
        let transfer = TokenTransfer {
            token: htlc.token.clone(),
            to: htlc.sender.clone(),
            amount: htlc.total_amount - htlc.filled_amount,
        };
        self.htlcs[index].refunded = true;
        Ok(transfer)
    }

    /// Adds `amount` to the collateral that `resolver` holds with the contract.
    pub fn deposit_collateral(&mut self, resolver: String, amount: i128) -> (result: Result<
        (),
        FillError,
    >)
        ensures
            final(self).admin == old(self).admin,
            final(self).min_deposit == old(self).min_deposit,
            final(self).deposit_multiplier == old(self).deposit_multiplier,
            final(self).htlcs == old(self).htlcs,
            match result {
                Ok(()) => {
                    let held = deposit_of(old(self).deposits@, resolver@);
                    &&& amount >= 0
                    &&& held + amount <= i128::MAX
                    &&& deposit_of(final(self).deposits@, resolver@) == held + amount
                    &&& final(self).deposits@ == (if collateral_of(old(self).deposits@, resolver@)
                        is Some {
                        old(self).deposits@.update(
                            find_collateral_from(old(self).deposits@, resolver@, 0),
                            Collateral { resolver, amount: (held + amount) as i128 },
                        )
                    } else {
                        old(self).deposits@.push(Collateral { resolver, amount })
                    })
                },
                Err(e) => {
                    &&& *final(self) == *old(self)
                    &&& if amount < 0 {
                        e == FillError::NegativeAmount
                    } else {
                        e == FillError::DepositOverflow && deposit_of(old(self).deposits@, resolver@)
                            + amount > i128::MAX
                    }
                },
            },
    {
        if amount < 0 {
            return Err(FillError::NegativeAmount);
        }
        match self.locate_collateral(&resolver) {
            Some(k) => {
                let total = match self.deposits[k].amount.checked_add(amount) {
                    Some(t) => t,
                    None => { return Err(FillError::DepositOverflow); },
                };
                self.deposits[k] = Collateral { resolver, amount: total };
                proof {
                    lemma_collateral_after_update(old(self).deposits@, self.deposits@, k as int);
                }
            },
            None => {
                proof {
                    lemma_collateral_after_push(
                        self.deposits@,
                        Collateral { resolver, amount },
                        0,
                    );
                }
                self.deposits.push(Collateral { resolver, amount });
            },
        }
        Ok(())
    }

    /// Takes `amount` out of the collateral that `resolver` holds.
    pub fn withdraw_collateral(&mut self, resolver: &String, amount: i128) -> (result: Result<
        (),
        FillError,
    >)
        ensures
            final(self).admin == old(self).admin,
            final(self).min_deposit == old(self).min_deposit,
            final(self).deposit_multiplier == old(self).deposit_multiplier,
            final(self).htlcs == old(self).htlcs,
            match result {
                Ok(()) => {
                    let k = find_collateral_from(old(self).deposits@, resolver@, 0);
                    &&& k >= 0
                    &&& 0 <= amount <= old(self).deposits@[k].amount
                    &&& final(self).deposits@ == old(self).deposits@.update(
                        k,
                        (Collateral {
                            amount: (old(self).deposits@[k].amount - amount) as i128,
                            ..old(self).deposits@[k]
                        }),
                    )
                    &&& deposit_of(final(self).deposits@, resolver@) == deposit_of(
                        old(self).deposits@,
                        resolver@,
                    ) - amount
                },
                Err(e) => {
                    &&& *final(self) == *old(self)
                    &&& e == (if amount < 0 {
                        FillError::NegativeAmount
                    } else if collateral_of(old(self).deposits@, resolver@) is None {
                        FillError::NoDeposit
                    } else {
                        FillError::InsufficientDeposit
                    })
                    &&& amount >= 0 && collateral_of(old(self).deposits@, resolver@) is Some
                        ==> deposit_of(old(self).deposits@, resolver@) < amount
                },
            },
    {
        if amount < 0 {
            return Err(FillError::NegativeAmount);
        }
        let k = match self.locate_collateral(resolver) {
            Some(k) => k,
            None => { return Err(FillError::NoDeposit); },
        };
        let held = self.deposits[k].amount;
        if held < amount {
            return Err(FillError::InsufficientDeposit);
        }
        self.deposits[k].amount = held - amount;
        proof {
            lemma_collateral_after_update(old(self).deposits@, self.deposits@, k as int);
        }
        Ok(())
    }

    /// The HTLC with the given id, if there is one.
    pub fn get_htlc(&self, htlc_id: u64) -> (htlc: Option<&PartialHTLC>)
        ensures
            htlc.is_some() == self.has_htlc(htlc_id),
            htlc matches Some(h) ==> *h == self.htlc(htlc_id),
    {
        match self.index_of(htlc_id) {
            Some(i) => Some(&self.htlcs[i]),
            None => None,
        }
    }

    /// The collateral that `resolver` holds; nothing where none was deposited.
    pub fn get_deposit(&self, resolver: &String) -> (amount: i128)
        ensures
            amount == deposit_of(self.deposits@, resolver@),
    {
        match self.locate_collateral(resolver) {
            Some(k) => self.deposits[k].amount,
            None => 0,
        }
    }
}

/// Changing the amount of an entry leaves every entry with its resolver.
pub proof fn lemma_collateral_after_update(before: Seq<Collateral>, after: Seq<Collateral>, k: int)
    requires
        0 <= k < before.len(),
        after.len() == before.len(),
        after[k].resolver@ == before[k].resolver@,
        forall|j: int| 0 <= j < before.len() && j != k ==> after[j] == before[j],
    ensures
        forall|who: Seq<char>|
            #[trigger] find_collateral_from(after, who, 0) == find_collateral_from(before, who, 0),
{
    assert forall|who: Seq<char>| #[trigger] find_collateral_from(after, who, 0)
        == find_collateral_from(before, who, 0) by {
        lemma_same_search(before, after, who, 0);
    }
}

/// Two lists that name the same resolvers in the same places are searched alike.
pub proof fn lemma_same_search(before: Seq<Collateral>, after: Seq<Collateral>, who: Seq<char>, from: int)
    requires
        0 <= from,
        after.len() == before.len(),
        forall|j: int| 0 <= j < before.len() ==> (#[trigger] after[j]).resolver@
            == before[j].resolver@,
    ensures
        find_collateral_from(after, who, from) == find_collateral_from(before, who, from),
    decreases before.len() - from,
{
    if from < before.len() {
        assert(after[from].resolver@ == before[from].resolver@);
        if before[from].resolver@ != who {
            lemma_same_search(before, after, who, from + 1);
        }
    }
}

/// A resolver that is not yet listed is found at the end once it is added.
pub proof fn lemma_collateral_after_push(deposits: Seq<Collateral>, entry: Collateral, from: int)
    requires
        0 <= from <= deposits.len(),
        find_collateral_from(deposits, entry.resolver@, from) == -1,
    ensures
        find_collateral_from(deposits.push(entry), entry.resolver@, from) == deposits.len(),
    decreases deposits.len() - from,
{
    let after = deposits.push(entry);
    if from < deposits.len() {
        assert(after[from] == deposits[from]);
        lemma_collateral_after_push(deposits, entry, from + 1);
    }
}

} // verus!
