//! The full hash-time-locked contract: whole or partial settlement, safety
//! deposits, and the statistics of the contract.

use vstd::prelude::*;
use crate::fill_ledger::{
    balanced, contribution, lemma_no_contribution, lemma_reserved_bound, lemma_reserved_push,
    lemma_reserved_update, reserved, Reservation,
};
use crate::hashing::{byte_len, check_hex_secret, hex_secret_check, SecretCheck};
use crate::ledger::{duplicate_text, CallContext, Transfer};

verus! {

/// The shortest timelock accepted, in seconds: one hour.
pub const MIN_TIMELOCK: u64 = 3600;

/// The longest timelock accepted, in seconds: thirty days.
pub const MAX_TIMELOCK: u64 = 2592000;

/// Why an operation was rejected.
#[derive(Clone, Copy, Debug, PartialEq, Eq, Structural)]
pub enum PlusError {
    ZeroAmount,
    InvalidHashlock,
    InvalidTimelock,
    InvalidMinFill,
    HtlcNotFound,
    NotActive,
    Expired,
    NotExpired,
    NotReceiver,
    NotSender,
    UsePartialWithdraw,
    PartialFillsNotAllowed,
    BelowMinimum,
    ExceedsRemaining,
    InsufficientDeposit,
    NoFills,
    FillNotFound,
    FillAlreadyProcessed,
    NotFiller,
    AlreadyProcessed,
    InvalidHexSecret,
    InvalidSecret,
    DepositNotRequired,
    DepositNotFound,
    NotDepositor,
}

impl PlusError {
    /// The text of the message that describes the error.
    pub open spec fn text(self) -> Seq<char> {
        match self {
            PlusError::ZeroAmount => "Amount must be greater than 0"@,
            PlusError::InvalidHashlock => "Invalid hashlock"@,
            PlusError::InvalidTimelock => "Invalid timelock"@,
            PlusError::InvalidMinFill => "Invalid min fill amount"@,
            PlusError::HtlcNotFound => "HTLC not found"@,
            PlusError::NotActive => "HTLC not active"@,
            PlusError::Expired => "HTLC expired"@,
            PlusError::NotExpired => "Not expired"@,
            PlusError::NotReceiver => "Not the receiver"@,
            PlusError::NotSender => "Not the sender"@,
            PlusError::UsePartialWithdraw => "Use withdraw_partial for partial fills"@,
            PlusError::PartialFillsNotAllowed => "Partial fills not allowed"@,
            PlusError::BelowMinimum => "Below minimum fill"@,
            PlusError::ExceedsRemaining => "Exceeds remaining amount"@,
            PlusError::InsufficientDeposit => "Insufficient deposit"@,
            PlusError::NoFills => "No fills found"@,
            PlusError::FillNotFound => "Fill not found"@,
            PlusError::FillAlreadyProcessed => "Fill already processed"@,
            PlusError::NotFiller => "Not the filler"@,
            PlusError::AlreadyProcessed => "Already processed"@,
            PlusError::InvalidHexSecret => "Invalid hex secret"@,
            PlusError::InvalidSecret => "Invalid secret"@,
            PlusError::DepositNotRequired => "Safety deposit not required"@,
            PlusError::DepositNotFound => "Deposit not found"@,
            PlusError::NotDepositor => "Not the depositor"@,
        }
    }

    /// The message that describes the error.
    pub fn message(&self) -> (message: &'static str)
        ensures
            message@ == self.text(),
    {
        match self {
            PlusError::ZeroAmount => "Amount must be greater than 0",
            PlusError::InvalidHashlock => "Invalid hashlock",
            PlusError::InvalidTimelock => "Invalid timelock",
            PlusError::InvalidMinFill => "Invalid min fill amount",
            PlusError::HtlcNotFound => "HTLC not found",
            PlusError::NotActive => "HTLC not active",
            PlusError::Expired => "HTLC expired",
            PlusError::NotExpired => "Not expired",
            PlusError::NotReceiver => "Not the receiver",
            PlusError::NotSender => "Not the sender",
            PlusError::UsePartialWithdraw => "Use withdraw_partial for partial fills",
            PlusError::PartialFillsNotAllowed => "Partial fills not allowed",
            PlusError::BelowMinimum => "Below minimum fill",
            PlusError::ExceedsRemaining => "Exceeds remaining amount",
            PlusError::InsufficientDeposit => "Insufficient deposit",
            PlusError::NoFills => "No fills found",
            PlusError::FillNotFound => "Fill not found",
            PlusError::FillAlreadyProcessed => "Fill already processed",
            PlusError::NotFiller => "Not the filler",
            PlusError::AlreadyProcessed => "Already processed",
            PlusError::InvalidHexSecret => "Invalid hex secret",
            PlusError::InvalidSecret => "Invalid secret",
            PlusError::DepositNotRequired => "Safety deposit not required",
            PlusError::DepositNotFound => "Deposit not found",
            PlusError::NotDepositor => "Not the depositor",
        }
    }
}

/// The lifecycle of an HTLC. `Completed` and `Refunded` are final.
#[derive(Clone, Copy, Debug, PartialEq, Eq, Structural)]
pub enum HTLCStatus {
    Active,
    Completed,
    Refunded,
    PartiallyFilled,
}

/// The lifecycle of a fill.
#[derive(Clone, Copy, Debug, PartialEq, Eq, Structural)]
pub enum FillStatus {
    Pending,
    Completed,
    Refunded,
}

/// An HTLC that is settled as a whole or in parts.
#[derive(Clone, Debug, PartialEq, Eq)]
pub struct FusionHTLC {
    pub id: u64,
    pub sender: String,
    pub receiver: String,
    pub token_id: Option<String>,
    pub total_amount: u128,
    pub filled_amount: u128,
    pub remaining_amount: u128,
    pub hashlock: String,
    pub timelock: u64,
    pub secret: Option<String>,
    pub allow_partial_fills: bool,
    pub min_fill_amount: u128,
    pub safety_deposit_amount: u128,
    pub status: HTLCStatus,
    pub created_at: u64,
}

/// One fill against an HTLC.
#[derive(Clone, Debug, PartialEq, Eq)]
pub struct PartialFill {
    pub id: u64,
    pub htlc_id: u64,
    pub filler: String,
    pub amount: u128,
    pub status: FillStatus,
    pub created_at: u64,
}

/// Collateral that a resolver posted for an HTLC.
#[derive(Clone, Debug, PartialEq, Eq)]
pub struct SafetyDeposit {
    pub id: u64,
    pub htlc_id: u64,
    pub depositor: String,
    pub amount: u128,
    pub created_at: u64,
}

/// What the filler gets back when a fill is created: the id of the fill and
/// the part of the attached deposit that exceeds the fill.
#[derive(Clone, Copy, Debug, PartialEq, Eq, Structural)]
pub struct FillReceipt {
    pub fill_id: u64,
    pub excess: u128,
}

/// The contract: its HTLCs and fills, numbered from one, the safety deposits
/// that are still held, by ascending id, and its statistics.
#[derive(Debug, PartialEq, Eq)]
pub struct FusionPlusContract {
    pub htlcs: Vec<FusionHTLC>,
    pub partial_fills: Vec<PartialFill>,
    pub safety_deposits: Vec<SafetyDeposit>,
    pub next_htlc_id: u64,
    pub next_fill_id: u64,
    pub next_deposit_id: u64,
    pub total_volume: u128,
    pub total_htlcs_created: u64,
}

/// Whether an HTLC in this status can still be settled or refunded.
pub open spec fn is_open(status: HTLCStatus) -> bool {
    status == HTLCStatus::Active || status == HTLCStatus::PartiallyFilled
}

/// The minimum fill of a new HTLC over `amount`: what the creator names, or a
/// tenth of the amount, where partial fills are allowed; the whole amount
/// otherwise.
pub open spec fn minimum_fill(amount: u128, allow_partial_fills: bool, min_fill_amount: Option<u128>)
    -> u128 {
    if allow_partial_fills {
        match min_fill_amount {
            Some(m) => m,
            None => amount / 10,
        }
    } else {
        amount
    }
}

/// The safety deposit that a new HTLC over `amount` asks for: a twentieth of
/// the amount where one is required, nothing otherwise.
pub open spec fn required_deposit(amount: u128, require_safety_deposit: bool) -> u128 {
    if require_safety_deposit {
        amount / 20
    } else {
        0
    }
}

/// The first reason for which the terms of a new HTLC are rejected, if any.
pub open spec fn create_error(
    amount: u128,
    hashlock: Seq<char>,
    timelock_seconds: u64,
    allow_partial_fills: bool,
    min_fill_amount: Option<u128>,
) -> Option<PlusError> {
    let min = minimum_fill(amount, allow_partial_fills, min_fill_amount);
    if amount == 0 {
        Some(PlusError::ZeroAmount)
    } else if byte_len(hashlock) != 64 {
        Some(PlusError::InvalidHashlock)
    } else if timelock_seconds < MIN_TIMELOCK || timelock_seconds > MAX_TIMELOCK {
        Some(PlusError::InvalidTimelock)
    } else if allow_partial_fills && (min == 0 || min > amount) {
        Some(PlusError::InvalidMinFill)
    } else {
        None
    }
}

/// The first reason for which a withdrawal of the whole of `htlc` is rejected,
/// if any. `check` is the outcome of checking the revealed secret.
pub open spec fn withdraw_error(htlc: FusionHTLC, now: u64, caller: Seq<char>, check: SecretCheck)
    -> Option<PlusError> {
    if !is_open(htlc.status) {
        Some(PlusError::NotActive)
    } else if now >= htlc.timelock {
        Some(PlusError::Expired)
    } else if caller != htlc.receiver@ {
        Some(PlusError::NotReceiver)
    } else if htlc.allow_partial_fills {
        Some(PlusError::UsePartialWithdraw)
    } else {
        match check {
            SecretCheck::Malformed => Some(PlusError::InvalidHexSecret),
            SecretCheck::Mismatch => Some(PlusError::InvalidSecret),
            SecretCheck::Valid => None,
        }
    }
}

/// The first reason for which a fill of `fill_amount` against `htlc` is
/// rejected, if any.
pub open spec fn fill_error(htlc: FusionHTLC, now: u64, attached: u128, fill_amount: u128) -> Option<
    PlusError,
> {
    if !htlc.allow_partial_fills {
        Some(PlusError::PartialFillsNotAllowed)
    } else if !is_open(htlc.status) {
        Some(PlusError::NotActive)
    } else if now >= htlc.timelock {
        Some(PlusError::Expired)
    } else if fill_amount < htlc.min_fill_amount {
        Some(PlusError::BelowMinimum)
    } else if fill_amount > htlc.remaining_amount {
        Some(PlusError::ExceedsRemaining)
    } else if attached < fill_amount {
        Some(PlusError::InsufficientDeposit)
    } else {
        None
    }
}

/// The first reason for which claiming `fill` is rejected, if any. `fill` is
/// the fill that was asked for, if it exists and belongs to `htlc`.
pub open spec fn claim_error(
    htlc: FusionHTLC,
    fill: Option<PartialFill>,
    now: u64,
    caller: Seq<char>,
    check: SecretCheck,
) -> Option<PlusError> {
    if caller != htlc.receiver@ {
        Some(PlusError::NotReceiver)
    } else if now >= htlc.timelock {
        Some(PlusError::Expired)
    } else if check == SecretCheck::Malformed {
        Some(PlusError::InvalidHexSecret)
    } else if check == SecretCheck::Mismatch {
        Some(PlusError::InvalidSecret)
    } else if !htlc.allow_partial_fills {
        Some(PlusError::NoFills)
    } else {
        match fill {
            None => Some(PlusError::FillNotFound),
            Some(f) => if f.status != FillStatus::Pending {
                Some(PlusError::FillAlreadyProcessed)
            } else {
                None
            },
        }
    }
}

/// The first reason for which a refund of `htlc` is rejected, if any.
pub open spec fn refund_error(htlc: FusionHTLC, now: u64, caller: Seq<char>) -> Option<PlusError> {
    if caller != htlc.sender@ {
        Some(PlusError::NotSender)
    } else if now < htlc.timelock {
        Some(PlusError::NotExpired)
    } else if !is_open(htlc.status) {
        Some(PlusError::AlreadyProcessed)
    } else {
        None
    }
}

/// The first reason for which refunding `fill` is rejected, if any. `fill` is
/// the fill that was asked for, if it exists and belongs to `htlc`.
pub open spec fn fill_refund_error(
    htlc: FusionHTLC,
    fill: Option<PartialFill>,
    now: u64,
    caller: Seq<char>,
) -> Option<PlusError> {
    if now < htlc.timelock {
        Some(PlusError::NotExpired)
    } else if !htlc.allow_partial_fills {
        Some(PlusError::NoFills)
    } else {
        match fill {
            None => Some(PlusError::FillNotFound),
            Some(f) => if f.status != FillStatus::Pending {
                Some(PlusError::FillAlreadyProcessed)
            } else if caller != f.filler@ {
                Some(PlusError::NotFiller)
            } else {
                None
            },
        }
    }
}

/// What a refund of `htlc` returns to its sender: what remains of it where it
/// takes partial fills, the whole amount otherwise.
pub open spec fn refund_amount(htlc: FusionHTLC) -> u128 {
    if htlc.allow_partial_fills {
        htlc.remaining_amount
    } else {
        htlc.total_amount
    }
}

/// What each fill reserves of its HTLC.
pub open spec fn reservations(fills: Seq<PartialFill>) -> Seq<Reservation> {
    Seq::new(
        fills.len(),
        |i: int|
            Reservation {
                order_id: fills[i].htlc_id,
                amount: fills[i].amount,
                live: fills[i].status != FillStatus::Refunded,
            },
    )
}

/// The index of the first deposit at or after `from` with the given id, or `-1`.
pub open spec fn find_deposit_from(deposits: Seq<SafetyDeposit>, deposit_id: u64, from: int) -> int
    decreases deposits.len() - from,
{
    if from < 0 || from >= deposits.len() {
        -1
    } else if deposits[from].id == deposit_id {
        from
    } else {
        find_deposit_from(deposits, deposit_id, from + 1)
    }
}

/// The index of the deposit with the given id, or `-1`.
pub open spec fn find_deposit(deposits: Seq<SafetyDeposit>, deposit_id: u64) -> int {
    find_deposit_from(deposits, deposit_id, 0)
}

/// A found deposit has the id that was looked for, and nothing before it has.
pub proof fn lemma_find_deposit(deposits: Seq<SafetyDeposit>, deposit_id: u64, from: int)
    requires
        0 <= from,
    ensures
        ({
            let k = find_deposit_from(deposits, deposit_id, from);
            &&& k == -1 || (from <= k < deposits.len() && deposits[k].id == deposit_id)
            &&& forall|j: int|
                from <= j < (if k == -1 {
                    deposits.len() as int
                } else {
                    k
                }) ==> (#[trigger] deposits[j]).id != deposit_id
        }),
    decreases deposits.len() - from,
{
    if from < deposits.len() && deposits[from].id != deposit_id {
        lemma_find_deposit(deposits, deposit_id, from + 1);
    }
}

/// Once an HTLC is completed or refunded, every operation on it is rejected:
/// its status and its amounts stay as they are.
pub proof fn lemma_final_htlc_stays(
    htlc: FusionHTLC,
    now: u64,
    caller: Seq<char>,
    check: SecretCheck,
    attached: u128,
    fill_amount: u128,
)
    requires
        !is_open(htlc.status),
    ensures
        withdraw_error(htlc, now, caller, check) is Some,
        refund_error(htlc, now, caller) is Some,
        fill_error(htlc, now, attached, fill_amount) is Some,
{
}

/// Settlement needs the secret: without a secret whose digest is the hashlock,
/// neither the whole HTLC nor any fill is paid out.
pub proof fn lemma_settlement_needs_secret(
    htlc: FusionHTLC,
    fill: Option<PartialFill>,
    now: u64,
    caller: Seq<char>,
    check: SecretCheck,
)
    ensures
        withdraw_error(htlc, now, caller, check) is None ==> check == SecretCheck::Valid,
        claim_error(htlc, fill, now, caller, check) is None ==> check == SecretCheck::Valid,
        withdraw_error(htlc, now, caller, SecretCheck::Valid) is None <==> is_open(htlc.status)
            && now < htlc.timelock && caller == htlc.receiver@ && !htlc.allow_partial_fills,
{
}

/// Settlement ends where refunds begin: at no time can the same HTLC be both
/// withdrawn and refunded, nor the same fill be both claimed and refunded.
pub proof fn lemma_settle_excludes_refund(
    htlc: FusionHTLC,
    fill: Option<PartialFill>,
    now: u64,
    caller: Seq<char>,
    check: SecretCheck,
)
    ensures
        !(withdraw_error(htlc, now, caller, check) is None && refund_error(htlc, now, caller)
            is None),
        !(claim_error(htlc, fill, now, caller, check) is None && fill_refund_error(
            htlc,
            fill,
            now,
            caller,
        ) is None),
{
}

impl FusionPlusContract {
    /// The invariant of the contract: ids are positions, every fill belongs to
    /// an HTLC, the books of every HTLC balance, no HTLC counts less as filled
    /// than its live fills reserve, and deposits are held by ascending id.
    pub open spec fn wf(&self) -> bool {
        &&& self.next_htlc_id == self.htlcs@.len() + 1
        &&& self.next_fill_id == self.partial_fills@.len() + 1
        &&& forall|i: int| 0 <= i < self.htlcs@.len() ==> self.htlc_ok(i)
        &&& forall|i: int| 0 <= i < self.partial_fills@.len() ==> self.fill_ok(i)
        &&& forall|i: int|
            0 <= i < self.safety_deposits@.len() ==> (#[trigger] self.safety_deposits@[i]).id
                < self.next_deposit_id
        &&& forall|i: int, j: int|
            0 <= i < j < self.safety_deposits@.len() ==> (#[trigger] self.safety_deposits@[i]).id
                < (#[trigger] self.safety_deposits@[j]).id
    }

    /// The invariant of the HTLC at index `i`.
    pub open spec fn htlc_ok(&self, i: int) -> bool {
        let h = self.htlcs@[i];
        &&& h.id == i + 1
        &&& balanced(h.total_amount, h.filled_amount, h.remaining_amount)
        &&& reserved(reservations(self.partial_fills@), h.id) <= h.filled_amount
    }

    /// The invariant of the fill at index `i`.
    pub open spec fn fill_ok(&self, i: int) -> bool {
        let f = self.partial_fills@[i];
        &&& f.id == i + 1
        &&& 1 <= f.htlc_id <= self.htlcs@.len()
    }

    /// Whether an HTLC with this id exists.
    pub open spec fn has_htlc(&self, htlc_id: u64) -> bool {
        1 <= htlc_id <= self.htlcs@.len()
    }

    /// The HTLC with this id.
    pub open spec fn htlc(&self, htlc_id: u64) -> FusionHTLC {
        self.htlcs@[htlc_id - 1]
    }

    /// The fill `fill_id` of HTLC `htlc_id`, if there is one.
    pub open spec fn fill_of(&self, htlc_id: u64, fill_id: u64) -> Option<PartialFill> {
        if 1 <= fill_id <= self.partial_fills@.len() && self.partial_fills@[fill_id - 1].htlc_id
            == htlc_id {
            Some(self.partial_fills@[fill_id - 1])
        } else {
            None
        }
    }

    /// Whether every fill of HTLC `htlc_id` is completed or refunded.
    pub open spec fn all_fills_settled(&self, htlc_id: u64) -> bool {
        forall|i: int|
            0 <= i < self.partial_fills@.len() && (#[trigger] self.partial_fills@[i]).htlc_id
                == htlc_id ==> self.partial_fills@[i].status != FillStatus::Pending
    }

    /// Whether the counters, the statistics and the deposits are as in `other`.
    pub open spec fn same_books(&self, other: &FusionPlusContract) -> bool {
        &&& self.next_htlc_id == other.next_htlc_id
        &&& self.next_fill_id == other.next_fill_id
        &&& self.next_deposit_id == other.next_deposit_id
        &&& self.total_volume == other.total_volume
        &&& self.total_htlcs_created == other.total_htlcs_created
        &&& self.safety_deposits == other.safety_deposits
    }

    fn htlc_index(&self, htlc_id: u64) -> (index: Option<usize>)
        requires
            self.wf(),
        ensures
            index.is_some() == self.has_htlc(htlc_id),
            index matches Some(i) ==> i == htlc_id - 1,
    {
        let count = self.htlcs.len();
        if htlc_id >= 1 && htlc_id < self.next_htlc_id {
            assert(htlc_id - 1 < count);
            Some((htlc_id - 1) as usize)
        } else {
            None
        }
    }

    fn fill_index(&self, htlc_id: u64, fill_id: u64) -> (index: Option<usize>)
        requires
            self.wf(),
        ensures
            index.is_some() == self.fill_of(htlc_id, fill_id).is_some(),
            index matches Some(i) ==> i == fill_id - 1 && i < self.partial_fills@.len(),
    {
        let count = self.partial_fills.len();
        if fill_id >= 1 && fill_id < self.next_fill_id {
            assert(fill_id - 1 < count);
            let i = (fill_id - 1) as usize;
            if self.partial_fills[i].htlc_id == htlc_id {
                Some(i)
            } else {
                None
            }
        } else {
            None
        }
    }

    fn locate_deposit(&self, deposit_id: u64) -> (found: Option<usize>)
        ensures
            found.is_some() == (find_deposit(self.safety_deposits@, deposit_id) >= 0),
            found matches Some(i) ==> i == find_deposit(self.safety_deposits@, deposit_id) && i
                < self.safety_deposits@.len() && self.safety_deposits@[i as int].id == deposit_id,
            found is None ==> find_deposit(self.safety_deposits@, deposit_id) == -1,
    {
        let mut i: usize = 0;
        while i < self.safety_deposits.len()
            invariant
                i <= self.safety_deposits@.len(),
                find_deposit(self.safety_deposits@, deposit_id) == find_deposit_from(
                    self.safety_deposits@,
                    deposit_id,
                    i as int,
                ),
            decreases self.safety_deposits@.len() - i,
        {
            if self.safety_deposits[i].id == deposit_id {
                return Some(i);
            }
            i += 1;
        }
        proof {
            lemma_find_deposit(self.safety_deposits@, deposit_id, 0);
        }
        None
    }

    /// Whether every fill of HTLC `htlc_id` is completed or refunded.
    pub fn all_fills_completed(&self, htlc_id: u64) -> (all: bool)
        ensures
            all == self.all_fills_settled(htlc_id),
    {
        let mut i: usize = 0;
        while i < self.partial_fills.len()
            invariant
                i <= self.partial_fills@.len(),
                forall|j: int|
                    0 <= j < i && (#[trigger] self.partial_fills@[j]).htlc_id == htlc_id
                        ==> self.partial_fills@[j].status != FillStatus::Pending,
            decreases self.partial_fills@.len() - i,
        {
            if self.partial_fills[i].htlc_id == htlc_id && self.partial_fills[i].status
                == FillStatus::Pending {
                return false;
            }
            i += 1;
        }
        true
    }

    /// A contract with no HTLCs, no fills, no deposits and no volume.
    pub fn new() -> (contract: FusionPlusContract)
        ensures
            contract.wf(),
            contract.htlcs@.len() == 0,
            contract.partial_fills@.len() == 0,
            contract.safety_deposits@.len() == 0,
            contract.next_deposit_id == 1,
            contract.total_volume == 0,
            contract.total_htlcs_created == 0,
    {
        FusionPlusContract {
            htlcs: Vec::new(),
            partial_fills: Vec::new(),
            safety_deposits: Vec::new(),
            next_htlc_id: 1,
            next_fill_id: 1,
            next_deposit_id: 1,
            total_volume: 0,
            total_htlcs_created: 0,
        }
    }

    /// Locks the attached deposit for `receiver` behind `hashlock`, until
    /// `timelock_seconds` from now, and returns the id of the new HTLC. The
    /// volume and the number of HTLCs created grow accordingly.
    pub fn create_htlc(
        &mut self,
        ctx: &CallContext,
        receiver: String,
        hashlock: String,
        timelock_seconds: u64,
        allow_partial_fills: bool,
        min_fill_amount: Option<u128>,
        require_safety_deposit: bool,
    ) -> (result: Result<u64, PlusError>)
        requires
            old(self).wf(),
            old(self).next_htlc_id < u64::MAX,
            old(self).total_htlcs_created < u64::MAX,
            old(self).total_volume + ctx.attached_deposit <= u128::MAX,
        ensures
            final(self).wf(),
            final(self).partial_fills == old(self).partial_fills,
            final(self).safety_deposits == old(self).safety_deposits,
            final(self).next_fill_id == old(self).next_fill_id,
            final(self).next_deposit_id == old(self).next_deposit_id,
            match result {
                Ok(htlc_id) => {
                    &&& create_error(
                        ctx.attached_deposit,
                        hashlock@,
                        timelock_seconds,
                        allow_partial_fills,
                        min_fill_amount,
                    ) is None
                    &&& htlc_id == old(self).next_htlc_id
                    &&& final(self).total_volume == old(self).total_volume + ctx.attached_deposit
                    &&& final(self).total_htlcs_created == old(self).total_htlcs_created + 1
                    &&& final(self).htlcs@ == old(self).htlcs@.push(
                        (FusionHTLC {
                            id: htlc_id,
                            sender: ctx.predecessor,
                            receiver,
                            token_id: None,
                            total_amount: ctx.attached_deposit,
                            filled_amount: 0,
                            remaining_amount: ctx.attached_deposit,
                            hashlock,
                            timelock: (ctx.now() + timelock_seconds) as u64,
                            secret: None,
                            allow_partial_fills,
                            min_fill_amount: minimum_fill(
                                ctx.attached_deposit,
                                allow_partial_fills,
                                min_fill_amount,
                            ),
                            safety_deposit_amount: required_deposit(
                                ctx.attached_deposit,
                                require_safety_deposit,
                            ),
                            status: HTLCStatus::Active,
                            created_at: ctx.now(),
                        }),
                    )
                },
                Err(e) => {
                    &&& create_error(
                        ctx.attached_deposit,
                        hashlock@,
                        timelock_seconds,
                        allow_partial_fills,
                        min_fill_amount,
                    ) == Some(e)
                    &&& *final(self) == *old(self)
                },
            },
    {
        let amount = ctx.attached_deposit;
        if amount == 0 {
            return Err(PlusError::ZeroAmount);
        }
        if hashlock.as_str().len() != 64 {
            return Err(PlusError::InvalidHashlock);
        }
        if timelock_seconds < MIN_TIMELOCK || timelock_seconds > MAX_TIMELOCK {
            return Err(PlusError::InvalidTimelock);
        }
        let min_fill = if allow_partial_fills {
            let min = match min_fill_amount {
                Some(m) => m,
                None => amount / 10,
            };
            if min == 0 || min > amount {
                return Err(PlusError::InvalidMinFill);
            }
            min
        } else {
            amount
        };
        let current_time = ctx.now_seconds();
        let htlc_id: u64 = self.next_htlc_id;
        let htlc = FusionHTLC {
            id: htlc_id,
            sender: ctx.predecessor.clone(),
            receiver,
            token_id: None,
            total_amount: amount,
            filled_amount: 0,
            remaining_amount: amount,
            hashlock,
            timelock: current_time + timelock_seconds,
            secret: None,
            allow_partial_fills,
            min_fill_amount: min_fill,
            safety_deposit_amount: if require_safety_deposit {
                amount / 20
            } else {
                0
            },
            status: HTLCStatus::Active,
            created_at: current_time,
        };
        proof {
            self.lemma_nothing_reserved(htlc_id);
        }
        self.htlcs.push(htlc);
        self.next_htlc_id = htlc_id + 1;
        self.total_volume = self.total_volume + amount;
        self.total_htlcs_created = self.total_htlcs_created + 1;
        proof {
            assert forall|i: int| 0 <= i < self.htlcs@.len() implies self.htlc_ok(i) by {
                if i < old(self).htlcs@.len() {
                    assert(old(self).htlc_ok(i));
                }
            }
            assert forall|i: int| 0 <= i < self.partial_fills@.len() implies self.fill_ok(i) by {
                assert(old(self).fill_ok(i));
            }
        }
        Ok(htlc_id)
    }

    /// Settles the whole of HTLC `htlc_id` for the caller, given the outcome
    /// `check` of checking the revealed `secret` against the hashlock: the
    /// receiver gets the total amount before the deadline, and the HTLC is
    /// completed and keeps the secret. A rejected withdrawal changes nothing.
    pub fn settle(&mut self, ctx: &CallContext, htlc_id: u64, secret: String, check: SecretCheck)
        -> (result: Result<Transfer, PlusError>)
        requires
            old(self).wf(),
        ensures
            final(self).wf(),
            match result {
                Ok(transfer) => {
                    &&& old(self).has_htlc(htlc_id)
                    &&& withdraw_error(old(self).htlc(htlc_id), ctx.now(), ctx.predecessor@, check)
                        is None
                    &&& final(self).same_books(old(self))
                    &&& final(self).partial_fills == old(self).partial_fills
                    &&& final(self).htlcs@ == old(self).htlcs@.update(
                        htlc_id - 1,
                        (FusionHTLC {
                            status: HTLCStatus::Completed,
                            secret: Some(secret),
                            ..old(self).htlc(htlc_id)
                        }),
                    )
                    &&& transfer == (Transfer {
                        to: ctx.predecessor,
                        amount: old(self).htlc(htlc_id).total_amount,
                        token: None,
                    })
                },
                Err(e) => {
                    &&& *final(self) == *old(self)
                    &&& Some(e) == (if old(self).has_htlc(htlc_id) {
                        withdraw_error(old(self).htlc(htlc_id), ctx.now(), ctx.predecessor@, check)
                    } else {
                        Some(PlusError::HtlcNotFound)
                    })
                },
            },
    {
        let index = match self.htlc_index(htlc_id) {
            Some(i) => i,
            None => { return Err(PlusError::HtlcNotFound); },
        };
        let htlc = &self.htlcs[index];
        if !(htlc.status == HTLCStatus::Active || htlc.status == HTLCStatus::PartiallyFilled) {
            return Err(PlusError::NotActive);
        }
        if ctx.now_seconds() >= htlc.timelock {
            return Err(PlusError::Expired);
        }
        if ctx.predecessor != htlc.receiver {
            return Err(PlusError::NotReceiver);
        }
        if htlc.allow_partial_fills {
            return Err(PlusError::UsePartialWithdraw);
        }
        match check {
            SecretCheck::Malformed => { return Err(PlusError::InvalidHexSecret); },
            SecretCheck::Mismatch => { return Err(PlusError::InvalidSecret); },
            SecretCheck::Valid => {},
        }
        let transfer = Transfer {
            to: ctx.predecessor.clone(),
            amount: htlc.total_amount,
            token: None,
        };
        self.htlcs[index].status = HTLCStatus::Completed;
        self.htlcs[index].secret = Some(secret);
        proof {
            self.lemma_wf_after_htlc_change(old(self));
        }
        Ok(transfer)
    }

    /// Withdraws the whole of HTLC `htlc_id` by revealing the hex-encoded
    /// `secret`: decodes and hashes the secret, compares the digest with the
    /// hashlock and settles accordingly.
    pub fn withdraw(&mut self, ctx: &CallContext, htlc_id: u64, secret: String) -> (result: Result<
        Transfer,
        PlusError,
    >)
        requires
            old(self).wf(),
        ensures
            final(self).wf(),
            match result {
                Ok(transfer) => {
                    &&& old(self).has_htlc(htlc_id)
                    &&& hex_secret_check(secret@, old(self).htlc(htlc_id).hashlock@)
                        == SecretCheck::Valid
                    &&& withdraw_error(
                        old(self).htlc(htlc_id),
                        ctx.now(),
                        ctx.predecessor@,
                        SecretCheck::Valid,
                    ) is None
                    &&& final(self).same_books(old(self))
                    &&& final(self).partial_fills == old(self).partial_fills
                    &&& final(self).htlcs@ == old(self).htlcs@.update(
                        htlc_id - 1,
                        (FusionHTLC {
                            status: HTLCStatus::Completed,
                            secret: Some(secret),
                            ..old(self).htlc(htlc_id)
                        }),
                    )
                    &&& transfer == (Transfer {
                        to: ctx.predecessor,
                        amount: old(self).htlc(htlc_id).total_amount,
                        token: None,
                    })
                },
                Err(e) => {
                    &&& *final(self) == *old(self)
                    &&& Some(e) == (if old(self).has_htlc(htlc_id) {
                        withdraw_error(
                            old(self).htlc(htlc_id),
                            ctx.now(),
                            ctx.predecessor@,
                            hex_secret_check(secret@, old(self).htlc(htlc_id).hashlock@),
                        )
                    } else {
                        Some(PlusError::HtlcNotFound)
                    })
                },
            },
    {
        let check = match self.htlc_index(htlc_id) {
            Some(i) => check_hex_secret(&secret, &self.htlcs[i].hashlock),
            None => SecretCheck::Malformed,
        };
        self.settle(ctx, htlc_id, secret, check)
    }

    /// Takes a fill of `fill_amount` against HTLC `htlc_id` for the caller,
    /// who must have attached at least that much. The fill reserves its amount:
    /// what remains of the HTLC shrinks by it and what is filled grows by it,
    /// and the HTLC is partially filled. Returns the id of the fill and the
    /// excess of the deposit.
    pub fn create_partial_fill(&mut self, ctx: &CallContext, htlc_id: u64, fill_amount: u128) -> (result:
        Result<FillReceipt, PlusError>)
        requires
            old(self).wf(),
            old(self).next_fill_id < u64::MAX,
        ensures
            final(self).wf(),
            match result {
                Ok(receipt) => {
                    let before = old(self).htlc(htlc_id);
                    &&& old(self).has_htlc(htlc_id)
                    &&& fill_error(before, ctx.now(), ctx.attached_deposit, fill_amount) is None
                    &&& receipt.fill_id == old(self).next_fill_id
                    &&& receipt.excess == ctx.attached_deposit - fill_amount
                    &&& final(self).next_fill_id == receipt.fill_id + 1
                    &&& final(self).next_htlc_id == old(self).next_htlc_id
                    &&& final(self).next_deposit_id == old(self).next_deposit_id
                    &&& final(self).total_volume == old(self).total_volume
                    &&& final(self).total_htlcs_created == old(self).total_htlcs_created
                    &&& final(self).safety_deposits == old(self).safety_deposits
                    &&& final(self).partial_fills@ == old(self).partial_fills@.push(
                        (PartialFill {
                            id: receipt.fill_id,
                            htlc_id,
                            filler: ctx.predecessor,
                            amount: fill_amount,
                            status: FillStatus::Pending,
                            created_at: ctx.now(),
                        }),
                    )
                    &&& final(self).htlcs@ == old(self).htlcs@.update(
                        htlc_id - 1,
                        (FusionHTLC {
                            filled_amount: (before.filled_amount + fill_amount) as u128,
                            remaining_amount: (before.remaining_amount - fill_amount) as u128,
                            status: HTLCStatus::PartiallyFilled,
                            ..before
                        }),
                    )
                },
                Err(e) => {
                    &&& *final(self) == *old(self)
                    &&& Some(e) == (if old(self).has_htlc(htlc_id) {
                        fill_error(
                            old(self).htlc(htlc_id),
                            ctx.now(),
                            ctx.attached_deposit,
                            fill_amount,
                        )
                    } else {
                        Some(PlusError::HtlcNotFound)
                    })
                },
            },
    {
        let index = match self.htlc_index(htlc_id) {
            Some(i) => i,
            None => { return Err(PlusError::HtlcNotFound); },
        };
        let htlc = &self.htlcs[index];
        assert(self.htlc_ok(index as int));
        if !htlc.allow_partial_fills {
            return Err(PlusError::PartialFillsNotAllowed);
        }
        if !(htlc.status == HTLCStatus::Active || htlc.status == HTLCStatus::PartiallyFilled) {
            return Err(PlusError::NotActive);
        }
        let current_time = ctx.now_seconds();
        if current_time >= htlc.timelock {
            return Err(PlusError::Expired);
        }
        if fill_amount < htlc.min_fill_amount {
            return Err(PlusError::BelowMinimum);
        }
        if fill_amount > htlc.remaining_amount {
            return Err(PlusError::ExceedsRemaining);
        }
        if ctx.attached_deposit < fill_amount {
            return Err(PlusError::InsufficientDeposit);
        }
        let fill_id: u64 = self.next_fill_id;
        let fill = PartialFill {
            id: fill_id,
            htlc_id,
            filler: ctx.predecessor.clone(),
            amount: fill_amount,
            status: FillStatus::Pending,
            created_at: current_time,
        };
        let remaining = htlc.remaining_amount - fill_amount;
        let filled = htlc.filled_amount + fill_amount;
        let ghost old_res = reservations(self.partial_fills@);
        let ghost added = Reservation { order_id: htlc_id, amount: fill_amount, live: true };
        self.partial_fills.push(fill);
        self.next_fill_id = fill_id + 1;
        self.htlcs[index].remaining_amount = remaining;
        self.htlcs[index].filled_amount = filled;
        self.htlcs[index].status = HTLCStatus::PartiallyFilled;
        proof {
            assert(reservations(self.partial_fills@) =~= old_res.push(added));
            assert forall|i: int| 0 <= i < self.htlcs@.len() implies self.htlc_ok(i) by {
                assert(old(self).htlc_ok(i));
                lemma_reserved_push(old_res, added, self.htlcs@[i].id);
            }
            assert forall|i: int| 0 <= i < self.partial_fills@.len() implies self.fill_ok(i) by {
                if i < old(self).partial_fills@.len() {
                    assert(old(self).fill_ok(i));
                }
            }
        }
        Ok(FillReceipt { fill_id, excess: ctx.attached_deposit - fill_amount })
    }

    /// Claims fill `fill_id` of HTLC `htlc_id` for the caller, given the
    /// outcome `check` of checking the revealed `secret` against the hashlock:
    /// the receiver gets the amount of the fill before the deadline and the
    /// fill is completed. The HTLC keeps the first secret that settles one of
    /// its fills; once nothing remains of it and none of its fills is pending,
    /// it is completed. A rejected claim changes nothing.
    pub fn settle_partial(
        &mut self,
        ctx: &CallContext,
        htlc_id: u64,
        fill_id: u64,
        secret: String,
        check: SecretCheck,
    ) -> (result: Result<Transfer, PlusError>)
        requires
            old(self).wf(),
        ensures
            final(self).wf(),
            match result {
                Ok(transfer) => {
                    let htlc = old(self).htlc(htlc_id);
                    let fill = old(self).fill_of(htlc_id, fill_id).unwrap();
                    &&& old(self).has_htlc(htlc_id)
                    &&& claim_error(
                        htlc,
                        old(self).fill_of(htlc_id, fill_id),
                        ctx.now(),
                        ctx.predecessor@,
                        check,
                    ) is None
                    &&& final(self).same_books(old(self))
                    &&& final(self).partial_fills@ == old(self).partial_fills@.update(
                        fill_id - 1,
                        (PartialFill { status: FillStatus::Completed, ..fill }),
                    )
                    &&& final(self).htlcs@ == old(self).htlcs@.update(
                        htlc_id - 1,
                        (FusionHTLC {
                            status: if is_open(htlc.status) && htlc.remaining_amount == 0 && final(self).all_fills_settled(htlc_id) {
                                HTLCStatus::Completed
                            } else {
                                htlc.status
                            },
                            secret: if htlc.secret is None {
                                Some(secret)
                            } else {
                                htlc.secret
                            },
                            ..htlc
                        }),
                    )
                    &&& transfer == (Transfer { to: ctx.predecessor, amount: fill.amount, token: None })
                },
                Err(e) => {
                    &&& *final(self) == *old(self)
                    &&& Some(e) == (if old(self).has_htlc(htlc_id) {
                        claim_error(
                            old(self).htlc(htlc_id),
                            old(self).fill_of(htlc_id, fill_id),
                            ctx.now(),
                            ctx.predecessor@,
                            check,
                        )
                    } else {
                        Some(PlusError::HtlcNotFound)
                    })
                },
            },
    {
        let index = match self.htlc_index(htlc_id) {
            Some(i) => i,
            None => { return Err(PlusError::HtlcNotFound); },
        };
        let htlc = &self.htlcs[index];
        if ctx.predecessor != htlc.receiver {
            return Err(PlusError::NotReceiver);
        }
        if ctx.now_seconds() >= htlc.timelock {
            return Err(PlusError::Expired);
        }
        match check {
            SecretCheck::Malformed => { return Err(PlusError::InvalidHexSecret); },
            SecretCheck::Mismatch => { return Err(PlusError::InvalidSecret); },
            SecretCheck::Valid => {},
        }
        if !htlc.allow_partial_fills {
            return Err(PlusError::NoFills);
        }
        let fill_index = match self.fill_index(htlc_id, fill_id) {
            Some(i) => i,
            None => { return Err(PlusError::FillNotFound); },
        };
        if self.partial_fills[fill_index].status != FillStatus::Pending {
            return Err(PlusError::FillAlreadyProcessed);
        }
        let amount = self.partial_fills[fill_index].amount;
        let candidate = (htlc.status == HTLCStatus::Active || htlc.status
            == HTLCStatus::PartiallyFilled) && htlc.remaining_amount == 0;
        let first = htlc.secret.is_none();
        let ghost old_res = reservations(self.partial_fills@);
        self.partial_fills[fill_index].status = FillStatus::Completed;
        proof {
            assert(reservations(self.partial_fills@) =~= old_res);
        }
        if candidate {
            if self.all_fills_completed(htlc_id) {
                self.htlcs[index].status = HTLCStatus::Completed;
            }
        }
        if first {
            self.htlcs[index].secret = Some(secret);
        }
        proof {
            assert forall|i: int| 0 <= i < self.htlcs@.len() implies self.htlc_ok(i) by {
                assert(old(self).htlc_ok(i));
            }
            assert forall|i: int| 0 <= i < self.partial_fills@.len() implies self.fill_ok(i) by {
                assert(old(self).fill_ok(i));
            }
            let htlc = old(self).htlc(htlc_id);
            assert(self.htlcs@ =~= old(self).htlcs@.update(
                htlc_id - 1,
                FusionHTLC {
                    status: if is_open(htlc.status) && htlc.remaining_amount == 0
                        && self.all_fills_settled(htlc_id) {
                        HTLCStatus::Completed
                    } else {
                        htlc.status
                    },
                    secret: if htlc.secret is None {
                        Some(secret)
                    } else {
                        htlc.secret
                    },
                    ..htlc
                },
            ));
        }
        Ok(Transfer { to: ctx.predecessor.clone(), amount, token: None })
    }

    /// Claims fill `fill_id` of HTLC `htlc_id` by revealing the hex-encoded
    /// `secret`: decodes and hashes the secret, compares the digest with the
    /// hashlock and settles accordingly.
    pub fn withdraw_partial(&mut self, ctx: &CallContext, htlc_id: u64, fill_id: u64, secret: String)
        -> (result: Result<Transfer, PlusError>)
        requires
            old(self).wf(),
        ensures
            final(self).wf(),
            match result {
                Ok(transfer) => {
                    let htlc = old(self).htlc(htlc_id);
                    let fill = old(self).fill_of(htlc_id, fill_id).unwrap();
                    &&& old(self).has_htlc(htlc_id)
                    &&& hex_secret_check(secret@, htlc.hashlock@) == SecretCheck::Valid
                    &&& claim_error(
                        htlc,
                        old(self).fill_of(htlc_id, fill_id),
                        ctx.now(),
                        ctx.predecessor@,
                        SecretCheck::Valid,
                    ) is None
                    &&& final(self).same_books(old(self))
                    &&& final(self).partial_fills@ == old(self).partial_fills@.update(
                        fill_id - 1,
                        (PartialFill { status: FillStatus::Completed, ..fill }),
                    )
                    &&& final(self).htlcs@ == old(self).htlcs@.update(
                        htlc_id - 1,
                        (FusionHTLC {
                            status: if is_open(htlc.status) && htlc.remaining_amount == 0 && final(self).all_fills_settled(htlc_id) {
                                HTLCStatus::Completed
                            } else {
                                htlc.status
                            },
                            secret: if htlc.secret is None {
                                Some(secret)
                            } else {
                                htlc.secret
                            },
                            ..htlc
                        }),
                    )
                    &&& transfer == (Transfer { to: ctx.predecessor, amount: fill.amount, token: None })
                },
                Err(e) => {
                    &&& *final(self) == *old(self)
                    &&& Some(e) == (if old(self).has_htlc(htlc_id) {
                        claim_error(
                            old(self).htlc(htlc_id),
                            old(self).fill_of(htlc_id, fill_id),
                            ctx.now(),
                            ctx.predecessor@,
                            hex_secret_check(secret@, old(self).htlc(htlc_id).hashlock@),
                        )
                    } else {
                        Some(PlusError::HtlcNotFound)
                    })
                },
            },
    {
        let check = match self.htlc_index(htlc_id) {
            Some(i) => check_hex_secret(&secret, &self.htlcs[i].hashlock),
            None => SecretCheck::Malformed,
        };
        self.settle_partial(ctx, htlc_id, fill_id, secret, check)
    }

    /// Refunds HTLC `htlc_id` to its sender, who must be the caller, once the
    /// deadline has passed: what remains of it where it takes partial fills,
    /// the whole amount otherwise. An HTLC that is completed or refunded is
    /// not refunded again.
    pub fn refund(&mut self, ctx: &CallContext, htlc_id: u64) -> (result: Result<Transfer, PlusError>)
        requires
            old(self).wf(),
        ensures
            final(self).wf(),
            match result {
                Ok(transfer) => {
                    &&& old(self).has_htlc(htlc_id)
                    &&& refund_error(old(self).htlc(htlc_id), ctx.now(), ctx.predecessor@) is None
                    &&& final(self).same_books(old(self))
                    &&& final(self).partial_fills == old(self).partial_fills
                    &&& final(self).htlcs@ == old(self).htlcs@.update(
                        htlc_id - 1,
                        (FusionHTLC { status: HTLCStatus::Refunded, ..old(self).htlc(htlc_id) }),
                    )
                    &&& transfer == (Transfer {
                        to: ctx.predecessor,
                        amount: refund_amount(old(self).htlc(htlc_id)),
                        token: None,
                    })
                },
                Err(e) => {
                    &&& *final(self) == *old(self)
                    &&& Some(e) == (if old(self).has_htlc(htlc_id) {
                        refund_error(old(self).htlc(htlc_id), ctx.now(), ctx.predecessor@)
                    } else {
                        Some(PlusError::HtlcNotFound)
                    })
                },
            },
    {
        let index = match self.htlc_index(htlc_id) {
            Some(i) => i,
            None => { return Err(PlusError::HtlcNotFound); },
        };
        let htlc = &self.htlcs[index];
        if ctx.predecessor != htlc.sender {
            return Err(PlusError::NotSender);
        }
        if ctx.now_seconds() < htlc.timelock {
            return Err(PlusError::NotExpired);
        }
        if !(htlc.status == HTLCStatus::Active || htlc.status == HTLCStatus::PartiallyFilled) {
            return Err(PlusError::AlreadyProcessed);
        }
        let amount = if htlc.allow_partial_fills {
            htlc.remaining_amount
        } else {
            htlc.total_amount
        };
        self.htlcs[index].status = HTLCStatus::Refunded;
        proof {
            self.lemma_wf_after_htlc_change(old(self));
        }
        Ok(Transfer { to: ctx.predecessor.clone(), amount, token: None })
    }

    /// Refunds fill `fill_id` of HTLC `htlc_id` to its filler, who must be the
    /// caller, once the deadline has passed and while the fill is pending. What
    /// the fill reserved is given back to an HTLC that is still open; the books
    /// of a completed or refunded HTLC do not change.
    pub fn refund_partial_fill(&mut self, ctx: &CallContext, htlc_id: u64, fill_id: u64) -> (result:
        Result<Transfer, PlusError>)
        requires
            old(self).wf(),
        ensures
            final(self).wf(),
            match result {
                Ok(transfer) => {
                    let htlc = old(self).htlc(htlc_id);
                    let fill = old(self).fill_of(htlc_id, fill_id).unwrap();
                    &&& old(self).has_htlc(htlc_id)
                    &&& fill_refund_error(
                        htlc,
                        old(self).fill_of(htlc_id, fill_id),
                        ctx.now(),
                        ctx.predecessor@,
                    ) is None
                    &&& final(self).same_books(old(self))
                    &&& final(self).partial_fills@ == old(self).partial_fills@.update(
                        fill_id - 1,
                        (PartialFill { status: FillStatus::Refunded, ..fill }),
                    )
                    &&& final(self).htlcs@ == old(self).htlcs@.update(
                        htlc_id - 1,
                        if is_open(htlc.status) {
                            FusionHTLC {
                                filled_amount: (htlc.filled_amount - fill.amount) as u128,
                                remaining_amount: (htlc.remaining_amount + fill.amount) as u128,
                                ..htlc
                            }
                        } else {
                            htlc
                        },
                    )
                    &&& transfer == (Transfer { to: ctx.predecessor, amount: fill.amount, token: None })
                },
                Err(e) => {
                    &&& *final(self) == *old(self)
                    &&& Some(e) == (if old(self).has_htlc(htlc_id) {
                        fill_refund_error(
                            old(self).htlc(htlc_id),
                            old(self).fill_of(htlc_id, fill_id),
                            ctx.now(),
                            ctx.predecessor@,
                        )
                    } else {
                        Some(PlusError::HtlcNotFound)
                    })
                },
            },
    {
        let index = match self.htlc_index(htlc_id) {
            Some(i) => i,
            None => { return Err(PlusError::HtlcNotFound); },
        };
        let htlc = &self.htlcs[index];
        assert(self.htlc_ok(index as int));
        if ctx.now_seconds() < htlc.timelock {
            return Err(PlusError::NotExpired);
        }
        if !htlc.allow_partial_fills {
            return Err(PlusError::NoFills);
        }
        let fill_index = match self.fill_index(htlc_id, fill_id) {
            Some(i) => i,
            None => { return Err(PlusError::FillNotFound); },
        };
        let fill = &self.partial_fills[fill_index];
        if fill.status != FillStatus::Pending {
            return Err(PlusError::FillAlreadyProcessed);
        }
        if ctx.predecessor != fill.filler {
            return Err(PlusError::NotFiller);
        }
        let amount = fill.amount;
        let open = htlc.status == HTLCStatus::Active || htlc.status == HTLCStatus::PartiallyFilled;
        let filled = htlc.filled_amount;
        let remaining = htlc.remaining_amount;
        let ghost old_res = reservations(self.partial_fills@);
        let ghost released = Reservation { order_id: htlc_id, amount, live: false };
        proof {
            lemma_reserved_bound(old_res, fill_index as int, htlc_id);
        }
        self.partial_fills[fill_index].status = FillStatus::Refunded;
        if open {
            self.htlcs[index].filled_amount = filled - amount;
            self.htlcs[index].remaining_amount = remaining + amount;
        }
        proof {
            assert(reservations(self.partial_fills@) =~= old_res.update(
                fill_index as int,
                released,
            ));
            assert forall|i: int| 0 <= i < self.htlcs@.len() implies self.htlc_ok(i) by {
                assert(old(self).htlc_ok(i));
                lemma_reserved_update(old_res, fill_index as int, released, self.htlcs@[i].id);
            }
            assert forall|i: int| 0 <= i < self.partial_fills@.len() implies self.fill_ok(i) by {
                assert(old(self).fill_ok(i));
            }
            let before = old(self).htlc(htlc_id);
            assert(self.htlcs@ =~= old(self).htlcs@.update(
                htlc_id - 1,
                if is_open(before.status) {
                    FusionHTLC {
                        filled_amount: (before.filled_amount - amount) as u128,
                        remaining_amount: (before.remaining_amount + amount) as u128,
                        ..before
                    }
                } else {
                    before
                },
            ));
        }
        Ok(Transfer { to: ctx.predecessor.clone(), amount, token: None })
    }

    /// Records the attached deposit as collateral of the caller for HTLC
    /// `htlc_id`, which must ask for one and for no more than was attached, and
    /// returns the id of the deposit.
    pub fn create_safety_deposit(&mut self, ctx: &CallContext, htlc_id: u64) -> (result: Result<
        u64,
        PlusError,
    >)
        requires
            old(self).wf(),
            old(self).next_deposit_id < u64::MAX,
        ensures
            final(self).wf(),
            final(self).htlcs == old(self).htlcs,
            final(self).partial_fills == old(self).partial_fills,
            match result {
                Ok(deposit_id) => {
                    &&& old(self).has_htlc(htlc_id)
                    &&& old(self).htlc(htlc_id).safety_deposit_amount > 0
                    &&& ctx.attached_deposit >= old(self).htlc(htlc_id).safety_deposit_amount
                    &&& deposit_id == old(self).next_deposit_id
                    &&& final(self).next_deposit_id == deposit_id + 1
                    &&& final(self).safety_deposits@ == old(self).safety_deposits@.push(
                        (SafetyDeposit {
                            id: deposit_id,
                            htlc_id,
                            depositor: ctx.predecessor,
                            amount: ctx.attached_deposit,
                            created_at: ctx.now(),
                        }),
                    )
                },
                Err(e) => {
                    &&& *final(self) == *old(self)
                    &&& e == (if !old(self).has_htlc(htlc_id) {
                        PlusError::HtlcNotFound
                    } else if old(self).htlc(htlc_id).safety_deposit_amount == 0 {
                        PlusError::DepositNotRequired
                    } else {
                        PlusError::InsufficientDeposit
                    })
                    &&& old(self).has_htlc(htlc_id) && old(self).htlc(htlc_id).safety_deposit_amount
                        > 0 ==> ctx.attached_deposit < old(self).htlc(htlc_id).safety_deposit_amount
                },
            },
    {
        let index = match self.htlc_index(htlc_id) {
            Some(i) => i,
            None => { return Err(PlusError::HtlcNotFound); },
        };
        let required = self.htlcs[index].safety_deposit_amount;
        if required == 0 {
            return Err(PlusError::DepositNotRequired);
        }
        if ctx.attached_deposit < required {
            return Err(PlusError::InsufficientDeposit);
        }
        let deposit_id: u64 = self.next_deposit_id;
        let deposit = SafetyDeposit {
            id: deposit_id,
            htlc_id,
            depositor: ctx.predecessor.clone(),
            amount: ctx.attached_deposit,
            created_at: ctx.now_seconds(),
        };
        self.safety_deposits.push(deposit);
        self.next_deposit_id = deposit_id + 1;
        proof {
            assert forall|i: int| 0 <= i < self.htlcs@.len() implies self.htlc_ok(i) by {
                assert(old(self).htlc_ok(i));
            }
            assert forall|i: int| 0 <= i < self.partial_fills@.len() implies self.fill_ok(i) by {
                assert(old(self).fill_ok(i));
            }
        }
        Ok(deposit_id)
    }

    /// Returns deposit `deposit_id` to the depositor, who must be the caller,
    /// and forgets it: a deposit is claimed at most once.
    pub fn claim_safety_deposit(&mut self, ctx: &CallContext, deposit_id: u64) -> (result: Result<
        Transfer,
        PlusError,
    >)
        requires
            old(self).wf(),
        ensures
            final(self).wf(),
            final(self).htlcs == old(self).htlcs,
            final(self).partial_fills == old(self).partial_fills,
            final(self).next_deposit_id == old(self).next_deposit_id,
            match result {
                Ok(transfer) => {
                    let k = find_deposit(old(self).safety_deposits@, deposit_id);
                    &&& k >= 0
                    &&& ctx.predecessor@ == old(self).safety_deposits@[k].depositor@
                    &&& final(self).safety_deposits@ == old(self).safety_deposits@.remove(k)
                    &&& find_deposit(final(self).safety_deposits@, deposit_id) == -1
                    &&& transfer == (Transfer {
                        to: ctx.predecessor,
                        amount: old(self).safety_deposits@[k].amount,
                        token: None,
                    })
                },
                Err(e) => {
                    let k = find_deposit(old(self).safety_deposits@, deposit_id);
                    &&& *final(self) == *old(self)
                    &&& if k < 0 {
                        e == PlusError::DepositNotFound
                    } else {
                        e == PlusError::NotDepositor && ctx.predecessor@
                            != old(self).safety_deposits@[k].depositor@
                    }
                },
            },
    {
        let k = match self.locate_deposit(deposit_id) {
            Some(k) => k,
            None => { return Err(PlusError::DepositNotFound); },
        };
        if ctx.predecessor != self.safety_deposits[k].depositor {
            return Err(PlusError::NotDepositor);
        }
        let ghost before = self.safety_deposits@;
        let amount = self.safety_deposits[k].amount;
        let _ = self.safety_deposits.remove(k);
        proof {
            let after = self.safety_deposits@;
            assert forall|j: int| 0 <= j < after.len() implies #[trigger] after[j] == (if j < k {
                before[j]
            } else {
                before[j + 1]
            }) by {}
            assert forall|j: int| 0 <= j < after.len() implies (#[trigger] after[j]).id
                != deposit_id by {
                if j < k {
                    assert(before[j].id < before[k as int].id);
                } else {
                    assert(before[k as int].id < before[j + 1].id);
                }
            }
            assert forall|i: int, j: int| 0 <= i < j < after.len() implies (#[trigger] after[i]).id
                < (#[trigger] after[j]).id by {
                let a = if i < k { i } else { i + 1 };
                let b = if j < k { j } else { j + 1 };
                assert(before[a].id < before[b].id);
            }
            lemma_find_deposit(after, deposit_id, 0);
            assert forall|i: int| 0 <= i < self.htlcs@.len() implies self.htlc_ok(i) by {
                assert(old(self).htlc_ok(i));
            }
            assert forall|i: int| 0 <= i < self.partial_fills@.len() implies self.fill_ok(i) by {
                assert(old(self).fill_ok(i));
            }
        }
        Ok(Transfer { to: ctx.predecessor.clone(), amount, token: None })
    }

    /// The HTLC with the given id, if there is one.
    pub fn get_htlc(&self, htlc_id: u64) -> (htlc: Option<&FusionHTLC>)
        requires
            self.wf(),
        ensures
            htlc.is_some() == self.has_htlc(htlc_id),
            htlc matches Some(h) ==> *h == self.htlc(htlc_id),
    {
        match self.htlc_index(htlc_id) {
            Some(i) => Some(&self.htlcs[i]),
            None => None,
        }
    }

    /// The id of the latest of the first `upto` HTLCs with the given hashlock, or 0.
    pub open spec fn latest_with_hashlock(&self, hashlock: Seq<char>, upto: int) -> int
        decreases upto,
    {
        if upto <= 0 {
            0
        } else if self.htlcs@[upto - 1].hashlock@ == hashlock {
            upto
        } else {
            self.latest_with_hashlock(hashlock, upto - 1)
        }
    }

    /// The latest HTLC that was created with the given hashlock, if there is one.
    pub fn get_htlc_by_hashlock(&self, hashlock: &String) -> (htlc: Option<&FusionHTLC>)
        ensures
            match htlc {
                Some(h) => {
                    let id = self.latest_with_hashlock(hashlock@, self.htlcs@.len() as int);
                    &&& 1 <= id <= self.htlcs@.len()
                    &&& *h == self.htlcs@[id - 1]
                    &&& h.hashlock@ == hashlock@
                },
                None => self.latest_with_hashlock(hashlock@, self.htlcs@.len() as int) == 0,
            },
    {
        let mut i: usize = self.htlcs.len();
        while i > 0
            invariant
                i <= self.htlcs@.len(),
                self.latest_with_hashlock(hashlock@, self.htlcs@.len() as int)
                    == self.latest_with_hashlock(hashlock@, i as int),
            decreases i,
        {
            if self.htlcs[i - 1].hashlock == *hashlock {
                return Some(&self.htlcs[i - 1]);
            }
            i -= 1;
        }
        None
    }

    /// The HTLCs among the first `upto` in which `user` takes part, in order:
    /// once as the sender and once as the receiver.
    pub open spec fn user_entries(&self, user: Seq<char>, upto: int) -> Seq<FusionHTLC>
        decreases upto,
    {
        if upto <= 0 {
            Seq::empty()
        } else {
            let h = self.htlcs@[upto - 1];
            let before = self.user_entries(user, upto - 1);
            let sent = if h.sender@ == user {
                before.push(h)
            } else {
                before
            };
            if h.receiver@ == user {
                sent.push(h)
            } else {
                sent
            }
        }
    }

    /// The HTLCs among the first `upto` that are neither completed nor refunded, in order.
    pub open spec fn active_entries(&self, upto: int) -> Seq<FusionHTLC>
        decreases upto,
    {
        if upto <= 0 {
            Seq::empty()
        } else if is_open(self.htlcs@[upto - 1].status) {
            self.active_entries(upto - 1).push(self.htlcs@[upto - 1])
        } else {
            self.active_entries(upto - 1)
        }
    }

    /// The fills of HTLC `htlc_id` among the first `upto` fills, in order.
    pub open spec fn fills_of(&self, htlc_id: u64, upto: int) -> Seq<PartialFill>
        decreases upto,
    {
        if upto <= 0 {
            Seq::empty()
        } else if self.partial_fills@[upto - 1].htlc_id == htlc_id {
            self.fills_of(htlc_id, upto - 1).push(self.partial_fills@[upto - 1])
        } else {
            self.fills_of(htlc_id, upto - 1)
        }
    }

    /// The HTLCs in which `user` takes part as sender or receiver, from the
    /// `offset`-th on and at most `limit` of them.
    pub fn get_user_htlcs(&self, user: &String, offset: u64, limit: u64) -> (page: Vec<&FusionHTLC>)
        ensures
            page@.len() == page_of(
                self.user_entries(user@, self.htlcs@.len() as int),
                offset,
                limit,
            ).len(),
            forall|k: int|
                0 <= k < page@.len() ==> *(#[trigger] page@[k]) == page_of(
                    self.user_entries(user@, self.htlcs@.len() as int),
                    offset,
                    limit,
                )[k],
    {
        let mut all: Vec<&FusionHTLC> = Vec::new();
        let mut i: usize = 0;
        while i < self.htlcs.len()
            invariant
                i <= self.htlcs@.len(),
                all@.len() == self.user_entries(user@, i as int).len(),
                forall|k: int|
                    0 <= k < all@.len() ==> *(#[trigger] all@[k]) == self.user_entries(
                        user@,
                        i as int,
                    )[k],
            decreases self.htlcs@.len() - i,
        {
            if self.htlcs[i].sender == *user {
                all.push(&self.htlcs[i]);
            }
            if self.htlcs[i].receiver == *user {
                all.push(&self.htlcs[i]);
            }
            i += 1;
        }
        take_page(&all, offset, limit)
    }

    /// The HTLCs that are neither completed nor refunded, from the `offset`-th
    /// on and at most `limit` of them.
    pub fn get_active_htlcs(&self, offset: u64, limit: u64) -> (page: Vec<&FusionHTLC>)
        ensures
            page@.len() == page_of(self.active_entries(self.htlcs@.len() as int), offset, limit).len(),
            forall|k: int|
                0 <= k < page@.len() ==> *(#[trigger] page@[k]) == page_of(
                    self.active_entries(self.htlcs@.len() as int),
                    offset,
                    limit,
                )[k],
    {
        let all = self.active_list();
        take_page(&all, offset, limit)
    }

    fn active_list(&self) -> (all: Vec<&FusionHTLC>)
        ensures
            all@.len() == self.active_entries(self.htlcs@.len() as int).len(),
            forall|k: int|
                0 <= k < all@.len() ==> *(#[trigger] all@[k]) == self.active_entries(
                    self.htlcs@.len() as int,
                )[k],
    {
        let mut all: Vec<&FusionHTLC> = Vec::new();
        let mut i: usize = 0;
        while i < self.htlcs.len()
            invariant
                i <= self.htlcs@.len(),
                all@.len() == self.active_entries(i as int).len(),
                forall|k: int|
                    0 <= k < all@.len() ==> *(#[trigger] all@[k]) == self.active_entries(i as int)[k],
            decreases self.htlcs@.len() - i,
        {
            let status = self.htlcs[i].status;
            if status == HTLCStatus::Active || status == HTLCStatus::PartiallyFilled {
                all.push(&self.htlcs[i]);
            }
            i += 1;
        }
        all
    }

    /// The fills that were taken against HTLC `htlc_id`, in order.
    pub fn get_partial_fills(&self, htlc_id: u64) -> (fills: Vec<&PartialFill>)
        ensures
            fills@.len() == self.fills_of(htlc_id, self.partial_fills@.len() as int).len(),
            forall|k: int|
                0 <= k < fills@.len() ==> *(#[trigger] fills@[k]) == self.fills_of(
                    htlc_id,
                    self.partial_fills@.len() as int,
                )[k],
    {
        let mut fills: Vec<&PartialFill> = Vec::new();
        let mut i: usize = 0;
        while i < self.partial_fills.len()
            invariant
                i <= self.partial_fills@.len(),
                fills@.len() == self.fills_of(htlc_id, i as int).len(),
                forall|k: int|
                    0 <= k < fills@.len() ==> *(#[trigger] fills@[k]) == self.fills_of(
                        htlc_id,
                        i as int,
                    )[k],
            decreases self.partial_fills@.len() - i,
        {
            if self.partial_fills[i].htlc_id == htlc_id {
                fills.push(&self.partial_fills[i]);
            }
            i += 1;
        }
        fills
    }

    /// The volume locked so far, the number of HTLCs created so far, and the
    /// number of HTLCs that are neither completed nor refunded.
    pub fn get_stats(&self) -> (stats: (u128, u64, u64))
        requires
            self.wf(),
        ensures
            stats.0 == self.total_volume,
            stats.1 == self.total_htlcs_created,
            stats.2 == self.active_entries(self.htlcs@.len() as int).len(),
    {
        proof {
            self.lemma_active_bounded(self.htlcs@.len() as int);
        }
        let all = self.active_list();
        (self.total_volume, self.total_htlcs_created, all.len() as u64)
    }

    /// There are no more active HTLCs than HTLCs.
    proof fn lemma_active_bounded(&self, upto: int)
        requires
            0 <= upto,
        ensures
            self.active_entries(upto).len() <= upto,
        decreases upto,
    {
        if upto > 0 {
            self.lemma_active_bounded(upto - 1);
        }
    }

    /// Whether HTLC `htlc_id` exists, is open and has not reached its deadline.
    pub fn can_withdraw(&self, ctx: &CallContext, htlc_id: u64) -> (yes: bool)
        requires
            self.wf(),
        ensures
            yes == (self.has_htlc(htlc_id) && is_open(self.htlc(htlc_id).status) && ctx.now()
                < self.htlc(htlc_id).timelock),
    {
        match self.htlc_index(htlc_id) {
            Some(i) => {
                let htlc = &self.htlcs[i];
                (htlc.status == HTLCStatus::Active || htlc.status == HTLCStatus::PartiallyFilled)
                    && ctx.now_seconds() < htlc.timelock
            },
            None => false,
        }
    }

    /// Whether HTLC `htlc_id` exists, is open and has reached its deadline.
    pub fn can_refund(&self, ctx: &CallContext, htlc_id: u64) -> (yes: bool)
        requires
            self.wf(),
        ensures
            yes == (self.has_htlc(htlc_id) && is_open(self.htlc(htlc_id).status) && ctx.now()
                >= self.htlc(htlc_id).timelock),
    {
        match self.htlc_index(htlc_id) {
            Some(i) => {
                let htlc = &self.htlcs[i];
                htlc.status != HTLCStatus::Completed && htlc.status != HTLCStatus::Refunded
                    && ctx.now_seconds() >= htlc.timelock
            },
            None => false,
        }
    }

    /// The books of every HTLC balance: what is filled and what remains add
    /// up to the total, and the live fills reserve no more than what is filled.
    pub proof fn lemma_books_balance(&self, htlc_id: u64)
        requires
            self.wf(),
            self.has_htlc(htlc_id),
        ensures
            self.htlc(htlc_id).filled_amount + self.htlc(htlc_id).remaining_amount == self.htlc(
                htlc_id,
            ).total_amount,
            reserved(reservations(self.partial_fills@), htlc_id) <= self.htlc(htlc_id).filled_amount,
    {
        assert(self.htlc_ok(htlc_id - 1));
    }

    /// No fill reserves anything of an HTLC that does not exist yet.
    proof fn lemma_nothing_reserved(&self, htlc_id: u64)
        requires
            self.wf(),
            htlc_id > self.htlcs@.len(),
        ensures
            reserved(reservations(self.partial_fills@), htlc_id) == 0,
    {
        let rs = reservations(self.partial_fills@);
        assert forall|i: int| 0 <= i < rs.len() implies contribution(#[trigger] rs[i], htlc_id)
            == 0 by {
            assert(self.fill_ok(i));
        }
        lemma_no_contribution(rs, htlc_id);
    }

    /// The invariant survives a change of the HTLCs that keeps their ids and
    /// books, while the fills stay as they are.
    proof fn lemma_wf_after_htlc_change(&self, before: &FusionPlusContract)
        requires
            before.wf(),
            self.partial_fills == before.partial_fills,
            self.safety_deposits == before.safety_deposits,
            self.next_htlc_id == before.next_htlc_id,
            self.next_fill_id == before.next_fill_id,
            self.next_deposit_id == before.next_deposit_id,
            self.htlcs@.len() == before.htlcs@.len(),
            forall|i: int|
                0 <= i < self.htlcs@.len() ==> {
                    &&& (#[trigger] self.htlcs@[i]).id == before.htlcs@[i].id
                    &&& self.htlcs@[i].filled_amount == before.htlcs@[i].filled_amount
                    &&& self.htlcs@[i].remaining_amount == before.htlcs@[i].remaining_amount
                    &&& self.htlcs@[i].total_amount == before.htlcs@[i].total_amount
                },
        ensures
            self.wf(),
    {
        assert forall|i: int| 0 <= i < self.htlcs@.len() implies self.htlc_ok(i) by {
            assert(before.htlc_ok(i));
        }
        assert forall|i: int| 0 <= i < self.partial_fills@.len() implies self.fill_ok(i) by {
            assert(before.fill_ok(i));
        }
    }
}

/// The page of `entries` that starts at the `offset`-th entry and holds at
/// most `limit` entries.
pub open spec fn page_of<T>(entries: Seq<T>, offset: u64, limit: u64) -> Seq<T> {
    let start = if offset <= entries.len() {
        offset as int
    } else {
        entries.len() as int
    };
    let end = if start + limit <= entries.len() {
        start + limit
    } else {
        entries.len() as int
    };
    entries.subrange(start, end)
}

/// Cuts the page that starts at the `offset`-th entry and holds at most
/// `limit` entries out of `entries`.
pub fn take_page<'a, T>(entries: &Vec<&'a T>, offset: u64, limit: u64) -> (page: Vec<&'a T>)
    ensures
        page@ == page_of(entries@, offset, limit),
{
    let count = entries.len();
    let start: usize = if offset <= count as u64 {
        offset as usize
    } else {
        count
    };
    let room = count - start;
    let end: usize = if limit <= room as u64 {
        start + limit as usize
    } else {
        count
    };
    let mut page: Vec<&'a T> = Vec::new();
    let mut i: usize = start;
    while i < end
        invariant
            start <= i <= end <= entries@.len(),
            page@ == entries@.subrange(start as int, i as int),
        decreases end - i,
    {
        page.push(entries[i]);
        i += 1;
    }
    page
}

} // verus!
