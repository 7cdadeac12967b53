//! Hash-time-locked contracts that several fillers can fill in parts. Each
//! fill reserves a part of the amount; a single secret settles every fill.

use vstd::prelude::*;
use vstd::utf8::encode_utf8;
use crate::fill_ledger::{
    balanced, contribution, lemma_no_contribution, lemma_reserved_bound, lemma_reserved_push,
    lemma_reserved_update, reserved, Reservation,
};
use crate::hashing::{
    byte_len, check_hex_secret, hex_encode, hex_encode_bytes, hex_secret_check, sha256,
    sha256_digest, SecretCheck,
};
use crate::ledger::{decimal_digits, CallContext, Transfer};

verus! {

/// The shortest timelock accepted, in seconds: one hour.
pub const MIN_TIMELOCK: u64 = 3600;

/// The longest timelock accepted, in seconds: thirty days.
pub const MAX_TIMELOCK: u64 = 2592000;

/// Why an operation was rejected.
#[derive(Clone, Copy, Debug, PartialEq, Eq, Structural)]
pub enum PartialError {
    ZeroAmount,
    InvalidHashlockLength,
    InvalidTimelock,
    InvalidMinimumFill,
    HtlcNotFound,
    PartialFillsNotAllowed,
    AlreadyWithdrawn,
    AlreadyRefunded,
    Expired,
    NotExpired,
    BelowMinimum,
    ExceedsRemaining,
    InsufficientDeposit,
    FillNotFound,
    FillAlreadyClaimed,
    FillAlreadyRefunded,
    NotReceiver,
    NotFiller,
    InvalidHexSecret,
    InvalidSecret,
}

impl PartialError {
    /// The text of the message that describes the error.
    pub open spec fn text(self) -> Seq<char> {
        match self {
            PartialError::ZeroAmount => "Amount must be greater than 0"@,
            PartialError::InvalidHashlockLength => "Invalid hashlock length"@,
            PartialError::InvalidTimelock => "Timelock must be between 1 hour and 30 days"@,
            PartialError::InvalidMinimumFill => "Invalid minimum fill amount"@,
            PartialError::HtlcNotFound => "HTLC not found"@,
            PartialError::PartialFillsNotAllowed => "Partial fills not allowed"@,
            PartialError::AlreadyWithdrawn => "HTLC already withdrawn"@,
            PartialError::AlreadyRefunded => "HTLC already refunded"@,
            PartialError::Expired => "HTLC expired"@,
            PartialError::NotExpired => "HTLC not expired"@,
            PartialError::BelowMinimum => "Fill amount below minimum"@,
            PartialError::ExceedsRemaining => "Fill amount exceeds remaining"@,
            PartialError::InsufficientDeposit => "Insufficient deposit"@,
            PartialError::FillNotFound => "Fill not found"@,
            PartialError::FillAlreadyClaimed => "Fill already claimed"@,
            PartialError::FillAlreadyRefunded => "Fill already refunded"@,
            PartialError::NotReceiver => "Not the receiver"@,
            PartialError::NotFiller => "Not the filler"@,
            PartialError::InvalidHexSecret => "Invalid hex secret"@,
            PartialError::InvalidSecret => "Invalid secret"@,
        }
    }

    /// The message that describes the error.
    pub fn message(&self) -> (message: &'static str)
        ensures
            message@ == self.text(),
    {
        match self {
            PartialError::ZeroAmount => "Amount must be greater than 0",
            PartialError::InvalidHashlockLength => "Invalid hashlock length",
            PartialError::InvalidTimelock => "Timelock must be between 1 hour and 30 days",
            PartialError::InvalidMinimumFill => "Invalid minimum fill amount",
            PartialError::HtlcNotFound => "HTLC not found",
            PartialError::PartialFillsNotAllowed => "Partial fills not allowed",
            PartialError::AlreadyWithdrawn => "HTLC already withdrawn",
            PartialError::AlreadyRefunded => "HTLC already refunded",
            PartialError::Expired => "HTLC expired",
            PartialError::NotExpired => "HTLC not expired",
            PartialError::BelowMinimum => "Fill amount below minimum",
            PartialError::ExceedsRemaining => "Fill amount exceeds remaining",
            PartialError::InsufficientDeposit => "Insufficient deposit",
            PartialError::FillNotFound => "Fill not found",
            PartialError::FillAlreadyClaimed => "Fill already claimed",
            PartialError::FillAlreadyRefunded => "Fill already refunded",
            PartialError::NotReceiver => "Not the receiver",
            PartialError::NotFiller => "Not the filler",
            PartialError::InvalidHexSecret => "Invalid hex secret",
            PartialError::InvalidSecret => "Invalid secret",
        }
    }
}

/// Collateral that a resolver posted for an HTLC.
#[derive(Clone, Debug, PartialEq, Eq)]
pub struct SafetyDeposit {
    pub id: u64,
    pub htlc_id: u64,
    pub resolver: String,
    pub amount: u128,
    pub created_at: u64,
}

/// One fill against an HTLC. A fill is pending until it is claimed by the
/// receiver or refunded to the filler; it is never removed.
#[derive(Clone, Debug, PartialEq, Eq)]
pub struct PartialFill {
    pub fill_id: u64,
    pub htlc_id: u64,
    pub filler: String,
    pub amount: u128,
    /// A tag that is unique to the fill: the digest of its identity.
    pub secret_hash: String,
    pub secret: Option<String>,
    pub claimed: bool,
    pub refunded: bool,
    pub created_at: u64,
}

/// An HTLC that can be filled in parts.
#[derive(Clone, Debug, PartialEq, Eq)]
pub struct HTLCPartial {
    pub id: u64,
    pub sender: String,
    pub receiver: String,
    pub token_id: Option<String>,
    pub total_amount: u128,
    pub filled_amount: u128,
    pub remaining_amount: u128,
    pub min_fill_amount: u128,
    pub hashlock: String,
    pub timelock: u64,
    pub allow_partial_fills: bool,
    /// The ids of the fills that were taken against this HTLC, in order.
    pub fills: Vec<u64>,
    pub withdrawn: bool,
    pub refunded: bool,
    pub created_at: u64,
}

/// What the filler gets back when a fill is created: the id of the fill and
/// the part of the attached deposit that exceeds the fill.
#[derive(Clone, Copy, Debug, PartialEq, Eq, Structural)]
pub struct FillReceipt {
    pub fill_id: u64,
    pub excess: u128,
}

/// The contract: its HTLCs and its fills, both numbered from one.
#[derive(Debug, PartialEq, Eq)]
pub struct FusionHTLCPartialContract {
    pub htlcs: Vec<HTLCPartial>,
    pub partial_fills: Vec<PartialFill>,
    pub next_htlc_id: u64,
    pub next_fill_id: u64,
    pub next_deposit_id: u64,
}

/// The text that identifies a fill: `htlc_`, the number of the HTLC, the
/// filler and the number of the fill, joined by underscores.
pub open spec fn fill_tag_text(htlc_id: u64, filler: Seq<char>, fill_id: u64) -> Seq<char> {
    "htlc_"@ + decimal_digits(htlc_id as nat) + "_"@ + filler + "_"@ + decimal_digits(
        fill_id as nat,
    )
}

/// Formats the identity of a fill with `format!`: the display of an integer
/// is its decimal digits, and the display of a text is the text.
#[verifier::external_body]
fn fill_tag(htlc_id: u64, filler: &str, fill_id: u64) -> (tag: String)
    ensures
        tag@ == fill_tag_text(htlc_id, filler@, fill_id),
{
    format!("htlc_{}_{}_{}", htlc_id, filler, fill_id)
}

/// The tag of a fill: the SHA-256 digest of its identity, in hex.
pub open spec fn fill_secret_hash(htlc_id: u64, filler: Seq<char>, fill_id: u64) -> Seq<char> {
    hex_encode(sha256_digest(encode_utf8(fill_tag_text(htlc_id, filler, fill_id))))
}

/// What each fill reserves of its HTLC.
pub open spec fn reservations(fills: Seq<PartialFill>) -> Seq<Reservation> {
    Seq::new(
        fills.len(),
        |i: int| Reservation { order_id: fills[i].htlc_id, amount: fills[i].amount, live: !fills[i].refunded },
    )
}

/// Whether a fill is claimed or refunded.
pub open spec fn settled(fill: PartialFill) -> bool {
    fill.claimed || fill.refunded
}

/// Whether the HTLC is neither withdrawn nor refunded.
pub open spec fn is_open(htlc: HTLCPartial) -> bool {
    !htlc.withdrawn && !htlc.refunded
}

/// The first reason for which the terms of a new HTLC are rejected, if any.
pub open spec fn create_error(
    amount: u128,
    hashlock: Seq<char>,
    timelock_seconds: u64,
    allow_partial_fills: bool,
    min_fill_amount: u128,
) -> Option<PartialError> {
    if amount == 0 {
        Some(PartialError::ZeroAmount)
    } else if byte_len(hashlock) != 64 {
        Some(PartialError::InvalidHashlockLength)
    } else if timelock_seconds < MIN_TIMELOCK || timelock_seconds > MAX_TIMELOCK {
        Some(PartialError::InvalidTimelock)
    } else if allow_partial_fills && (min_fill_amount == 0 || min_fill_amount > amount) {
        Some(PartialError::InvalidMinimumFill)
    } else {
        None
    }
}

/// The first reason for which a fill of `fill_amount` against `htlc` is
/// rejected, if any.
pub open spec fn fill_error(htlc: HTLCPartial, now: u64, attached: u128, fill_amount: u128)
    -> Option<PartialError> {
    if !htlc.allow_partial_fills {
        Some(PartialError::PartialFillsNotAllowed)
    } else if htlc.withdrawn {
        Some(PartialError::AlreadyWithdrawn)
    } else if htlc.refunded {
        Some(PartialError::AlreadyRefunded)
    } else if now >= htlc.timelock {
        Some(PartialError::Expired)
    } else if fill_amount < htlc.min_fill_amount {
        Some(PartialError::BelowMinimum)
    } else if fill_amount > htlc.remaining_amount {
        Some(PartialError::ExceedsRemaining)
    } else if attached < fill_amount {
        Some(PartialError::InsufficientDeposit)
    } else {
        None
    }
}

/// The first reason for which claiming `fill` of `htlc` is rejected, if any.
/// `check` is the outcome of checking the revealed secret against the hashlock.
pub open spec fn claim_error(
    fill: PartialFill,
    htlc: HTLCPartial,
    now: u64,
    caller: Seq<char>,
    check: SecretCheck,
) -> Option<PartialError> {
    if fill.claimed {
        Some(PartialError::FillAlreadyClaimed)
    } else if fill.refunded {
        Some(PartialError::FillAlreadyRefunded)
    } else if caller != htlc.receiver@ {
        Some(PartialError::NotReceiver)
    } else if now >= htlc.timelock {
        Some(PartialError::Expired)
    } else {
        match check {
            SecretCheck::Malformed => Some(PartialError::InvalidHexSecret),
            SecretCheck::Mismatch => Some(PartialError::InvalidSecret),
            SecretCheck::Valid => None,
        }
    }
}

/// The first reason for which refunding `fill` of `htlc` is rejected, if any.
pub open spec fn refund_error(fill: PartialFill, htlc: HTLCPartial, now: u64, caller: Seq<char>)
    -> Option<PartialError> {
    if fill.claimed {
        Some(PartialError::FillAlreadyClaimed)
    } else if fill.refunded {
        Some(PartialError::FillAlreadyRefunded)
    } else if now < htlc.timelock {
        Some(PartialError::NotExpired)
    } else if caller != fill.filler@ {
        Some(PartialError::NotFiller)
    } else {
        None
    }
}

/// A fill that was claimed or refunded can be neither claimed nor refunded
/// again, whatever the time, the caller and the secret.
pub proof fn lemma_settled_fill_stays(
    fill: PartialFill,
    htlc: HTLCPartial,
    now: u64,
    caller: Seq<char>,
    check: SecretCheck,
)
    requires
        settled(fill),
    ensures
        claim_error(fill, htlc, now, caller, check) is Some,
        refund_error(fill, htlc, now, caller) is Some,
{
}

/// A fill is claimed only with a secret whose digest is the hashlock.
pub proof fn lemma_claim_needs_secret(
    fill: PartialFill,
    htlc: HTLCPartial,
    now: u64,
    caller: Seq<char>,
    check: SecretCheck,
)
    ensures
        claim_error(fill, htlc, now, caller, check) is None ==> check == SecretCheck::Valid,
        claim_error(fill, htlc, now, caller, SecretCheck::Valid) is None <==> !settled(fill)
            && caller == htlc.receiver@ && now < htlc.timelock,
{
}

/// No fill can be claimed and refunded at the same time: claiming ends where
/// refunding begins.
pub proof fn lemma_claim_excludes_refund(
    fill: PartialFill,
    htlc: HTLCPartial,
    now: u64,
    caller: Seq<char>,
    check: SecretCheck,
)
    ensures
        !(claim_error(fill, htlc, now, caller, check) is None && refund_error(
            fill,
            htlc,
            now,
            caller,
        ) is None),
{
}

/// An HTLC that is withdrawn or refunded takes no further fill.
pub proof fn lemma_closed_takes_no_fill(htlc: HTLCPartial, now: u64, attached: u128, amount: u128)
    requires
        !is_open(htlc),
    ensures
        fill_error(htlc, now, attached, amount) is Some,
{
}

impl FusionHTLCPartialContract {
    /// The invariant of the contract: ids are positions, every fill belongs to
    /// an HTLC, the books of every HTLC balance, and no HTLC counts less as
    /// filled than its live fills reserve.
    pub open spec fn wf(&self) -> bool {
        &&& self.next_htlc_id == self.htlcs@.len() + 1
        &&& self.next_fill_id == self.partial_fills@.len() + 1
        &&& forall|i: int| 0 <= i < self.htlcs@.len() ==> self.htlc_ok(i)
        &&& forall|i: int| 0 <= i < self.partial_fills@.len() ==> self.fill_ok(i)
    }

    /// The invariant of the HTLC at index `i`.
    pub open spec fn htlc_ok(&self, i: int) -> bool {
        let h = self.htlcs@[i];
        &&& h.id == i + 1
        &&& balanced(h.total_amount, h.filled_amount, h.remaining_amount)
        &&& !(h.withdrawn && h.refunded)
        &&& reserved(reservations(self.partial_fills@), h.id) <= h.filled_amount
        &&& forall|k: int|
            0 <= k < h.fills@.len() ==> 1 <= #[trigger] h.fills@[k] <= self.partial_fills@.len()
    }

    /// The invariant of the fill at index `i`.
    pub open spec fn fill_ok(&self, i: int) -> bool {
        let f = self.partial_fills@[i];
        &&& f.fill_id == i + 1
        &&& 1 <= f.htlc_id <= self.htlcs@.len()
        &&& !(f.claimed && f.refunded)
    }

    /// Whether an HTLC with this id exists.
    pub open spec fn has_htlc(&self, htlc_id: u64) -> bool {
        1 <= htlc_id <= self.htlcs@.len()
    }

    /// The HTLC with this id.
    pub open spec fn htlc(&self, htlc_id: u64) -> HTLCPartial {
        self.htlcs@[htlc_id - 1]
    }

    /// Whether a fill with this id exists.
    pub open spec fn has_fill(&self, fill_id: u64) -> bool {
        1 <= fill_id <= self.partial_fills@.len()
    }

    /// The fill with this id.
    pub open spec fn fill(&self, fill_id: u64) -> PartialFill {
        self.partial_fills@[fill_id - 1]
    }

    /// Whether every fill that `htlc` lists is claimed or refunded.
    pub open spec fn all_settled(&self, htlc: HTLCPartial) -> bool {
        forall|k: int|
            0 <= k < htlc.fills@.len() ==> settled(
                self.partial_fills@[(#[trigger] htlc.fills@[k]) - 1],
            )
    }

    /// The first reason for which a fill against HTLC `htlc_id` is rejected, if any.
    pub open spec fn fill_outcome(&self, ctx: &CallContext, htlc_id: u64, fill_amount: u128)
        -> Option<PartialError> {
        if !self.has_htlc(htlc_id) {
            Some(PartialError::HtlcNotFound)
        } else {
            fill_error(self.htlc(htlc_id), ctx.now(), ctx.attached_deposit, fill_amount)
        }
    }

    /// The first reason for which claiming fill `fill_id` is rejected, if any.
    pub open spec fn claim_outcome(&self, ctx: &CallContext, fill_id: u64, check: SecretCheck)
        -> Option<PartialError> {
        if !self.has_fill(fill_id) {
            Some(PartialError::FillNotFound)
        } else {
            claim_error(
                self.fill(fill_id),
                self.htlc(self.fill(fill_id).htlc_id),
                ctx.now(),
                ctx.predecessor@,
                check,
            )
        }
    }

    /// The first reason for which refunding fill `fill_id` is rejected, if any.
    pub open spec fn refund_outcome(&self, ctx: &CallContext, fill_id: u64) -> Option<PartialError> {
        if !self.has_fill(fill_id) {
            Some(PartialError::FillNotFound)
        } else {
            refund_error(
                self.fill(fill_id),
                self.htlc(self.fill(fill_id).htlc_id),
                ctx.now(),
                ctx.predecessor@,
            )
        }
    }

    /// Whether the counters are as in `other`.
    pub open spec fn same_counters(&self, other: &FusionHTLCPartialContract) -> bool {
        &&& self.next_htlc_id == other.next_htlc_id
        &&& self.next_fill_id == other.next_fill_id
        &&& self.next_deposit_id == other.next_deposit_id
    }

    fn htlc_index(&self, htlc_id: u64) -> (index: Option<usize>)
        requires
            self.wf(),
        ensures
            index.is_some() == self.has_htlc(htlc_id),
            index matches Some(i) ==> i == htlc_id - 1,
    {
        let count = self.htlcs.len();
        if htlc_id >= 1 && htlc_id < self.next_htlc_id {
            assert(htlc_id - 1 < count);
            Some((htlc_id - 1) as usize)
        } else {
            None
        }
    }

    fn fill_index(&self, fill_id: u64) -> (index: Option<usize>)
        requires
            self.wf(),
        ensures
            index.is_some() == self.has_fill(fill_id),
            index matches Some(i) ==> i == fill_id - 1,
    {
        let count = self.partial_fills.len();
        if fill_id >= 1 && fill_id < self.next_fill_id {
            assert(fill_id - 1 < count);
            Some((fill_id - 1) as usize)
        } else {
            None
        }
    }

    fn check_all_settled(&self, index: usize) -> (all: bool)
        requires
            self.wf(),
            index < self.htlcs@.len(),
        ensures
            all == self.all_settled(self.htlcs@[index as int]),
    {
        let htlc = &self.htlcs[index];
        assert(self.htlc_ok(index as int));
        let mut k: usize = 0;
        while k < htlc.fills.len()
            invariant
                k <= htlc.fills@.len(),
                self.wf(),
                index < self.htlcs@.len(),
                *htlc == self.htlcs@[index as int],
                self.htlc_ok(index as int),
                forall|j: int|
                    0 <= j < k ==> settled(self.partial_fills@[(#[trigger] htlc.fills@[j]) - 1]),
            decreases htlc.fills@.len() - k,
        {
            let fill_id = htlc.fills[k];
            let count = self.partial_fills.len();
            assert(1 <= htlc.fills@[k as int] <= count);
            let fill = &self.partial_fills[(fill_id - 1) as usize];
            if !fill.claimed && !fill.refunded {
                assert(!settled(self.partial_fills@[htlc.fills@[k as int] - 1]));
                return false;
            }
            k += 1;
        }
        true
    }

    /// A contract with no HTLCs and no fills.
    pub fn new() -> (contract: FusionHTLCPartialContract)
        ensures
            contract.wf(),
            contract.htlcs@.len() == 0,
            contract.partial_fills@.len() == 0,
            contract.next_deposit_id == 1,
    {
        FusionHTLCPartialContract {
            htlcs: Vec::new(),
            partial_fills: Vec::new(),
            next_htlc_id: 1,
            next_fill_id: 1,
            next_deposit_id: 1,
        }
    }

    /// Locks the attached deposit for `receiver` behind `hashlock`, until
    /// `timelock_seconds` from now, and returns the id of the new HTLC. With
    /// partial fills allowed, no fill may be smaller than `min_fill_amount`;
    /// without, the minimum is the whole amount.
    pub fn create_htlc_partial(
        &mut self,
        ctx: &CallContext,
        receiver: String,
        hashlock: String,
        timelock_seconds: u64,
        allow_partial_fills: bool,
        min_fill_amount: u128,
    ) -> (result: Result<u64, PartialError>)
        requires
            old(self).wf(),
            old(self).next_htlc_id < u64::MAX,
        ensures
            final(self).wf(),
            final(self).partial_fills == old(self).partial_fills,
            final(self).next_fill_id == old(self).next_fill_id,
            final(self).next_deposit_id == old(self).next_deposit_id,
            match result {
                Ok(htlc_id) => {
                    let created = final(self).htlcs@[htlc_id - 1];
                    &&& create_error(
                        ctx.attached_deposit,
                        hashlock@,
                        timelock_seconds,
                        allow_partial_fills,
                        min_fill_amount,
                    ) is None
                    &&& htlc_id == old(self).next_htlc_id
                    &&& final(self).htlcs@ == old(self).htlcs@.push(created)
                    &&& created.fills@.len() == 0
                    &&& created == (HTLCPartial {
                        id: htlc_id,
                        sender: ctx.predecessor,
                        receiver,
                        token_id: None,
                        total_amount: ctx.attached_deposit,
                        filled_amount: 0,
                        remaining_amount: ctx.attached_deposit,
                        min_fill_amount: if allow_partial_fills {
                            min_fill_amount
                        } else {
                            ctx.attached_deposit
                        },
                        hashlock,
                        timelock: (ctx.now() + timelock_seconds) as u64,
                        allow_partial_fills,
                        fills: created.fills,
                        withdrawn: false,
                        refunded: false,
                        created_at: ctx.now(),
                    })
                },
                Err(e) => {
                    &&& create_error(
                        ctx.attached_deposit,
                        hashlock@,
                        timelock_seconds,
                        allow_partial_fills,
                        min_fill_amount,
                    ) == Some(e)
                    &&& *final(self) == *old(self)
                },
            },
    {
        let amount = ctx.attached_deposit;
        if amount == 0 {
            return Err(PartialError::ZeroAmount);
        }
        if hashlock.as_str().len() != 64 {
            return Err(PartialError::InvalidHashlockLength);
        }
        if timelock_seconds < MIN_TIMELOCK || timelock_seconds > MAX_TIMELOCK {
            return Err(PartialError::InvalidTimelock);
        }
        if allow_partial_fills && (min_fill_amount == 0 || min_fill_amount > amount) {
            return Err(PartialError::InvalidMinimumFill);
        }
        let current_time = ctx.now_seconds();
        let htlc_id: u64 = self.next_htlc_id;
        let htlc = HTLCPartial {
            id: htlc_id,
            sender: ctx.predecessor.clone(),
            receiver,
            token_id: None,
            total_amount: amount,
            filled_amount: 0,
            remaining_amount: amount,
            min_fill_amount: if allow_partial_fills {
                min_fill_amount
            } else {
                amount
            },
            hashlock,
            timelock: current_time + timelock_seconds,
            allow_partial_fills,
            fills: Vec::new(),
            withdrawn: false,
            refunded: false,
            created_at: current_time,
        };
        proof {
            self.lemma_nothing_reserved(htlc_id);
        }
        self.htlcs.push(htlc);
        self.next_htlc_id = htlc_id + 1;
        proof {
            assert forall|i: int| 0 <= i < self.htlcs@.len() implies self.htlc_ok(i) by {
                if i < old(self).htlcs@.len() {
                    assert(old(self).htlc_ok(i));
                }
            }
            assert forall|i: int| 0 <= i < self.partial_fills@.len() implies self.fill_ok(i) by {
                assert(old(self).fill_ok(i));
            }
        }
        Ok(htlc_id)
    }

    /// Takes a fill of `fill_amount` against HTLC `htlc_id` for the caller,
    /// who must have attached at least that much. The fill reserves its amount:
    /// what remains of the HTLC shrinks by it and what is filled grows by it.
    /// Returns the id of the fill and the excess of the deposit.
    pub fn create_partial_fill(&mut self, ctx: &CallContext, htlc_id: u64, fill_amount: u128) -> (result:
        Result<FillReceipt, PartialError>)
        requires
            old(self).wf(),
            old(self).next_fill_id < u64::MAX,
        ensures
            final(self).wf(),
            final(self).next_htlc_id == old(self).next_htlc_id,
            final(self).next_deposit_id == old(self).next_deposit_id,
            match result {
                Ok(receipt) => {
                    let before = old(self).htlc(htlc_id);
                    let after = final(self).htlc(htlc_id);
                    let created = final(self).partial_fills@.last();
                    &&& old(self).fill_outcome(ctx, htlc_id, fill_amount) is None
                    &&& receipt.fill_id == old(self).next_fill_id
                    &&& receipt.excess == ctx.attached_deposit - fill_amount
                    &&& final(self).next_fill_id == receipt.fill_id + 1
                    &&& final(self).partial_fills@ == old(self).partial_fills@.push(created)
                    &&& created == (PartialFill {
                        fill_id: receipt.fill_id,
                        htlc_id,
                        filler: ctx.predecessor,
                        amount: fill_amount,
                        secret_hash: created.secret_hash,
                        secret: None,
                        claimed: false,
                        refunded: false,
                        created_at: ctx.now(),
                    })
                    &&& created.secret_hash@ == fill_secret_hash(
                        htlc_id,
                        ctx.predecessor@,
                        receipt.fill_id,
                    )
                    &&& final(self).htlcs@ == old(self).htlcs@.update(htlc_id - 1, after)
                    &&& after.fills@ == before.fills@.push(receipt.fill_id)
                    &&& after == (HTLCPartial {
                        filled_amount: (before.filled_amount + fill_amount) as u128,
                        remaining_amount: (before.remaining_amount - fill_amount) as u128,
                        fills: after.fills,
                        ..before
                    })
                },
                Err(e) => {
                    &&& old(self).fill_outcome(ctx, htlc_id, fill_amount) == Some(e)
                    &&& *final(self) == *old(self)
                },
            },
    {
        let index = match self.htlc_index(htlc_id) {
            Some(i) => i,
            None => { return Err(PartialError::HtlcNotFound); },
        };
        let htlc = &self.htlcs[index];
        assert(self.htlc_ok(index as int));
        if !htlc.allow_partial_fills {
            return Err(PartialError::PartialFillsNotAllowed);
        }
        if htlc.withdrawn {
            return Err(PartialError::AlreadyWithdrawn);
        }
        if htlc.refunded {
            return Err(PartialError::AlreadyRefunded);
        }
        let current_time = ctx.now_seconds();
        if current_time >= htlc.timelock {
            return Err(PartialError::Expired);
        }
        if fill_amount < htlc.min_fill_amount {
            return Err(PartialError::BelowMinimum);
        }
        if fill_amount > htlc.remaining_amount {
            return Err(PartialError::ExceedsRemaining);
        }
        if ctx.attached_deposit < fill_amount {
            return Err(PartialError::InsufficientDeposit);
        }
        let fill_id: u64 = self.next_fill_id;
        let tag = fill_tag(htlc_id, ctx.predecessor.as_str(), fill_id);
        let digest = sha256(tag.as_str().as_bytes());
        let fill = PartialFill {
            fill_id,
            htlc_id,
            filler: ctx.predecessor.clone(),
            amount: fill_amount,
            secret_hash: hex_encode_bytes(digest.as_slice()),
            secret: None,
            claimed: false,
            refunded: false,
            created_at: current_time,
        };
        let remaining = htlc.remaining_amount - fill_amount;
        let filled = htlc.filled_amount + fill_amount;
        let ghost old_res = reservations(self.partial_fills@);
        let ghost added = Reservation { order_id: htlc_id, amount: fill_amount, live: true };
        self.partial_fills.push(fill);
        self.next_fill_id = fill_id + 1;
        self.htlcs[index].remaining_amount = remaining;
        self.htlcs[index].filled_amount = filled;
        self.htlcs[index].fills.push(fill_id);
        proof {
            assert(reservations(self.partial_fills@) =~= old_res.push(added));
            assert forall|i: int| 0 <= i < self.htlcs@.len() implies self.htlc_ok(i) by {
                assert(old(self).htlc_ok(i));
                lemma_reserved_push(old_res, added, self.htlcs@[i].id);
            }
            assert forall|i: int| 0 <= i < self.partial_fills@.len() implies self.fill_ok(i) by {
                if i < old(self).partial_fills@.len() {
                    assert(old(self).fill_ok(i));
                }
            }
        }
        Ok(FillReceipt { fill_id, excess: ctx.attached_deposit - fill_amount })
    }

    /// Claims fill `fill_id` for the caller, given the outcome `check` of
    /// checking the revealed `secret` against the hashlock of the HTLC: the
    /// receiver gets the amount of the fill before the deadline, and the fill
    /// keeps the secret. Once nothing remains of the HTLC and all its fills are
    /// claimed or refunded, the HTLC is withdrawn. A rejected claim changes
    /// nothing.
    pub fn settle_partial_fill(
        &mut self,
        ctx: &CallContext,
        fill_id: u64,
        secret: String,
        check: SecretCheck,
    ) -> (result: Result<Transfer, PartialError>)
        requires
            old(self).wf(),
        ensures
            final(self).wf(),
            match result {
                Ok(transfer) => {
                    let fill = old(self).fill(fill_id);
                    let htlc = old(self).htlc(fill.htlc_id);
                    &&& old(self).claim_outcome(ctx, fill_id, check) is None
                    &&& final(self).same_counters(old(self))
                    &&& final(self).partial_fills@ == old(self).partial_fills@.update(
                        fill_id - 1,
                        (PartialFill { claimed: true, secret: Some(secret), ..fill }),
                    )
                    &&& final(self).htlcs@ == old(self).htlcs@.update(
                        fill.htlc_id - 1,
                        (HTLCPartial {
                            withdrawn: htlc.withdrawn || (htlc.remaining_amount == 0
                                && !htlc.refunded && final(self).all_settled(htlc)),
                            ..htlc
                        }),
                    )
                    &&& transfer == (Transfer {
                        to: ctx.predecessor,
                        amount: fill.amount,
                        token: None,
                    })
                },
                Err(e) => {
                    &&& old(self).claim_outcome(ctx, fill_id, check) == Some(e)
                    &&& *final(self) == *old(self)
                },
            },
    {
        let fill_index = match self.fill_index(fill_id) {
            Some(i) => i,
            None => { return Err(PartialError::FillNotFound); },
        };
        let fill = &self.partial_fills[fill_index];
        assert(self.fill_ok(fill_index as int));
        let count = self.htlcs.len();
        let htlc_index = (fill.htlc_id - 1) as usize;
        let htlc = &self.htlcs[htlc_index];
        assert(self.htlc_ok(htlc_index as int));
        if fill.claimed {
            return Err(PartialError::FillAlreadyClaimed);
        }
        if fill.refunded {
            return Err(PartialError::FillAlreadyRefunded);
        }
        if ctx.predecessor != htlc.receiver {
            return Err(PartialError::NotReceiver);
        }
        if ctx.now_seconds() >= htlc.timelock {
            return Err(PartialError::Expired);
        }
        match check {
            SecretCheck::Malformed => { return Err(PartialError::InvalidHexSecret); },
            SecretCheck::Mismatch => { return Err(PartialError::InvalidSecret); },
            SecretCheck::Valid => {},
        }
        let amount = fill.amount;
        let candidate = htlc.remaining_amount == 0 && !htlc.refunded;
        let ghost old_res = reservations(self.partial_fills@);
        self.partial_fills[fill_index].claimed = true;
        self.partial_fills[fill_index].secret = Some(secret);
        proof {
            assert(reservations(self.partial_fills@) =~= old_res);
            assert forall|i: int| 0 <= i < self.htlcs@.len() implies self.htlc_ok(i) by {
                assert(old(self).htlc_ok(i));
            }
            assert forall|i: int| 0 <= i < self.partial_fills@.len() implies self.fill_ok(i) by {
                assert(old(self).fill_ok(i));
            }
        }
        if candidate {
            if self.check_all_settled(htlc_index) {
                self.htlcs[htlc_index].withdrawn = true;
                proof {
                    assert forall|i: int| 0 <= i < self.htlcs@.len() implies self.htlc_ok(i) by {
                        assert(old(self).htlc_ok(i));
                    }
                    assert forall|i: int| 0 <= i < self.partial_fills@.len() implies self.fill_ok(
                        i,
                    ) by {
                        assert(old(self).fill_ok(i));
                    }
                }
            }
        }
        proof {
            let htlc = old(self).htlc(old(self).fill(fill_id).htlc_id);
            assert(self.htlcs@ =~= old(self).htlcs@.update(
                old(self).fill(fill_id).htlc_id - 1,
                HTLCPartial {
                    withdrawn: htlc.withdrawn || (htlc.remaining_amount == 0 && !htlc.refunded
                        && self.all_settled(htlc)),
                    ..htlc
                },
            ));
        }
        Ok(Transfer { to: ctx.predecessor.clone(), amount, token: None })
    }

    /// Claims fill `fill_id` by revealing the hex-encoded `secret` of its HTLC:
    /// decodes and hashes the secret, compares the digest with the hashlock and
    /// settles accordingly.
    pub fn withdraw_partial_fill(&mut self, ctx: &CallContext, fill_id: u64, secret: String) -> (result:
        Result<Transfer, PartialError>)
        requires
            old(self).wf(),
        ensures
            final(self).wf(),
            match result {
                Ok(transfer) => {
                    let fill = old(self).fill(fill_id);
                    let htlc = old(self).htlc(fill.htlc_id);
                    &&& old(self).has_fill(fill_id)
                    &&& hex_secret_check(secret@, htlc.hashlock@) == SecretCheck::Valid
                    &&& old(self).claim_outcome(ctx, fill_id, SecretCheck::Valid) is None
                    &&& final(self).same_counters(old(self))
                    &&& final(self).partial_fills@ == old(self).partial_fills@.update(
                        fill_id - 1,
                        (PartialFill { claimed: true, secret: Some(secret), ..fill }),
                    )
                    &&& final(self).htlcs@ == old(self).htlcs@.update(
                        fill.htlc_id - 1,
                        (HTLCPartial {
                            withdrawn: htlc.withdrawn || (htlc.remaining_amount == 0
                                && !htlc.refunded && final(self).all_settled(htlc)),
                            ..htlc
                        }),
                    )
                    &&& transfer == (Transfer {
                        to: ctx.predecessor,
                        amount: fill.amount,
                        token: None,
                    })
                },
                Err(e) => {
                    &&& *final(self) == *old(self)
                    &&& Some(e) == (if old(self).has_fill(fill_id) {
                        claim_error(
                            old(self).fill(fill_id),
                            old(self).htlc(old(self).fill(fill_id).htlc_id),
                            ctx.now(),
                            ctx.predecessor@,
                            hex_secret_check(
                                secret@,
                                old(self).htlc(old(self).fill(fill_id).htlc_id).hashlock@,
                            ),
                        )
                    } else {
                        Some(PartialError::FillNotFound)
                    })
                },
            },
    {
        let check = match self.fill_index(fill_id) {
            Some(i) => {
                assert(self.fill_ok(i as int));
                let count = self.htlcs.len();
                let htlc = &self.htlcs[(self.partial_fills[i].htlc_id - 1) as usize];
                check_hex_secret(&secret, &htlc.hashlock)
            },
            None => SecretCheck::Malformed,
        };
        self.settle_partial_fill(ctx, fill_id, secret, check)
    }

    /// Refunds fill `fill_id` to its filler, who must be the caller, once the
    /// deadline of the HTLC has passed and while the fill is pending. The fill
    /// stays on record as refunded. What it reserved is given back to an HTLC
    /// that is still open; the books of a withdrawn or refunded HTLC do not
    /// change.
    pub fn refund_partial_fill(&mut self, ctx: &CallContext, fill_id: u64) -> (result: Result<
        Transfer,
        PartialError,
    >)
        requires
            old(self).wf(),
        ensures
            final(self).wf(),
            match result {
                Ok(transfer) => {
                    let fill = old(self).fill(fill_id);
                    let htlc = old(self).htlc(fill.htlc_id);
                    &&& old(self).refund_outcome(ctx, fill_id) is None
                    &&& final(self).same_counters(old(self))
                    &&& final(self).partial_fills@ == old(self).partial_fills@.update(
                        fill_id - 1,
                        (PartialFill { refunded: true, ..fill }),
                    )
                    &&& final(self).htlcs@ == old(self).htlcs@.update(
                        fill.htlc_id - 1,
                        if is_open(htlc) {
                            HTLCPartial {
                                filled_amount: (htlc.filled_amount - fill.amount) as u128,
                                remaining_amount: (htlc.remaining_amount + fill.amount) as u128,
                                ..htlc
                            }
                        } else {
                            htlc
                        },
                    )
                    &&& transfer == (Transfer {
                        to: ctx.predecessor,
                        amount: fill.amount,
                        token: None,
                    })
                },
                Err(e) => {
                    &&& old(self).refund_outcome(ctx, fill_id) == Some(e)
                    &&& *final(self) == *old(self)
                },
            },
    {
        let fill_index = match self.fill_index(fill_id) {
            Some(i) => i,
            None => { return Err(PartialError::FillNotFound); },
        };
        let fill = &self.partial_fills[fill_index];
        assert(self.fill_ok(fill_index as int));
        let count = self.htlcs.len();
        let htlc_index = (fill.htlc_id - 1) as usize;
        let htlc = &self.htlcs[htlc_index];
        assert(self.htlc_ok(htlc_index as int));
        if fill.claimed {
            return Err(PartialError::FillAlreadyClaimed);
        }
        if fill.refunded {
            return Err(PartialError::FillAlreadyRefunded);
        }
        if ctx.now_seconds() < htlc.timelock {
            return Err(PartialError::NotExpired);
        }
        if ctx.predecessor != fill.filler {
            return Err(PartialError::NotFiller);
        }
        let amount = fill.amount;
        let open = !htlc.withdrawn && !htlc.refunded;
        let ghost old_res = reservations(self.partial_fills@);
        let ghost released = Reservation { order_id: fill.htlc_id, amount, live: false };
        proof {
            lemma_reserved_bound(old_res, fill_index as int, htlc.id);
        }
        let filled = htlc.filled_amount;
        let remaining = htlc.remaining_amount;
        self.partial_fills[fill_index].refunded = true;
        if open {
            self.htlcs[htlc_index].filled_amount = filled - amount;
            self.htlcs[htlc_index].remaining_amount = remaining + amount;
        }
        proof {
            assert(reservations(self.partial_fills@) =~= old_res.update(
                fill_index as int,
                released,
            ));
            assert forall|i: int| 0 <= i < self.htlcs@.len() implies self.htlc_ok(i) by {
                assert(old(self).htlc_ok(i));
                lemma_reserved_update(old_res, fill_index as int, released, self.htlcs@[i].id);
            }
            assert forall|i: int| 0 <= i < self.partial_fills@.len() implies self.fill_ok(i) by {
                assert(old(self).fill_ok(i));
            }
            assert(self.htlcs@ =~= old(self).htlcs@.update(
                htlc_index as int,
                if is_open(old(self).htlcs@[htlc_index as int]) {
                    HTLCPartial {
                        filled_amount: (filled - amount) as u128,
                        remaining_amount: (remaining + amount) as u128,
                        ..old(self).htlcs@[htlc_index as int]
                    }
                } else {
                    old(self).htlcs@[htlc_index as int]
                },
            ));
        }
        Ok(Transfer { to: ctx.predecessor.clone(), amount, token: None })
    }

    /// The HTLC with the given id, if there is one.
    pub fn get_htlc_partial(&self, htlc_id: u64) -> (htlc: Option<&HTLCPartial>)
        requires
            self.wf(),
        ensures
            htlc.is_some() == self.has_htlc(htlc_id),
            htlc matches Some(h) ==> *h == self.htlc(htlc_id),
    {
        match self.htlc_index(htlc_id) {
            Some(i) => Some(&self.htlcs[i]),
            None => None,
        }
    }

    /// The fill with the given id, if there is one.
    pub fn get_partial_fill(&self, fill_id: u64) -> (fill: Option<&PartialFill>)
        requires
            self.wf(),
        ensures
            fill.is_some() == self.has_fill(fill_id),
            fill matches Some(f) ==> *f == self.fill(fill_id),
    {
        match self.fill_index(fill_id) {
            Some(i) => Some(&self.partial_fills[i]),
            None => None,
        }
    }

    /// The fills that were taken against HTLC `htlc_id`, in the order in which
    /// they were taken; none where there is no such HTLC.
    pub fn get_htlc_fills(&self, htlc_id: u64) -> (fills: Vec<&PartialFill>)
        requires
            self.wf(),
        ensures
            !self.has_htlc(htlc_id) ==> fills@.len() == 0,
            self.has_htlc(htlc_id) ==> {
                &&& fills@.len() == self.htlc(htlc_id).fills@.len()
                &&& forall|k: int|
                    0 <= k < fills@.len() ==> *(#[trigger] fills@[k]) == self.fill(
                        self.htlc(htlc_id).fills@[k],
                    )
            },
    {
        let mut fills: Vec<&PartialFill> = Vec::new();
        let index = match self.htlc_index(htlc_id) {
            Some(i) => i,
            None => { return fills; },
        };
        let htlc = &self.htlcs[index];
        assert(self.htlc_ok(index as int));
        let mut k: usize = 0;
        while k < htlc.fills.len()
            invariant
                k <= htlc.fills@.len(),
                self.wf(),
                index < self.htlcs@.len(),
                *htlc == self.htlcs@[index as int],
                self.htlc_ok(index as int),
                fills@.len() == k,
                forall|j: int|
                    0 <= j < k ==> *(#[trigger] fills@[j]) == self.partial_fills@[htlc.fills@[j]
                        - 1],
            decreases htlc.fills@.len() - k,
        {
            let fill_id = htlc.fills[k];
            let count = self.partial_fills.len();
            assert(1 <= htlc.fills@[k as int] <= count);
            fills.push(&self.partial_fills[(fill_id - 1) as usize]);
            k += 1;
        }
        fills
    }

    /// The fills of `filler` among the first `upto` fills, in order.
    pub open spec fn fills_by(&self, filler: Seq<char>, upto: int) -> Seq<PartialFill>
        decreases upto,
    {
        if upto <= 0 {
            Seq::empty()
        } else if self.partial_fills@[upto - 1].filler@ == filler {
            self.fills_by(filler, upto - 1).push(self.partial_fills@[upto - 1])
        } else {
            self.fills_by(filler, upto - 1)
        }
    }

    /// All fills that `filler` took, in the order in which they were taken.
    pub fn get_filler_fills(&self, filler: &String) -> (fills: Vec<&PartialFill>)
        ensures
            fills@.len() == self.fills_by(filler@, self.partial_fills@.len() as int).len(),
            forall|k: int|
                0 <= k < fills@.len() ==> *(#[trigger] fills@[k]) == self.fills_by(
                    filler@,
                    self.partial_fills@.len() as int,
                )[k],
    {
        let mut fills: Vec<&PartialFill> = Vec::new();
        let mut i: usize = 0;
        while i < self.partial_fills.len()
            invariant
                i <= self.partial_fills@.len(),
                fills@.len() == self.fills_by(filler@, i as int).len(),
                forall|k: int|
                    0 <= k < fills@.len() ==> *(#[trigger] fills@[k]) == self.fills_by(
                        filler@,
                        i as int,
                    )[k],
            decreases self.partial_fills@.len() - i,
        {
            if self.partial_fills[i].filler == *filler {
                fills.push(&self.partial_fills[i]);
            }
            i += 1;
        }
        fills
    }

    /// The books of every HTLC balance: what is filled and what remains add
    /// up to the total, and the live fills reserve no more than what is filled.
    pub proof fn lemma_books_balance(&self, htlc_id: u64)
        requires
            self.wf(),
            self.has_htlc(htlc_id),
        ensures
            self.htlc(htlc_id).filled_amount + self.htlc(htlc_id).remaining_amount == self.htlc(
                htlc_id,
            ).total_amount,
            reserved(reservations(self.partial_fills@), htlc_id) <= self.htlc(htlc_id).filled_amount,
    {
        assert(self.htlc_ok(htlc_id - 1));
    }

    /// No fill reserves anything of an HTLC that does not exist yet.
    proof fn lemma_nothing_reserved(&self, htlc_id: u64)
        requires
            self.wf(),
            htlc_id > self.htlcs@.len(),
        ensures
            reserved(reservations(self.partial_fills@), htlc_id) == 0,
    {
        let rs = reservations(self.partial_fills@);
        assert forall|i: int| 0 <= i < rs.len() implies contribution(#[trigger] rs[i], htlc_id)
            == 0 by {
            assert(self.fill_ok(i));
        }
        lemma_no_contribution(rs, htlc_id);
    }
}

} // verus!
