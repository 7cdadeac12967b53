//! Hash-time-locked contracts with multi-stage timelocks: after a finality
//! period the designated taker may settle first, then whitelisted and global
//! resolvers, then anyone; after that the contract can be cancelled, first by
//! the sender and the resolvers, then by anyone.

use vstd::prelude::*;
use crate::fees::{checked_fee, fee_of};
use crate::hashing::{check_raw_secret, raw_secret_matches};
use crate::stages::{stage_from, stage_index, strictly_increasing};

verus! {

/// Why an operation was rejected.
#[derive(Clone, Copy, Debug, PartialEq, Eq, Structural)]
pub enum StagedError {
    Unauthorized,
    Paused,
    AmountNotPositive,
    EmptyStage,
    TotalDurationTooShort,
    TotalDurationTooLong,
    NotFound,
    AlreadyWithdrawn,
    AlreadyCancelled,
    InvalidSecret,
    NotAuthorizedToWithdraw,
    NotAuthorizedToCancel,
    FeeExceedsAmount,
}

impl StagedError {
    /// The text of the message that describes the error.
    pub open spec fn text(self) -> Seq<char> {
        match self {
            StagedError::Unauthorized => "Unauthorized"@,
            StagedError::Paused => "Contract is paused"@,
            StagedError::AmountNotPositive => "Amount must be positive"@,
            StagedError::EmptyStage => "Stage boundaries must increase"@,
            StagedError::TotalDurationTooShort => "Total duration too short"@,
            StagedError::TotalDurationTooLong => "Total duration too long"@,
            StagedError::NotFound => "HTLC not found"@,
            StagedError::AlreadyWithdrawn => "Already withdrawn"@,
            StagedError::AlreadyCancelled => "Already cancelled"@,
            StagedError::InvalidSecret => "Invalid secret"@,
            StagedError::NotAuthorizedToWithdraw => "Not authorized to withdraw at this stage"@,
            StagedError::NotAuthorizedToCancel => "Not authorized to cancel at this stage"@,
            StagedError::FeeExceedsAmount => "Resolver fee exceeds amount"@,
        }
    }

    /// The message that describes the error.
    pub fn message(&self) -> (message: &'static str)
        ensures
            message@ == self.text(),
    {
        match self {
            StagedError::Unauthorized => "Unauthorized",
            StagedError::Paused => "Contract is paused",
            StagedError::AmountNotPositive => "Amount must be positive",
            StagedError::EmptyStage => "Stage boundaries must increase",
            StagedError::TotalDurationTooShort => "Total duration too short",
            StagedError::TotalDurationTooLong => "Total duration too long",
            StagedError::NotFound => "HTLC not found",
            StagedError::AlreadyWithdrawn => "Already withdrawn",
            StagedError::AlreadyCancelled => "Already cancelled",
            StagedError::InvalidSecret => "Invalid secret",
            StagedError::NotAuthorizedToWithdraw => "Not authorized to withdraw at this stage",
            StagedError::NotAuthorizedToCancel => "Not authorized to cancel at this stage",
            StagedError::FeeExceedsAmount => "Resolver fee exceeds amount",
        }
    }
}

/// The stages of an HTLC. `Completed` and `Cancelled` are final; the other
/// stages follow from the time.
#[derive(Clone, Copy, Debug, PartialEq, Eq, Structural)]
pub enum HTLCStatus {
    /// Before the finality time: nobody may act.
    Pending,
    /// Final and ready for settlement.
    Finalized,
    /// Only the taker may settle.
    TakerSettlement,
    /// The taker, whitelisted resolvers and global resolvers may settle.
    PrivateSettlement,
    /// Anyone may settle.
    PublicSettlement,
    /// The sender, whitelisted resolvers and global resolvers may cancel.
    PrivateCancellation,
    /// Anyone may cancel.
    PublicCancellation,
    /// Withdrawn with the secret.
    Completed,
    /// Cancelled and refunded.
    Cancelled,
}

/// How long each stage lasts, in seconds.
#[derive(Clone, Copy, Debug, PartialEq, Eq, Structural)]
pub struct StageDurations {
    pub finality_delay: u64,
    pub taker_exclusive_duration: u64,
    pub private_resolver_duration: u64,
    pub public_resolver_duration: u64,
    pub private_cancellation_duration: u64,
}

/// One HTLC with its stage boundaries.
#[derive(Clone, Debug, PartialEq, Eq)]
pub struct FusionHTLC {
    pub id: u64,
    pub sender: String,
    pub receiver: String,
    pub token: String,
    pub amount: i128,
    pub hashlock: [u8; 32],
    pub secret: Option<[u8; 32]>,
    pub status: HTLCStatus,
    pub finality_time: u64,
    pub taker_deadline: u64,
    pub public_deadline: u64,
    pub cancellation_start: u64,
    pub cancellation_public: u64,
    pub allowed_resolvers: Vec<String>,
    pub taker_address: String,
    pub resolver_fee_bps: u32,
    pub withdrawn_by: Option<String>,
    pub cancelled_by: Option<String>,
}

/// A resolver that is known to the contract as a whole.
#[derive(Clone, Debug, PartialEq, Eq)]
pub struct ResolverConfig {
    pub address: String,
    /// Advisory: resolvers of higher priority are preferred.
    pub priority: u32,
    /// Advisory: the discount on the fee, in basis points.
    pub fee_discount_bps: u32,
    pub enabled: bool,
}

/// What a withdrawal pays: the amount less the fee to the receiver, and the
/// fee to the one who settled.
#[derive(Clone, Debug, PartialEq, Eq)]
pub struct Payout {
    pub receiver: String,
    pub receiver_amount: i128,
    pub settler: String,
    pub resolver_fee: i128,
}

/// The contract: its parameters, its HTLCs, numbered from one, and the global
/// resolvers, each address at most once.
#[derive(Debug, PartialEq, Eq)]
pub struct FusionHTLCContract {
    pub admin: String,
    pub default_resolver_fee_bps: u32,
    pub min_timelock: u64,
    pub max_timelock: u64,
    pub paused: bool,
    pub htlc_counter: u64,
    pub htlcs: Vec<FusionHTLC>,
    pub resolvers: Vec<ResolverConfig>,
}

/// The boundaries between the stages of `htlc`, in order.
pub open spec fn boundaries_of(htlc: FusionHTLC) -> Seq<u64> {
    seq![
        htlc.finality_time,
        htlc.taker_deadline,
        htlc.public_deadline,
        htlc.cancellation_start,
        htlc.cancellation_public,
    ]
}

/// The status that belongs to the `k`-th interval between the boundaries.
pub open spec fn status_of_stage(k: int) -> HTLCStatus {
    if k <= 0 {
        HTLCStatus::Pending
    } else if k == 1 {
        HTLCStatus::TakerSettlement
    } else if k == 2 {
        HTLCStatus::PrivateSettlement
    } else if k == 3 {
        HTLCStatus::PublicSettlement
    } else if k == 4 {
        HTLCStatus::PrivateCancellation
    } else {
        HTLCStatus::PublicCancellation
    }
}

/// Whether the status is final.
pub open spec fn is_terminal(status: HTLCStatus) -> bool {
    status == HTLCStatus::Completed || status == HTLCStatus::Cancelled
}

/// The status of `htlc` at `now`: a final status stays, any other follows
/// from the stage that `now` falls into.
pub open spec fn status_at(htlc: FusionHTLC, now: u64) -> HTLCStatus {
    if is_terminal(htlc.status) {
        htlc.status
    } else {
        status_of_stage(stage_index(now, boundaries_of(htlc)))
    }
}

/// Whether `address` is among `list`.
pub open spec fn listed(list: Seq<String>, address: Seq<char>) -> bool {
    exists|i: int| 0 <= i < list.len() && (#[trigger] list[i])@ == address
}

/// Whether `address` is an enabled global resolver.
pub open spec fn is_enabled_resolver(resolvers: Seq<ResolverConfig>, address: Seq<char>) -> bool {
    exists|i: int|
        0 <= i < resolvers.len() && (#[trigger] resolvers[i]).address@ == address
            && resolvers[i].enabled
}

/// Whether `address` may act in a private stage of `htlc`: it is whitelisted
/// by the HTLC or an enabled global resolver.
pub open spec fn is_privileged(htlc: FusionHTLC, resolvers: Seq<ResolverConfig>, address: Seq<char>)
    -> bool {
    listed(htlc.allowed_resolvers@, address) || is_enabled_resolver(resolvers, address)
}

/// Whether `withdrawer` may settle an HTLC in the given stage.
pub open spec fn may_withdraw(
    htlc: FusionHTLC,
    resolvers: Seq<ResolverConfig>,
    stage: HTLCStatus,
    withdrawer: Seq<char>,
) -> bool {
    match stage {
        HTLCStatus::TakerSettlement => withdrawer == htlc.taker_address@,
        HTLCStatus::PrivateSettlement => withdrawer == htlc.taker_address@ || is_privileged(
            htlc,
            resolvers,
            withdrawer,
        ),
        HTLCStatus::PublicSettlement => true,
        _ => false,
    }
}

/// Whether `canceller` may cancel an HTLC in the given stage.
pub open spec fn may_cancel(
    htlc: FusionHTLC,
    resolvers: Seq<ResolverConfig>,
    stage: HTLCStatus,
    canceller: Seq<char>,
) -> bool {
    match stage {
        HTLCStatus::PrivateCancellation => canceller == htlc.sender@ || is_privileged(
            htlc,
            resolvers,
            canceller,
        ),
        HTLCStatus::PublicCancellation => true,
        _ => false,
    }
}

/// The fee that the one who settles `htlc` earns: the resolver fee on the
/// amount, unless the receiver settles itself.
pub open spec fn settlement_fee(htlc: FusionHTLC, withdrawer: Seq<char>) -> nat {
    if withdrawer != htlc.receiver@ {
        fee_of(htlc.amount as nat, htlc.resolver_fee_bps as nat)
    } else {
        0
    }
}

/// The first reason for which a withdrawal from `htlc` is rejected, if any.
/// `secret_ok` says whether the revealed secret hashes to the hashlock.
pub open spec fn withdraw_error(
    htlc: FusionHTLC,
    resolvers: Seq<ResolverConfig>,
    now: u64,
    withdrawer: Seq<char>,
    secret_ok: bool,
) -> Option<StagedError> {
    let stage = status_at(htlc, now);
    if stage == HTLCStatus::Completed {
        Some(StagedError::AlreadyWithdrawn)
    } else if stage == HTLCStatus::Cancelled {
        Some(StagedError::AlreadyCancelled)
    } else if !secret_ok {
        Some(StagedError::InvalidSecret)
    } else if !may_withdraw(htlc, resolvers, stage, withdrawer) {
        Some(StagedError::NotAuthorizedToWithdraw)
    } else if settlement_fee(htlc, withdrawer) > htlc.amount {
        Some(StagedError::FeeExceedsAmount)
    } else {
        None
    }
}

/// The first reason for which a cancellation of `htlc` is rejected, if any.
pub open spec fn cancel_error(
    htlc: FusionHTLC,
    resolvers: Seq<ResolverConfig>,
    now: u64,
    canceller: Seq<char>,
) -> Option<StagedError> {
    let stage = status_at(htlc, now);
    if stage == HTLCStatus::Completed {
        Some(StagedError::AlreadyWithdrawn)
    } else if stage == HTLCStatus::Cancelled {
        Some(StagedError::AlreadyCancelled)
    } else if !may_cancel(htlc, resolvers, stage, canceller) {
        Some(StagedError::NotAuthorizedToCancel)
    } else {
        None
    }
}

/// The first reason for which the terms of a new HTLC are rejected, if any.
pub open spec fn create_error(
    paused: bool,
    min_timelock: u64,
    max_timelock: u64,
    now: u64,
    amount: i128,
    d: StageDurations,
) -> Option<StagedError> {
    let total = d.finality_delay + d.taker_exclusive_duration + d.private_resolver_duration
        + d.public_resolver_duration + d.private_cancellation_duration;
    if paused {
        Some(StagedError::Paused)
    } else if amount <= 0 {
        Some(StagedError::AmountNotPositive)
    } else if d.taker_exclusive_duration == 0 || d.private_resolver_duration == 0
        || d.public_resolver_duration == 0 || d.private_cancellation_duration == 0 {
        Some(StagedError::EmptyStage)
    } else if now + total > u64::MAX {
        Some(StagedError::TotalDurationTooLong)
    } else if total < min_timelock {
        Some(StagedError::TotalDurationTooShort)
    } else if total > max_timelock {
        Some(StagedError::TotalDurationTooLong)
    } else {
        None
    }
}

/// Recomputing the status is idempotent: the status at `now` of an HTLC that
/// already has its status at `now` is the same.
pub proof fn lemma_status_idempotent(htlc: FusionHTLC, now: u64)
    ensures
        status_at(FusionHTLC { status: status_at(htlc, now), ..htlc }, now) == status_at(htlc, now),
{
    let refreshed = FusionHTLC { status: status_at(htlc, now), ..htlc };
    assert(boundaries_of(refreshed) =~= boundaries_of(htlc));
}

/// A final status is never recomputed, and an HTLC with a final status admits
/// neither a withdrawal nor a cancellation: nothing is paid out twice.
pub proof fn lemma_terminal_stays(
    htlc: FusionHTLC,
    resolvers: Seq<ResolverConfig>,
    now: u64,
    caller: Seq<char>,
    secret_ok: bool,
)
    requires
        is_terminal(htlc.status),
    ensures
        status_at(htlc, now) == htlc.status,
        withdraw_error(htlc, resolvers, now, caller, secret_ok) is Some,
        cancel_error(htlc, resolvers, now, caller) is Some,
{
}

/// Nothing is withdrawn without a secret that hashes to the hashlock.
pub proof fn lemma_withdraw_needs_secret(
    htlc: FusionHTLC,
    resolvers: Seq<ResolverConfig>,
    now: u64,
    withdrawer: Seq<char>,
)
    ensures
        withdraw_error(htlc, resolvers, now, withdrawer, false) is Some,
{
}

/// In the public settlement stage anyone may settle, and what stands in the
/// way of someone with the secret is only a fee above the amount.
pub proof fn lemma_public_stage_is_open(
    htlc: FusionHTLC,
    resolvers: Seq<ResolverConfig>,
    now: u64,
    withdrawer: Seq<char>,
)
    requires
        status_at(htlc, now) == HTLCStatus::PublicSettlement,
        settlement_fee(htlc, withdrawer) <= htlc.amount,
    ensures
        withdraw_error(htlc, resolvers, now, withdrawer, true) is None,
{
}

/// Settlement and cancellation never overlap: at no time can the same HTLC be
/// both withdrawn and cancelled.
pub proof fn lemma_withdraw_excludes_cancel(
    htlc: FusionHTLC,
    resolvers: Seq<ResolverConfig>,
    now: u64,
    caller: Seq<char>,
    secret_ok: bool,
)
    ensures
        !(withdraw_error(htlc, resolvers, now, caller, secret_ok) is None && cancel_error(
            htlc,
            resolvers,
            now,
            caller,
        ) is None),
{
}

/// Computes the status of `htlc` at `now` and stores it with the HTLC. A final
/// status stays as it is.
pub fn update_htlc_status(htlc: &mut FusionHTLC, now: u64)
    ensures
        *final(htlc) == (FusionHTLC { status: status_at(*old(htlc), now), ..*old(htlc) }),
{
    if htlc.status == HTLCStatus::Completed || htlc.status == HTLCStatus::Cancelled {
        return ;
    }
    proof {
        reveal_with_fuel(stage_from, 7);
    }
    if now < htlc.finality_time {
        htlc.status = HTLCStatus::Pending;
    } else if now < htlc.taker_deadline {
        htlc.status = HTLCStatus::TakerSettlement;
    } else if now < htlc.public_deadline {
        htlc.status = HTLCStatus::PrivateSettlement;
    } else if now < htlc.cancellation_start {
        htlc.status = HTLCStatus::PublicSettlement;
    } else if now < htlc.cancellation_public {
        htlc.status = HTLCStatus::PrivateCancellation;
    } else {
        htlc.status = HTLCStatus::PublicCancellation;
    }
}

/// The status of `htlc` at `now`.
pub fn current_status(htlc: &FusionHTLC, now: u64) -> (status: HTLCStatus)
    ensures
        status == status_at(*htlc, now),
{
    if htlc.status == HTLCStatus::Completed || htlc.status == HTLCStatus::Cancelled {
        return htlc.status;
    }
    proof {
        reveal_with_fuel(stage_from, 7);
    }
    if now < htlc.finality_time {
        HTLCStatus::Pending
    } else if now < htlc.taker_deadline {
        HTLCStatus::TakerSettlement
    } else if now < htlc.public_deadline {
        HTLCStatus::PrivateSettlement
    } else if now < htlc.cancellation_start {
        HTLCStatus::PublicSettlement
    } else if now < htlc.cancellation_public {
        HTLCStatus::PrivateCancellation
    } else {
        HTLCStatus::PublicCancellation
    }
}

/// Whether `address` is among `list`.
pub fn contains_address(list: &Vec<String>, address: &String) -> (yes: bool)
    ensures
        yes == listed(list@, address@),
{
    let mut i: usize = 0;
    while i < list.len()
        invariant
            i <= list@.len(),
            forall|j: int| 0 <= j < i ==> (#[trigger] list@[j])@ != address@,
        decreases list@.len() - i,
    {
        if list[i] == *address {
            return true;
        }
        i += 1;
    }
    false
}

impl FusionHTLCContract {
    /// HTLCs are numbered from one, their amounts are positive and their
    /// boundaries strictly increasing.
    pub open spec fn wf(&self) -> bool {
        &&& self.htlc_counter == self.htlcs@.len()
        &&& forall|i: int| 0 <= i < self.htlcs@.len() ==> self.htlc_ok(i)
    }

    /// The invariant of the HTLC at index `i`.
    pub open spec fn htlc_ok(&self, i: int) -> bool {
        let h = self.htlcs@[i];
        &&& h.id == i + 1
        &&& h.amount > 0
        &&& h.finality_time < h.taker_deadline < h.public_deadline < h.cancellation_start
            < h.cancellation_public
    }

    /// Whether an HTLC with this id exists.
    pub open spec fn has_htlc(&self, htlc_id: u64) -> bool {
        1 <= htlc_id <= self.htlcs@.len()
    }

    /// The HTLC with this id.
    pub open spec fn htlc(&self, htlc_id: u64) -> FusionHTLC {
        self.htlcs@[htlc_id - 1]
    }

    /// Whether everything but the HTLCs is as in `other`.
    pub open spec fn same_setup(&self, other: &FusionHTLCContract) -> bool {
        &&& self.admin == other.admin
        &&& self.default_resolver_fee_bps == other.default_resolver_fee_bps
        &&& self.min_timelock == other.min_timelock
        &&& self.max_timelock == other.max_timelock
        &&& self.paused == other.paused
        &&& self.htlc_counter == other.htlc_counter
        &&& self.resolvers == other.resolvers
    }

    /// The first reason for which a withdrawal from HTLC `htlc_id` is rejected, if any.
    pub open spec fn withdraw_outcome(
        &self,
        now: u64,
        htlc_id: u64,
        withdrawer: Seq<char>,
        secret_ok: bool,
    ) -> Option<StagedError> {
        if !self.has_htlc(htlc_id) {
            Some(StagedError::NotFound)
        } else {
            withdraw_error(self.htlc(htlc_id), self.resolvers@, now, withdrawer, secret_ok)
        }
    }

    /// The first reason for which a cancellation of HTLC `htlc_id` is rejected, if any.
    pub open spec fn cancel_outcome(&self, now: u64, htlc_id: u64, canceller: Seq<char>) -> Option<
        StagedError,
    > {
        if !self.has_htlc(htlc_id) {
            Some(StagedError::NotFound)
        } else {
            cancel_error(self.htlc(htlc_id), self.resolvers@, now, canceller)
        }
    }

    fn index_of(&self, htlc_id: u64) -> (index: Option<usize>)
        requires
            self.wf(),
        ensures
            index.is_some() == self.has_htlc(htlc_id),
            index matches Some(i) ==> i == htlc_id - 1,
    {
        let count = self.htlcs.len();
        if htlc_id >= 1 && htlc_id - 1 < self.htlc_counter {
            assert(htlc_id - 1 < count);
            Some((htlc_id - 1) as usize)
        } else {
            None
        }
    }

    /// Every HTLC of a well-formed contract has strictly increasing boundaries.
    pub proof fn lemma_boundaries_increase(&self, htlc_id: u64)
        requires
            self.wf(),
            self.has_htlc(htlc_id),
        ensures
            strictly_increasing(boundaries_of(self.htlc(htlc_id))),
    {
        assert(self.htlc_ok(htlc_id - 1));
    }

    /// Sets the contract up with its administrator and parameters.
    pub fn initialize(admin: String, default_resolver_fee_bps: u32, min_timelock: u64, max_timelock: u64)
        -> (contract: FusionHTLCContract)
        ensures
            contract.wf(),
            contract.admin == admin,
            contract.default_resolver_fee_bps == default_resolver_fee_bps,
            contract.min_timelock == min_timelock,
            contract.max_timelock == max_timelock,
            !contract.paused,
            contract.htlcs@.len() == 0,
            contract.resolvers@.len() == 0,
    {
        FusionHTLCContract {
            admin,
            default_resolver_fee_bps,
            min_timelock,
            max_timelock,
            paused: false,
            htlc_counter: 0,
            htlcs: Vec::new(),
            resolvers: Vec::new(),
        }
    }

    /// Whether `address` is an enabled global resolver.
    pub fn is_global_resolver(&self, address: &String) -> (yes: bool)
        ensures
            yes == is_enabled_resolver(self.resolvers@, address@),
    {
        let mut i: usize = 0;
        while i < self.resolvers.len()
            invariant
                i <= self.resolvers@.len(),
                forall|j: int|
                    0 <= j < i ==> !((#[trigger] self.resolvers@[j]).address@ == address@
                        && self.resolvers@[j].enabled),
            decreases self.resolvers@.len() - i,
        {
            if self.resolvers[i].address == *address && self.resolvers[i].enabled {
                return true;
            }
            i += 1;
        }
        false
    }

    /// Locks `amount` of `token` for `receiver` behind `hashlock`, with the
    /// stages that `stage_durations` lays out from `now` on, and returns the id
    /// of the new HTLC. Every stage after the finality period must last, and
    /// the whole must last between the shortest and the longest timelock of
    /// the contract.
    pub fn create_fusion_htlc(
        &mut self,
        now: u64,
        sender: String,
        receiver: String,
        token: String,
        amount: i128,
        hashlock: [u8; 32],
        taker_address: String,
        allowed_resolvers: Vec<String>,
        stage_durations: StageDurations,
        resolver_fee_bps: Option<u32>,
    ) -> (result: Result<u64, StagedError>)
        requires
            old(self).wf(),
            old(self).htlc_counter < u64::MAX,
        ensures
            final(self).wf(),
            match result {
                Ok(htlc_id) => {
                    let d = stage_durations;
                    &&& create_error(
                        old(self).paused,
                        old(self).min_timelock,
                        old(self).max_timelock,
                        now,
                        amount,
                        d,
                    ) is None
                    &&& htlc_id == old(self).htlc_counter + 1
                    &&& final(self).htlc_counter == htlc_id
                    &&& final(self).admin == old(self).admin
                    &&& final(self).default_resolver_fee_bps == old(self).default_resolver_fee_bps
                    &&& final(self).min_timelock == old(self).min_timelock
                    &&& final(self).max_timelock == old(self).max_timelock
                    &&& final(self).paused == old(self).paused
                    &&& final(self).resolvers == old(self).resolvers
                    &&& final(self).htlcs@ == old(self).htlcs@.push(
                        (FusionHTLC {
                            id: htlc_id,
                            sender,
                            receiver,
                            token,
                            amount,
                            hashlock,
                            secret: None,
                            status: HTLCStatus::Pending,
                            finality_time: (now + d.finality_delay) as u64,
                            taker_deadline: (now + d.finality_delay + d.taker_exclusive_duration) as u64,
                            public_deadline: (now + d.finality_delay + d.taker_exclusive_duration
                                + d.private_resolver_duration) as u64,
                            cancellation_start: (now + d.finality_delay + d.taker_exclusive_duration
                                + d.private_resolver_duration + d.public_resolver_duration) as u64,
                            cancellation_public: (now + d.finality_delay
                                + d.taker_exclusive_duration + d.private_resolver_duration
                                + d.public_resolver_duration + d.private_cancellation_duration) as u64,
                            allowed_resolvers,
                            taker_address,
                            resolver_fee_bps: match resolver_fee_bps {
                                Some(bps) => bps,
                                None => old(self).default_resolver_fee_bps,
                            },
                            withdrawn_by: None,
                            cancelled_by: None,
                        }),
                    )
                },
                Err(e) => {
                    &&& create_error(
                        old(self).paused,
                        old(self).min_timelock,
                        old(self).max_timelock,
                        now,
                        amount,
                        stage_durations,
                    ) == Some(e)
                    &&& *final(self) == *old(self)
                },
            },
    {
        let d = stage_durations;
        if self.paused {
            return Err(StagedError::Paused);
        }
        if amount <= 0 {
            return Err(StagedError::AmountNotPositive);
        }
        if d.taker_exclusive_duration == 0 || d.private_resolver_duration == 0
            || d.public_resolver_duration == 0 || d.private_cancellation_duration == 0 {
            return Err(StagedError::EmptyStage);
        }
        let finality_time = match now.checked_add(d.finality_delay) {
            Some(t) => t,
            None => { return Err(StagedError::TotalDurationTooLong); },
        };
        let taker_deadline = match finality_time.checked_add(d.taker_exclusive_duration) {
            Some(t) => t,
            None => { return Err(StagedError::TotalDurationTooLong); },
        };
        let public_deadline = match taker_deadline.checked_add(d.private_resolver_duration) {
            Some(t) => t,
            None => { return Err(StagedError::TotalDurationTooLong); },
        };
        let cancellation_start = match public_deadline.checked_add(d.public_resolver_duration) {
            Some(t) => t,
            None => { return Err(StagedError::TotalDurationTooLong); },
        };
        let cancellation_public = match cancellation_start.checked_add(
            d.private_cancellation_duration,
        ) {
            Some(t) => t,
            None => { return Err(StagedError::TotalDurationTooLong); },
        };
        let total_duration = cancellation_public - now;
        if total_duration < self.min_timelock {
            return Err(StagedError::TotalDurationTooShort);
        }
        if total_duration > self.max_timelock {
            return Err(StagedError::TotalDurationTooLong);
        }
        let htlc_id: u64 = self.htlc_counter + 1;
        let htlc = FusionHTLC {
            id: htlc_id,
            sender,
            receiver,
            token,
            amount,
            hashlock,
            secret: None,
            status: HTLCStatus::Pending,
            finality_time,
            taker_deadline,
            public_deadline,
            cancellation_start,
            cancellation_public,
            allowed_resolvers,
            taker_address,
            resolver_fee_bps: match resolver_fee_bps {
                Some(bps) => bps,
                None => self.default_resolver_fee_bps,
            },
            withdrawn_by: None,
            cancelled_by: None,
        };
        self.htlcs.push(htlc);
        self.htlc_counter = htlc_id;
        proof {
            assert forall|i: int| 0 <= i < self.htlcs@.len() implies self.htlc_ok(i) by {
                if i < old(self).htlcs@.len() {
                    assert(old(self).htlc_ok(i));
                }
            }
        }
        Ok(htlc_id)
    }

    /// Settles HTLC `htlc_id` for `withdrawer`, given whether the revealed
    /// `secret` hashes to the hashlock (`secret_ok`). Who may settle follows
    /// from the stage at `now`. The receiver gets the amount less the resolver
    /// fee, and the fee goes to the one who settled; a receiver who settles
    /// itself pays no fee. The HTLC is completed and keeps the secret and the
    /// identity of the withdrawer. A rejected withdrawal changes nothing.
    pub fn settle(
        &mut self,
        now: u64,
        htlc_id: u64,
        withdrawer: String,
        secret: [u8; 32],
        secret_ok: bool,
    ) -> (result: Result<Payout, StagedError>)
        requires
            old(self).wf(),
        ensures
            final(self).wf(),
            match result {
                Ok(payout) => {
                    let htlc = old(self).htlc(htlc_id);
                    &&& old(self).withdraw_outcome(now, htlc_id, withdrawer@, secret_ok) is None
                    &&& final(self).same_setup(old(self))
                    &&& final(self).htlcs@ == old(self).htlcs@.update(
                        htlc_id - 1,
                        (FusionHTLC {
                            status: HTLCStatus::Completed,
                            secret: Some(secret),
                            withdrawn_by: Some(withdrawer),
                            ..htlc
                        }),
                    )
                    &&& payout == (Payout {
                        receiver: htlc.receiver,
                        receiver_amount: (htlc.amount - settlement_fee(htlc, withdrawer@)) as i128,
                        settler: withdrawer,
                        resolver_fee: settlement_fee(htlc, withdrawer@) as i128,
                    })
                },
                Err(e) => {
                    &&& old(self).withdraw_outcome(now, htlc_id, withdrawer@, secret_ok) == Some(e)
                    &&& *final(self) == *old(self)
                },
            },
    {
        let index = match self.index_of(htlc_id) {
            Some(i) => i,
            None => { return Err(StagedError::NotFound); },
        };
        let htlc = &self.htlcs[index];
        assert(self.htlc_ok(index as int));
        let stage = current_status(htlc, now);
        if stage == HTLCStatus::Completed {
            return Err(StagedError::AlreadyWithdrawn);
        }
        if stage == HTLCStatus::Cancelled {
            return Err(StagedError::AlreadyCancelled);
        }
        if !secret_ok {
            return Err(StagedError::InvalidSecret);
        }
        let allowed = match stage {
            HTLCStatus::TakerSettlement => withdrawer == htlc.taker_address,
            HTLCStatus::PrivateSettlement => withdrawer == htlc.taker_address || contains_address(
                &htlc.allowed_resolvers,
                &withdrawer,
            ) || self.is_global_resolver(&withdrawer),
            HTLCStatus::PublicSettlement => true,
            _ => false,
        };
        if !allowed {
            return Err(StagedError::NotAuthorizedToWithdraw);
        }
        let amount = htlc.amount;
        let resolver_fee: i128 = if withdrawer != htlc.receiver {
            match checked_fee(amount as u128, htlc.resolver_fee_bps as u64) {
                Some(fee) => if fee <= amount as u128 {
                    fee as i128
                } else {
                    return Err(StagedError::FeeExceedsAmount);
                },
                None => { return Err(StagedError::FeeExceedsAmount); },
            }
        } else {
            0
        };
        let payout = Payout {
            receiver: htlc.receiver.clone(),
            receiver_amount: amount - resolver_fee,
            settler: withdrawer.clone(),
            resolver_fee,
        };
        self.htlcs[index].status = HTLCStatus::Completed;
        self.htlcs[index].secret = Some(secret);
        self.htlcs[index].withdrawn_by = Some(withdrawer);
        proof {
            assert forall|i: int| 0 <= i < self.htlcs@.len() implies self.htlc_ok(i) by {
                assert(old(self).htlc_ok(i));
            }
        }
        Ok(payout)
    }

    /// Withdraws HTLC `htlc_id` by revealing `secret`: hashes the secret,
    /// compares the digest with the hashlock and settles accordingly.
    pub fn withdraw(&mut self, now: u64, htlc_id: u64, withdrawer: String, secret: [u8; 32]) -> (result:
        Result<Payout, StagedError>)
        requires
            old(self).wf(),
        ensures
            final(self).wf(),
            match result {
                Ok(payout) => {
                    let htlc = old(self).htlc(htlc_id);
                    &&& old(self).has_htlc(htlc_id)
                    &&& raw_secret_matches(secret@, htlc.hashlock@)
                    &&& old(self).withdraw_outcome(now, htlc_id, withdrawer@, true) is None
                    &&& final(self).same_setup(old(self))
                    &&& final(self).htlcs@ == old(self).htlcs@.update(
                        htlc_id - 1,
                        (FusionHTLC {
                            status: HTLCStatus::Completed,
                            secret: Some(secret),
                            withdrawn_by: Some(withdrawer),
                            ..htlc
                        }),
                    )
                    &&& payout == (Payout {
                        receiver: htlc.receiver,
                        receiver_amount: (htlc.amount - settlement_fee(htlc, withdrawer@)) as i128,
                        settler: withdrawer,
                        resolver_fee: settlement_fee(htlc, withdrawer@) as i128,
                    })
                },
                Err(e) => {
                    &&& *final(self) == *old(self)
                    &&& Some(e) == old(self).withdraw_outcome(
                        now,
                        htlc_id,
                        withdrawer@,
                        old(self).has_htlc(htlc_id) && raw_secret_matches(
                            secret@,
                            old(self).htlc(htlc_id).hashlock@,
                        ),
                    )
                },
            },
    {
        let secret_ok = match self.index_of(htlc_id) {
            Some(i) => check_raw_secret(&secret, &self.htlcs[i].hashlock),
            None => false,
        };
        self.settle(now, htlc_id, withdrawer, secret, secret_ok)
    }

    /// Cancels HTLC `htlc_id` for `canceller` and returns what goes back to the
    /// sender: the whole amount. Who may cancel follows from the stage at
    /// `now`. An HTLC that was withdrawn or cancelled is not cancelled again.
    pub fn cancel(&mut self, now: u64, htlc_id: u64, canceller: String) -> (result: Result<
        (String, i128),
        StagedError,
    >)
        requires
            old(self).wf(),
        ensures
            final(self).wf(),
            match result {
                Ok(refund) => {
                    let htlc = old(self).htlc(htlc_id);
                    &&& old(self).cancel_outcome(now, htlc_id, canceller@) is None
                    &&& final(self).same_setup(old(self))
                    &&& final(self).htlcs@ == old(self).htlcs@.update(
                        htlc_id - 1,
                        (FusionHTLC {
                            status: HTLCStatus::Cancelled,
                            cancelled_by: Some(canceller),
                            ..htlc
                        }),
                    )
                    &&& refund.0 == htlc.sender
                    &&& refund.1 == htlc.amount
                },
                Err(e) => {
                    &&& old(self).cancel_outcome(now, htlc_id, canceller@) == Some(e)
                    &&& *final(self) == *old(self)
                },
            },
    {
        let index = match self.index_of(htlc_id) {
            Some(i) => i,
            None => { return Err(StagedError::NotFound); },
        };
        let htlc = &self.htlcs[index];
        let stage = current_status(htlc, now);
        if stage == HTLCStatus::Completed {
            return Err(StagedError::AlreadyWithdrawn);
        }
        if stage == HTLCStatus::Cancelled {
            return Err(StagedError::AlreadyCancelled);
        }
        let allowed = match stage {
            HTLCStatus::PrivateCancellation => canceller == htlc.sender || contains_address(
                &htlc.allowed_resolvers,
                &canceller,
            ) || self.is_global_resolver(&canceller),
            HTLCStatus::PublicCancellation => true,
            _ => false,
        };
        if !allowed {
            return Err(StagedError::NotAuthorizedToCancel);
        }
        let refund = (htlc.sender.clone(), htlc.amount);
        self.htlcs[index].status = HTLCStatus::Cancelled;
        self.htlcs[index].cancelled_by = Some(canceller);
        proof {
            assert forall|i: int| 0 <= i < self.htlcs@.len() implies self.htlc_ok(i) by {
                assert(old(self).htlc_ok(i));
            }
        }
        Ok(refund)
    }

    /// Makes `resolver` an enabled global resolver with the given priority and
    /// fee discount, replacing what was known of it; only the administrator
    /// may do so.
    pub fn add_global_resolver(
        &mut self,
        caller: &String,
        resolver: String,
        priority: u32,
        fee_discount_bps: u32,
    ) -> (result: Result<(), StagedError>)
        ensures
            final(self).htlcs == old(self).htlcs,
            final(self).htlc_counter == old(self).htlc_counter,
            final(self).admin == old(self).admin,
            final(self).paused == old(self).paused,
            final(self).default_resolver_fee_bps == old(self).default_resolver_fee_bps,
            final(self).min_timelock == old(self).min_timelock,
            final(self).max_timelock == old(self).max_timelock,
            match result {
                Ok(()) => {
                    &&& caller@ == old(self).admin@
                    &&& is_enabled_resolver(final(self).resolvers@, resolver@)
                    &&& forall|other: Seq<char>|
                        other != resolver@ ==> #[trigger] is_enabled_resolver(
                            final(self).resolvers@,
                            other,
                        ) == is_enabled_resolver(old(self).resolvers@, other)
                },
                Err(e) => {
                    &&& e == StagedError::Unauthorized
                    &&& caller@ != old(self).admin@
                    &&& *final(self) == *old(self)
                },
            },
    {
        if *caller != self.admin {
            return Err(StagedError::Unauthorized);
        }
        let ghost before = self.resolvers@;
        let ghost name = resolver@;
        let mut i: usize = 0;
        let mut found: Option<usize> = None;
        while i < self.resolvers.len()
            invariant_except_break
                found is None,
                forall|j: int| 0 <= j < i ==> (#[trigger] self.resolvers@[j]).address@ != name,
            invariant
                i <= self.resolvers@.len(),
                self.resolvers@ == before,
                name == resolver@,
            ensures
                self.resolvers@ == before,
                found matches Some(k) ==> k < before.len() && before[k as int].address@ == name,
                found is None ==> forall|j: int|
                    0 <= j < before.len() ==> (#[trigger] before[j]).address@ != name,
            decreases self.resolvers@.len() - i,
        {
            if self.resolvers[i].address == resolver {
                found = Some(i);
                break ;
            }
            i += 1;
        }
        let config = ResolverConfig { address: resolver, priority, fee_discount_bps, enabled: true };
        match found {
            Some(k) => {
                self.resolvers[k] = config;
                proof {
                    let after = self.resolvers@;
                    assert(after[k as int].address@ == name && after[k as int].enabled);
                    assert forall|other: Seq<char>| other != name implies #[trigger] is_enabled_resolver(
                        after,
                        other,
                    ) == is_enabled_resolver(before, other) by {
                        if is_enabled_resolver(before, other) {
                            let w = choose|w: int|
                                0 <= w < before.len() && (#[trigger] before[w]).address@ == other
                                    && before[w].enabled;
                            assert(after[w] == before[w]);
                        }
                        if is_enabled_resolver(after, other) {
                            let w = choose|w: int|
                                0 <= w < after.len() && (#[trigger] after[w]).address@ == other
                                    && after[w].enabled;
                            assert(after[w] == before[w]);
                        }
                    }
                }
            },
            None => {
                self.resolvers.push(config);
                proof {
                    let after = self.resolvers@;
                    let last = after.len() - 1;
                    assert(after[last].address@ == name && after[last].enabled);
                    assert forall|other: Seq<char>| other != name implies #[trigger] is_enabled_resolver(
                        after,
                        other,
                    ) == is_enabled_resolver(before, other) by {
                        if is_enabled_resolver(before, other) {
                            let w = choose|w: int|
                                0 <= w < before.len() && (#[trigger] before[w]).address@ == other
                                    && before[w].enabled;
                            assert(after[w] == before[w]);
                        }
                        if is_enabled_resolver(after, other) {
                            let w = choose|w: int|
                                0 <= w < after.len() && (#[trigger] after[w]).address@ == other
                                    && after[w].enabled;
                            assert(after[w] == before[w]);
                        }
                    }
                }
            },
        }
        Ok(())
    }

    /// Brings the status of HTLC `htlc_id` up to date with `now`, stores it with
    /// the HTLC and returns it.
    pub fn get_htlc(&mut self, now: u64, htlc_id: u64) -> (result: Result<HTLCStatus, StagedError>)
        requires
            old(self).wf(),
        ensures
            final(self).wf(),
            final(self).same_setup(old(self)),
            match result {
                Ok(status) => {
                    &&& old(self).has_htlc(htlc_id)
                    &&& status == status_at(old(self).htlc(htlc_id), now)
                    &&& final(self).htlcs@ == old(self).htlcs@.update(
                        htlc_id - 1,
                        (FusionHTLC { status, ..old(self).htlc(htlc_id) }),
                    )
                },
                Err(e) => {
                    &&& e == StagedError::NotFound
                    &&& !old(self).has_htlc(htlc_id)
                    &&& *final(self) == *old(self)
                },
            },
    {
        let index = match self.index_of(htlc_id) {
            Some(i) => i,
            None => { return Err(StagedError::NotFound); },
        };
        let status = current_status(&self.htlcs[index], now);
        self.htlcs[index].status = status;
        proof {
            assert forall|i: int| 0 <= i < self.htlcs@.len() implies self.htlc_ok(i) by {
                assert(old(self).htlc_ok(i));
            }
        }
        Ok(status)
    }

    /// The HTLC with the given id as it is stored, if there is one.
    pub fn htlc_record(&self, htlc_id: u64) -> (htlc: Option<&FusionHTLC>)
        requires
            self.wf(),
        ensures
            htlc.is_some() == self.has_htlc(htlc_id),
            htlc matches Some(h) ==> *h == self.htlc(htlc_id),
    {
        match self.index_of(htlc_id) {
            Some(i) => Some(&self.htlcs[i]),
            None => None,
        }
    }

    /// The stage of HTLC `htlc_id` at `now`, without storing it.
    pub fn get_htlc_stage(&self, now: u64, htlc_id: u64) -> (result: Result<HTLCStatus, StagedError>)
        requires
            self.wf(),
        ensures
            match result {
                Ok(status) => self.has_htlc(htlc_id) && status == status_at(self.htlc(htlc_id), now),
                Err(e) => e == StagedError::NotFound && !self.has_htlc(htlc_id),
            },
    {
        match self.index_of(htlc_id) {
            Some(i) => Ok(current_status(&self.htlcs[i], now)),
            None => Err(StagedError::NotFound),
        }
    }

    /// Pauses or resumes the creation of HTLCs; only the administrator may do so.
    pub fn set_paused(&mut self, caller: &String, paused: bool) -> (result: Result<(), StagedError>)
        ensures
            match result {
                Ok(()) => {
                    &&& caller@ == old(self).admin@
                    &&& final(self).paused == paused
                    &&& final(self).htlcs == old(self).htlcs
                    &&& final(self).htlc_counter == old(self).htlc_counter
                    &&& final(self).admin == old(self).admin
                    &&& final(self).resolvers == old(self).resolvers
                    &&& final(self).default_resolver_fee_bps == old(self).default_resolver_fee_bps
                    &&& final(self).min_timelock == old(self).min_timelock
                    &&& final(self).max_timelock == old(self).max_timelock
                },
                Err(e) => {
                    &&& e == StagedError::Unauthorized
                    &&& caller@ != old(self).admin@
                    &&& *final(self) == *old(self)
                },
            },
    {
        if *caller != self.admin {
            return Err(StagedError::Unauthorized);
        }
        self.paused = paused;
        Ok(())
    }
}

} // verus!
