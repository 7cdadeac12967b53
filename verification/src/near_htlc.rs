//! Hash-time-locked contracts with a single deadline, for the native asset or
//! a token, with safety deposits posted by resolvers.

use vstd::prelude::*;
use crate::hashing::{byte_len, check_hex_secret, hex_secret_check, SecretCheck};
use crate::ledger::{duplicate_text, CallContext, Transfer};

verus! {

/// The shortest timelock accepted, in seconds: one hour.
pub const MIN_TIMELOCK_DURATION: u64 = 3600;

/// The longest timelock accepted, in seconds: thirty days.
pub const MAX_TIMELOCK_DURATION: u64 = 2592000;

/// The length of a SHA-256 digest, in bytes.
pub const HASH_LENGTH: usize = 32;

/// Why an operation was rejected.
#[derive(Clone, Copy, Debug, PartialEq, Eq, Structural)]
pub enum HtlcError {
    ZeroAmount,
    InvalidHashlockLength,
    TimelockTooShort,
    TimelockTooLong,
    NotFound,
    AlreadyWithdrawn,
    AlreadyRefunded,
    Expired,
    NotExpired,
    NotReceiver,
    NotSender,
    InvalidHexSecret,
    InvalidSecret,
    ZeroDeposit,
    DepositNotFound,
    NotResolver,
    InvalidMessage,
    MissingAction,
    UnknownAction,
    MissingReceiver,
    MissingHashlock,
    MissingTimelock,
}

impl HtlcError {
    /// The text of the message that describes the error.
    pub open spec fn text(self) -> Seq<char> {
        match self {
            HtlcError::ZeroAmount => "Amount must be greater than 0"@,
            HtlcError::InvalidHashlockLength => "Invalid hashlock length"@,
            HtlcError::TimelockTooShort => "Timelock too short"@,
            HtlcError::TimelockTooLong => "Timelock too long"@,
            HtlcError::NotFound => "HTLC not found"@,
            HtlcError::AlreadyWithdrawn => "Already withdrawn"@,
            HtlcError::AlreadyRefunded => "Already refunded"@,
            HtlcError::Expired => "HTLC expired"@,
            HtlcError::NotExpired => "HTLC not expired"@,
            HtlcError::NotReceiver => "Not the receiver"@,
            HtlcError::NotSender => "Not the sender"@,
            HtlcError::InvalidHexSecret => "Invalid hex secret"@,
            HtlcError::InvalidSecret => "Invalid secret"@,
            HtlcError::ZeroDeposit => "Deposit amount must be greater than 0"@,
            HtlcError::DepositNotFound => "Deposit not found"@,
            HtlcError::NotResolver => "Not the resolver"@,
            HtlcError::InvalidMessage => "Invalid message"@,
            HtlcError::MissingAction => "Missing action in message"@,
            HtlcError::UnknownAction => "Unknown action"@,
            HtlcError::MissingReceiver => "Missing receiver"@,
            HtlcError::MissingHashlock => "Missing hashlock"@,
            HtlcError::MissingTimelock => "Missing timelock"@,
        }
    }

    /// The message that describes the error.
    pub fn message(&self) -> (message: &'static str)
        ensures
            message@ == self.text(),
    {
        match self {
            HtlcError::ZeroAmount => "Amount must be greater than 0",
            HtlcError::InvalidHashlockLength => "Invalid hashlock length",
            HtlcError::TimelockTooShort => "Timelock too short",
            HtlcError::TimelockTooLong => "Timelock too long",
            HtlcError::NotFound => "HTLC not found",
            HtlcError::AlreadyWithdrawn => "Already withdrawn",
            HtlcError::AlreadyRefunded => "Already refunded",
            HtlcError::Expired => "HTLC expired",
            HtlcError::NotExpired => "HTLC not expired",
            HtlcError::NotReceiver => "Not the receiver",
            HtlcError::NotSender => "Not the sender",
            HtlcError::InvalidHexSecret => "Invalid hex secret",
            HtlcError::InvalidSecret => "Invalid secret",
            HtlcError::ZeroDeposit => "Deposit amount must be greater than 0",
            HtlcError::DepositNotFound => "Deposit not found",
            HtlcError::NotResolver => "Not the resolver",
            HtlcError::InvalidMessage => "Invalid message",
            HtlcError::MissingAction => "Missing action in message",
            HtlcError::UnknownAction => "Unknown action",
            HtlcError::MissingReceiver => "Missing receiver",
            HtlcError::MissingHashlock => "Missing hashlock",
            HtlcError::MissingTimelock => "Missing timelock",
        }
    }
}

/// One hash-time-locked contract.
#[derive(Clone, Debug, PartialEq, Eq)]
pub struct HTLC {
    pub id: u64,
    pub sender: String,
    pub receiver: String,
    /// `None` for the native asset, the token's account otherwise.
    pub token_id: Option<String>,
    pub amount: u128,
    /// The SHA-256 digest of the secret, in hex.
    pub hashlock: String,
    /// The deadline, in seconds.
    pub timelock: u64,
    pub secret: Option<String>,
    pub withdrawn: bool,
    pub refunded: bool,
    pub created_at: u64,
}

/// Collateral that a resolver posted for an HTLC.
#[derive(Clone, Debug, PartialEq, Eq)]
pub struct SafetyDeposit {
    pub id: u64,
    pub htlc_id: u64,
    pub resolver: String,
    pub amount: u128,
    pub created_at: u64,
}

/// What a token transfer notification asks for, as read from its message.
#[derive(Clone, Debug, PartialEq, Eq)]
pub struct TransferRequest {
    pub action: Option<String>,
    pub receiver: Option<String>,
    pub hashlock: Option<String>,
    pub timelock_seconds: Option<u64>,
}

/// The contract: its HTLCs, numbered from one, and the safety deposits that
/// are still held, by ascending id.
#[derive(Debug, PartialEq, Eq)]
pub struct FusionHTLCContract {
    pub htlcs: Vec<HTLC>,
    pub safety_deposits: Vec<SafetyDeposit>,
    pub next_htlc_id: u64,
    pub next_deposit_id: u64,
}

/// The first reason for which the terms of a new HTLC are rejected, if any.
pub open spec fn create_error(amount: u128, hashlock: Seq<char>, timelock_seconds: u64) -> Option<
    HtlcError,
> {
    if amount == 0 {
        Some(HtlcError::ZeroAmount)
    } else if byte_len(hashlock) != 64 {
        Some(HtlcError::InvalidHashlockLength)
    } else if timelock_seconds < MIN_TIMELOCK_DURATION {
        Some(HtlcError::TimelockTooShort)
    } else if timelock_seconds > MAX_TIMELOCK_DURATION {
        Some(HtlcError::TimelockTooLong)
    } else {
        None
    }
}

/// The first reason for which a withdrawal from `htlc` is rejected, if any.
/// `check` is the outcome of checking the revealed secret against the hashlock.
pub open spec fn withdraw_error(htlc: HTLC, now: u64, caller: Seq<char>, check: SecretCheck)
    -> Option<HtlcError> {
    if htlc.withdrawn {
        Some(HtlcError::AlreadyWithdrawn)
    } else if htlc.refunded {
        Some(HtlcError::AlreadyRefunded)
    } else if now >= htlc.timelock {
        Some(HtlcError::Expired)
    } else if caller != htlc.receiver@ {
        Some(HtlcError::NotReceiver)
    } else {
        match check {
            SecretCheck::Malformed => Some(HtlcError::InvalidHexSecret),
            SecretCheck::Mismatch => Some(HtlcError::InvalidSecret),
            SecretCheck::Valid => None,
        }
    }
}

/// The first reason for which a refund of `htlc` is rejected, if any.
pub open spec fn refund_error(htlc: HTLC, now: u64, caller: Seq<char>) -> Option<HtlcError> {
    if htlc.withdrawn {
        Some(HtlcError::AlreadyWithdrawn)
    } else if htlc.refunded {
        Some(HtlcError::AlreadyRefunded)
    } else if now < htlc.timelock {
        Some(HtlcError::NotExpired)
    } else if caller != htlc.sender@ {
        Some(HtlcError::NotSender)
    } else {
        None
    }
}

/// `htlc` once it is withdrawn with `secret`.
pub open spec fn withdrawn_htlc(htlc: HTLC, secret: String) -> HTLC {
    HTLC { withdrawn: true, secret: Some(secret), ..htlc }
}

/// `htlc` once it is refunded.
pub open spec fn refunded_htlc(htlc: HTLC) -> HTLC {
    HTLC { refunded: true, ..htlc }
}

/// The transfer of the whole amount of `htlc` to `to`.
pub open spec fn payout(htlc: HTLC, to: String) -> Transfer {
    Transfer { to, amount: htlc.amount, token: htlc.token_id }
}

/// Whether `htlc` is neither withdrawn nor refunded.
pub open spec fn is_open(htlc: HTLC) -> bool {
    !htlc.withdrawn && !htlc.refunded
}

/// The action that a token transfer notification must name.
pub const CREATE_ACTION: &'static str = "create_htlc";

/// The first reason for which a token transfer notification is rejected, if
/// any. `request` is what was read from its message, if it could be read.
pub open spec fn transfer_error(request: Option<TransferRequest>, amount: u128) -> Option<HtlcError> {
    match request {
        None => Some(HtlcError::InvalidMessage),
        Some(r) => if r.action is None {
            Some(HtlcError::MissingAction)
        } else if r.action.unwrap()@ != CREATE_ACTION@ {
            Some(HtlcError::UnknownAction)
        } else if r.receiver is None {
            Some(HtlcError::MissingReceiver)
        } else if r.hashlock is None {
            Some(HtlcError::MissingHashlock)
        } else if r.timelock_seconds is None {
            Some(HtlcError::MissingTimelock)
        } else {
            create_error(amount, r.hashlock.unwrap()@, r.timelock_seconds.unwrap())
        },
    }
}

/// The index of the first deposit at or after `from` with the given id, or `-1`.
pub open spec fn find_deposit_from(deposits: Seq<SafetyDeposit>, deposit_id: u64, from: int) -> int
    decreases deposits.len() - from,
{
    if from < 0 || from >= deposits.len() {
        -1
    } else if deposits[from].id == deposit_id {
        from
    } else {
        find_deposit_from(deposits, deposit_id, from + 1)
    }
}

/// The index of the deposit with the given id, or `-1`.
pub open spec fn find_deposit(deposits: Seq<SafetyDeposit>, deposit_id: u64) -> int {
    find_deposit_from(deposits, deposit_id, 0)
}

/// A found deposit has the id that was looked for, and nothing before it has.
pub proof fn lemma_find_deposit(deposits: Seq<SafetyDeposit>, deposit_id: u64, from: int)
    requires
        0 <= from,
    ensures
        ({
            let k = find_deposit_from(deposits, deposit_id, from);
            &&& k == -1 || (from <= k < deposits.len() && deposits[k].id == deposit_id)
            &&& forall|j: int|
                from <= j < (if k == -1 {
                    deposits.len() as int
                } else {
                    k
                }) ==> (#[trigger] deposits[j]).id != deposit_id
        }),
    decreases deposits.len() - from,
{
    if from < deposits.len() && deposits[from].id != deposit_id {
        lemma_find_deposit(deposits, deposit_id, from + 1);
    }
}

/// An HTLC that was withdrawn or refunded admits neither a withdrawal nor a
/// refund, whatever the time, the caller and the secret.
pub proof fn lemma_closed_htlc_stays(htlc: HTLC, now: u64, caller: Seq<char>, check: SecretCheck)
    requires
        !is_open(htlc),
    ensures
        withdraw_error(htlc, now, caller, check) is Some,
        refund_error(htlc, now, caller) is Some,
{
}

/// A refunded HTLC cannot be refunded again, and a withdrawn one cannot be
/// withdrawn again.
pub proof fn lemma_settled_once(
    htlc: HTLC,
    secret: String,
    now: u64,
    caller: Seq<char>,
    check: SecretCheck,
)
    ensures
        refund_error(refunded_htlc(htlc), now, caller) is Some,
        withdraw_error(withdrawn_htlc(htlc, secret), now, caller, check) is Some,
{
}

/// A withdrawal is accepted only with a secret whose digest is the hashlock.
pub proof fn lemma_withdraw_needs_secret(htlc: HTLC, now: u64, caller: Seq<char>, check: SecretCheck)
    ensures
        withdraw_error(htlc, now, caller, check) is None ==> check == SecretCheck::Valid,
        withdraw_error(htlc, now, caller, SecretCheck::Valid) is None <==> is_open(htlc) && now
            < htlc.timelock && caller == htlc.receiver@,
{
}

/// No HTLC can be withdrawn and refunded at the same time.
pub proof fn lemma_withdraw_excludes_refund(htlc: HTLC, now: u64, caller: Seq<char>, check: SecretCheck)
    ensures
        !(withdraw_error(htlc, now, caller, check) is None && refund_error(htlc, now, caller)
            is None),
{
}

impl FusionHTLCContract {
    /// HTLCs are numbered from one in the order of their creation, none is both
    /// withdrawn and refunded, and deposits are held by ascending id.
    pub open spec fn wf(&self) -> bool {
        &&& self.next_htlc_id == self.htlcs@.len() + 1
        &&& forall|i: int| 0 <= i < self.htlcs@.len() ==> (#[trigger] self.htlcs@[i]).id == i + 1
        &&& forall|i: int|
            0 <= i < self.htlcs@.len() ==> !((#[trigger] self.htlcs@[i]).withdrawn
                && self.htlcs@[i].refunded)
        &&& forall|i: int|
            0 <= i < self.safety_deposits@.len() ==> (#[trigger] self.safety_deposits@[i]).id
                < self.next_deposit_id
        &&& forall|i: int, j: int|
            0 <= i < j < self.safety_deposits@.len() ==> (#[trigger] self.safety_deposits@[i]).id
                < (#[trigger] self.safety_deposits@[j]).id
    }

    /// Whether an HTLC with this id exists.
    pub open spec fn has_htlc(&self, htlc_id: u64) -> bool {
        1 <= htlc_id <= self.htlcs@.len()
    }

    /// The HTLC with this id.
    pub open spec fn htlc(&self, htlc_id: u64) -> HTLC {
        self.htlcs@[htlc_id - 1]
    }

    /// The id of the latest of the first `upto` HTLCs with the given hashlock, or 0.
    pub open spec fn latest_with_hashlock(&self, hashlock: Seq<char>, upto: int) -> int
        decreases upto,
    {
        if upto <= 0 {
            0
        } else if self.htlcs@[upto - 1].hashlock@ == hashlock {
            upto
        } else {
            self.latest_with_hashlock(hashlock, upto - 1)
        }
    }

    /// The first reason for which a withdrawal from HTLC `htlc_id` is rejected, if any.
    pub open spec fn withdraw_outcome(
        &self,
        now: u64,
        caller: Seq<char>,
        htlc_id: u64,
        check: SecretCheck,
    ) -> Option<HtlcError> {
        if !self.has_htlc(htlc_id) {
            Some(HtlcError::NotFound)
        } else {
            withdraw_error(self.htlc(htlc_id), now, caller, check)
        }
    }

    /// The first reason for which a refund of HTLC `htlc_id` is rejected, if any.
    pub open spec fn refund_outcome(&self, now: u64, caller: Seq<char>, htlc_id: u64) -> Option<
        HtlcError,
    > {
        if !self.has_htlc(htlc_id) {
            Some(HtlcError::NotFound)
        } else {
            refund_error(self.htlc(htlc_id), now, caller)
        }
    }

    /// Whether everything but the HTLCs is as in `other`.
    pub open spec fn same_deposits(&self, other: &FusionHTLCContract) -> bool {
        &&& self.safety_deposits == other.safety_deposits
        &&& self.next_deposit_id == other.next_deposit_id
        &&& self.next_htlc_id == other.next_htlc_id
    }

    fn index_of(&self, htlc_id: u64) -> (index: Option<usize>)
        requires
            self.wf(),
        ensures
            index.is_some() == self.has_htlc(htlc_id),
            index matches Some(i) ==> i == htlc_id - 1,
    {
        let count = self.htlcs.len();
        if htlc_id >= 1 && htlc_id < self.next_htlc_id {
            assert(htlc_id - 1 < count);
            Some((htlc_id - 1) as usize)
        } else {
            None
        }
    }

    fn locate_deposit(&self, deposit_id: u64) -> (found: Option<usize>)
        ensures
            found.is_some() == (find_deposit(self.safety_deposits@, deposit_id) >= 0),
            found matches Some(i) ==> i == find_deposit(self.safety_deposits@, deposit_id) && i
                < self.safety_deposits@.len() && self.safety_deposits@[i as int].id == deposit_id,
            found is None ==> find_deposit(self.safety_deposits@, deposit_id) == -1,
    {
        let mut i: usize = 0;
        while i < self.safety_deposits.len()
            invariant
                i <= self.safety_deposits@.len(),
                find_deposit(self.safety_deposits@, deposit_id) == find_deposit_from(
                    self.safety_deposits@,
                    deposit_id,
                    i as int,
                ),
            decreases self.safety_deposits@.len() - i,
        {
            if self.safety_deposits[i].id == deposit_id {
                return Some(i);
            }
            i += 1;
        }
        proof {
            lemma_find_deposit(self.safety_deposits@, deposit_id, 0);
        }
        None
    }

    /// A contract with no HTLCs and no deposits.
    pub fn new() -> (contract: FusionHTLCContract)
        ensures
            contract.wf(),
            contract.htlcs@.len() == 0,
            contract.safety_deposits@.len() == 0,
            contract.next_htlc_id == 1,
            contract.next_deposit_id == 1,
    {
        FusionHTLCContract {
            htlcs: Vec::new(),
            safety_deposits: Vec::new(),
            next_htlc_id: 1,
            next_deposit_id: 1,
        }
    }

    fn open_htlc(
        &mut self,
        ctx: &CallContext,
        token_id: Option<String>,
        amount: u128,
        receiver: String,
        hashlock: String,
        timelock_seconds: u64,
    ) -> (result: Result<u64, HtlcError>)
        requires
            old(self).wf(),
            old(self).next_htlc_id < u64::MAX,
        ensures
            final(self).wf(),
            final(self).safety_deposits == old(self).safety_deposits,
            final(self).next_deposit_id == old(self).next_deposit_id,
            match result {
                Ok(htlc_id) => {
                    &&& create_error(amount, hashlock@, timelock_seconds) is None
                    &&& htlc_id == old(self).next_htlc_id
                    &&& final(self).htlcs@ == old(self).htlcs@.push(
                        (HTLC {
                            id: htlc_id,
                            sender: ctx.predecessor,
                            receiver,
                            token_id,
                            amount,
                            hashlock,
                            timelock: (ctx.now() + timelock_seconds) as u64,
                            secret: None,
                            withdrawn: false,
                            refunded: false,
                            created_at: ctx.now(),
                        }),
                    )
                },
                Err(e) => {
                    &&& create_error(amount, hashlock@, timelock_seconds) == Some(e)
                    &&& *final(self) == *old(self)
                },
            },
    {
        if amount == 0 {
            return Err(HtlcError::ZeroAmount);
        }
        if hashlock.as_str().len() != HASH_LENGTH * 2 {
            return Err(HtlcError::InvalidHashlockLength);
        }
        if timelock_seconds < MIN_TIMELOCK_DURATION {
            return Err(HtlcError::TimelockTooShort);
        }
        if timelock_seconds > MAX_TIMELOCK_DURATION {
            return Err(HtlcError::TimelockTooLong);
        }
        let current_time = ctx.now_seconds();
        let htlc_id: u64 = self.next_htlc_id;
        let htlc = HTLC {
            id: htlc_id,
            sender: ctx.predecessor.clone(),
            receiver,
            token_id,
            amount,
            hashlock,
            timelock: current_time + timelock_seconds,
            secret: None,
            withdrawn: false,
            refunded: false,
            created_at: current_time,
        };
        self.htlcs.push(htlc);
        self.next_htlc_id = htlc_id + 1;
        Ok(htlc_id)
    }

    /// Locks the attached deposit of the native asset for `receiver` behind
    /// `hashlock`, until `timelock_seconds` from now, and returns the id of the
    /// new HTLC. The caller is the sender.
    pub fn create_htlc(
        &mut self,
        ctx: &CallContext,
        receiver: String,
        hashlock: String,
        timelock_seconds: u64,
    ) -> (result: Result<u64, HtlcError>)
        requires
            old(self).wf(),
            old(self).next_htlc_id < u64::MAX,
        ensures
            final(self).wf(),
            final(self).safety_deposits == old(self).safety_deposits,
            final(self).next_deposit_id == old(self).next_deposit_id,
            match result {
                Ok(htlc_id) => {
                    &&& create_error(ctx.attached_deposit, hashlock@, timelock_seconds) is None
                    &&& htlc_id == old(self).next_htlc_id
                    &&& final(self).htlcs@ == old(self).htlcs@.push(
                        (HTLC {
                            id: htlc_id,
                            sender: ctx.predecessor,
                            receiver,
                            token_id: None,
                            amount: ctx.attached_deposit,
                            hashlock,
                            timelock: (ctx.now() + timelock_seconds) as u64,
                            secret: None,
                            withdrawn: false,
                            refunded: false,
                            created_at: ctx.now(),
                        }),
                    )
                },
                Err(e) => {
                    &&& create_error(ctx.attached_deposit, hashlock@, timelock_seconds) == Some(e)
                    &&& *final(self) == *old(self)
                },
            },
    {
        self.open_htlc(ctx, None, ctx.attached_deposit, receiver, hashlock, timelock_seconds)
    }

    /// Locks `amount` of the token `token_id` for `receiver` behind `hashlock`,
    /// until `timelock_seconds` from now, and returns the id of the new HTLC.
    /// The caller is the sender.
    pub fn create_token_htlc(
        &mut self,
        ctx: &CallContext,
        token_id: String,
        amount: u128,
        receiver: String,
        hashlock: String,
        timelock_seconds: u64,
    ) -> (result: Result<u64, HtlcError>)
        requires
            old(self).wf(),
            old(self).next_htlc_id < u64::MAX,
        ensures
            final(self).wf(),
            final(self).safety_deposits == old(self).safety_deposits,
            final(self).next_deposit_id == old(self).next_deposit_id,
            match result {
                Ok(htlc_id) => {
                    &&& create_error(amount, hashlock@, timelock_seconds) is None
                    &&& htlc_id == old(self).next_htlc_id
                    &&& final(self).htlcs@ == old(self).htlcs@.push(
                        (HTLC {
                            id: htlc_id,
                            sender: ctx.predecessor,
                            receiver,
                            token_id: Some(token_id),
                            amount,
                            hashlock,
                            timelock: (ctx.now() + timelock_seconds) as u64,
                            secret: None,
                            withdrawn: false,
                            refunded: false,
                            created_at: ctx.now(),
                        }),
                    )
                },
                Err(e) => {
                    &&& create_error(amount, hashlock@, timelock_seconds) == Some(e)
                    &&& *final(self) == *old(self)
                },
            },
    {
        self.open_htlc(ctx, Some(token_id), amount, receiver, hashlock, timelock_seconds)
    }

    /// Settles HTLC `htlc_id` for the caller, given the outcome `check` of
    /// checking the revealed `secret` against the hashlock: the receiver gets
    /// the whole amount before the deadline, and the HTLC keeps the secret. A
    /// rejected withdrawal changes nothing.
    pub fn settle(&mut self, ctx: &CallContext, htlc_id: u64, secret: String, check: SecretCheck)
        -> (result: Result<Transfer, HtlcError>)
        requires
            old(self).wf(),
        ensures
            final(self).wf(),
            match result {
                Ok(transfer) => {
                    &&& old(self).withdraw_outcome(ctx.now(), ctx.predecessor@, htlc_id, check)
                        is None
                    &&& final(self).same_deposits(old(self))
                    &&& final(self).htlcs@ == old(self).htlcs@.update(
                        htlc_id - 1,
                        withdrawn_htlc(old(self).htlc(htlc_id), secret),
                    )
                    &&& transfer == payout(old(self).htlc(htlc_id), ctx.predecessor)
                },
                Err(e) => {
                    &&& old(self).withdraw_outcome(ctx.now(), ctx.predecessor@, htlc_id, check)
                        == Some(e)
                    &&& *final(self) == *old(self)
                },
            },
    {
        let index = match self.index_of(htlc_id) {
            Some(i) => i,
            None => { return Err(HtlcError::NotFound); },
        };
        let htlc = &self.htlcs[index];
        if htlc.withdrawn {
            return Err(HtlcError::AlreadyWithdrawn);
        }
        if htlc.refunded {
            return Err(HtlcError::AlreadyRefunded);
        }
        if ctx.now_seconds() >= htlc.timelock {
            return Err(HtlcError::Expired);
        }
        if ctx.predecessor != htlc.receiver {
            return Err(HtlcError::NotReceiver);
        }
        match check {
            SecretCheck::Malformed => { return Err(HtlcError::InvalidHexSecret); },
            SecretCheck::Mismatch => { return Err(HtlcError::InvalidSecret); },
            SecretCheck::Valid => {},
        }
        let transfer = Transfer {
            to: ctx.predecessor.clone(),
            amount: htlc.amount,
            token: duplicate_text(&htlc.token_id),
        };
        self.htlcs[index].withdrawn = true;
        self.htlcs[index].secret = Some(secret);
        Ok(transfer)
    }

    /// Withdraws HTLC `htlc_id` by revealing the hex-encoded `secret`: decodes
    /// and hashes the secret, compares the digest with the hashlock and settles
    /// accordingly.
    pub fn withdraw(&mut self, ctx: &CallContext, htlc_id: u64, secret: String) -> (result: Result<
        Transfer,
        HtlcError,
    >)
        requires
            old(self).wf(),
        ensures
            final(self).wf(),
            match result {
                Ok(transfer) => {
                    &&& old(self).has_htlc(htlc_id)
                    &&& hex_secret_check(secret@, old(self).htlc(htlc_id).hashlock@)
                        == SecretCheck::Valid
                    &&& old(self).withdraw_outcome(
                        ctx.now(),
                        ctx.predecessor@,
                        htlc_id,
                        SecretCheck::Valid,
                    ) is None
                    &&& final(self).same_deposits(old(self))
                    &&& final(self).htlcs@ == old(self).htlcs@.update(
                        htlc_id - 1,
                        withdrawn_htlc(old(self).htlc(htlc_id), secret),
                    )
                    &&& transfer == payout(old(self).htlc(htlc_id), ctx.predecessor)
                },
                Err(e) => {
                    &&& *final(self) == *old(self)
                    &&& Some(e) == (if old(self).has_htlc(htlc_id) {
                        withdraw_error(
                            old(self).htlc(htlc_id),
                            ctx.now(),
                            ctx.predecessor@,
                            hex_secret_check(secret@, old(self).htlc(htlc_id).hashlock@),
                        )
                    } else {
                        Some(HtlcError::NotFound)
                    })
                },
            },
    {
        let check = match self.index_of(htlc_id) {
            Some(i) => check_hex_secret(&secret, &self.htlcs[i].hashlock),
            None => SecretCheck::Malformed,
        };
        self.settle(ctx, htlc_id, secret, check)
    }

    /// Refunds HTLC `htlc_id` in full to its sender once the deadline has
    /// passed. An HTLC that was withdrawn or refunded is not refunded again.
    pub fn refund(&mut self, ctx: &CallContext, htlc_id: u64) -> (result: Result<Transfer, HtlcError>)
        requires
            old(self).wf(),
        ensures
            final(self).wf(),
            match result {
                Ok(transfer) => {
                    &&& old(self).refund_outcome(ctx.now(), ctx.predecessor@, htlc_id) is None
                    &&& final(self).same_deposits(old(self))
                    &&& final(self).htlcs@ == old(self).htlcs@.update(
                        htlc_id - 1,
                        refunded_htlc(old(self).htlc(htlc_id)),
                    )
                    &&& transfer == payout(old(self).htlc(htlc_id), ctx.predecessor)
                },
                Err(e) => {
                    &&& old(self).refund_outcome(ctx.now(), ctx.predecessor@, htlc_id) == Some(e)
                    &&& *final(self) == *old(self)
                },
            },
    {
        let index = match self.index_of(htlc_id) {
            Some(i) => i,
            None => { return Err(HtlcError::NotFound); },
        };
        let htlc = &self.htlcs[index];
        if htlc.withdrawn {
            return Err(HtlcError::AlreadyWithdrawn);
        }
        if htlc.refunded {
            return Err(HtlcError::AlreadyRefunded);
        }
        if ctx.now_seconds() < htlc.timelock {
            return Err(HtlcError::NotExpired);
        }
        if ctx.predecessor != htlc.sender {
            return Err(HtlcError::NotSender);
        }
        let transfer = Transfer {
            to: ctx.predecessor.clone(),
            amount: htlc.amount,
            token: duplicate_text(&htlc.token_id),
        };
        self.htlcs[index].refunded = true;
        Ok(transfer)
    }

    /// Records the attached deposit as collateral of the caller for HTLC
    /// `htlc_id`, and returns the id of the deposit.
    pub fn create_safety_deposit(&mut self, ctx: &CallContext, htlc_id: u64) -> (result: Result<
        u64,
        HtlcError,
    >)
        requires
            old(self).wf(),
            old(self).next_deposit_id < u64::MAX,
        ensures
            final(self).wf(),
            final(self).htlcs == old(self).htlcs,
            final(self).next_htlc_id == old(self).next_htlc_id,
            match result {
                Ok(deposit_id) => {
                    &&& old(self).has_htlc(htlc_id)
                    &&& ctx.attached_deposit > 0
                    &&& deposit_id == old(self).next_deposit_id
                    &&& final(self).next_deposit_id == deposit_id + 1
                    &&& final(self).safety_deposits@ == old(self).safety_deposits@.push(
                        (SafetyDeposit {
                            id: deposit_id,
                            htlc_id,
                            resolver: ctx.predecessor,
                            amount: ctx.attached_deposit,
                            created_at: ctx.now(),
                        }),
                    )
                },
                Err(e) => {
                    &&& *final(self) == *old(self)
                    &&& e == (if !old(self).has_htlc(htlc_id) {
                        HtlcError::NotFound
                    } else {
                        HtlcError::ZeroDeposit
                    })
                    &&& !old(self).has_htlc(htlc_id) || ctx.attached_deposit == 0
                },
            },
    {
        if self.index_of(htlc_id).is_none() {
            return Err(HtlcError::NotFound);
        }
        if ctx.attached_deposit == 0 {
            return Err(HtlcError::ZeroDeposit);
        }
        let deposit_id: u64 = self.next_deposit_id;
        let deposit = SafetyDeposit {
            id: deposit_id,
            htlc_id,
            resolver: ctx.predecessor.clone(),
            amount: ctx.attached_deposit,
            created_at: ctx.now_seconds(),
        };
        self.safety_deposits.push(deposit);
        self.next_deposit_id = deposit_id + 1;
        Ok(deposit_id)
    }

    /// Returns deposit `deposit_id` to the resolver who posted it, who must be
    /// the caller, and forgets it: a deposit is claimed at most once.
    pub fn claim_safety_deposit(&mut self, ctx: &CallContext, deposit_id: u64) -> (result: Result<
        Transfer,
        HtlcError,
    >)
        requires
            old(self).wf(),
        ensures
            final(self).wf(),
            final(self).htlcs == old(self).htlcs,
            final(self).next_htlc_id == old(self).next_htlc_id,
            final(self).next_deposit_id == old(self).next_deposit_id,
            match result {
                Ok(transfer) => {
                    let k = find_deposit(old(self).safety_deposits@, deposit_id);
                    &&& k >= 0
                    &&& ctx.predecessor@ == old(self).safety_deposits@[k].resolver@
                    &&& final(self).safety_deposits@ == old(self).safety_deposits@.remove(k)
                    &&& find_deposit(final(self).safety_deposits@, deposit_id) == -1
                    &&& transfer == (Transfer {
                        to: ctx.predecessor,
                        amount: old(self).safety_deposits@[k].amount,
                        token: None,
                    })
                },
                Err(e) => {
                    let k = find_deposit(old(self).safety_deposits@, deposit_id);
                    &&& *final(self) == *old(self)
                    &&& if k < 0 {
                        e == HtlcError::DepositNotFound
                    } else {
                        e == HtlcError::NotResolver && ctx.predecessor@
                            != old(self).safety_deposits@[k].resolver@
                    }
                },
            },
    {
        let k = match self.locate_deposit(deposit_id) {
            Some(k) => k,
            None => { return Err(HtlcError::DepositNotFound); },
        };
        if ctx.predecessor != self.safety_deposits[k].resolver {
            return Err(HtlcError::NotResolver);
        }
        let ghost before = self.safety_deposits@;
        let amount = self.safety_deposits[k].amount;
        let _ = self.safety_deposits.remove(k);
        proof {
            let after = self.safety_deposits@;
            assert forall|j: int| 0 <= j < after.len() implies #[trigger] after[j] == (if j < k {
                before[j]
            } else {
                before[j + 1]
            }) by {}
            assert forall|j: int| 0 <= j < after.len() implies (#[trigger] after[j]).id
                != deposit_id by {
                if j < k {
                    assert(before[j].id < before[k as int].id);
                } else {
                    assert(before[k as int].id < before[j + 1].id);
                }
            }
            assert forall|i: int, j: int| 0 <= i < j < after.len() implies (#[trigger] after[i]).id
                < (#[trigger] after[j]).id by {
                let a = if i < k { i } else { i + 1 };
                let b = if j < k { j } else { j + 1 };
                assert(before[a].id < before[b].id);
            }
            lemma_find_deposit(after, deposit_id, 0);
        }
        Ok(Transfer { to: ctx.predecessor.clone(), amount, token: None })
    }

    /// The HTLC with the given id, if there is one.
    pub fn get_htlc(&self, htlc_id: u64) -> (htlc: Option<&HTLC>)
        requires
            self.wf(),
        ensures
            htlc.is_some() == self.has_htlc(htlc_id),
            htlc matches Some(h) ==> *h == self.htlc(htlc_id),
    {
        match self.index_of(htlc_id) {
            Some(i) => Some(&self.htlcs[i]),
            None => None,
        }
    }

    /// The latest HTLC that was created with the given hashlock, if there is one.
    pub fn get_htlc_by_hashlock(&self, hashlock: &String) -> (htlc: Option<&HTLC>)
        requires
            self.wf(),
        ensures
            match htlc {
                Some(h) => {
                    let id = self.latest_with_hashlock(hashlock@, self.htlcs@.len() as int);
                    &&& 1 <= id <= self.htlcs@.len()
                    &&& *h == self.htlcs@[id - 1]
                    &&& h.hashlock@ == hashlock@
                },
                None => self.latest_with_hashlock(hashlock@, self.htlcs@.len() as int) == 0,
            },
    {
        let mut i: usize = self.htlcs.len();
        while i > 0
            invariant
                i <= self.htlcs@.len(),
                self.latest_with_hashlock(hashlock@, self.htlcs@.len() as int)
                    == self.latest_with_hashlock(hashlock@, i as int),
            decreases i,
        {
            if self.htlcs[i - 1].hashlock == *hashlock {
                return Some(&self.htlcs[i - 1]);
            }
            i -= 1;
        }
        None
    }

    /// Whether HTLC `htlc_id` exists, is open and has not reached its deadline.
    pub fn can_withdraw(&self, ctx: &CallContext, htlc_id: u64) -> (yes: bool)
        requires
            self.wf(),
        ensures
            yes == (self.has_htlc(htlc_id) && is_open(self.htlc(htlc_id)) && ctx.now() < self.htlc(
                htlc_id,
            ).timelock),
    {
        match self.index_of(htlc_id) {
            Some(i) => {
                let htlc = &self.htlcs[i];
                !htlc.withdrawn && !htlc.refunded && ctx.now_seconds() < htlc.timelock
            },
            None => false,
        }
    }

    /// Whether HTLC `htlc_id` exists, is open and has reached its deadline.
    pub fn can_refund(&self, ctx: &CallContext, htlc_id: u64) -> (yes: bool)
        requires
            self.wf(),
        ensures
            yes == (self.has_htlc(htlc_id) && is_open(self.htlc(htlc_id)) && ctx.now()
                >= self.htlc(htlc_id).timelock),
    {
        match self.index_of(htlc_id) {
            Some(i) => {
                let htlc = &self.htlcs[i];
                !htlc.withdrawn && !htlc.refunded && ctx.now_seconds() >= htlc.timelock
            },
            None => false,
        }
    }

    /// The deposit with the given id, if it is still held.
    pub fn get_safety_deposit(&self, deposit_id: u64) -> (deposit: Option<&SafetyDeposit>)
        ensures
            deposit.is_some() == (find_deposit(self.safety_deposits@, deposit_id) >= 0),
            deposit matches Some(d) ==> *d == self.safety_deposits@[find_deposit(
                self.safety_deposits@,
                deposit_id,
            )],
    {
        match self.locate_deposit(deposit_id) {
            Some(k) => Some(&self.safety_deposits[k]),
            None => None,
        }
    }

    /// Handles the notification that `amount` of a token was transferred to
    /// the contract: the calling token contract becomes both the sender and the
    /// token of a new HTLC with the terms of `request`. Returns the amount that
    /// was not used, which is zero.
    pub fn ft_on_transfer(
        &mut self,
        ctx: &CallContext,
        _sender_id: String,
        amount: u128,
        request: Option<TransferRequest>,
    ) -> (result: Result<u128, HtlcError>)
        requires
            old(self).wf(),
            old(self).next_htlc_id < u64::MAX,
        ensures
            final(self).wf(),
            final(self).safety_deposits == old(self).safety_deposits,
            final(self).next_deposit_id == old(self).next_deposit_id,
            match result {
                Ok(unused) => {
                    &&& unused == 0
                    &&& transfer_error(request, amount) is None
                    &&& final(self).htlcs@ == old(self).htlcs@.push(
                        (HTLC {
                            id: old(self).next_htlc_id,
                            sender: ctx.predecessor,
                            receiver: request.unwrap().receiver.unwrap(),
                            token_id: Some(ctx.predecessor),
                            amount,
                            hashlock: request.unwrap().hashlock.unwrap(),
                            timelock: (ctx.now() + request.unwrap().timelock_seconds.unwrap()) as u64,
                            secret: None,
                            withdrawn: false,
                            refunded: false,
                            created_at: ctx.now(),
                        }),
                    )
                },
                Err(e) => {
                    &&& transfer_error(request, amount) == Some(e)
                    &&& *final(self) == *old(self)
                },
            },
    {
        let request = match request {
            Some(r) => r,
            None => { return Err(HtlcError::InvalidMessage); },
        };
        let action = match request.action {
            Some(a) => a,
            None => { return Err(HtlcError::MissingAction); },
        };
        if action != String::from_str(CREATE_ACTION) {
            return Err(HtlcError::UnknownAction);
        }
        let receiver = match request.receiver {
            Some(r) => r,
            None => { return Err(HtlcError::MissingReceiver); },
        };
        let hashlock = match request.hashlock {
            Some(h) => h,
            None => { return Err(HtlcError::MissingHashlock); },
        };
        let timelock_seconds = match request.timelock_seconds {
            Some(t) => t,
            None => { return Err(HtlcError::MissingTimelock); },
        };
        match self.create_token_htlc(
            ctx,
            ctx.predecessor.clone(),
            amount,
            receiver,
            hashlock,
            timelock_seconds,
        ) {
            Ok(_) => Ok(0),
            Err(e) => Err(e),
        }
    }
}

} // verus!
