//! Hash-time-locked contracts for tokens, with a single deadline and 32-byte
//! secrets that are hashed with Keccak-256.

use vstd::prelude::*;
use crate::hashing::{check_raw_secret, raw_secret_matches};

verus! {

/// The longest that a timelock may lie in the future, in seconds: one day.
pub const MAX_TIMELOCK_AHEAD: u64 = 86400;

/// Why an operation was rejected.
#[derive(Clone, Copy, Debug, PartialEq, Eq, Structural)]
pub enum LockError {
    Unauthorized,
    AmountNotPositive,
    TimelockNotInFuture,
    TimelockTooFar,
    NotFound,
    AlreadyWithdrawn,
    AlreadyRefunded,
    TimelockExpired,
    TimelockNotExpired,
    InvalidSecret,
    Paused,
    TokenNotSupported,
    TokenNotFound,
    TokenDisabled,
    AmountBelowMinimum,
    AmountAboveMaximum,
}

impl LockError {
    /// The text of the message that describes the error.
    pub open spec fn text(self) -> Seq<char> {
        match self {
            LockError::Unauthorized => "Unauthorized"@,
            LockError::AmountNotPositive => "Amount must be positive"@,
            LockError::TimelockNotInFuture => "Timelock must be in future"@,
            LockError::TimelockTooFar => "Timelock too far in future"@,
            LockError::NotFound => "HTLC not found"@,
            LockError::AlreadyWithdrawn => "Already withdrawn"@,
            LockError::AlreadyRefunded => "Already refunded"@,
            LockError::TimelockExpired => "Timelock expired"@,
            LockError::TimelockNotExpired => "Timelock not expired"@,
            LockError::InvalidSecret => "Invalid secret"@,
            LockError::Paused => "Contract is paused"@,
            LockError::TokenNotSupported => "Token not supported"@,
            LockError::TokenNotFound => "Token not found"@,
            LockError::TokenDisabled => "Token is disabled"@,
            LockError::AmountBelowMinimum => "Amount below minimum"@,
            LockError::AmountAboveMaximum => "Amount above maximum"@,
        }
    }

    /// The message that describes the error.
    pub fn message(&self) -> (message: &'static str)
        ensures
            message@ == self.text(),
    {
        match self {
            LockError::Unauthorized => "Unauthorized",
            LockError::AmountNotPositive => "Amount must be positive",
            LockError::TimelockNotInFuture => "Timelock must be in future",
            LockError::TimelockTooFar => "Timelock too far in future",
            LockError::NotFound => "HTLC not found",
            LockError::AlreadyWithdrawn => "Already withdrawn",
            LockError::AlreadyRefunded => "Already refunded",
            LockError::TimelockExpired => "Timelock expired",
            LockError::TimelockNotExpired => "Timelock not expired",
            LockError::InvalidSecret => "Invalid secret",
            LockError::Paused => "Contract is paused",
            LockError::TokenNotSupported => "Token not supported",
            LockError::TokenNotFound => "Token not found",
            LockError::TokenDisabled => "Token is disabled",
            LockError::AmountBelowMinimum => "Amount below minimum",
            LockError::AmountAboveMaximum => "Amount above maximum",
        }
    }
}

/// One hash-time-locked contract.
#[derive(Clone, Debug, PartialEq, Eq)]
pub struct HTLCState {
    pub id: u64,
    pub sender: String,
    pub receiver: String,
    pub amount: i128,
    pub token: String,
    pub hashlock: [u8; 32],
    pub timelock: u64,
    pub withdrawn: bool,
    pub refunded: bool,
    pub secret: Option<[u8; 32]>,
}

/// A transfer of tokens out of escrow.
#[derive(Clone, Debug, PartialEq, Eq)]
pub struct TokenTransfer {
    pub token: String,
    pub to: String,
    pub amount: i128,
}

/// The contract: its administrator and its HTLCs, numbered from one.
#[derive(Debug, PartialEq, Eq)]
pub struct FusionHTLC {
    pub admin: String,
    pub htlcs: Vec<HTLCState>,
}

/// Whether `htlc` is neither withdrawn nor refunded.
pub open spec fn is_open(htlc: HTLCState) -> bool {
    !htlc.withdrawn && !htlc.refunded
}

/// The first reason for which a withdrawal from `htlc` is rejected, if any.
/// `secret_ok` says whether the revealed secret hashes to the hashlock.
pub open spec fn withdraw_error(htlc: HTLCState, now: u64, caller: Seq<char>, secret_ok: bool)
    -> Option<LockError> {
    if htlc.withdrawn {
        Some(LockError::AlreadyWithdrawn)
    } else if htlc.refunded {
        Some(LockError::AlreadyRefunded)
    } else if now >= htlc.timelock {
        Some(LockError::TimelockExpired)
    } else if !secret_ok {
        Some(LockError::InvalidSecret)
    } else if caller != htlc.receiver@ {
        Some(LockError::Unauthorized)
    } else {
        None
    }
}

/// The first reason for which a refund of `htlc` is rejected, if any.
pub open spec fn refund_error(htlc: HTLCState, now: u64, caller: Seq<char>) -> Option<LockError> {
    if htlc.withdrawn {
        Some(LockError::AlreadyWithdrawn)
    } else if htlc.refunded {
        Some(LockError::AlreadyRefunded)
    } else if now < htlc.timelock {
        Some(LockError::TimelockNotExpired)
    } else if caller != htlc.sender@ {
        Some(LockError::Unauthorized)
    } else {
        None
    }
}

/// The first reason for which a withdrawal from HTLC `htlc_id` is rejected, if any.
pub open spec fn withdraw_outcome(
    htlcs: Seq<HTLCState>,
    now: u64,
    caller: Seq<char>,
    htlc_id: u64,
    secret_ok: bool,
) -> Option<LockError> {
    if !(1 <= htlc_id <= htlcs.len()) {
        Some(LockError::NotFound)
    } else {
        withdraw_error(htlcs[htlc_id - 1], now, caller, secret_ok)
    }
}

/// The first reason for which a refund of HTLC `htlc_id` is rejected, if any.
pub open spec fn refund_outcome(htlcs: Seq<HTLCState>, now: u64, caller: Seq<char>, htlc_id: u64)
    -> Option<LockError> {
    if !(1 <= htlc_id <= htlcs.len()) {
        Some(LockError::NotFound)
    } else {
        refund_error(htlcs[htlc_id - 1], now, caller)
    }
}

/// Whether the HTLCs are numbered from one and none is both withdrawn and refunded.
pub open spec fn numbered(htlcs: Seq<HTLCState>) -> bool {
    &&& htlcs.len() < u64::MAX
    &&& forall|i: int|
        0 <= i < htlcs.len() ==> (#[trigger] htlcs[i]).id == i + 1 && !(htlcs[i].withdrawn
            && htlcs[i].refunded)
}

/// An HTLC that was withdrawn or refunded admits neither a withdrawal nor a
/// refund: nothing is paid out twice.
pub proof fn lemma_closed_htlc_stays(htlc: HTLCState, now: u64, caller: Seq<char>, secret_ok: bool)
    requires
        !is_open(htlc),
    ensures
        withdraw_error(htlc, now, caller, secret_ok) is Some,
        refund_error(htlc, now, caller) is Some,
{
}

/// A withdrawal needs a secret that hashes to the hashlock, and with such a
/// secret it is open to the receiver until the deadline.
pub proof fn lemma_withdraw_needs_secret(htlc: HTLCState, now: u64, caller: Seq<char>)
    ensures
        withdraw_error(htlc, now, caller, false) is Some,
        withdraw_error(htlc, now, caller, true) is None <==> is_open(htlc) && now < htlc.timelock
            && caller == htlc.receiver@,
{
}

/// Withdrawals end where refunds begin.
pub proof fn lemma_withdraw_excludes_refund(htlc: HTLCState, now: u64, caller: Seq<char>, secret_ok: bool)
    ensures
        !(withdraw_error(htlc, now, caller, secret_ok) is None && refund_error(htlc, now, caller)
            is None),
{
}

/// The position of the HTLC with the given id, if there is one.
pub fn position(htlcs: &Vec<HTLCState>, htlc_id: u64) -> (index: Option<usize>)
    ensures
        index.is_some() == (1 <= htlc_id <= htlcs@.len()),
        index matches Some(i) ==> i == htlc_id - 1,
{
    let count = htlcs.len();
    if htlc_id >= 1 && htlc_id - 1 < count as u64 {
        Some((htlc_id - 1) as usize)
    } else {
        None
    }
}

/// Settles HTLC `htlc_id` among `htlcs` for `caller`, given whether the
/// revealed `secret` hashes to the hashlock (`secret_ok`): before the deadline
/// the receiver gets the whole amount, and the HTLC keeps the secret. A
/// rejected withdrawal changes nothing.
pub fn settle_in(
    htlcs: &mut Vec<HTLCState>,
    now: u64,
    caller: &String,
    htlc_id: u64,
    secret: [u8; 32],
    secret_ok: bool,
) -> (result: Result<TokenTransfer, LockError>)
    requires
        numbered(old(htlcs)@),
    ensures
        numbered(final(htlcs)@),
        match result {
            Ok(transfer) => {
                let htlc = old(htlcs)@[htlc_id - 1];
                &&& withdraw_outcome(old(htlcs)@, now, caller@, htlc_id, secret_ok) is None
                &&& final(htlcs)@ == old(htlcs)@.update(
                    htlc_id - 1,
                    (HTLCState { withdrawn: true, secret: Some(secret), ..htlc }),
                )
                &&& transfer == (TokenTransfer {
                    token: htlc.token,
                    to: htlc.receiver,
                    amount: htlc.amount,
                })
            },
            Err(e) => {
                &&& withdraw_outcome(old(htlcs)@, now, caller@, htlc_id, secret_ok) == Some(e)
                &&& *final(htlcs) == *old(htlcs)
            },
        },
{
    let index = match position(htlcs, htlc_id) {
        Some(i) => i,
        None => { return Err(LockError::NotFound); },
    };
    let htlc = &htlcs[index];
    if htlc.withdrawn {
        return Err(LockError::AlreadyWithdrawn);
    }
    if htlc.refunded {
        return Err(LockError::AlreadyRefunded);
    }
    if now >= htlc.timelock {
        return Err(LockError::TimelockExpired);
    }
    if !secret_ok {
        return Err(LockError::InvalidSecret);
    }
    if *caller != htlc.receiver {
        return Err(LockError::Unauthorized);
    }
    let transfer = TokenTransfer {
        token: htlc.token.clone(),
        to: htlc.receiver.clone(),
        amount: htlc.amount,
    };
    htlcs[index].withdrawn = true;
    htlcs[index].secret = Some(secret);
    Ok(transfer)
}

/// Withdraws HTLC `htlc_id` among `htlcs` by revealing `secret`: hashes the
/// secret, compares the digest with the hashlock and settles accordingly.
pub fn withdraw_in(htlcs: &mut Vec<HTLCState>, now: u64, caller: &String, htlc_id: u64, secret: [u8; 32])
    -> (result: Result<TokenTransfer, LockError>)
    requires
        numbered(old(htlcs)@),
    ensures
        numbered(final(htlcs)@),
        match result {
            Ok(transfer) => {
                let htlc = old(htlcs)@[htlc_id - 1];
                &&& 1 <= htlc_id <= old(htlcs)@.len()
                &&& raw_secret_matches(secret@, htlc.hashlock@)
                &&& withdraw_outcome(old(htlcs)@, now, caller@, htlc_id, true) is None
                &&& final(htlcs)@ == old(htlcs)@.update(
                    htlc_id - 1,
                    (HTLCState { withdrawn: true, secret: Some(secret), ..htlc }),
                )
                &&& transfer == (TokenTransfer {
                    token: htlc.token,
                    to: htlc.receiver,
                    amount: htlc.amount,
                })
            },
            Err(e) => {
                &&& *final(htlcs) == *old(htlcs)
                &&& Some(e) == withdraw_outcome(
                    old(htlcs)@,
                    now,
                    caller@,
                    htlc_id,
                    1 <= htlc_id <= old(htlcs)@.len() && raw_secret_matches(
                        secret@,
                        old(htlcs)@[htlc_id - 1].hashlock@,
                    ),
                )
            },
        },
{
    let secret_ok = match position(htlcs, htlc_id) {
        Some(i) => check_raw_secret(&secret, &htlcs[i].hashlock),
        None => false,
    };
    settle_in(htlcs, now, caller, htlc_id, secret, secret_ok)
}

/// Refunds HTLC `htlc_id` among `htlcs` in full to its sender, who must be the
/// caller, once the deadline has passed.
pub fn refund_in(htlcs: &mut Vec<HTLCState>, now: u64, caller: &String, htlc_id: u64) -> (result: Result<
    TokenTransfer,
    LockError,
>)
    requires
        numbered(old(htlcs)@),
    ensures
        numbered(final(htlcs)@),
        match result {
            Ok(transfer) => {
                let htlc = old(htlcs)@[htlc_id - 1];
                &&& refund_outcome(old(htlcs)@, now, caller@, htlc_id) is None
                &&& final(htlcs)@ == old(htlcs)@.update(
                    htlc_id - 1,
                    (HTLCState { refunded: true, ..htlc }),
                )
                &&& transfer == (TokenTransfer {
                    token: htlc.token,
                    to: htlc.sender,
                    amount: htlc.amount,
                })
            },
            Err(e) => {
                &&& refund_outcome(old(htlcs)@, now, caller@, htlc_id) == Some(e)
                &&& *final(htlcs) == *old(htlcs)
            },
        },
{
    let index = match position(htlcs, htlc_id) {
        Some(i) => i,
        None => { return Err(LockError::NotFound); },
    };
    let htlc = &htlcs[index];
    if htlc.withdrawn {
        return Err(LockError::AlreadyWithdrawn);
    }
    if htlc.refunded {
        return Err(LockError::AlreadyRefunded);
    }
    if now < htlc.timelock {
        return Err(LockError::TimelockNotExpired);
    }
    if *caller != htlc.sender {
        return Err(LockError::Unauthorized);
    }
    let transfer = TokenTransfer {
        token: htlc.token.clone(),
        to: htlc.sender.clone(),
        amount: htlc.amount,
    };
    htlcs[index].refunded = true;
    Ok(transfer)
}

/// The first reason for which the terms of a new HTLC are rejected, if any.
pub open spec fn create_error(now: u64, amount: i128, timelock: u64) -> Option<LockError> {
    if amount <= 0 {
        Some(LockError::AmountNotPositive)
    } else if timelock <= now {
        Some(LockError::TimelockNotInFuture)
    } else if timelock > now + MAX_TIMELOCK_AHEAD {
        Some(LockError::TimelockTooFar)
    } else {
        None
    }
}

impl FusionHTLC {
    /// The invariant of the contract.
    pub open spec fn wf(&self) -> bool {
        numbered(self.htlcs@)
    }

    /// Sets the contract up with its administrator and no HTLCs.
    pub fn initialize(admin: String) -> (contract: FusionHTLC)
        ensures
            contract.wf(),
            contract.admin == admin,
            contract.htlcs@.len() == 0,
    {
        FusionHTLC { admin, htlcs: Vec::new() }
    }

    /// Locks `amount` of `token` from `sender` for `receiver` behind
    /// `hashlock` until `timelock`, which must lie in the future and at most a
    /// day ahead, and returns the id of the new HTLC.
    pub fn create_htlc(
        &mut self,
        now: u64,
        sender: String,
        receiver: String,
        token: String,
        amount: i128,
        hashlock: [u8; 32],
        timelock: u64,
    ) -> (result: Result<u64, LockError>)
        requires
            old(self).wf(),
            old(self).htlcs@.len() + 1 < u64::MAX,
        ensures
            final(self).wf(),
            final(self).admin == old(self).admin,
            match result {
                Ok(htlc_id) => {
                    &&& create_error(now, amount, timelock) is None
                    &&& htlc_id == old(self).htlcs@.len() + 1
                    &&& final(self).htlcs@ == old(self).htlcs@.push(
                        (HTLCState {
                            id: htlc_id,
                            sender,
                            receiver,
                            amount,
                            token,
                            hashlock,
                            timelock,
                            withdrawn: false,
                            refunded: false,
                            secret: None,
                        }),
                    )
                },
                Err(e) => {
                    &&& create_error(now, amount, timelock) == Some(e)
                    &&& *final(self) == *old(self)
                },
            },
    {
        if amount <= 0 {
            return Err(LockError::AmountNotPositive);
        }
        if timelock <= now {
            return Err(LockError::TimelockNotInFuture);
        }
        if timelock - now > MAX_TIMELOCK_AHEAD {
            return Err(LockError::TimelockTooFar);
        }
        let htlc_id: u64 = self.htlcs.len() as u64 + 1;
        self.htlcs.push(
            HTLCState {
                id: htlc_id,
                sender,
                receiver,
                amount,
                token,
                hashlock,
                timelock,
                withdrawn: false,
                refunded: false,
                secret: None,
            },
        );
        Ok(htlc_id)
    }

    /// Withdraws HTLC `htlc_id` for its receiver, who must be the caller, by
    /// revealing `secret`.
    pub fn withdraw(&mut self, now: u64, caller: &String, htlc_id: u64, secret: [u8; 32]) -> (result:
        Result<TokenTransfer, LockError>)
        requires
            old(self).wf(),
        ensures
            final(self).wf(),
            final(self).admin == old(self).admin,
            match result {
                Ok(transfer) => {
                    let htlc = old(self).htlcs@[htlc_id - 1];
                    &&& 1 <= htlc_id <= old(self).htlcs@.len()
                    &&& raw_secret_matches(secret@, htlc.hashlock@)
                    &&& withdraw_outcome(old(self).htlcs@, now, caller@, htlc_id, true) is None
                    &&& final(self).htlcs@ == old(self).htlcs@.update(
                        htlc_id - 1,
                        (HTLCState { withdrawn: true, secret: Some(secret), ..htlc }),
                    )
                    &&& transfer == (TokenTransfer {
                        token: htlc.token,
                        to: htlc.receiver,
                        amount: htlc.amount,
                    })
                },
                Err(e) => {
                    &&& *final(self) == *old(self)
                    &&& Some(e) == withdraw_outcome(
                        old(self).htlcs@,
                        now,
                        caller@,
                        htlc_id,
                        1 <= htlc_id <= old(self).htlcs@.len() && raw_secret_matches(
                            secret@,
                            old(self).htlcs@[htlc_id - 1].hashlock@,
                        ),
                    )
                },
            },
    {
        withdraw_in(&mut self.htlcs, now, caller, htlc_id, secret)
    }

    /// Refunds HTLC `htlc_id` to its sender, who must be the caller, once the
    /// deadline has passed.
    pub fn refund(&mut self, now: u64, caller: &String, htlc_id: u64) -> (result: Result<
        TokenTransfer,
        LockError,
    >)
        requires
            old(self).wf(),
        ensures
            final(self).wf(),
            final(self).admin == old(self).admin,
            match result {
                Ok(transfer) => {
                    let htlc = old(self).htlcs@[htlc_id - 1];
                    &&& refund_outcome(old(self).htlcs@, now, caller@, htlc_id) is None
                    &&& final(self).htlcs@ == old(self).htlcs@.update(
                        htlc_id - 1,
                        (HTLCState { refunded: true, ..htlc }),
                    )
                    &&& transfer == (TokenTransfer {
                        token: htlc.token,
                        to: htlc.sender,
                        amount: htlc.amount,
                    })
                },
                Err(e) => {
                    &&& refund_outcome(old(self).htlcs@, now, caller@, htlc_id) == Some(e)
                    &&& *final(self) == *old(self)
                },
            },
    {
        refund_in(&mut self.htlcs, now, caller, htlc_id)
    }

    /// The HTLC with the given id, if there is one.
    pub fn get_htlc(&self, htlc_id: u64) -> (htlc: Option<&HTLCState>)
        ensures
            htlc.is_some() == (1 <= htlc_id <= self.htlcs@.len()),
            htlc matches Some(h) ==> *h == self.htlcs@[htlc_id - 1],
    {
        match position(&self.htlcs, htlc_id) {
            Some(i) => Some(&self.htlcs[i]),
            None => None,
        }
    }

    /// Whether an HTLC with this id exists.
    pub fn htlc_exists(&self, htlc_id: u64) -> (yes: bool)
        ensures
            yes == (1 <= htlc_id <= self.htlcs@.len()),
    {
        position(&self.htlcs, htlc_id).is_some()
    }

    /// The number of HTLCs that were created.
    pub fn get_htlc_count(&self) -> (count: u64)
        requires
            self.wf(),
        ensures
            count == self.htlcs@.len(),
    {
        self.htlcs.len() as u64
    }
}

} // verus!
