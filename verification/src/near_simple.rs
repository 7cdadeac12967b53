//! The plainest hash-time-locked contract: the native asset, one deadline, the
//! receiver withdraws with the secret and the sender is refunded afterwards.

use vstd::prelude::*;
use crate::hashing::{byte_len, check_hex_secret, hex_secret_check, SecretCheck};
use crate::ledger::{CallContext, Transfer};

verus! {

/// The shortest timelock accepted, in seconds: one hour.
pub const MIN_TIMELOCK: u64 = 3600;

/// The longest timelock accepted, in seconds: thirty days.
pub const MAX_TIMELOCK: u64 = 2592000;

/// Why an operation was rejected.
#[derive(Clone, Copy, Debug, PartialEq, Eq, Structural)]
pub enum SimpleError {
    ZeroAmount,
    InvalidHashlock,
    InvalidTimelock,
    NotFound,
    AlreadyProcessed,
    NotReceiver,
    NotSender,
    Expired,
    NotExpired,
    InvalidHex,
    InvalidSecret,
}

impl SimpleError {
    /// The text of the message that describes the error.
    pub open spec fn text(self) -> Seq<char> {
        match self {
            SimpleError::ZeroAmount => "Amount must be greater than 0"@,
            SimpleError::InvalidHashlock => "Invalid hashlock"@,
            SimpleError::InvalidTimelock => "Invalid timelock"@,
            SimpleError::NotFound => "HTLC not found"@,
            SimpleError::AlreadyProcessed => "Already processed"@,
            SimpleError::NotReceiver => "Not receiver"@,
            SimpleError::NotSender => "Not sender"@,
            SimpleError::Expired => "Expired"@,
            SimpleError::NotExpired => "Not expired"@,
            SimpleError::InvalidHex => "Invalid hex"@,
            SimpleError::InvalidSecret => "Invalid secret"@,
        }
    }

    /// The message that describes the error.
    pub fn message(&self) -> (message: &'static str)
        ensures
            message@ == self.text(),
    {
        match self {
            SimpleError::ZeroAmount => "Amount must be greater than 0",
            SimpleError::InvalidHashlock => "Invalid hashlock",
            SimpleError::InvalidTimelock => "Invalid timelock",
            SimpleError::NotFound => "HTLC not found",
            SimpleError::AlreadyProcessed => "Already processed",
            SimpleError::NotReceiver => "Not receiver",
            SimpleError::NotSender => "Not sender",
            SimpleError::Expired => "Expired",
            SimpleError::NotExpired => "Not expired",
            SimpleError::InvalidHex => "Invalid hex",
            SimpleError::InvalidSecret => "Invalid secret",
        }
    }
}

/// One hash-time-locked contract.
#[derive(Clone, Debug, PartialEq, Eq)]
pub struct HTLCInfo {
    pub sender: String,
    pub receiver: String,
    pub amount: u128,
    pub hashlock: String,
    pub timelock: u64,
    pub secret: Option<String>,
    pub withdrawn: bool,
    pub refunded: bool,
}

/// The contract: its HTLCs, numbered from one.
#[derive(Debug, PartialEq, Eq)]
pub struct FusionHTLC {
    pub htlcs: Vec<HTLCInfo>,
    pub next_id: u64,
}

/// The first reason for which the terms of a new HTLC are rejected, if any.
pub open spec fn create_error(amount: u128, hashlock: Seq<char>, timelock_seconds: u64) -> Option<
    SimpleError,
> {
    if amount == 0 {
        Some(SimpleError::ZeroAmount)
    } else if byte_len(hashlock) != 64 {
        Some(SimpleError::InvalidHashlock)
    } else if timelock_seconds < MIN_TIMELOCK || timelock_seconds > MAX_TIMELOCK {
        Some(SimpleError::InvalidTimelock)
    } else {
        None
    }
}

/// The first reason for which a withdrawal from `htlc` is rejected, if any.
/// `check` is the outcome of checking the revealed secret against the hashlock.
pub open spec fn withdraw_error(htlc: HTLCInfo, now: u64, caller: Seq<char>, check: SecretCheck)
    -> Option<SimpleError> {
    if htlc.withdrawn || htlc.refunded {
        Some(SimpleError::AlreadyProcessed)
    } else if caller != htlc.receiver@ {
        Some(SimpleError::NotReceiver)
    } else if now >= htlc.timelock {
        Some(SimpleError::Expired)
    } else {
        match check {
            SecretCheck::Malformed => Some(SimpleError::InvalidHex),
            SecretCheck::Mismatch => Some(SimpleError::InvalidSecret),
            SecretCheck::Valid => None,
        }
    }
}

/// The first reason for which a refund of `htlc` is rejected, if any.
pub open spec fn refund_error(htlc: HTLCInfo, now: u64, caller: Seq<char>) -> Option<SimpleError> {
    if htlc.withdrawn || htlc.refunded {
        Some(SimpleError::AlreadyProcessed)
    } else if caller != htlc.sender@ {
        Some(SimpleError::NotSender)
    } else if now < htlc.timelock {
        Some(SimpleError::NotExpired)
    } else {
        None
    }
}

/// Whether `htlc` is neither withdrawn nor refunded.
pub open spec fn is_open(htlc: HTLCInfo) -> bool {
    !htlc.withdrawn && !htlc.refunded
}

/// An HTLC that was withdrawn or refunded admits neither a withdrawal nor a
/// refund: in particular, nothing is refunded twice.
pub proof fn lemma_closed_htlc_stays(htlc: HTLCInfo, now: u64, caller: Seq<char>, check: SecretCheck)
    requires
        !is_open(htlc),
    ensures
        withdraw_error(htlc, now, caller, check) is Some,
        refund_error(htlc, now, caller) is Some,
{
}

/// A withdrawal is accepted only with a secret whose digest is the hashlock.
pub proof fn lemma_withdraw_needs_secret(htlc: HTLCInfo, now: u64, caller: Seq<char>, check: SecretCheck)
    ensures
        withdraw_error(htlc, now, caller, check) is None ==> check == SecretCheck::Valid,
        withdraw_error(htlc, now, caller, SecretCheck::Valid) is None <==> is_open(htlc) && caller
            == htlc.receiver@ && now < htlc.timelock,
{
}

impl FusionHTLC {
    /// HTLCs are numbered from one, and none is both withdrawn and refunded.
    pub open spec fn wf(&self) -> bool {
        &&& self.next_id == self.htlcs@.len() + 1
        &&& forall|i: int|
            0 <= i < self.htlcs@.len() ==> !((#[trigger] self.htlcs@[i]).withdrawn
                && self.htlcs@[i].refunded)
    }

    /// Whether an HTLC with this id exists.
    pub open spec fn has_htlc(&self, htlc_id: u64) -> bool {
        1 <= htlc_id <= self.htlcs@.len()
    }

    /// The HTLC with this id.
    pub open spec fn htlc(&self, htlc_id: u64) -> HTLCInfo {
        self.htlcs@[htlc_id - 1]
    }

    /// The first reason for which a withdrawal from HTLC `htlc_id` is rejected, if any.
    pub open spec fn withdraw_outcome(&self, ctx: &CallContext, htlc_id: u64, check: SecretCheck)
        -> Option<SimpleError> {
        if !self.has_htlc(htlc_id) {
            Some(SimpleError::NotFound)
        } else {
            withdraw_error(self.htlc(htlc_id), ctx.now(), ctx.predecessor@, check)
        }
    }

    /// The first reason for which a refund of HTLC `htlc_id` is rejected, if any.
    pub open spec fn refund_outcome(&self, ctx: &CallContext, htlc_id: u64) -> Option<SimpleError> {
        if !self.has_htlc(htlc_id) {
            Some(SimpleError::NotFound)
        } else {
            refund_error(self.htlc(htlc_id), ctx.now(), ctx.predecessor@)
        }
    }

    fn index_of(&self, htlc_id: u64) -> (index: Option<usize>)
        requires
            self.wf(),
        ensures
            index.is_some() == self.has_htlc(htlc_id),
            index matches Some(i) ==> i == htlc_id - 1,
    {
        let count = self.htlcs.len();
        if htlc_id >= 1 && htlc_id < self.next_id {
            assert(htlc_id - 1 < count);
            Some((htlc_id - 1) as usize)
        } else {
            None
        }
    }

    /// A contract with no HTLCs.
    pub fn new() -> (contract: FusionHTLC)
        ensures
            contract.wf(),
            contract.htlcs@.len() == 0,
    {
        FusionHTLC { htlcs: Vec::new(), next_id: 1 }
    }

    /// Locks the attached deposit for `receiver` behind `hashlock`, until
    /// `timelock_seconds` from now, and returns the id of the new HTLC.
    pub fn create_htlc(
        &mut self,
        ctx: &CallContext,
        receiver: String,
        hashlock: String,
        timelock_seconds: u64,
    ) -> (result: Result<u64, SimpleError>)
        requires
            old(self).wf(),
            old(self).next_id < u64::MAX,
        ensures
            final(self).wf(),
            match result {
                Ok(htlc_id) => {
                    &&& create_error(ctx.attached_deposit, hashlock@, timelock_seconds) is None
                    &&& htlc_id == old(self).next_id
                    &&& final(self).htlcs@ == old(self).htlcs@.push(
                        (HTLCInfo {
                            sender: ctx.predecessor,
                            receiver,
                            amount: ctx.attached_deposit,
                            hashlock,
                            timelock: (ctx.now() + timelock_seconds) as u64,
                            secret: None,
                            withdrawn: false,
                            refunded: false,
                        }),
                    )
                },
                Err(e) => {
                    &&& create_error(ctx.attached_deposit, hashlock@, timelock_seconds) == Some(e)
                    &&& *final(self) == *old(self)
                },
            },
    {
        if ctx.attached_deposit == 0 {
            return Err(SimpleError::ZeroAmount);
        }
        if hashlock.as_str().len() != 64 {
            return Err(SimpleError::InvalidHashlock);
        }
        if timelock_seconds < MIN_TIMELOCK || timelock_seconds > MAX_TIMELOCK {
            return Err(SimpleError::InvalidTimelock);
        }
        let htlc_id: u64 = self.next_id;
        let htlc = HTLCInfo {
            sender: ctx.predecessor.clone(),
            receiver,
            amount: ctx.attached_deposit,
            hashlock,
            timelock: ctx.now_seconds() + timelock_seconds,
            secret: None,
            withdrawn: false,
            refunded: false,
        };
        self.htlcs.push(htlc);
        self.next_id = htlc_id + 1;
        Ok(htlc_id)
    }

    /// Settles HTLC `htlc_id` for the caller, given the outcome `check` of
    /// checking the revealed `secret` against the hashlock: the receiver gets
    /// the whole amount before the deadline. A rejected withdrawal changes nothing.
    pub fn settle(&mut self, ctx: &CallContext, htlc_id: u64, secret: String, check: SecretCheck)
        -> (result: Result<Transfer, SimpleError>)
        requires
            old(self).wf(),
        ensures
            final(self).wf(),
            match result {
                Ok(transfer) => {
                    &&& old(self).withdraw_outcome(ctx, htlc_id, check) is None
                    &&& final(self).next_id == old(self).next_id
                    &&& final(self).htlcs@ == old(self).htlcs@.update(
                        htlc_id - 1,
                        (HTLCInfo { withdrawn: true, secret: Some(secret), ..old(self).htlc(htlc_id) }),
                    )
                    &&& transfer == (Transfer {
                        to: old(self).htlc(htlc_id).receiver,
                        amount: old(self).htlc(htlc_id).amount,
                        token: None,
                    })
                },
                Err(e) => {
                    &&& old(self).withdraw_outcome(ctx, htlc_id, check) == Some(e)
                    &&& *final(self) == *old(self)
                },
            },
    {
        let index = match self.index_of(htlc_id) {
            Some(i) => i,
            None => { return Err(SimpleError::NotFound); },
        };
        let htlc = &self.htlcs[index];
        if htlc.withdrawn || htlc.refunded {
            return Err(SimpleError::AlreadyProcessed);
        }
        if ctx.predecessor != htlc.receiver {
            return Err(SimpleError::NotReceiver);
        }
        if ctx.now_seconds() >= htlc.timelock {
            return Err(SimpleError::Expired);
        }
        match check {
            SecretCheck::Malformed => { return Err(SimpleError::InvalidHex); },
            SecretCheck::Mismatch => { return Err(SimpleError::InvalidSecret); },
            SecretCheck::Valid => {},
        }
        let transfer = Transfer { to: htlc.receiver.clone(), amount: htlc.amount, token: None };
        self.htlcs[index].withdrawn = true;
        self.htlcs[index].secret = Some(secret);
        Ok(transfer)
    }

    /// Withdraws HTLC `htlc_id` by revealing the hex-encoded `secret`.
    pub fn withdraw(&mut self, ctx: &CallContext, htlc_id: u64, secret: String) -> (result: Result<
        Transfer,
        SimpleError,
    >)
        requires
            old(self).wf(),
        ensures
            final(self).wf(),
            match result {
                Ok(transfer) => {
                    &&& old(self).has_htlc(htlc_id)
                    &&& hex_secret_check(secret@, old(self).htlc(htlc_id).hashlock@)
                        == SecretCheck::Valid
                    &&& old(self).withdraw_outcome(ctx, htlc_id, SecretCheck::Valid) is None
                    &&& final(self).next_id == old(self).next_id
                    &&& final(self).htlcs@ == old(self).htlcs@.update(
                        htlc_id - 1,
                        (HTLCInfo { withdrawn: true, secret: Some(secret), ..old(self).htlc(htlc_id) }),
                    )
                    &&& transfer == (Transfer {
                        to: old(self).htlc(htlc_id).receiver,
                        amount: old(self).htlc(htlc_id).amount,
                        token: None,
                    })
                },
                Err(e) => {
                    &&& *final(self) == *old(self)
                    &&& Some(e) == (if old(self).has_htlc(htlc_id) {
                        withdraw_error(
                            old(self).htlc(htlc_id),
                            ctx.now(),
                            ctx.predecessor@,
                            hex_secret_check(secret@, old(self).htlc(htlc_id).hashlock@),
                        )
                    } else {
                        Some(SimpleError::NotFound)
                    })
                },
            },
    {
        let check = match self.index_of(htlc_id) {
            Some(i) => check_hex_secret(&secret, &self.htlcs[i].hashlock),
            None => SecretCheck::Malformed,
        };
        self.settle(ctx, htlc_id, secret, check)
    }

    /// Refunds HTLC `htlc_id` in full to its sender, who must be the caller,
    /// once the deadline has passed.
    pub fn refund(&mut self, ctx: &CallContext, htlc_id: u64) -> (result: Result<Transfer, SimpleError>)
        requires
            old(self).wf(),
        ensures
            final(self).wf(),
            match result {
                Ok(transfer) => {
                    &&& old(self).refund_outcome(ctx, htlc_id) is None
                    &&& final(self).next_id == old(self).next_id
                    &&& final(self).htlcs@ == old(self).htlcs@.update(
                        htlc_id - 1,
                        (HTLCInfo { refunded: true, ..old(self).htlc(htlc_id) }),
                    )
                    &&& transfer == (Transfer {
                        to: old(self).htlc(htlc_id).sender,
                        amount: old(self).htlc(htlc_id).amount,
                        token: None,
                    })
                },
                Err(e) => {
                    &&& old(self).refund_outcome(ctx, htlc_id) == Some(e)
                    &&& *final(self) == *old(self)
                },
            },
    {
        let index = match self.index_of(htlc_id) {
            Some(i) => i,
            None => { return Err(SimpleError::NotFound); },
        };
        let htlc = &self.htlcs[index];
        if htlc.withdrawn || htlc.refunded {
            return Err(SimpleError::AlreadyProcessed);
        }
        if ctx.predecessor != htlc.sender {
            return Err(SimpleError::NotSender);
        }
        if ctx.now_seconds() < htlc.timelock {
            return Err(SimpleError::NotExpired);
        }
        let transfer = Transfer { to: htlc.sender.clone(), amount: htlc.amount, token: None };
        self.htlcs[index].refunded = true;
        Ok(transfer)
    }

    /// Whether an HTLC with this id exists.
    pub fn htlc_exists(&self, htlc_id: u64) -> (yes: bool)
        requires
            self.wf(),
        ensures
            yes == self.has_htlc(htlc_id),
    {
        self.index_of(htlc_id).is_some()
    }

    /// Whether HTLC `htlc_id` exists, is open and has not reached its deadline.
    pub fn can_withdraw(&self, ctx: &CallContext, htlc_id: u64) -> (yes: bool)
        requires
            self.wf(),
        ensures
            yes == (self.has_htlc(htlc_id) && is_open(self.htlc(htlc_id)) && ctx.now() < self.htlc(
                htlc_id,
            ).timelock),
    {
        match self.index_of(htlc_id) {
            Some(i) => {
                let htlc = &self.htlcs[i];
                !htlc.withdrawn && !htlc.refunded && ctx.now_seconds() < htlc.timelock
            },
            None => false,
        }
    }

    /// Whether HTLC `htlc_id` exists, is open and has reached its deadline.
    pub fn can_refund(&self, ctx: &CallContext, htlc_id: u64) -> (yes: bool)
        requires
            self.wf(),
        ensures
            yes == (self.has_htlc(htlc_id) && is_open(self.htlc(htlc_id)) && ctx.now()
                >= self.htlc(htlc_id).timelock),
    {
        match self.index_of(htlc_id) {
            Some(i) => {
                let htlc = &self.htlcs[i];
                !htlc.withdrawn && !htlc.refunded && ctx.now_seconds() >= htlc.timelock
            },
            None => false,
        }
    }
}

} // verus!
