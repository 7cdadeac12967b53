//! The plainest token HTLC: no bounds on the terms, one deadline, and the
//! secret is checked but not kept.

use vstd::prelude::*;
use crate::hashing::{check_raw_secret, raw_secret_matches};
use crate::stellar_htlc::{LockError, TokenTransfer};

verus! {

/// One hash-time-locked contract.
#[derive(Clone, Debug, PartialEq, Eq)]
pub struct HTLC {
    pub id: u64,
    pub sender: String,
    pub receiver: String,
    pub amount: i128,
    pub token: String,
    pub hashlock: [u8; 32],
    pub timelock: u64,
    pub withdrawn: bool,
    pub refunded: bool,
}

/// The contract: its HTLCs, numbered from one.
#[derive(Debug, PartialEq, Eq)]
pub struct SimpleHTLCContract {
    pub htlcs: Vec<HTLC>,
}

/// Whether `htlc` is neither withdrawn nor refunded.
pub open spec fn is_open(htlc: HTLC) -> bool {
    !htlc.withdrawn && !htlc.refunded
}

/// The first reason for which a withdrawal from `htlc` is rejected, if any.
/// `secret_ok` says whether the revealed secret hashes to the hashlock.
pub open spec fn withdraw_error(htlc: HTLC, now: u64, caller: Seq<char>, secret_ok: bool) -> Option<
    LockError,
> {
    if htlc.withdrawn {
        Some(LockError::AlreadyWithdrawn)
    } else if htlc.refunded {
        Some(LockError::AlreadyRefunded)
    } else if now >= htlc.timelock {
        Some(LockError::TimelockExpired)
    } else if !secret_ok {
        Some(LockError::InvalidSecret)
    } else if caller != htlc.receiver@ {
        Some(LockError::Unauthorized)
    } else {
        None
    }
}

/// The first reason for which a refund of `htlc` is rejected, if any.
pub open spec fn refund_error(htlc: HTLC, now: u64, caller: Seq<char>) -> Option<LockError> {
    if htlc.withdrawn {
        Some(LockError::AlreadyWithdrawn)
    } else if htlc.refunded {
        Some(LockError::AlreadyRefunded)
    } else if now < htlc.timelock {
        Some(LockError::TimelockNotExpired)
    } else if caller != htlc.sender@ {
        Some(LockError::Unauthorized)
    } else {
        None
    }
}

/// An HTLC that was withdrawn or refunded admits neither a withdrawal nor a refund.
pub proof fn lemma_closed_htlc_stays(htlc: HTLC, now: u64, caller: Seq<char>, secret_ok: bool)
    requires
        !is_open(htlc),
    ensures
        withdraw_error(htlc, now, caller, secret_ok) is Some,
        refund_error(htlc, now, caller) is Some,
{
}

impl SimpleHTLCContract {
    /// HTLCs are numbered from one, and none is both withdrawn and refunded.
    pub open spec fn wf(&self) -> bool {
        &&& self.htlcs@.len() < u64::MAX
        &&& forall|i: int|
            0 <= i < self.htlcs@.len() ==> (#[trigger] self.htlcs@[i]).id == i + 1 && !(
            self.htlcs@[i].withdrawn && self.htlcs@[i].refunded)
    }

    /// Whether an HTLC with this id exists.
    pub open spec fn has_htlc(&self, htlc_id: u64) -> bool {
        1 <= htlc_id <= self.htlcs@.len()
    }

    /// The HTLC with this id.
    pub open spec fn htlc(&self, htlc_id: u64) -> HTLC {
        self.htlcs@[htlc_id - 1]
    }

    /// The first reason for which a withdrawal from HTLC `htlc_id` is rejected, if any.
    pub open spec fn withdraw_outcome(&self, now: u64, caller: Seq<char>, htlc_id: u64, secret_ok: bool)
        -> Option<LockError> {
        if !self.has_htlc(htlc_id) {
            Some(LockError::NotFound)
        } else {
            withdraw_error(self.htlc(htlc_id), now, caller, secret_ok)
        }
    }

    /// The first reason for which a refund of HTLC `htlc_id` is rejected, if any.
    pub open spec fn refund_outcome(&self, now: u64, caller: Seq<char>, htlc_id: u64) -> Option<
        LockError,
    > {
        if !self.has_htlc(htlc_id) {
            Some(LockError::NotFound)
        } else {
            refund_error(self.htlc(htlc_id), now, caller)
        }
    }

    fn index_of(&self, htlc_id: u64) -> (index: Option<usize>)
        ensures
            index.is_some() == self.has_htlc(htlc_id),
            index matches Some(i) ==> i == htlc_id - 1,
    {
        let count = self.htlcs.len();
        if htlc_id >= 1 && htlc_id - 1 < count as u64 {
            Some((htlc_id - 1) as usize)
        } else {
            None
        }
    }

    /// A contract with no HTLCs.
    pub fn new() -> (contract: SimpleHTLCContract)
        ensures
            contract.wf(),
            contract.htlcs@.len() == 0,
    {
        SimpleHTLCContract { htlcs: Vec::new() }
    }

    /// Locks `amount` of `token` from `sender` for `receiver` behind
    /// `hashlock` until `timelock`, and returns the id of the new HTLC. The
    /// terms are taken as they are.
    pub fn create_simple_htlc(
        &mut self,
        sender: String,
        receiver: String,
        token: String,
        amount: i128,
        hashlock: [u8; 32],
        timelock: u64,
    ) -> (htlc_id: u64)
        requires
            old(self).wf(),
            old(self).htlcs@.len() + 1 < u64::MAX,
        ensures
            final(self).wf(),
            htlc_id == old(self).htlcs@.len() + 1,
            final(self).htlcs@ == old(self).htlcs@.push(
                (HTLC {
                    id: htlc_id,
                    sender,
                    receiver,
                    amount,
                    token,
                    hashlock,
                    timelock,
                    withdrawn: false,
                    refunded: false,
                }),
            ),
    {
        let htlc_id: u64 = self.htlcs.len() as u64 + 1;
        self.htlcs.push(
            HTLC {
                id: htlc_id,
                sender,
                receiver,
                amount,
                token,
                hashlock,
                timelock,
                withdrawn: false,
                refunded: false,
            },
        );
        htlc_id
    }

    /// Settles HTLC `htlc_id` for `caller`, given whether the revealed secret
    /// hashes to the hashlock (`secret_ok`): before the deadline the receiver
    /// gets the whole amount. A rejected withdrawal changes nothing.
    pub fn settle(&mut self, now: u64, caller: &String, htlc_id: u64, secret_ok: bool) -> (result: Result<
        TokenTransfer,
        LockError,
    >)
        requires
            old(self).wf(),
        ensures
            final(self).wf(),
            match result {
                Ok(transfer) => {
                    let htlc = old(self).htlc(htlc_id);
                    &&& old(self).withdraw_outcome(now, caller@, htlc_id, secret_ok) is None
                    &&& final(self).htlcs@ == old(self).htlcs@.update(
                        htlc_id - 1,
                        (HTLC { withdrawn: true, ..htlc }),
                    )
                    &&& transfer == (TokenTransfer {
                        token: htlc.token,
                        to: htlc.receiver,
                        amount: htlc.amount,
                    })
                },
                Err(e) => {
                    &&& old(self).withdraw_outcome(now, caller@, htlc_id, secret_ok) == Some(e)
                    &&& *final(self) == *old(self)
                },
            },
    {
        let index = match self.index_of(htlc_id) {
            Some(i) => i,
            None => { return Err(LockError::NotFound); },
        };
        let htlc = &self.htlcs[index];
        if htlc.withdrawn {
            return Err(LockError::AlreadyWithdrawn);
        }
        if htlc.refunded {
            return Err(LockError::AlreadyRefunded);
        }
        if now >= htlc.timelock {
            return Err(LockError::TimelockExpired);
        }
        if !secret_ok {
            return Err(LockError::InvalidSecret);
        }
        if *caller != htlc.receiver {
            return Err(LockError::Unauthorized);
        }
        let transfer = TokenTransfer {
            token: htlc.token.clone(),
            to: htlc.receiver.clone(),
            amount: htlc.amount,
        };
        self.htlcs[index].withdrawn = true;
        Ok(transfer)
    }

    /// Withdraws HTLC `htlc_id` for its receiver, who must be the caller, by
    /// revealing `secret`.
    pub fn withdraw(&mut self, now: u64, caller: &String, htlc_id: u64, secret: [u8; 32]) -> (result:
        Result<TokenTransfer, LockError>)
        requires
            old(self).wf(),
        ensures
            final(self).wf(),
            match result {
                Ok(transfer) => {
                    let htlc = old(self).htlc(htlc_id);
                    &&& old(self).has_htlc(htlc_id)
                    &&& raw_secret_matches(secret@, htlc.hashlock@)
                    &&& old(self).withdraw_outcome(now, caller@, htlc_id, true) is None
                    &&& final(self).htlcs@ == old(self).htlcs@.update(
                        htlc_id - 1,
                        (HTLC { withdrawn: true, ..htlc }),
                    )
                    &&& transfer == (TokenTransfer {
                        token: htlc.token,
                        to: htlc.receiver,
                        amount: htlc.amount,
                    })
                },
                Err(e) => {
                    &&& *final(self) == *old(self)
                    &&& Some(e) == old(self).withdraw_outcome(
                        now,
                        caller@,
                        htlc_id,
                        old(self).has_htlc(htlc_id) && raw_secret_matches(
                            secret@,
                            old(self).htlc(htlc_id).hashlock@,
                        ),
                    )
                },
            },
    {
        let secret_ok = match self.index_of(htlc_id) {
            Some(i) => check_raw_secret(&secret, &self.htlcs[i].hashlock),
            None => false,
        };
        self.settle(now, caller, htlc_id, secret_ok)
    }

    /// Refunds HTLC `htlc_id` to its sender, who must be the caller, once the
    /// deadline has passed.
    pub fn refund(&mut self, now: u64, caller: &String, htlc_id: u64) -> (result: Result<
        TokenTransfer,
        LockError,
    >)
        requires
            old(self).wf(),
        ensures
            final(self).wf(),
            match result {
                Ok(transfer) => {
                    let htlc = old(self).htlc(htlc_id);
                    &&& old(self).refund_outcome(now, caller@, htlc_id) is None
                    &&& final(self).htlcs@ == old(self).htlcs@.update(
                        htlc_id - 1,
                        (HTLC { refunded: true, ..htlc }),
                    )
                    &&& transfer == (TokenTransfer {
                        token: htlc.token,
                        to: htlc.sender,
                        amount: htlc.amount,
                    })
                },
                Err(e) => {
                    &&& old(self).refund_outcome(now, caller@, htlc_id) == Some(e)
                    &&& *final(self) == *old(self)
                },
            },
    {
        let index = match self.index_of(htlc_id) {
            Some(i) => i,
            None => { return Err(LockError::NotFound); },
        };
        let htlc = &self.htlcs[index];
        if htlc.withdrawn {
            return Err(LockError::AlreadyWithdrawn);
        }
        if htlc.refunded {
            return Err(LockError::AlreadyRefunded);
        }
        if now < htlc.timelock {
            return Err(LockError::TimelockNotExpired);
        }
        if *caller != htlc.sender {
            return Err(LockError::Unauthorized);
        }
        let transfer = TokenTransfer {
            token: htlc.token.clone(),
            to: htlc.sender.clone(),
            amount: htlc.amount,
        };
        self.htlcs[index].refunded = true;
        Ok(transfer)
    }

    /// The HTLC with the given id, if there is one.
    pub fn get_htlc(&self, htlc_id: u64) -> (htlc: Option<&HTLC>)
        ensures
            htlc.is_some() == self.has_htlc(htlc_id),
            htlc matches Some(h) ==> *h == self.htlc(htlc_id),
    {
        match self.index_of(htlc_id) {
            Some(i) => Some(&self.htlcs[i]),
            None => None,
        }
    }
}

} // verus!
