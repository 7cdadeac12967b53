//! Hash-time-locked contracts over a set of supported tokens, each with its
//! own bounds on the amount.

use vstd::prelude::*;
use crate::hashing::raw_secret_matches;
use crate::stellar_htlc::{
    numbered, position, refund_in, refund_outcome, withdraw_in, withdraw_outcome, LockError,
    TokenTransfer,
};

pub use crate::stellar_htlc::HTLCState;

verus! {

/// What the contract knows of one token.
#[derive(Clone, Debug, PartialEq, Eq)]
pub struct TokenConfig {
    pub address: String,
    pub symbol: String,
    pub decimals: u32,
    pub enabled: bool,
    pub min_amount: i128,
    pub max_amount: i128,
}

/// The contract: its administrator, its HTLCs, numbered from one, and the
/// tokens it supports, each once, in the order in which they were added.
#[derive(Debug, PartialEq, Eq)]
pub struct MultiTokenHTLC {
    pub admin: String,
    pub paused: bool,
    pub htlcs: Vec<HTLCState>,
    pub tokens: Vec<TokenConfig>,
}

/// The index of the first token at or after `from` with the given address, or `-1`.
pub open spec fn find_token_from(tokens: Seq<TokenConfig>, address: Seq<char>, from: int) -> int
    decreases tokens.len() - from,
{
    if from < 0 || from >= tokens.len() {
        -1
    } else if tokens[from].address@ == address {
        from
    } else {
        find_token_from(tokens, address, from + 1)
    }
}

/// The index of the token with the given address, or `-1`.
pub open spec fn find_token(tokens: Seq<TokenConfig>, address: Seq<char>) -> int {
    find_token_from(tokens, address, 0)
}

/// A found token has the address that was looked for.
pub proof fn lemma_find_token(tokens: Seq<TokenConfig>, address: Seq<char>, from: int)
    requires
        0 <= from,
    ensures
        ({
            let k = find_token_from(tokens, address, from);
            k == -1 || (from <= k < tokens.len() && tokens[k].address@ == address)
        }),
    decreases tokens.len() - from,
{
    if from < tokens.len() && tokens[from].address@ != address {
        lemma_find_token(tokens, address, from + 1);
    }
}

/// The first reason for which a new HTLC over `amount` of a token is rejected,
/// if any. `config` is what the contract knows of the token, if anything.
pub open spec fn create_error(
    paused: bool,
    config: Option<TokenConfig>,
    now: u64,
    amount: i128,
    timelock: u64,
) -> Option<LockError> {
    if paused {
        Some(LockError::Paused)
    } else {
        match config {
            None => Some(LockError::TokenNotSupported),
            Some(c) => if !c.enabled {
                Some(LockError::TokenDisabled)
            } else if amount < c.min_amount {
                Some(LockError::AmountBelowMinimum)
            } else if amount > c.max_amount {
                Some(LockError::AmountAboveMaximum)
            } else if amount <= 0 {
                Some(LockError::AmountNotPositive)
            } else if timelock <= now {
                Some(LockError::TimelockNotInFuture)
            } else {
                None
            },
        }
    }
}

impl MultiTokenHTLC {
    /// The invariant of the contract.
    pub open spec fn wf(&self) -> bool {
        numbered(self.htlcs@)
    }

    /// What the contract knows of the token at `address`, if anything.
    pub open spec fn token(&self, address: Seq<char>) -> Option<TokenConfig> {
        let k = find_token(self.tokens@, address);
        if k >= 0 {
            Some(self.tokens@[k])
        } else {
            None
        }
    }

    fn locate_token(&self, address: &String) -> (found: Option<usize>)
        ensures
            found.is_some() == (find_token(self.tokens@, address@) >= 0),
            found matches Some(i) ==> i == find_token(self.tokens@, address@) && i
                < self.tokens@.len(),
    {
        let mut i: usize = 0;
        while i < self.tokens.len()
            invariant
                i <= self.tokens@.len(),
                find_token(self.tokens@, address@) == find_token_from(
                    self.tokens@,
                    address@,
                    i as int,
                ),
            decreases self.tokens@.len() - i,
        {
            if self.tokens[i].address == *address {
                return Some(i);
            }
            i += 1;
        }
        None
    }

    /// Sets the contract up with its administrator, no HTLCs and no tokens.
    pub fn initialize(admin: String) -> (contract: MultiTokenHTLC)
        ensures
            contract.wf(),
            contract.admin == admin,
            !contract.paused,
            contract.htlcs@.len() == 0,
            contract.tokens@.len() == 0,
    {
        MultiTokenHTLC { admin, paused: false, htlcs: Vec::new(), tokens: Vec::new() }
    }

    /// Makes `token` a supported and enabled token with the given bounds,
    /// replacing what was known of it; only the administrator may do so.
    pub fn add_token(
        &mut self,
        caller: &String,
        token: String,
        symbol: String,
        decimals: u32,
        min_amount: i128,
        max_amount: i128,
    ) -> (result: Result<(), LockError>)
        ensures
            final(self).admin == old(self).admin,
            final(self).paused == old(self).paused,
            final(self).htlcs == old(self).htlcs,
            match result {
                Ok(()) => {
                    let config = TokenConfig {
                        address: token,
                        symbol,
                        decimals,
                        enabled: true,
                        min_amount,
                        max_amount,
                    };
                    let k = find_token(old(self).tokens@, token@);
                    &&& caller@ == old(self).admin@
                    &&& final(self).tokens@ == (if k >= 0 {
                        old(self).tokens@.update(k, config)
                    } else {
                        old(self).tokens@.push(config)
                    })
                },
                Err(e) => {
                    &&& e == LockError::Unauthorized
                    &&& caller@ != old(self).admin@
                    &&& *final(self) == *old(self)
                },
            },
    {
        if *caller != self.admin {
            return Err(LockError::Unauthorized);
        }
        let found = self.locate_token(&token);
        let config = TokenConfig {
            address: token,
            symbol,
            decimals,
            enabled: true,
            min_amount,
            max_amount,
        };
        match found {
            Some(k) => {
                self.tokens[k] = config;
            },
            None => {
                self.tokens.push(config);
            },
        }
        Ok(())
    }

    /// Changes whether `token` is enabled and the bounds on its amounts; only
    /// the administrator may do so, and only for a token that is known.
    pub fn update_token(
        &mut self,
        caller: &String,
        token: &String,
        enabled: bool,
        min_amount: i128,
        max_amount: i128,
    ) -> (result: Result<(), LockError>)
        ensures
            final(self).admin == old(self).admin,
            final(self).paused == old(self).paused,
            final(self).htlcs == old(self).htlcs,
            match result {
                Ok(()) => {
                    let k = find_token(old(self).tokens@, token@);
                    &&& caller@ == old(self).admin@
                    &&& k >= 0
                    &&& final(self).tokens@ == old(self).tokens@.update(
                        k,
                        (TokenConfig { enabled, min_amount, max_amount, ..old(self).tokens@[k] }),
                    )
                },
                Err(e) => {
                    &&& *final(self) == *old(self)
                    &&& if caller@ != old(self).admin@ {
                        e == LockError::Unauthorized
                    } else {
                        e == LockError::TokenNotFound && find_token(old(self).tokens@, token@) < 0
                    }
                },
            },
    {
        if *caller != self.admin {
            return Err(LockError::Unauthorized);
        }
        proof {
            lemma_find_token(self.tokens@, token@, 0);
        }
        let k = match self.locate_token(token) {
            Some(k) => k,
            None => { return Err(LockError::TokenNotFound); },
        };
        self.tokens[k].enabled = enabled;
        self.tokens[k].min_amount = min_amount;
        self.tokens[k].max_amount = max_amount;
        Ok(())
    }

    /// Locks `amount` of the supported `token` from `sender` for `receiver`
    /// behind `hashlock` until `timelock`, and returns the id of the new HTLC.
    pub fn create_htlc(
        &mut self,
        now: u64,
        sender: String,
        receiver: String,
        token: String,
        amount: i128,
        hashlock: [u8; 32],
        timelock: u64,
    ) -> (result: Result<u64, LockError>)
        requires
            old(self).wf(),
            old(self).htlcs@.len() + 1 < u64::MAX,
        ensures
            final(self).wf(),
            final(self).admin == old(self).admin,
            final(self).paused == old(self).paused,
            final(self).tokens == old(self).tokens,
            match result {
                Ok(htlc_id) => {
                    &&& create_error(old(self).paused, old(self).token(token@), now, amount, timelock)
                        is None
                    &&& htlc_id == old(self).htlcs@.len() + 1
                    &&& final(self).htlcs@ == old(self).htlcs@.push(
                        (HTLCState {
                            id: htlc_id,
                            sender,
                            receiver,
                            amount,
                            token,
                            hashlock,
                            timelock,
                            withdrawn: false,
                            refunded: false,
                            secret: None,
                        }),
                    )
                },
                Err(e) => {
                    &&& create_error(old(self).paused, old(self).token(token@), now, amount, timelock)
                        == Some(e)
                    &&& *final(self) == *old(self)
                },
            },
    {
        if self.paused {
            return Err(LockError::Paused);
        }
        let k = match self.locate_token(&token) {
            Some(k) => k,
            None => { return Err(LockError::TokenNotSupported); },
        };
        let config = &self.tokens[k];
        if !config.enabled {
            return Err(LockError::TokenDisabled);
        }
        if amount < config.min_amount {
            return Err(LockError::AmountBelowMinimum);
        }
        if amount > config.max_amount {
            return Err(LockError::AmountAboveMaximum);
        }
        if amount <= 0 {
            return Err(LockError::AmountNotPositive);
        }
        if timelock <= now {
            return Err(LockError::TimelockNotInFuture);
        }
        let htlc_id: u64 = self.htlcs.len() as u64 + 1;
        self.htlcs.push(
            HTLCState {
                id: htlc_id,
                sender,
                receiver,
                amount,
                token,
                hashlock,
                timelock,
                withdrawn: false,
                refunded: false,
                secret: None,
            },
        );
        Ok(htlc_id)
    }

    /// Withdraws HTLC `htlc_id` for its receiver, who must be the caller, by
    /// revealing `secret`.
    pub fn withdraw(&mut self, now: u64, caller: &String, htlc_id: u64, secret: [u8; 32]) -> (result:
        Result<TokenTransfer, LockError>)
        requires
            old(self).wf(),
        ensures
            final(self).wf(),
            final(self).admin == old(self).admin,
            final(self).paused == old(self).paused,
            final(self).tokens == old(self).tokens,
            match result {
                Ok(transfer) => {
                    let htlc = old(self).htlcs@[htlc_id - 1];
                    &&& 1 <= htlc_id <= old(self).htlcs@.len()
                    &&& raw_secret_matches(secret@, htlc.hashlock@)
                    &&& withdraw_outcome(old(self).htlcs@, now, caller@, htlc_id, true) is None
                    &&& final(self).htlcs@ == old(self).htlcs@.update(
                        htlc_id - 1,
                        (HTLCState { withdrawn: true, secret: Some(secret), ..htlc }),
                    )
                    &&& transfer == (TokenTransfer {
                        token: htlc.token,
                        to: htlc.receiver,
                        amount: htlc.amount,
                    })
                },
                Err(e) => {
                    &&& *final(self) == *old(self)
                    &&& Some(e) == withdraw_outcome(
                        old(self).htlcs@,
                        now,
                        caller@,
                        htlc_id,
                        1 <= htlc_id <= old(self).htlcs@.len() && raw_secret_matches(
                            secret@,
                            old(self).htlcs@[htlc_id - 1].hashlock@,
                        ),
                    )
                },
            },
    {
        withdraw_in(&mut self.htlcs, now, caller, htlc_id, secret)
    }

    /// Refunds HTLC `htlc_id` to its sender, who must be the caller, once the
    /// deadline has passed.
    pub fn refund(&mut self, now: u64, caller: &String, htlc_id: u64) -> (result: Result<
        TokenTransfer,
        LockError,
    >)
        requires
            old(self).wf(),
        ensures
            final(self).wf(),
            final(self).admin == old(self).admin,
            final(self).paused == old(self).paused,
            final(self).tokens == old(self).tokens,
            match result {
                Ok(transfer) => {
                    let htlc = old(self).htlcs@[htlc_id - 1];
                    &&& refund_outcome(old(self).htlcs@, now, caller@, htlc_id) is None
                    &&& final(self).htlcs@ == old(self).htlcs@.update(
                        htlc_id - 1,
                        (HTLCState { refunded: true, ..htlc }),
                    )
                    &&& transfer == (TokenTransfer {
                        token: htlc.token,
                        to: htlc.sender,
                        amount: htlc.amount,
                    })
                },
                Err(e) => {
                    &&& refund_outcome(old(self).htlcs@, now, caller@, htlc_id) == Some(e)
                    &&& *final(self) == *old(self)
                },
            },
    {
        refund_in(&mut self.htlcs, now, caller, htlc_id)
    }

    /// The HTLC with the given id, if there is one.
    pub fn get_htlc(&self, htlc_id: u64) -> (htlc: Option<&HTLCState>)
        ensures
            htlc.is_some() == (1 <= htlc_id <= self.htlcs@.len()),
            htlc matches Some(h) ==> *h == self.htlcs@[htlc_id - 1],
    {
        match position(&self.htlcs, htlc_id) {
            Some(i) => Some(&self.htlcs[i]),
            None => None,
        }
    }

    /// The addresses of the supported tokens, in the order in which they were added.
    pub fn get_supported_tokens(&self) -> (addresses: Vec<String>)
        ensures
            addresses@.len() == self.tokens@.len(),
            forall|i: int|
                0 <= i < addresses@.len() ==> #[trigger] addresses@[i] == self.tokens@[i].address,
    {
        let mut addresses: Vec<String> = Vec::new();
        let mut i: usize = 0;
        while i < self.tokens.len()
            invariant
                i <= self.tokens@.len(),
                addresses@.len() == i,
                forall|j: int| 0 <= j < i ==> #[trigger] addresses@[j] == self.tokens@[j].address,
            decreases self.tokens@.len() - i,
        {
            addresses.push(self.tokens[i].address.clone());
            i += 1;
        }
        addresses
    }

    /// What the contract knows of `token`, if anything.
    pub fn get_token_config(&self, token: &String) -> (config: Option<&TokenConfig>)
        ensures
            config.is_some() == self.token(token@).is_some(),
            config matches Some(c) ==> Some(*c) == self.token(token@),
    {
        match self.locate_token(token) {
            Some(k) => Some(&self.tokens[k]),
            None => None,
        }
    }

    /// Pauses or resumes the creation of HTLCs; only the administrator may do so.
    pub fn set_paused(&mut self, caller: &String, paused: bool) -> (result: Result<(), LockError>)
        ensures
            match result {
                Ok(()) => {
                    &&& caller@ == old(self).admin@
                    &&& final(self).paused == paused
                    &&& final(self).admin == old(self).admin
                    &&& final(self).htlcs == old(self).htlcs
                    &&& final(self).tokens == old(self).tokens
                },
                Err(e) => {
                    &&& e == LockError::Unauthorized
                    &&& caller@ != old(self).admin@
                    &&& *final(self) == *old(self)
                },
            },
    {
        if *caller != self.admin {
            return Err(LockError::Unauthorized);
        }
        self.paused = paused;
        Ok(())
    }
}

} // verus!
