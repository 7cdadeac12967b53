//! Plain values shared by the account-based ledgers: block time, coins and the
//! transfers that a settlement asks the ledger to perform.

use vstd::prelude::*;

verus! {

/// Nanoseconds in one second.
pub const NANOS_PER_SECOND: u64 = 1_000_000_000;

/// A point in block time, in nanoseconds since the epoch.
#[derive(Clone, Copy, Debug, PartialEq, Eq, Structural)]
pub struct Timestamp {
    pub nanos: u64,
}

impl Timestamp {
    /// The instant `seconds` after `self`, in nanoseconds, as a mathematical integer.
    pub open spec fn plus_seconds_spec(self, seconds: u64) -> int {
        self.nanos + seconds * 1_000_000_000
    }

    /// The timestamp of the given number of whole seconds.
    pub fn from_seconds(seconds: u64) -> (t: Option<Timestamp>)
        ensures
            t.is_some() == (seconds * 1_000_000_000 <= u64::MAX),
            t matches Some(ts) ==> ts.nanos == seconds * 1_000_000_000,
    {
        match seconds.checked_mul(NANOS_PER_SECOND) {
            Some(nanos) => Some(Timestamp { nanos }),
            None => None,
        }
    }

    /// Whole seconds since the epoch.
    pub fn seconds(&self) -> (s: u64)
        ensures
            s == self.nanos / 1_000_000_000,
    {
        self.nanos / NANOS_PER_SECOND
    }

    /// The instant `seconds` later, or `None` where it cannot be represented.
    pub fn plus_seconds(&self, seconds: u64) -> (later: Option<Timestamp>)
        ensures
            later.is_some() == (self.plus_seconds_spec(seconds) <= u64::MAX),
            later matches Some(t) ==> t.nanos == self.plus_seconds_spec(seconds),
    {
        match seconds.checked_mul(NANOS_PER_SECOND) {
            None => None,
            Some(delta) => match self.nanos.checked_add(delta) {
                None => None,
                Some(nanos) => Some(Timestamp { nanos }),
            },
        }
    }
}

/// An amount of one native asset.
#[derive(Clone, Debug, PartialEq, Eq)]
pub struct Coin {
    pub denom: String,
    pub amount: u128,
}

impl Coin {
    /// A copy of the coin.
    pub fn duplicate(&self) -> (copy: Coin)
        ensures
            copy == *self,
    {
        Coin { denom: self.denom.clone(), amount: self.amount }
    }
}

/// A transfer of one coin out of escrow, to be carried out by the ledger.
#[derive(Clone, Debug, PartialEq, Eq)]
pub struct Payment {
    pub to: String,
    pub coin: Coin,
}

/// The index of the first coin at or after `from` whose denomination is `denom`,
/// or `-1` if there is none.
pub open spec fn find_denom_from(funds: Seq<Coin>, denom: Seq<char>, from: int) -> int
    decreases funds.len() - from,
{
    if from < 0 || from >= funds.len() {
        -1
    } else if funds[from].denom@ == denom {
        from
    } else {
        find_denom_from(funds, denom, from + 1)
    }
}

/// The index of the first coin whose denomination is `denom`, or `-1`.
pub open spec fn find_denom(funds: Seq<Coin>, denom: Seq<char>) -> int {
    find_denom_from(funds, denom, 0)
}

/// The amount of the first coin of denomination `denom` among `funds`, if any.
pub open spec fn paid_in(funds: Seq<Coin>, denom: Seq<char>) -> Option<u128> {
    let i = find_denom(funds, denom);
    if i < 0 {
        None
    } else {
        Some(funds[i].amount)
    }
}

/// Looks up the first coin of the given denomination among the attached funds.
pub fn payment_in(funds: &Vec<Coin>, denom: &String) -> (amount: Option<u128>)
    ensures
        amount == paid_in(funds@, denom@),
{
    let mut i: usize = 0;
    while i < funds.len()
        invariant
            i <= funds.len(),
            find_denom(funds@, denom@) == find_denom_from(funds@, denom@, i as int),
        decreases funds.len() - i,
    {
        if funds[i].denom == *denom {
            return Some(funds[i].amount);
        }
        i += 1;
    }
    None
}

/// The page size used when a query names none.
pub const DEFAULT_LIMIT: u32 = 10;

/// The largest page size a query may ask for.
pub const MAX_LIMIT: u32 = 100;

/// The page size that a query with the optional `limit` gets.
pub open spec fn page_limit(limit: Option<u32>) -> nat {
    match limit {
        None => 10,
        Some(n) => if n <= 100 {
            n as nat
        } else {
            100
        },
    }
}

/// Resolves an optional page size against the default and the maximum.
pub fn effective_limit(limit: Option<u32>) -> (n: usize)
    ensures
        n == page_limit(limit),
{
    match limit {
        None => 10,
        Some(n) => if n <= MAX_LIMIT {
            n as usize
        } else {
            100
        },
    }
}

/// What a ledger tells a contract about the call it is running: who calls,
/// what was attached, and the block time in nanoseconds.
#[derive(Clone, Debug, PartialEq, Eq)]
pub struct CallContext {
    pub predecessor: String,
    pub attached_deposit: u128,
    pub block_timestamp: u64,
}

impl CallContext {
    /// The block time in whole seconds.
    pub open spec fn now(&self) -> u64 {
        self.block_timestamp / 1_000_000_000
    }

    /// The block time in whole seconds.
    pub fn now_seconds(&self) -> (seconds: u64)
        ensures
            seconds == self.now(),
    {
        self.block_timestamp / NANOS_PER_SECOND
    }
}

/// A transfer of an amount out of escrow: of the native asset where `token`
/// is `None`, of the named token otherwise.
#[derive(Clone, Debug, PartialEq, Eq)]
pub struct Transfer {
    pub to: String,
    pub amount: u128,
    pub token: Option<String>,
}

/// A copy of an optional text.
pub fn duplicate_text(text: &Option<String>) -> (copy: Option<String>)
    ensures
        copy == *text,
{
    match text {
        Some(t) => Some(t.clone()),
        None => None,
    }
}

/// Those of the first `upto` of `items` that `keep` accepts, in order.
pub open spec fn select<T>(items: Seq<T>, keep: spec_fn(T) -> bool, upto: int) -> Seq<T>
    decreases upto,
{
    if upto <= 0 {
        Seq::empty()
    } else if keep(items[upto - 1]) {
        select(items, keep, upto - 1).push(items[upto - 1])
    } else {
        select(items, keep, upto - 1)
    }
}

/// The part of a list of `len` entries that a page covers: it starts at
/// position `first`, or at the end where there are fewer entries, and holds at
/// most `limit` entries.
pub open spec fn page_bounds(len: int, first: int, limit: int) -> (int, int) {
    let lo = if first <= len {
        first
    } else {
        len
    };
    let hi = if lo + limit <= len {
        lo + limit
    } else {
        len
    };
    (lo, hi)
}

/// The position of the first entry after the one that `start_after` names,
/// where ids are positions counted from `first_id`, which is zero or one.
pub open spec fn position_after(start_after: Option<u64>, first_id: int) -> int {
    match start_after {
        None => 0,
        Some(id) => if id + 1 >= first_id {
            id + 1 - first_id
        } else {
            0
        },
    }
}

/// The entries of a page, before any of them is filtered out.
pub open spec fn page_entries<T>(
    items: Seq<T>,
    start_after: Option<u64>,
    first_id: int,
    limit: Option<u32>,
) -> Seq<T> {
    let bounds = page_bounds(
        items.len() as int,
        position_after(start_after, first_id),
        page_limit(limit) as int,
    );
    items.subrange(bounds.0, bounds.1)
}

/// Computes the part of a list of `len` entries that a page covers, where
/// ids are positions counted from one if `ids_from_one` holds and from zero
/// otherwise.
pub fn page_range(len: usize, start_after: Option<u64>, ids_from_one: bool, limit: Option<u32>)
    -> (range: (usize, usize))
    ensures
        (range.0 as int, range.1 as int) == page_bounds(
            len as int,
            position_after(start_after, if ids_from_one { 1int } else { 0int }),
            page_limit(limit) as int,
        ),
        range.0 <= range.1 <= len,
{
    let lo: usize = match start_after {
        None => 0,
        Some(id) => {
            let skipped: u64 = if !ids_from_one {
                if id == u64::MAX {
                    return (len, len);
                } else {
                    id + 1
                }
            } else {
                id
            };
            if skipped <= len as u64 {
                skipped as usize
            } else {
                len
            }
        },
    };
    let count = effective_limit(limit);
    let hi: usize = if count <= len - lo {
        lo + count
    } else {
        len
    };
    (lo, hi)
}

/// The ten decimal digits, in order of value.
pub open spec fn decimal_alphabet() -> Seq<char> {
    seq!['0', '1', '2', '3', '4', '5', '6', '7', '8', '9']
}

/// The decimal digits of `n`, most significant first, without padding.
pub open spec fn decimal_digits(n: nat) -> Seq<char>
    decreases n,
{
    let last = decimal_alphabet()[(n % 10) as int];
    if n < 10 {
        seq![last]
    } else {
        decimal_digits(n / 10).push(last)
    }
}

} // verus!
