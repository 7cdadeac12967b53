//! Bookkeeping of partial fills: how much of each order is reserved by the
//! fills that were taken against it.

use vstd::prelude::*;

verus! {

/// What one fill reserves: an amount of one order, for as long as it is live.
/// A fill stops being live when it is refunded.
pub struct Reservation {
    pub order_id: u64,
    pub amount: u128,
    pub live: bool,
}

/// What `r` reserves of order `order_id`.
pub open spec fn contribution(r: Reservation, order_id: u64) -> nat {
    if r.order_id == order_id && r.live {
        r.amount as nat
    } else {
        0
    }
}

/// The total that the live fills among `rs` reserve of order `order_id`.
pub open spec fn reserved(rs: Seq<Reservation>, order_id: u64) -> nat
    decreases rs.len(),
{
    if rs.len() == 0 {
        0
    } else {
        reserved(rs.drop_last(), order_id) + contribution(rs.last(), order_id)
    }
}

/// A new fill adds what it reserves.
pub proof fn lemma_reserved_push(rs: Seq<Reservation>, r: Reservation, order_id: u64)
    ensures
        reserved(rs.push(r), order_id) == reserved(rs, order_id) + contribution(r, order_id),
{
    assert(rs.push(r).drop_last() =~= rs);
}

/// Replacing one fill exchanges what it reserved for what it now reserves.
pub proof fn lemma_reserved_update(rs: Seq<Reservation>, k: int, r: Reservation, order_id: u64)
    requires
        0 <= k < rs.len(),
    ensures
        reserved(rs.update(k, r), order_id) + contribution(rs[k], order_id) == reserved(
            rs,
            order_id,
        ) + contribution(r, order_id),
    decreases rs.len(),
{
    let after = rs.update(k, r);
    if k == rs.len() - 1 {
        assert(after.drop_last() =~= rs.drop_last());
    } else {
        assert(after.drop_last() =~= rs.drop_last().update(k, r));
        lemma_reserved_update(rs.drop_last(), k, r, order_id);
    }
}

/// No fill reserves more than all fills of its order together.
pub proof fn lemma_reserved_bound(rs: Seq<Reservation>, k: int, order_id: u64)
    requires
        0 <= k < rs.len(),
    ensures
        contribution(rs[k], order_id) <= reserved(rs, order_id),
    decreases rs.len(),
{
    if k < rs.len() - 1 {
        lemma_reserved_bound(rs.drop_last(), k, order_id);
    }
}

/// Fills that reserve nothing of an order add up to nothing.
pub proof fn lemma_no_contribution(rs: Seq<Reservation>, order_id: u64)
    requires
        forall|i: int| 0 <= i < rs.len() ==> contribution(#[trigger] rs[i], order_id) == 0,
    ensures
        reserved(rs, order_id) == 0,
    decreases rs.len(),
{
    if rs.len() > 0 {
        lemma_no_contribution(rs.drop_last(), order_id);
    }
}

/// Whether a fill of `amount` can be taken against an order with the given
/// minimum fill and remaining amount.
pub open spec fn fill_fits(amount: u128, min_fill_amount: u128, remaining_amount: u128) -> bool {
    min_fill_amount <= amount <= remaining_amount
}

/// Whether an order's books balance: what is filled and what remains add up
/// to the total.
pub open spec fn balanced(total_amount: u128, filled_amount: u128, remaining_amount: u128) -> bool {
    filled_amount + remaining_amount == total_amount
}

/// Taking a fill that fits keeps the books of an order balanced.
pub proof fn lemma_fill_keeps_balance(
    total_amount: u128,
    filled_amount: u128,
    remaining_amount: u128,
    min_fill_amount: u128,
    amount: u128,
)
    requires
        balanced(total_amount, filled_amount, remaining_amount),
        fill_fits(amount, min_fill_amount, remaining_amount),
    ensures
        filled_amount + amount <= u128::MAX,
        balanced(
            total_amount,
            (filled_amount + amount) as u128,
            (remaining_amount - amount) as u128,
        ),
{
}

/// Giving back a fill that was counted keeps the books of an order balanced.
pub proof fn lemma_release_keeps_balance(
    total_amount: u128,
    filled_amount: u128,
    remaining_amount: u128,
    amount: u128,
)
    requires
        balanced(total_amount, filled_amount, remaining_amount),
        amount <= filled_amount,
    ensures
        remaining_amount + amount <= u128::MAX,
        balanced(
            total_amount,
            (filled_amount - amount) as u128,
            (remaining_amount + amount) as u128,
        ),
{
}

} // verus!
