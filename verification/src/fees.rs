//! Basis-point fee arithmetic. All fees are integers, scaled so that 10000
//! basis points are 100%, and truncate toward zero.

use vstd::prelude::*;

verus! {

/// The fee owed on `amount` at `bps` basis points, truncated toward zero.
pub open spec fn fee_of(amount: nat, bps: nat) -> nat {
    (amount * bps) / 10000
}

/// The quotient of `p` by the positive `d`, rounded toward zero.
pub open spec fn trunc_div(p: int, d: int) -> int {
    if p >= 0 {
        p / d
    } else {
        -((-p) / d)
    }
}

/// The fee on a signed amount at `fee_rate` basis points, rounded toward zero.
pub open spec fn protocol_fee(amount: int, fee_rate: int) -> int {
    trunc_div(amount * fee_rate, 10000)
}

/// A fee of at most 100% never exceeds the amount it is taken from.
pub proof fn lemma_fee_bounded(amount: nat, bps: nat)
    requires
        bps <= 10000,
    ensures
        fee_of(amount, bps) <= amount,
{
    assert(amount * bps <= amount * 10000) by (nonlinear_arith)
        requires
            bps <= 10000,
    ;
    assert((amount * bps) / 10000 <= amount) by (nonlinear_arith)
        requires
            amount * bps <= amount * 10000,
    ;
}

proof fn lemma_fee_split(q: nat, r: nat, bps: nat)
    requires
        r < 10000,
    ensures
        fee_of(q * 10000 + r, bps) == q * bps + (r * bps) / 10000,
{
    let a = q * 10000 + r;
    assert(a * bps == (q * bps) * 10000 + r * bps) by (nonlinear_arith)
        requires
            a == q * 10000 + r,
    ;
    let x = q * bps;
    let y = r * bps;
    assert((x * 10000 + y) / 10000 == x + y / 10000) by (nonlinear_arith)
        requires
            y >= 0,
    ;
}

/// The fee on `amount` at `bps` basis points, or `None` where it does not fit
/// in 128 bits. The product `amount * bps` itself need not fit.
pub fn checked_fee(amount: u128, bps: u64) -> (fee: Option<u128>)
    ensures
        fee.is_some() == (fee_of(amount as nat, bps as nat) <= u128::MAX),
        fee matches Some(f) ==> f == fee_of(amount as nat, bps as nat),
{
    let q: u128 = amount / 10000;
    let r: u128 = amount % 10000;
    proof {
        lemma_fee_split(q as nat, r as nat, bps as nat);
        assert(amount == q * 10000 + r);
        assert(r * bps <= 10000 * 0x1_0000_0000_0000_0000) by (nonlinear_arith)
            requires
                r < 10000,
                bps < 0x1_0000_0000_0000_0000,
        ;
    }
    let low: u128 = (r * (bps as u128)) / 10000;
    match q.checked_mul(bps as u128) {
        None => None,
        Some(high) => high.checked_add(low),
    }
}

/// The fee on `amount` at a rate of at most 100%.
pub fn fee_amount(amount: u128, bps: u64) -> (fee: u128)
    requires
        bps <= 10000,
    ensures
        fee == fee_of(amount as nat, bps as nat),
        fee <= amount,
{
    let q: u128 = amount / 10000;
    let r: u128 = amount % 10000;
    proof {
        lemma_fee_split(q as nat, r as nat, bps as nat);
        lemma_fee_bounded(amount as nat, bps as nat);
        assert(amount == q * 10000 + r);
        assert(q * bps <= q * 10000) by (nonlinear_arith)
            requires
                bps <= 10000,
                q >= 0,
        ;
        assert(r * bps <= 10000 * 10000) by (nonlinear_arith)
            requires
                r < 10000,
                bps <= 10000,
        ;
    }
    q * (bps as u128) + (r * (bps as u128)) / 10000
}

/// Calculates the protocol fee on `amount` at `fee_rate` basis points,
/// rounding toward zero.
pub fn calculate_protocol_fee(amount: i128, fee_rate: u32) -> (fee: i128)
    requires
        i128::MIN <= amount * fee_rate <= i128::MAX,
    ensures
        fee == protocol_fee(amount as int, fee_rate as int),
{
    let product: i128 = amount * (fee_rate as i128);
    if product >= 0 {
        product / 10000
    } else {
        let magnitude: u128 = ((-(product + 1)) as u128) + 1;
        let fee: u128 = magnitude / 10000;
        -(fee as i128)
    }
}

/// Accepts exactly the strictly positive amounts.
pub fn validate_amount(amount: i128) -> (ok: bool)
    ensures
        ok == (amount > 0),
{
    amount > 0
}

} // verus!
