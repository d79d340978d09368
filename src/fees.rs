use vstd::prelude::*;

verus! {

/// Basis points in a whole: a rate of `BPS_DENOMINATOR` is one hundred percent.
pub const BPS_DENOMINATOR: u64 = 10000;

/// The fee share of `amount` at `rate` basis points, rounded down.
pub open spec fn fee_of(amount: int, rate: int) -> int {
    (amount * rate) / (BPS_DENOMINATOR as int)
}

/// How one movement of funds divides among treasury, partner and net side.
#[derive(Clone, Copy, Debug, PartialEq, Eq, Structural)]
pub struct FeeSplit {
    pub treasury_fee: u64,
    pub partner_fee: u64,
    pub net_amount: u64,
}

/// `floor(amount * rate / 10000)`, computed without overflow.
pub fn fee_share(amount: u64, rate: u64) -> (r: u64)
    requires
        rate <= BPS_DENOMINATOR,
    ensures
        r as int == fee_of(amount as int, rate as int),
        r <= amount,
{
    proof {
        lemma_fee_bounded(amount as int, rate as int);
    }
    let product: u128 = amount as u128 * rate as u128;
    (product / 10000) as u64
}

/// Divides `amount` into a treasury fee, a partner fee and the rest; the
/// remainders of both divisions stay on the net side.
pub fn split_amount(amount: u64, treasury_rate: u64, partner_rate: u64) -> (r: FeeSplit)
    requires
        treasury_rate + partner_rate <= BPS_DENOMINATOR,
    ensures
        r.treasury_fee as int == fee_of(amount as int, treasury_rate as int),
        r.partner_fee as int == fee_of(amount as int, partner_rate as int),
        r.treasury_fee + r.partner_fee + r.net_amount == amount,
{
    let treasury_fee = fee_share(amount, treasury_rate);
    let partner_fee = fee_share(amount, partner_rate);
    proof {
        lemma_fee_sum_bounded(amount as int, treasury_rate as int, partner_rate as int);
    }
    FeeSplit { treasury_fee, partner_fee, net_amount: amount - treasury_fee - partner_fee }
}

proof fn lemma_fee_bounded(amount: int, rate: int)
    requires
        0 <= amount,
        0 <= rate <= BPS_DENOMINATOR,
    ensures
        0 <= fee_of(amount, rate) <= amount,
{
    assert(0 <= amount * rate <= amount * 10000) by (nonlinear_arith)
        requires 0 <= amount, 0 <= rate <= 10000;
    assert(0 <= (amount * rate) / 10000 <= (amount * 10000) / 10000) by (nonlinear_arith)
        requires 0 <= amount * rate <= amount * 10000;
    assert((amount * 10000) / 10000 == amount) by (nonlinear_arith);
}

proof fn lemma_fee_sum_bounded(amount: int, r1: int, r2: int)
    requires
        0 <= amount,
        0 <= r1,
        0 <= r2,
        r1 + r2 <= BPS_DENOMINATOR,
    ensures
        fee_of(amount, r1) + fee_of(amount, r2) <= fee_of(amount, r1 + r2) <= amount,
{
    lemma_fee_bounded(amount, r1 + r2);
    assert(amount * r1 + amount * r2 == amount * (r1 + r2)) by (nonlinear_arith);
    assert((amount * r1) / 10000 + (amount * r2) / 10000 <= (amount * r1 + amount * r2) / 10000)
        by (nonlinear_arith)
        requires 0 <= amount * r1, 0 <= amount * r2;
}

/// The fee share and the rest always add up to the amount, and the fee share
/// never decreases as the amount grows.
pub proof fn lemma_fee_split_conserves(a: u64, b: u64, rate: u64)
    requires
        rate <= BPS_DENOMINATOR,
        a <= b,
    ensures
        fee_of(a as int, rate as int) + (a - fee_of(a as int, rate as int)) == a,
        0 <= fee_of(a as int, rate as int) <= a,
        fee_of(a as int, rate as int) <= fee_of(b as int, rate as int),
{
    lemma_fee_bounded(a as int, rate as int);
    let (x, y, r) = (a as int, b as int, rate as int);
    assert(x * r <= y * r) by (nonlinear_arith)
        requires x <= y, 0 <= r;
    assert((x * r) / 10000 <= (y * r) / 10000) by (nonlinear_arith)
        requires x * r <= y * r;
}

} // verus!
