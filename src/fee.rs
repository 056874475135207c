use vstd::prelude::*;

verus! {

/// Smallest fee charged on a listing, a redemption or a sale.
pub const FEE_FLOOR: u64 = 10_000_000;

/// Largest fee rate a listing may carry, in basis points.
pub const MAX_RATE: u16 = 5_000;

/// Basis points in a whole.
pub const RATE_DENOMINATOR: u64 = 10_000;

/// The rate a listing stores when asked for `rate`: clamped into `[1, MAX_RATE]`.
pub open spec fn clamped_rate(rate: int) -> int {
    if rate < 1 {
        1
    } else if rate > MAX_RATE as int {
        MAX_RATE as int
    } else {
        rate
    }
}

/// The fee on a listing of `price` at `rate` basis points: the truncated
/// percentage, but never less than `FEE_FLOOR`.
pub open spec fn fee_of(price: int, rate: int) -> int {
    let share = price * rate / RATE_DENOMINATOR as int;
    if share > FEE_FLOOR as int {
        share
    } else {
        FEE_FLOOR as int
    }
}

/// Clamps a requested rate into `[1, MAX_RATE]`.
pub fn clamp_rate(rate: u16) -> (r: u16)
    ensures
        r as int == clamped_rate(rate as int),
        1 <= r <= MAX_RATE,
{
    if rate < 1 {
        1
    } else if rate > MAX_RATE {
        MAX_RATE
    } else {
        rate
    }
}

/// The fee on `price` at `rate` basis points, multiplied in a double-width
/// integer so that no intermediate product can overflow.
pub fn compute_fee(price: u64, rate: u16) -> (fee: u128)
    ensures
        fee as int == fee_of(price as int, rate as int),
{
    proof {
        let p = price as int;
        let r = rate as int;
        assert(p * r <= 0xffff_ffff_ffff_ffff * 0xffff) by (nonlinear_arith)
            requires
                0 <= p <= 0xffff_ffff_ffff_ffff,
                0 <= r <= 0xffff,
        ;
    }
    let product: u128 = (price as u128) * (rate as u128);
    let share: u128 = product / (RATE_DENOMINATOR as u128);
    if share > FEE_FLOOR as u128 {
        share
    } else {
        FEE_FLOOR as u128
    }
}

/// At a rate a listing can carry, the fee fits in a `u64`.
pub proof fn lemma_fee_fits(price: u64, rate: u16)
    requires
        rate <= MAX_RATE,
    ensures
        FEE_FLOOR <= fee_of(price as int, rate as int) <= u64::MAX,
{
    let p = price as int;
    let r = rate as int;
    assert(p * r <= p * 5000) by (nonlinear_arith)
        requires
            0 <= r <= 5000,
            0 <= p,
    ;
    assert(p * r / 10000 <= p * 5000 / 10000) by (nonlinear_arith)
        requires
            p * r <= p * 5000,
    ;
    assert(p * 5000 / 10000 <= p) by (nonlinear_arith)
        requires
            0 <= p,
    ;
}

/// The fee, as the amount that is moved, for a rate a listing can carry.
pub fn listing_fee(price: u64, rate: u16) -> (fee: u64)
    requires
        rate <= MAX_RATE,
    ensures
        fee as int == fee_of(price as int, rate as int),
{
    proof {
        lemma_fee_fits(price, rate);
    }
    compute_fee(price, rate) as u64
}

} // verus!
