//! Fee arithmetic in basis points, shared by both ledgers.

use vstd::prelude::*;

verus! {

/// Basis points in a whole: a rate of 10 000 is 100%.
pub const BASIS_POINTS: i128 = 10_000;

/// The highest rate that may be configured, in basis points (10%).
pub const MAX_FEE_RATE: i128 = 1_000;

/// Whether `rate` may be stored in a fee configuration.
pub open spec fn rate_in_bounds(rate: int) -> bool {
    0 <= rate <= MAX_FEE_RATE as int
}

/// Whether `value` can be held in an `i128`.
pub open spec fn fits_i128(value: int) -> bool {
    i128::MIN as int <= value <= i128::MAX as int
}

/// The quotient of `n` by a positive `d`, rounded toward zero.
pub open spec fn quotient_toward_zero(n: int, d: int) -> int
    recommends
        d > 0,
{
    if n >= 0 {
        n / d
    } else {
        -((-n) / d)
    }
}

/// The fee on `amount` at `rate` basis points: nothing at rate zero, nothing
/// where the product leaves the range of `i128`, else the product divided by
/// `BASIS_POINTS` and rounded toward zero.
pub open spec fn fee_of(amount: int, rate: int) -> int {
    if rate == 0 {
        0
    } else if !fits_i128(amount * rate) {
        0
    } else {
        quotient_toward_zero(amount * rate, BASIS_POINTS as int)
    }
}

/// The fee that an operation charges on `amount`: `fee_of` where fees are
/// switched on and the rate is positive, else nothing.
pub open spec fn charged_fee(enabled: bool, amount: int, rate: int) -> int {
    if enabled && rate > 0 {
        fee_of(amount, rate)
    } else {
        0
    }
}

/// Whether `rate` lies within the configurable bounds.
pub fn validate_rate(rate: i128) -> (ok: bool)
    ensures
        ok == rate_in_bounds(rate as int),
{
    0 <= rate && rate <= MAX_FEE_RATE
}

/// Computes the fee on `amount` at `fee_rate` basis points.
pub fn calculate_fee(amount: i128, fee_rate: i128) -> (fee: i128)
    ensures
        fee == fee_of(amount as int, fee_rate as int),
{
    if fee_rate == 0 {
        return 0;
    }
    match amount.checked_mul(fee_rate) {
        Some(product) => match product.checked_div(BASIS_POINTS) {
            Some(quotient) => quotient,
            None => 0,
        },
        None => 0,
    }
}

/// The fee charged where fees are `enabled` and `rate` is positive.
pub fn fee_when_enabled(enabled: bool, amount: i128, rate: i128) -> (fee: i128)
    ensures
        fee == charged_fee(enabled, amount as int, rate as int),
{
    if enabled && rate > 0 {
        calculate_fee(amount, rate)
    } else {
        0
    }
}

/// For a non-negative amount whose product with the rate fits in `i128`, the
/// fee is the floor of `amount * rate / 10000`; at rate zero it is zero.
pub proof fn lemma_fee_is_floor(amount: int, rate: int)
    requires
        rate_in_bounds(rate),
        0 <= amount <= i128::MAX,
        amount * rate <= i128::MAX,
    ensures
        fee_of(amount, rate) == (amount * rate) / 10000,
        fee_of(amount, 0) == 0,
{
    assert(amount * rate >= 0) by (nonlinear_arith)
        requires
            amount >= 0,
            rate >= 0,
    ;
    if rate == 0 {
        assert(amount * rate == 0);
    }
}

/// With a rate within bounds the fee lies between zero and the amount, on the
/// amount's side of zero.
pub proof fn lemma_fee_within_amount(amount: int, rate: int)
    requires
        rate_in_bounds(rate),
    ensures
        amount >= 0 ==> 0 <= fee_of(amount, rate) <= amount,
        amount <= 0 ==> amount <= fee_of(amount, rate) <= 0,
{
    if rate != 0 && fits_i128(amount * rate) {
        let p = amount * rate;
        if amount >= 0 {
            assert(0 <= p <= amount * 1000) by (nonlinear_arith)
                requires
                    amount >= 0,
                    0 <= rate <= 1000,
                    p == amount * rate,
            ;
        } else {
            assert(0 <= -p <= (-amount) * 1000) by (nonlinear_arith)
                requires
                    amount < 0,
                    0 <= rate <= 1000,
                    p == amount * rate,
            ;
        }
    }
}

} // verus!
