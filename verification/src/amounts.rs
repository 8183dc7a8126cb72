//! Fee arithmetic in basis points.

use crate::types::Error;
use vstd::prelude::*;

verus! {

/// One hundred percent, in basis points.
pub const BPS_DENOMINATOR: i128 = 10000;

/// The fee rate of a ledger whose treasury was set up without one.
pub const DEFAULT_FEE_BPS: i128 = 50;

/// The quotient of `n` by the positive `d`, rounded toward zero.
pub open spec fn truncated_quotient(n: int, d: int) -> int {
    if n >= 0 {
        n / d
    } else {
        -((-n) / d)
    }
}

/// The platform fee on `amount` at `fee_bps` basis points: the product
/// divided by 10000 and rounded toward zero.
pub open spec fn fee_of(amount: int, fee_bps: int) -> int {
    truncated_quotient(amount * fee_bps, 10000)
}

/// The fee on an amount that is not negative, at a rate of at most a hundred
/// percent, is not negative and not more than the amount.
pub proof fn lemma_fee_within_amount(amount: int, fee_bps: int)
    requires
        amount >= 0,
        0 <= fee_bps <= 10000,
    ensures
        0 <= fee_of(amount, fee_bps) <= amount,
        0 <= amount * fee_bps,
{
    assert(0 <= amount * fee_bps <= amount * 10000) by (nonlinear_arith)
        requires
            amount >= 0,
            0 <= fee_bps <= 10000,
    ;
    vstd::arithmetic::div_mod::lemma_div_is_ordered(amount * fee_bps, amount * 10000, 10000);
    vstd::arithmetic::div_mod::lemma_div_is_ordered(0, amount * fee_bps, 10000);
    vstd::arithmetic::div_mod::lemma_div_multiples_vanish(amount, 10000);
}

/// Computes the platform fee on `amount` at `fee_bps` basis points.
///
/// The fee is `amount * fee_bps / 10000` rounded toward zero, so a small
/// amount may carry no fee at all. The call fails with `AmountOverflow`
/// exactly when the product does not fit in 128 bits. At a rate of at most
/// 10000 basis points the fee on an amount that is not negative is not
/// negative and not more than the amount.
pub fn calculate_fee(amount: i128, fee_bps: i128) -> (result: Result<i128, Error>)
    ensures
        match result {
            Ok(fee) => i128::MIN <= amount * fee_bps <= i128::MAX && fee == fee_of(
                amount as int,
                fee_bps as int,
            ),
            Err(e) => e == Error::AmountOverflow && !(i128::MIN <= amount * fee_bps <= i128::MAX),
        },
        amount >= 0 && 0 <= fee_bps <= BPS_DENOMINATOR ==> (result matches Ok(fee) ==> 0 <= fee
            <= amount),
{
    proof {
        if amount >= 0 && 0 <= fee_bps <= BPS_DENOMINATOR {
            lemma_fee_within_amount(amount as int, fee_bps as int);
        }
    }
    let numerator = match amount.checked_mul(fee_bps) {
        Some(n) => n,
        None => {
            return Err(Error::AmountOverflow);
        },
    };
    match numerator.checked_div(BPS_DENOMINATOR) {
        Some(fee) => Ok(fee),
        None => {
            Err(Error::AmountOverflow)
        },
    }
}

} // verus!
