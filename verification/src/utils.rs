//! The arithmetic kernel: checked fixed-point operations on basis-point
//! rates, with widened intermediates. Every other component computes its
//! fees, entitlements and ratios through these functions.

use vstd::prelude::*;

use crate::errors::PencilError;

verus! {

/// The smaller of two integers.
pub open spec fn spec_min_int(a: int, b: int) -> int {
    if a <= b {
        a
    } else {
        b
    }
}

/// Interest accrued by `principal` at `rate` basis points per year over
/// `periods` days, rounded down.
pub open spec fn spec_interest(principal: u64, rate: u16, periods: u64) -> int {
    principal * rate * periods / 10000 / 365
}

/// A basis-point fee: `amount * fee_rate / 10000`, rounded down.
pub open spec fn spec_fee(amount: u64, fee_rate: u16) -> int {
    amount * fee_rate / 10000
}

/// The junior-ratio gate: the junior share of `total_amount`, in basis
/// points and rounded down, is at least `min_ratio`.
pub open spec fn junior_ratio_ok(junior_amount: u64, total_amount: u64, min_ratio: u16) -> bool {
    total_amount > 0 && junior_amount * 10000 / total_amount as int >= min_ratio
}

/// The senior yield-token price: pool value (deposits plus outstanding
/// principal, capped at the interest ceiling plus outstanding principal)
/// scaled by the decimal multiplier and divided across the token supply.
pub open spec fn spec_senior_price(
    total_deposits: u64,
    grow_token_supply: u64,
    behind_principal: u64,
    max_interest: u64,
) -> int {
    spec_min_int(
        total_deposits + behind_principal,
        max_interest + behind_principal,
    ) * 1_000_000 / grow_token_supply as int
}

/// The product of a `u64` and a `u16` stays well inside `u128`.
proof fn lemma_u64_u16_product_fits(x: u64, y: u16)
    ensures
        x * y <= u64::MAX * u16::MAX,
{
    assert(x * y <= u64::MAX * u16::MAX) by (nonlinear_arith)
        requires
            0 <= x <= u64::MAX,
            0 <= y <= u16::MAX,
    ;
}

/// Computes `principal * rate * periods / 10000 / 365` with widened
/// intermediates; fails rather than wraps when an intermediate product or
/// the result does not fit.
pub fn calculate_interest(principal: u64, rate: u16, periods: u64) -> (r: Result<
    u64,
    PencilError,
>)
    ensures
        r is Ok <==> principal * rate * periods <= u128::MAX && spec_interest(
            principal,
            rate,
            periods,
        ) <= u64::MAX,
        r is Ok ==> r->Ok_0 == spec_interest(principal, rate, periods),
        r is Err ==> r->Err_0 == PencilError::ArithmeticOverflow,
{
    proof {
        lemma_u64_u16_product_fits(principal, rate);
    }
    let pr: u128 = (principal as u128) * (rate as u128);
    let prod: u128 = match pr.checked_mul(periods as u128) {
        Some(v) => v,
        None => {
            return Err(PencilError::ArithmeticOverflow);
        },
    };
    let q: u128 = prod / 10000u128 / 365u128;
    if q > u64::MAX as u128 {
        return Err(PencilError::ArithmeticOverflow);
    }
    Ok(q as u64)
}

/// Computes a basis-point fee, `amount * fee_rate / 10000`, with a widened
/// intermediate; fails when the result does not fit in a `u64`.
pub fn calculate_fee(amount: u64, fee_rate: u16) -> (r: Result<u64, PencilError>)
    ensures
        r is Ok <==> spec_fee(amount, fee_rate) <= u64::MAX,
        r is Ok ==> r->Ok_0 == spec_fee(amount, fee_rate),
        r is Err ==> r->Err_0 == PencilError::ArithmeticOverflow,
{
    proof {
        lemma_u64_u16_product_fits(amount, fee_rate);
    }
    let q: u128 = (amount as u128) * (fee_rate as u128) / 10000u128;
    if q > u64::MAX as u128 {
        return Err(PencilError::ArithmeticOverflow);
    }
    Ok(q as u64)
}

/// How many whole repayment periods (of `repayment_period` days) have
/// elapsed since the funding window closed; zero when the window is still
/// open. Fails when the period length is zero or overflows in seconds.
pub fn calculate_current_period(
    funding_end_time: i64,
    repayment_period: u64,
    current_time: i64,
) -> (r: Result<u64, PencilError>)
    ensures
        current_time <= funding_end_time ==> r == Ok::<u64, PencilError>(0u64),
        current_time > funding_end_time ==> {
            if repayment_period == 0 || repayment_period * 86400 > u64::MAX {
                r == Err::<u64, PencilError>(PencilError::ArithmeticOverflow)
            } else {
                r is Ok && r->Ok_0 == (current_time - funding_end_time) / (repayment_period
                    * 86400)
            }
        },
{
    if current_time <= funding_end_time {
        return Ok(0);
    }
    let elapsed: u64 = (current_time as i128 - funding_end_time as i128) as u64;
    let period_seconds: u64 = match repayment_period.checked_mul(86400) {
        Some(v) => v,
        None => {
            return Err(PencilError::ArithmeticOverflow);
        },
    };
    if period_seconds == 0 {
        return Err(PencilError::ArithmeticOverflow);
    }
    Ok(elapsed / period_seconds)
}

/// Checks the junior-ratio gate: rejects when the pool is empty or the
/// junior share, in basis points, falls below `min_ratio`.
pub fn validate_junior_ratio(junior_amount: u64, total_amount: u64, min_ratio: u16) -> (r: Result<
    (),
    PencilError,
>)
    ensures
        r is Ok <==> junior_ratio_ok(junior_amount, total_amount, min_ratio),
        r is Err ==> r->Err_0 == PencilError::InvalidJuniorRatio,
{
    if total_amount == 0 {
        return Err(PencilError::InvalidJuniorRatio);
    }
    let ratio: u128 = (junior_amount as u128) * 10000u128 / (total_amount as u128);
    if ratio >= min_ratio as u128 {
        Ok(())
    } else {
        Err(PencilError::InvalidJuniorRatio)
    }
}

/// Prices the senior yield token against the pool's capped value; returns
/// zero when no tokens are outstanding, and fails when a sum or the scaled
/// price does not fit in a `u64`.
pub fn calculate_senior_price(
    total_deposits: u64,
    grow_token_supply: u64,
    behind_principal: u64,
    max_interest: u64,
) -> (r: Result<u64, PencilError>)
    ensures
        grow_token_supply == 0 ==> r == Ok::<u64, PencilError>(0u64),
        grow_token_supply > 0 ==> {
            if total_deposits + behind_principal > u64::MAX || max_interest + behind_principal
                > u64::MAX {
                r == Err::<u64, PencilError>(PencilError::ArithmeticOverflow)
            } else if spec_senior_price(
                total_deposits,
                grow_token_supply,
                behind_principal,
                max_interest,
            ) > u64::MAX {
                r == Err::<u64, PencilError>(PencilError::ArithmeticOverflow)
            } else {
                r is Ok && r->Ok_0 == spec_senior_price(
                    total_deposits,
                    grow_token_supply,
                    behind_principal,
                    max_interest,
                )
            }
        },
{
    if grow_token_supply == 0 {
        return Ok(0);
    }
    let tvl: u64 = match total_deposits.checked_add(behind_principal) {
        Some(v) => v,
        None => {
            return Err(PencilError::ArithmeticOverflow);
        },
    };
    let cap: u64 = match max_interest.checked_add(behind_principal) {
        Some(v) => v,
        None => {
            return Err(PencilError::ArithmeticOverflow);
        },
    };
    let tvl: u64 = if tvl > cap {
        cap
    } else {
        tvl
    };
    let price: u128 = (tvl as u128) * 1_000_000u128 / (grow_token_supply as u128);
    if price > u64::MAX as u128 {
        return Err(PencilError::ArithmeticOverflow);
    }
    Ok(price as u64)
}

} // verus!
