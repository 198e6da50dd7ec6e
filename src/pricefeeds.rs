//! The health-factor engine and the conversions between collateral and debt.
//!
//! Prices carry a scale of 1e4. A health factor compares the threshold value
//! of the collateral (`collateral * price * threshold / 100`) with the debt,
//! scaled up by 1e6 and down by 1e10.
use vstd::prelude::*;

use crate::errors::ErrorCode;
use crate::structs::{Engine, HealthFactors, Price, UserData};

verus! {

/// Scale of a price.
pub const PRICE_SCALE: u64 = 10_000;

/// Percentages are out of this.
pub const PERCENT: u64 = 100;

/// Scale of the repayment fee rate.
pub const FEE_SCALE: u64 = 100_000_000;

/// Factor that a health factor is scaled up by.
pub const HF_SCALE_UP: u128 = 1_000_000;

/// Factor that a health factor is scaled down by.
pub const HF_SCALE_DOWN: u128 = 10_000_000_000;

/// The threshold value of some collateral at a price.
pub open spec fn threshold_value(collateral: int, price: int, threshold: int) -> int {
    collateral * price * threshold / 100
}

/// The health factor of a threshold value against a non-zero debt.
pub open spec fn scaled_health(threshold_value: int, debt: int) -> int {
    threshold_value * 1_000_000 / 10_000_000_000 / debt
}

/// Whether `collateral * price * threshold` can be formed in 64 bits.
pub open spec fn value_fits(collateral: int, price: int, threshold: int) -> bool {
    collateral * price <= u64::MAX && collateral * price * threshold <= u64::MAX
}

/// The health factor of a position, or why it cannot be given.
///
/// A position without debt is infinitely safe. A debt that exceeds the threshold
/// value, at the scale of a price, is refused outright.
pub open spec fn health_factor_spec(collateral: u64, debt: u64, price: u64, threshold: u64) -> Result<
    u64,
    ErrorCode,
> {
    if debt == 0 {
        Ok(u64::MAX)
    } else if !value_fits(collateral as int, price as int, threshold as int) {
        Err(ErrorCode::MathOverflow)
    } else if debt * 10_000 > threshold_value(collateral as int, price as int, threshold as int) {
        Err(ErrorCode::OverCollateralLimit)
    } else {
        Ok(scaled_health(threshold_value(collateral as int, price as int, threshold as int), debt as int) as u64)
    }
}

/// The health factor that a position would have with a hypothetical
/// collateral balance; unlike `health_factor_spec` it refuses no large debt.
pub open spec fn health_after_spec(debt: u64, price: u64, threshold: u64, collateral: u64) -> Result<
    u64,
    ErrorCode,
> {
    if debt == 0 {
        Ok(u64::MAX)
    } else if !value_fits(collateral as int, price as int, threshold as int) {
        Err(ErrorCode::MathOverflow)
    } else {
        Ok(scaled_health(threshold_value(collateral as int, price as int, threshold as int), debt as int) as u64)
    }
}

/// Collateral that a debt amount is worth at a non-zero price.
pub open spec fn dsc_to_collateral(dsc: int, price: int) -> int {
    dsc * 10_000 / price
}

/// Debt converted into collateral, or why it cannot be.
pub open spec fn dsc_to_collateral_spec(dsc: u64, price: u64) -> Result<u64, ErrorCode> {
    if price == 0 {
        Err(ErrorCode::InvalidPrice)
    } else if dsc_to_collateral(dsc as int, price as int) > u64::MAX {
        Err(ErrorCode::MathOverflow)
    } else {
        Ok(dsc_to_collateral(dsc as int, price as int) as u64)
    }
}

/// The repayment fee on a debt amount, in debt units.
pub open spec fn fee_in_dsc(dsc: int, fee_percent: int) -> int {
    dsc * fee_percent / 100_000_000
}

/// The repayment fee on a debt amount, in collateral units.
pub open spec fn collateral_fee_spec(dsc: u64, price: u64, fee_percent: u64) -> Result<u64, ErrorCode> {
    if fee_in_dsc(dsc as int, fee_percent as int) > u64::MAX {
        Err(ErrorCode::MathOverflow)
    } else {
        dsc_to_collateral_spec(fee_in_dsc(dsc as int, fee_percent as int) as u64, price)
    }
}

proof fn lemma_scaled_health_bounded(tv: int, debt: int)
    requires
        0 <= tv <= u64::MAX,
        debt >= 1,
    ensures
        0 <= scaled_health(tv, debt) <= tv,
{
    let n = tv * 1_000_000 / 10_000_000_000;
    assert(0 <= n <= tv) by (nonlinear_arith)
        requires
            0 <= tv,
            n == tv * 1_000_000 / 10_000_000_000,
    ;
    assert(0 <= n / debt <= n) by (nonlinear_arith)
        requires
            0 <= n,
            debt >= 1,
    ;
}

/// The value of some collateral at a price, in price scale.
pub fn convert_collateral_to_usd_scaled(amount: u64, price: &Price) -> (r: Result<u64, ErrorCode>)
    ensures
        amount * price.price <= u64::MAX ==> r == Ok::<u64, ErrorCode>((amount * price.price) as u64),
        amount * price.price > u64::MAX ==> r == Err::<u64, ErrorCode>(ErrorCode::MathOverflow),
{
    match amount.checked_mul(price.price) {
        Some(v) => Ok(v),
        None => Err(ErrorCode::MathOverflow),
    }
}

/// The value of some collateral at a price, in debt units.
pub fn convert_collateral_to_usd(amount: u64, price: &Price) -> (r: Result<u64, ErrorCode>)
    ensures
        amount * price.price / 10_000 <= u64::MAX ==> r == Ok::<u64, ErrorCode>(
            (amount * price.price / 10_000) as u64,
        ),
        amount * price.price / 10_000 > u64::MAX ==> r == Err::<u64, ErrorCode>(
            ErrorCode::MathOverflow,
        ),
{
    let a = amount as u128;
    let p = price.price as u128;
    assert(a * p <= u128::MAX) by (nonlinear_arith)
        requires
            a <= u64::MAX,
            p <= u64::MAX,
    ;
    let v = a * p / (PRICE_SCALE as u128);
    if v > u64::MAX as u128 {
        return Err(ErrorCode::MathOverflow);
    }
    Ok(v as u64)
}

/// Debt converted into collateral at a price.
pub fn convert_dsc_to_collateral(dsc_amount: u64, price: &Price) -> (r: Result<u64, ErrorCode>)
    ensures
        r == dsc_to_collateral_spec(dsc_amount, price.price),
{
    if price.price == 0 {
        return Err(ErrorCode::InvalidPrice);
    }
    let d = dsc_amount as u128;
    assert(d * 10_000 <= u128::MAX);
    let v = d * 10_000 / (price.price as u128);
    if v > u64::MAX as u128 {
        return Err(ErrorCode::MathOverflow);
    }
    Ok(v as u64)
}

/// Debt converted into collateral at a price, with a further scale of 1e4.
pub fn convert_dsc_to_collateral_scaled(dsc_amount: u64, price: &Price) -> (r: Result<
    u64,
    ErrorCode,
>)
    ensures
        price.price == 0 ==> r == Err::<u64, ErrorCode>(ErrorCode::InvalidPrice),
        price.price != 0 && dsc_amount * 100_000_000 / (price.price as int) > u64::MAX ==> r == Err::<
            u64,
            ErrorCode,
        >(ErrorCode::MathOverflow),
        price.price != 0 && dsc_amount * 100_000_000 / (price.price as int) <= u64::MAX ==> r == Ok::<
            u64,
            ErrorCode,
        >((dsc_amount * 100_000_000 / (price.price as int)) as u64),
{
    if price.price == 0 {
        return Err(ErrorCode::InvalidPrice);
    }
    let d = dsc_amount as u128;
    assert(d * 100_000_000 <= u128::MAX);
    let numerator = d * 100_000_000;
    let v = numerator / (price.price as u128);
    if v > u64::MAX as u128 {
        return Err(ErrorCode::MathOverflow);
    }
    Ok(v as u64)
}

/// The repayment fee on `dsc_amount` of debt, in collateral units.
pub fn calculate_collateral_fee(dsc_amount: u64, price: &Price, fee_percent: u64) -> (r: Result<
    u64,
    ErrorCode,
>)
    ensures
        r == collateral_fee_spec(dsc_amount, price.price, fee_percent),
{
    let d = dsc_amount as u128;
    let f = fee_percent as u128;
    assert(d * f <= u128::MAX) by (nonlinear_arith)
        requires
            d <= u64::MAX,
            f <= u64::MAX,
    ;
    let fee_dsc = d * f / (FEE_SCALE as u128);
    if fee_dsc > u64::MAX as u128 {
        return Err(ErrorCode::MathOverflow);
    }
    convert_dsc_to_collateral(fee_dsc as u64, price)
}

/// A fee of `fee_percent` percent on `dsc_amount`, in collateral units at the
/// finer scale of `convert_dsc_to_collateral_scaled`.
pub fn calculate_collateral_fee_scaled(dsc_amount: u64, price: &Price, fee_percent: u64) -> (r:
    Result<u64, ErrorCode>)
    ensures
        dsc_amount * fee_percent > u64::MAX ==> r == Err::<u64, ErrorCode>(ErrorCode::MathOverflow),
        dsc_amount * fee_percent <= u64::MAX && price.price == 0 ==> r == Err::<u64, ErrorCode>(
            ErrorCode::InvalidPrice,
        ),
        dsc_amount * fee_percent <= u64::MAX && price.price != 0 ==> ({
            let v = dsc_amount * fee_percent / 100 * 100_000_000 / (price.price as int);
            &&& v <= u64::MAX ==> r == Ok::<u64, ErrorCode>(v as u64)
            &&& v > u64::MAX ==> r == Err::<u64, ErrorCode>(ErrorCode::MathOverflow)
        }),
{
    let fee_dsc = match dsc_amount.checked_mul(fee_percent) {
        Some(v) => v / PERCENT,
        None => {
            return Err(ErrorCode::MathOverflow);
        },
    };
    convert_dsc_to_collateral_scaled(fee_dsc, price)
}

/// The health factor of a position holding `collateral` against `total_debt`.
pub fn calculate_health_factor_with_debt(
    collateral: u64,
    price: &Price,
    engine: &Engine,
    total_debt: u64,
) -> (r: Result<u64, ErrorCode>)
    ensures
        r == health_factor_spec(collateral, total_debt, price.price, engine.liquidation_threshold),
{
    if total_debt == 0 {
        return Ok(u64::MAX);
    }
    let collateral_value = convert_collateral_to_usd_scaled(collateral, price)?;
    let threshold_value = match collateral_value.checked_mul(engine.liquidation_threshold) {
        Some(v) => v / PERCENT,
        None => {
            return Err(ErrorCode::MathOverflow);
        },
    };
    if (total_debt as u128) * (PRICE_SCALE as u128) > threshold_value as u128 {
        return Err(ErrorCode::OverCollateralLimit);
    }
    proof {
        lemma_scaled_health_bounded(threshold_value as int, total_debt as int);
    }
    let hf = (threshold_value as u128) * HF_SCALE_UP / HF_SCALE_DOWN / (total_debt as u128);
    Ok(hf as u64)
}

/// The health factor that a position owing `total_debt` would have if it held
/// `remaining_amount` of collateral.
pub fn calculate_health_factor_after_withdrawal(
    total_debt: u64,
    price: &Price,
    engine: &Engine,
    remaining_amount: u64,
) -> (r: Result<u64, ErrorCode>)
    ensures
        r == health_after_spec(total_debt, price.price, engine.liquidation_threshold, remaining_amount),
{
    if total_debt == 0 {
        return Ok(u64::MAX);
    }
    let collateral_value = convert_collateral_to_usd_scaled(remaining_amount, price)?;
    let threshold_value = match collateral_value.checked_mul(engine.liquidation_threshold) {
        Some(v) => v / PERCENT,
        None => {
            return Err(ErrorCode::MathOverflow);
        },
    };
    proof {
        lemma_scaled_health_bounded(threshold_value as int, total_debt as int);
    }
    let hf = (threshold_value as u128) * HF_SCALE_UP / HF_SCALE_DOWN / (total_debt as u128);
    Ok(hf as u64)
}

/// Takes the pushed price and recomputes the cached health factor of a
/// position from its collateral balance and its debt.
pub fn calculate_health_factor(
    user_data: &mut UserData,
    price: &mut Price,
    engine: &Engine,
    new_price: u64,
) -> (r: Result<HealthFactors, ErrorCode>)
    ensures
        match r {
            Ok(event) => {
                &&& health_factor_spec(
                    old(user_data).token_balance,
                    old(user_data).borrowed_amount,
                    new_price,
                    engine.liquidation_threshold,
                ) == Ok::<u64, ErrorCode>(event.health_factor)
                &&& *final(user_data) == (UserData { hf: event.health_factor, ..*old(user_data) })
                &&& *final(price) == (Price { price: new_price, ..*old(price) })
            },
            Err(e) => {
                &&& health_factor_spec(
                    old(user_data).token_balance,
                    old(user_data).borrowed_amount,
                    new_price,
                    engine.liquidation_threshold,
                ) == Err::<u64, ErrorCode>(e)
                &&& *final(user_data) == *old(user_data)
                &&& *final(price) == *old(price)
            },
        },
{
    let pushed = Price { price: new_price, ..*price };
    let hf = calculate_health_factor_with_debt(
        user_data.token_balance,
        &pushed,
        engine,
        user_data.borrowed_amount,
    )?;
    *price = pushed;
    user_data.hf = hf;
    Ok(HealthFactors { health_factor: hf })
}

/// Overwrites the cached health factor of a position.
pub fn temp(user_data: &mut UserData, hfbn: u64)
    ensures
        *final(user_data) == (UserData { hf: hfbn, ..*old(user_data) }),
{
    user_data.hf = hfbn;
}

} // verus!
