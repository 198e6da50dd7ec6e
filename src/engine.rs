//! Starting the engine, borrowing (minting debt) and liquidating.
use vstd::prelude::*;

use crate::errors::ErrorCode;
use crate::key::Key;
use crate::pricefeeds::{
    calculate_health_factor_with_debt, convert_dsc_to_collateral, dsc_to_collateral_spec,
    health_factor_spec,
};
use crate::structs::{Deposit, Engine, Price, TokenLiquidated, UserData};

verus! {

/// Debt tokens per unit of recorded debt: debt is recorded in tokens / 1000.
pub const DEBT_SCALE: u64 = 1000;

/// A token amount of debt in the unit that debt is recorded in.
pub open spec fn normalized(amount: u64) -> u64 {
    (amount / 1000) as u64
}

/// The risk parameters, refused where the threshold is not a percentage.
pub open spec fn engine_outcome(
    authority: Key,
    dsc_mint: Key,
    liquidation_threshold: u64,
    min_health_factor: u64,
    liquidation_bonus: u64,
    fee_percent: u64,
) -> Result<Engine, ErrorCode> {
    if liquidation_threshold > 100 {
        Err(ErrorCode::InvalidThreshold)
    } else {
        Ok(
            Engine {
                authority,
                dsc_mint,
                liquidation_threshold,
                min_health_factor,
                liquidation_bonus,
                fee_percent,
            },
        )
    }
}

/// Sets the protocol-wide risk parameters.
pub fn initialize_engine(
    authority: Key,
    dsc_mint: Key,
    liquidation_threshold: u64,
    min_health_factor: u64,
    liquidation_bonus: u64,
    fee_percent: u64,
) -> (r: Result<Engine, ErrorCode>)
    ensures
        r == engine_outcome(
            authority,
            dsc_mint,
            liquidation_threshold,
            min_health_factor,
            liquidation_bonus,
            fee_percent,
        ),
        r matches Ok(e) ==> e.wf(),
{
    if liquidation_threshold > 100 {
        return Err(ErrorCode::InvalidThreshold);
    }
    Ok(
        Engine {
            authority,
            dsc_mint,
            liquidation_threshold,
            min_health_factor,
            liquidation_bonus,
            fee_percent,
        },
    )
}

/// A borrow ready to be committed once `mint` debt tokens were minted to the
/// user.
#[derive(Clone, Copy, Debug)]
pub struct MintPlan {
    pub user_data: UserData,
    pub price: Price,
    pub mint: u64,
}

/// What borrowing `amount` debt tokens at `new_price` does.
pub open spec fn mint_outcome(
    user_data: Option<UserData>,
    price: Price,
    engine: Engine,
    user: Key,
    amount: u64,
    new_price: u64,
) -> Result<MintPlan, ErrorCode> {
    if amount == 0 {
        Err(ErrorCode::AmountLessThanZero)
    } else {
        match user_data {
            None => Err(ErrorCode::UnauthorizedUser),
            Some(u) => if u.user != user {
                Err(ErrorCode::UnauthorizedUser)
            } else if u.borrowed_amount + normalized(amount) > u64::MAX {
                Err(ErrorCode::Overflow)
            } else {
                let new_borrowed = (u.borrowed_amount + normalized(amount)) as u64;
                match health_factor_spec(
                    u.token_balance,
                    new_borrowed,
                    new_price,
                    engine.liquidation_threshold,
                ) {
                    Err(e) => Err(e),
                    Ok(hf) => if hf < engine.min_health_factor {
                        Err(ErrorCode::LessHealthFactor)
                    } else {
                        Ok(
                            MintPlan {
                                user_data: UserData { borrowed_amount: new_borrowed, ..u },
                                price: Price { price: new_price, ..price },
                                mint: amount,
                            },
                        )
                    },
                }
            },
        }
    }
}

/// Stages a borrow of `amount` debt tokens by `user` against the collateral
/// of `user_data`, at the pushed price `new_price`.
pub fn mint_dsc(
    user_data: &Option<UserData>,
    price: &Price,
    engine: &Engine,
    user: Key,
    amount: u64,
    new_price: u64,
) -> (r: Result<MintPlan, ErrorCode>)
    ensures
        r == mint_outcome(*user_data, *price, *engine, user, amount, new_price),
{
    if amount == 0 {
        return Err(ErrorCode::AmountLessThanZero);
    }
    let amt = amount / DEBT_SCALE;
    let pushed = Price { price: new_price, ..*price };
    let u = match user_data {
        None => {
            return Err(ErrorCode::UnauthorizedUser);
        },
        Some(u) => *u,
    };
    if u.user != user {
        return Err(ErrorCode::UnauthorizedUser);
    }
    let new_borrowed = match u.borrowed_amount.checked_add(amt) {
        Some(v) => v,
        None => {
            return Err(ErrorCode::Overflow);
        },
    };
    let health_factor = calculate_health_factor_with_debt(
        u.token_balance,
        &pushed,
        engine,
        new_borrowed,
    )?;
    if health_factor < engine.min_health_factor {
        return Err(ErrorCode::LessHealthFactor);
    }
    Ok(MintPlan { user_data: UserData { borrowed_amount: new_borrowed, ..u }, price: pushed, mint: amount })
}

/// A borrow that goes through leaves the position at or above the minimum
/// health factor, adds the normalized amount to the debt and mints exactly
/// the amount asked for; a borrow after which the health factor would be
/// below the minimum is rejected.
pub proof fn lemma_borrow_keeps_health(
    user_data: Option<UserData>,
    price: Price,
    engine: Engine,
    user: Key,
    amount: u64,
    new_price: u64,
)
    ensures
        mint_outcome(user_data, price, engine, user, amount, new_price) matches Ok(plan) ==> {
            &&& user_data matches Some(u)
            &&& plan.user_data.borrowed_amount == u.borrowed_amount + normalized(amount)
            &&& health_factor_spec(
                plan.user_data.token_balance,
                plan.user_data.borrowed_amount,
                plan.price.price,
                engine.liquidation_threshold,
            ) matches Ok(hf)
            &&& hf >= engine.min_health_factor
            &&& plan.mint == amount
        },
        user_data matches Some(u) ==> ({
            let new_borrowed = u.borrowed_amount + normalized(amount);
            let hf = health_factor_spec(
                u.token_balance,
                new_borrowed as u64,
                new_price,
                engine.liquidation_threshold,
            );
            (new_borrowed <= u64::MAX && hf is Ok && hf->Ok_0 < engine.min_health_factor)
                ==> mint_outcome(user_data, price, engine, user, amount, new_price) is Err
        }),
        user_data matches Some(u) ==> ({
            let new_borrowed = u.borrowed_amount + normalized(amount);
            let hf = health_factor_spec(
                u.token_balance,
                new_borrowed as u64,
                new_price,
                engine.liquidation_threshold,
            );
            (amount > 0 && u.user == user && new_borrowed <= u64::MAX && hf is Ok && hf->Ok_0
                < engine.min_health_factor) ==> mint_outcome(
                user_data,
                price,
                engine,
                user,
                amount,
                new_price,
            ) == Err::<MintPlan, ErrorCode>(ErrorCode::LessHealthFactor)
        }),
{
}

/// A liquidation ready to be committed once `burn` debt tokens were burnt
/// from the liquidator and `out_of_vault` collateral moved to them.
#[derive(Clone, Copy, Debug)]
pub struct LiquidationPlan {
    pub deposit: Deposit,
    pub user_data: UserData,
    pub price: Price,
    pub burn: u64,
    pub out_of_vault: u64,
    pub event: TokenLiquidated,
}

/// The liquidator's reward for `equiv` collateral of covered debt: that
/// collateral and a bonus on it.
pub open spec fn liquidation_reward(equiv: int, bonus: int) -> int {
    equiv + equiv * bonus / 100
}

/// What covering `debt_to_cover` debt tokens of a borrower does.
pub open spec fn liquidation_outcome(
    deposit: Deposit,
    user_data: UserData,
    price: Price,
    engine: Engine,
    liquidator: Key,
    token_mint: Key,
    debt_to_cover: u64,
    new_price: u64,
) -> Result<LiquidationPlan, ErrorCode> {
    let dsc = normalized(debt_to_cover);
    if debt_to_cover == 0 {
        Err(ErrorCode::AmountLessThanZero)
    } else if liquidator == user_data.user {
        Err(ErrorCode::CannotLiquidateSelf)
    } else if dsc > user_data.borrowed_amount {
        Err(ErrorCode::TooMuchRepay)
    } else {
        let remaining = (user_data.borrowed_amount - dsc) as u64;
        match health_factor_spec(
            user_data.token_balance,
            remaining,
            new_price,
            engine.liquidation_threshold,
        ) {
            Err(e) => Err(e),
            Ok(hf) => if hf >= engine.min_health_factor {
                Err(ErrorCode::NoNeedToLiquidate)
            } else {
                match dsc_to_collateral_spec(dsc, new_price) {
                    Err(e) => Err(e),
                    Ok(equiv) => {
                        let reward = liquidation_reward(equiv as int, engine.liquidation_bonus as int);
                        if reward > u64::MAX {
                            Err(ErrorCode::MathOverflow)
                        } else if deposit.token_amt < reward || user_data.token_balance < reward {
                            Err(ErrorCode::NotEnoughTokensInCollateral)
                        } else {
                            Ok(
                                LiquidationPlan {
                                    deposit: Deposit {
                                        token_amt: (deposit.token_amt - reward) as u64,
                                        ..deposit
                                    },
                                    user_data: UserData {
                                        borrowed_amount: remaining,
                                        token_balance: (user_data.token_balance - reward) as u64,
                                        ..user_data
                                    },
                                    price: Price { price: new_price, ..price },
                                    burn: debt_to_cover,
                                    out_of_vault: reward as u64,
                                    event: TokenLiquidated {
                                        liquidator,
                                        user: user_data.user,
                                        token: token_mint,
                                        amount: reward as u64,
                                    },
                                },
                            )
                        }
                    },
                }
            },
        }
    }
}

/// Stages the liquidation by `liquidator` of `debt_to_cover` debt tokens of
/// the borrower whose records are `deposit` and `user_data`, at the pushed
/// price `new_price`.
pub fn liquidate(
    deposit: &Deposit,
    user_data: &UserData,
    price: &Price,
    engine: &Engine,
    liquidator: Key,
    token_mint: Key,
    debt_to_cover: u64,
    new_price: u64,
) -> (r: Result<LiquidationPlan, ErrorCode>)
    ensures
        r == liquidation_outcome(
            *deposit,
            *user_data,
            *price,
            *engine,
            liquidator,
            token_mint,
            debt_to_cover,
            new_price,
        ),
{
    if debt_to_cover == 0 {
        return Err(ErrorCode::AmountLessThanZero);
    }
    let dsc_amt = debt_to_cover / DEBT_SCALE;
    if liquidator == user_data.user {
        return Err(ErrorCode::CannotLiquidateSelf);
    }
    if dsc_amt > user_data.borrowed_amount {
        return Err(ErrorCode::TooMuchRepay);
    }
    let pushed = Price { price: new_price, ..*price };
    let remaining = user_data.borrowed_amount - dsc_amt;
    let health = calculate_health_factor_with_debt(
        user_data.token_balance,
        &pushed,
        engine,
        remaining,
    )?;
    if health >= engine.min_health_factor {
        return Err(ErrorCode::NoNeedToLiquidate);
    }
    let equiv = convert_dsc_to_collateral(dsc_amt, &pushed)?;
    let e = equiv as u128;
    let b = engine.liquidation_bonus as u128;
    assert(e * b <= u128::MAX) by (nonlinear_arith)
        requires
            e <= u64::MAX,
            b <= u64::MAX,
    ;
    let reward = e + e * b / 100;
    if reward > u64::MAX as u128 {
        return Err(ErrorCode::MathOverflow);
    }
    let reward = reward as u64;
    if deposit.token_amt < reward || user_data.token_balance < reward {
        return Err(ErrorCode::NotEnoughTokensInCollateral);
    }
    Ok(
        LiquidationPlan {
            deposit: Deposit { token_amt: deposit.token_amt - reward, ..*deposit },
            user_data: UserData {
                borrowed_amount: user_data.borrowed_amount.saturating_sub(dsc_amt),
                token_balance: user_data.token_balance - reward,
                ..*user_data
            },
            price: pushed,
            burn: debt_to_cover,
            out_of_vault: reward,
            event: TokenLiquidated {
                liquidator,
                user: user_data.user,
                token: token_mint,
                amount: reward,
            },
        },
    )
}

/// A liquidation goes through only while the borrower's health factor, with
/// the covered debt already repaid, is still below the minimum; so covering a
/// borrower's whole debt is always rejected.
pub proof fn lemma_liquidation_needs_unsafe_position(
    deposit: Deposit,
    user_data: UserData,
    price: Price,
    engine: Engine,
    liquidator: Key,
    token_mint: Key,
    debt_to_cover: u64,
    new_price: u64,
)
    ensures
        liquidation_outcome(
            deposit,
            user_data,
            price,
            engine,
            liquidator,
            token_mint,
            debt_to_cover,
            new_price,
        ) is Ok ==> {
            &&& normalized(debt_to_cover) <= user_data.borrowed_amount
            &&& health_factor_spec(
                user_data.token_balance,
                (user_data.borrowed_amount - normalized(debt_to_cover)) as u64,
                new_price,
                engine.liquidation_threshold,
            ) matches Ok(hf)
            &&& hf < engine.min_health_factor
        },
        (deposit.token_amt == user_data.token_balance && liquidation_outcome(
            deposit,
            user_data,
            price,
            engine,
            liquidator,
            token_mint,
            debt_to_cover,
            new_price,
        ) is Ok) ==> ({
            let hf = health_factor_spec(
                deposit.token_amt,
                (user_data.borrowed_amount - normalized(debt_to_cover)) as u64,
                new_price,
                engine.liquidation_threshold,
            );
            hf is Ok && hf->Ok_0 < engine.min_health_factor
        }),
        normalized(debt_to_cover) == user_data.borrowed_amount ==> liquidation_outcome(
            deposit,
            user_data,
            price,
            engine,
            liquidator,
            token_mint,
            debt_to_cover,
            new_price,
        ) is Err,
{
}

} // verus!
