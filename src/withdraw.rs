//! Withdrawing collateral: the full exit of a position without debt, or the
//! repayment of debt against the collateral it frees.
use vstd::prelude::*;

use crate::deposit::deposit_outcome;
use crate::engine::{liquidation_outcome, normalized, DEBT_SCALE};
use crate::errors::ErrorCode;
use crate::key::Key;
use crate::pricefeeds::{
    calculate_collateral_fee, calculate_health_factor_after_withdrawal, collateral_fee_spec,
    convert_dsc_to_collateral, dsc_to_collateral_spec, health_after_spec,
};
use crate::structs::{Config, Deposit, Engine, Price, TokenRedeemed, UserData};

verus! {

/// Liquidity providers receive `LP_FEE_NUMERATOR / LP_FEE_DENOMINATOR` of a
/// repayment fee; the protocol keeps the rest.
pub const LP_FEE_NUMERATOR: u64 = 3;

pub const LP_FEE_DENOMINATOR: u64 = 4;

/// The liquidity providers' share of a fee.
pub open spec fn lp_fee_share(fee: int) -> int {
    fee * 3 / 4
}

/// A withdrawal ready to be committed once `burn` debt tokens (if any) were
/// burnt from the user and `out_of_vault` collateral moved to them.
#[derive(Clone, Copy, Debug)]
pub struct WithdrawPlan {
    pub deposit: Deposit,
    pub user_data: UserData,
    pub config: Config,
    pub price: Price,
    pub burn: Option<u64>,
    pub out_of_vault: u64,
    pub event: TokenRedeemed,
}

/// Leaving a position without debt: all of its collateral goes back.
pub open spec fn full_exit_outcome(
    d: Deposit,
    u: UserData,
    config: Config,
    pushed: Price,
    user: Key,
) -> Result<WithdrawPlan, ErrorCode> {
    if u.borrowed_amount != 0 {
        Err(ErrorCode::MustRepayDscFirst)
    } else {
        Ok(
            WithdrawPlan {
                deposit: Deposit { token_amt: 0, ..d },
                user_data: UserData { token_balance: 0, ..u },
                config,
                price: pushed,
                burn: None,
                out_of_vault: u.token_balance,
                event: TokenRedeemed { user, token: d.token_mint, amount: u.token_balance },
            },
        )
    }
}

/// Repaying `dsc_to_give` debt tokens: the position gives up the collateral
/// they are worth; of it the user gets all but the fee, and the fee is shared
/// between the liquidity providers and the protocol.
pub open spec fn repay_outcome(
    d: Deposit,
    u: UserData,
    config: Config,
    pushed: Price,
    engine: Engine,
    user: Key,
    dsc_to_give: u64,
) -> Result<WithdrawPlan, ErrorCode> {
    let dsc = normalized(dsc_to_give);
    if dsc > u.borrowed_amount {
        Err(ErrorCode::NotEnoughDebt)
    } else {
        let new_borrowed = (u.borrowed_amount - dsc) as u64;
        match dsc_to_collateral_spec(dsc, pushed.price) {
            Err(e) => Err(e),
            Ok(equiv) => match collateral_fee_spec(dsc, pushed.price, engine.fee_percent) {
                Err(e) => Err(e),
                Ok(fee) => if equiv < fee {
                    Err(ErrorCode::MathOverflow)
                } else {
                    let withdrawable = (equiv - fee) as u64;
                    if d.token_amt < equiv || u.token_balance < equiv {
                        Err(ErrorCode::NotEnoughTokensInCollateral)
                    } else {
                        let new_collateral = (u.token_balance - equiv) as u64;
                        let health = health_after_spec(
                            new_borrowed,
                            pushed.price,
                            engine.liquidation_threshold,
                            new_collateral,
                        );
                        let lp_share = lp_fee_share(fee as int);
                        if new_borrowed > 0 && health is Err {
                            Err(health->Err_0)
                        } else if new_borrowed > 0 && health->Ok_0 < engine.min_health_factor {
                            Err(ErrorCode::LessHealthFactor)
                        } else if config.total_collected + lp_share > u64::MAX
                            || config.protocol_fees + (fee - lp_share) > u64::MAX {
                            Err(ErrorCode::Overflow)
                        } else {
                            Ok(
                                WithdrawPlan {
                                    deposit: Deposit {
                                        token_amt: (d.token_amt - equiv) as u64,
                                        ..d
                                    },
                                    user_data: UserData {
                                        borrowed_amount: new_borrowed,
                                        token_balance: new_collateral,
                                        ..u
                                    },
                                    config: Config {
                                        total_collected: (config.total_collected
                                            + lp_share) as u64,
                                        protocol_fees: (config.protocol_fees + (fee
                                            - lp_share)) as u64,
                                        ..config
                                    },
                                    price: pushed,
                                    burn: Some(dsc_to_give),
                                    out_of_vault: withdrawable,
                                    event: TokenRedeemed {
                                        user,
                                        token: d.token_mint,
                                        amount: withdrawable,
                                    },
                                },
                            )
                        }
                    }
                },
            },
        }
    }
}

/// What a withdrawal by `user` does: a full exit when `dsc_to_give` is zero,
/// a repayment otherwise.
pub open spec fn withdraw_outcome(
    deposit: Option<Deposit>,
    user_data: Option<UserData>,
    config: Config,
    price: Price,
    engine: Engine,
    user: Key,
    dsc_to_give: u64,
    new_price: u64,
) -> Result<WithdrawPlan, ErrorCode> {
    match (deposit, user_data) {
        (Some(d), Some(u)) => if d.user != user {
            Err(ErrorCode::UnauthorizedUser)
        } else if d.token_amt == 0 {
            Err(ErrorCode::NotEnoughTokensInCollateral)
        } else if u.user != user {
            Err(ErrorCode::UnauthorizedUser)
        } else if dsc_to_give == 0 {
            full_exit_outcome(d, u, config, Price { price: new_price, ..price }, user)
        } else {
            repay_outcome(d, u, config, Price { price: new_price, ..price }, engine, user, dsc_to_give)
        },
        (Some(d), None) => if d.user != user {
            Err(ErrorCode::UnauthorizedUser)
        } else if d.token_amt == 0 {
            Err(ErrorCode::NotEnoughTokensInCollateral)
        } else {
            Err(ErrorCode::UnauthorizedUser)
        },
        (None, _) => Err(ErrorCode::UnauthorizedUser),
    }
}

/// Stages a withdrawal by `user` from the records `deposit` and `user_data`
/// (`None` where none exists) at the pushed price `new_price`: with
/// `dsc_to_give` zero, the full exit of a position without debt; otherwise the
/// repayment of `dsc_to_give` debt tokens.
pub fn redeem_collateral(
    deposit: &Option<Deposit>,
    user_data: &Option<UserData>,
    config: &Config,
    price: &Price,
    engine: &Engine,
    user: Key,
    dsc_to_give: u64,
    new_price: u64,
) -> (r: Result<WithdrawPlan, ErrorCode>)
    ensures
        r == withdraw_outcome(
            *deposit,
            *user_data,
            *config,
            *price,
            *engine,
            user,
            dsc_to_give,
            new_price,
        ),
{
    let d = match deposit {
        None => {
            return Err(ErrorCode::UnauthorizedUser);
        },
        Some(d) => *d,
    };
    if d.user != user {
        return Err(ErrorCode::UnauthorizedUser);
    }
    if d.token_amt == 0 {
        return Err(ErrorCode::NotEnoughTokensInCollateral);
    }
    let pushed = Price { price: new_price, ..*price };
    let u = match user_data {
        None => {
            return Err(ErrorCode::UnauthorizedUser);
        },
        Some(u) => *u,
    };
    if u.user != user {
        return Err(ErrorCode::UnauthorizedUser);
    }
    if dsc_to_give == 0 {
        if u.borrowed_amount != 0 {
            return Err(ErrorCode::MustRepayDscFirst);
        }
        let amt = u.token_balance;
        return Ok(
            WithdrawPlan {
                deposit: Deposit { token_amt: 0, ..d },
                user_data: UserData { token_balance: 0, ..u },
                config: *config,
                price: pushed,
                burn: None,
                out_of_vault: amt,
                event: TokenRedeemed { user, token: d.token_mint, amount: amt },
            },
        );
    }
    let dsc = dsc_to_give / DEBT_SCALE;
    if dsc > u.borrowed_amount {
        return Err(ErrorCode::NotEnoughDebt);
    }
    let new_borrowed = u.borrowed_amount - dsc;
    let equiv = convert_dsc_to_collateral(dsc, &pushed)?;
    let fee = calculate_collateral_fee(dsc, &pushed, engine.fee_percent)?;
    if equiv < fee {
        return Err(ErrorCode::MathOverflow);
    }
    let withdrawable = equiv - fee;
    if d.token_amt < equiv || u.token_balance < equiv {
        return Err(ErrorCode::NotEnoughTokensInCollateral);
    }
    let new_collateral = u.token_balance - equiv;
    if new_borrowed > 0 {
        let hf = calculate_health_factor_after_withdrawal(
            new_borrowed,
            &pushed,
            engine,
            new_collateral,
        )?;
        if hf < engine.min_health_factor {
            return Err(ErrorCode::LessHealthFactor);
        }
    }
    let lp_share = ((fee as u128) * (LP_FEE_NUMERATOR as u128) / (LP_FEE_DENOMINATOR as u128)) as u64;
    let total_collected = match config.total_collected.checked_add(lp_share) {
        Some(v) => v,
        None => {
            return Err(ErrorCode::Overflow);
        },
    };
    let protocol_fees = match config.protocol_fees.checked_add(fee - lp_share) {
        Some(v) => v,
        None => {
            return Err(ErrorCode::Overflow);
        },
    };
    Ok(
        WithdrawPlan {
            deposit: Deposit { token_amt: d.token_amt - equiv, ..d },
            user_data: UserData {
                borrowed_amount: new_borrowed,
                token_balance: new_collateral,
                ..u
            },
            config: Config { total_collected, protocol_fees, ..*config },
            price: pushed,
            burn: Some(dsc_to_give),
            out_of_vault: withdrawable,
            event: TokenRedeemed { user, token: d.token_mint, amount: withdrawable },
        },
    )
}

/// The full exit moves exactly the tracked collateral balance out of the
/// vault, burns nothing, and leaves the debt as it was, which is zero: a
/// position with debt cannot exit this way.
pub proof fn lemma_full_exit_pays_balance(
    deposit: Option<Deposit>,
    user_data: Option<UserData>,
    config: Config,
    price: Price,
    engine: Engine,
    user: Key,
    new_price: u64,
)
    ensures
        withdraw_outcome(deposit, user_data, config, price, engine, user, 0, new_price) matches Ok(
            plan,
        ) ==> {
            &&& user_data matches Some(u)
            &&& plan.out_of_vault == u.token_balance
            &&& plan.burn is None
            &&& plan.user_data.borrowed_amount == u.borrowed_amount
            &&& u.borrowed_amount == 0
            &&& plan.user_data.token_balance == 0
            &&& plan.deposit.token_amt == 0
            &&& plan.config == config
        },
        user_data matches Some(u) && u.borrowed_amount != 0 ==> withdraw_outcome(
            deposit,
            user_data,
            config,
            price,
            engine,
            user,
            0,
            new_price,
        ) is Err,
        ({
            &&& deposit matches Some(d)
            &&& d.user == user
            &&& d.token_amt > 0
            &&& user_data matches Some(u)
            &&& u.user == user
            &&& u.borrowed_amount != 0
        }) ==> withdraw_outcome(deposit, user_data, config, price, engine, user, 0, new_price)
            == Err::<WithdrawPlan, ErrorCode>(ErrorCode::MustRepayDscFirst),
{
}

/// A repayment takes from the position exactly what leaves it: the collateral
/// paid out to the user and the fee, which goes to the liquidity providers and
/// the protocol. No collateral is counted twice.
pub proof fn lemma_repay_accounts_for_fee(
    deposit: Option<Deposit>,
    user_data: Option<UserData>,
    config: Config,
    price: Price,
    engine: Engine,
    user: Key,
    dsc_to_give: u64,
    new_price: u64,
)
    requires
        dsc_to_give > 0,
    ensures
        withdraw_outcome(deposit, user_data, config, price, engine, user, dsc_to_give, new_price) matches Ok(
            plan,
        ) ==> {
            let taken_from_pool = (plan.config.total_collected - config.total_collected) + (
            plan.config.protocol_fees - config.protocol_fees);
            &&& deposit matches Some(d)
            &&& user_data matches Some(u)
            &&& d.token_amt - plan.deposit.token_amt == plan.out_of_vault + taken_from_pool
            &&& u.token_balance - plan.user_data.token_balance == plan.out_of_vault + taken_from_pool
            &&& plan.burn == Some(dsc_to_give)
        },
{
}

/// Depositing `amount` into an empty position and then leaving it at once
/// gives back exactly `amount` and leaves every balance at zero.
pub proof fn lemma_deposit_then_exit(
    deposit: Option<Deposit>,
    user_data: Option<UserData>,
    config: Config,
    price: Price,
    engine: Engine,
    user: Key,
    token_mint: Key,
    config_account: Key,
    amount: u64,
    new_price: u64,
)
    requires
        deposit matches Some(d) ==> d.token_amt == 0,
        user_data matches Some(u) ==> u.token_balance == 0 && u.borrowed_amount == 0,
        deposit_outcome(deposit, user_data, user, token_mint, config_account, amount) is Ok,
    ensures
        ({
            let staged = deposit_outcome(
                deposit,
                user_data,
                user,
                token_mint,
                config_account,
                amount,
            )->Ok_0;
            let exit = withdraw_outcome(
                Some(staged.deposit),
                Some(staged.user_data),
                config,
                price,
                engine,
                user,
                0,
                new_price,
            );
            &&& staged.into_vault == amount
            &&& exit matches Ok(plan)
            &&& plan.out_of_vault == amount
            &&& plan.deposit.token_amt == 0
            &&& plan.user_data.token_balance == 0
            &&& plan.user_data.borrowed_amount == 0
        }),
{
}

/// The collateral on record and the balance that the health factor is
/// computed from move together: an operation that goes through on a position
/// where they agree leaves them agreeing.
pub proof fn lemma_balances_move_together(
    d: Deposit,
    u: UserData,
    config: Config,
    price: Price,
    engine: Engine,
    user: Key,
    other: Key,
    token_mint: Key,
    config_account: Key,
    amount: u64,
    new_price: u64,
)
    requires
        d.token_amt == u.token_balance,
    ensures
        deposit_outcome(Some(d), Some(u), user, token_mint, config_account, amount) matches Ok(plan)
            ==> plan.deposit.token_amt == plan.user_data.token_balance,
        withdraw_outcome(Some(d), Some(u), config, price, engine, user, amount, new_price) matches Ok(
            plan,
        ) ==> plan.deposit.token_amt == plan.user_data.token_balance,
        liquidation_outcome(d, u, price, engine, other, token_mint, amount, new_price) matches Ok(
            plan,
        ) ==> plan.deposit.token_amt == plan.user_data.token_balance,
{
}

} // verus!
