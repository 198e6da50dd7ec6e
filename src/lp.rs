//! The liquidity pool: providers supply collateral tokens and, on redemption,
//! take their contribution back with their share of the fees collected so far.
use vstd::prelude::*;

use crate::errors::ErrorCode;
use crate::key::Key;
use crate::structs::{Config, LiquidityProvided, LiquidityRedeemed, Lookup, LpData, LqDeposit};

verus! {

/// Fixed-point scale of a provider's share of the pool.
pub const RATIO_SCALE: u128 = 1_000_000_000;

/// A supply ready to be committed once `into_vault` tokens have moved from the
/// provider's holding into the vault.
#[derive(Clone, Copy, Debug)]
pub struct SupplyPlan {
    pub lq_deposit: LqDeposit,
    pub lp_data: LpData,
    pub config: Config,
    pub into_vault: u64,
    pub event: LiquidityProvided,
}

/// A redemption ready to be committed once `out_of_vault` tokens have moved to
/// the provider; the provider's deposit-tracking record is then closed.
#[derive(Clone, Copy, Debug)]
pub struct RedeemPlan {
    pub lp_data: LpData,
    pub config: Config,
    pub out_of_vault: u64,
    pub event: LiquidityRedeemed,
}

/// The deposit-tracking record that a supply by `user` works on.
pub open spec fn lq_deposit_lookup(
    slot: Option<LqDeposit>,
    user: Key,
    token_mint: Key,
    config_account: Key,
) -> Lookup<LqDeposit> {
    match slot {
        None => Lookup::Created(LqDeposit { user, token_mint, token_amt: 0, config_account }),
        Some(d) => if d.user == user {
            Lookup::Existing(d)
        } else {
            Lookup::Foreign
        },
    }
}

/// The contribution record that a supply by `user` works on.
pub open spec fn lp_data_lookup(slot: Option<LpData>, user: Key, token_mint: Key) -> Lookup<LpData> {
    match slot {
        None => Lookup::Created(LpData { user, token_amt: 0, token: token_mint }),
        Some(l) => if l.user == user {
            Lookup::Existing(l)
        } else {
            Lookup::Foreign
        },
    }
}

/// What supplying `amount` does: the provider's records and the pool's
/// liquidity all grow by `amount`, which moves into the vault.
pub open spec fn supply_outcome(
    lq_deposit: Option<LqDeposit>,
    lp_data: Option<LpData>,
    config: Config,
    user: Key,
    token_mint: Key,
    config_account: Key,
    amount: u64,
) -> Result<SupplyPlan, ErrorCode> {
    let d = lq_deposit_lookup(lq_deposit, user, token_mint, config_account);
    let l = lp_data_lookup(lp_data, user, token_mint);
    if d is Foreign || l is Foreign {
        Err(ErrorCode::UnauthorizedUser)
    } else if amount == 0 {
        Err(ErrorCode::AmountLessThanZero)
    } else if d.record().token_amt + amount > u64::MAX || l.record().token_amt + amount > u64::MAX
        || config.total_liq + amount > u64::MAX {
        Err(ErrorCode::Overflow)
    } else {
        Ok(
            SupplyPlan {
                lq_deposit: LqDeposit { token_amt: (d.record().token_amt + amount) as u64, ..d.record() },
                lp_data: LpData { token_amt: (l.record().token_amt + amount) as u64, ..l.record() },
                config: Config { total_liq: (config.total_liq + amount) as u64, ..config },
                into_vault: amount,
                event: LiquidityProvided { user, token: token_mint, amount },
            },
        )
    }
}

/// A provider's share of the pool, scaled by 1e9.
pub open spec fn lp_ratio(amount: int, total_liq: int) -> int {
    amount * 1_000_000_000 / total_liq
}

/// A provider's share of the collected fees.
pub open spec fn lp_interest(amount: int, total_liq: int, collected: int) -> int {
    collected * lp_ratio(amount, total_liq) / 1_000_000_000
}

/// What redeeming does: the provider gets the contribution and its share of
/// the collected fees, both of which leave the pool's totals.
pub open spec fn redeem_outcome(
    lq_deposit: Option<LqDeposit>,
    lp_data: Option<LpData>,
    config: Config,
    user: Key,
    token_mint: Key,
) -> Result<RedeemPlan, ErrorCode> {
    match (lq_deposit, lp_data) {
        (None, _) => Err(ErrorCode::UnauthorizedUser),
        (Some(d), None) => if d.user != user {
            Err(ErrorCode::UnauthorizedUser)
        } else if d.token_amt == 0 {
            Err(ErrorCode::NotEnoughTokensInCollateral)
        } else {
            Err(ErrorCode::UnauthorizedUser)
        },
        (Some(d), Some(l)) => {
            let interest = lp_interest(
                l.token_amt as int,
                config.total_liq as int,
                config.total_collected as int,
            );
            if d.user != user {
                Err(ErrorCode::UnauthorizedUser)
            } else if d.token_amt == 0 {
                Err(ErrorCode::NotEnoughTokensInCollateral)
            } else if l.user != user {
                Err(ErrorCode::UnauthorizedUser)
            } else if config.total_liq == 0 {
                Err(ErrorCode::ZeroTotalLiquidity)
            } else if l.token_amt > config.total_liq {
                Err(ErrorCode::MathOverflow)
            } else if l.token_amt + interest > u64::MAX {
                Err(ErrorCode::Overflow)
            } else {
                Ok(
                    RedeemPlan {
                        lp_data: LpData { token_amt: 0, ..l },
                        config: Config {
                            total_liq: (config.total_liq - l.token_amt) as u64,
                            total_collected: (config.total_collected - interest) as u64,
                            ..config
                        },
                        out_of_vault: (l.token_amt + interest) as u64,
                        event: LiquidityRedeemed { user, token: token_mint, interest: interest as u64 },
                    },
                )
            }
        },
    }
}

proof fn lemma_interest_bounded(amount: int, total_liq: int, collected: int)
    requires
        0 <= amount <= total_liq,
        total_liq > 0,
        0 <= collected,
    ensures
        0 <= lp_ratio(amount, total_liq) <= 1_000_000_000,
        0 <= lp_interest(amount, total_liq, collected) <= collected,
{
    let ratio = lp_ratio(amount, total_liq);
    assert(0 <= ratio <= 1_000_000_000) by (nonlinear_arith)
        requires
            0 <= amount <= total_liq,
            total_liq > 0,
            ratio == amount * 1_000_000_000 / total_liq,
    {
        assert(amount * 1_000_000_000 <= total_liq * 1_000_000_000);
        vstd::arithmetic::div_mod::lemma_div_is_ordered(
            amount * 1_000_000_000,
            total_liq * 1_000_000_000,
            total_liq,
        );
        vstd::arithmetic::div_mod::lemma_div_by_multiple(1_000_000_000, total_liq);
    }
    assert(0 <= collected * ratio / 1_000_000_000 <= collected) by (nonlinear_arith)
        requires
            0 <= ratio <= 1_000_000_000,
            0 <= collected,
    ;
}

/// A deposit-tracking record freshly stamped with its owner.
pub fn save_liq_deposit(user: Key, token_mint: Key, config_account: Key, token_amt: u64) -> (r:
    LqDeposit)
    ensures
        r == (LqDeposit { user, token_mint, token_amt, config_account }),
{
    LqDeposit { user, token_mint, token_amt, config_account }
}

/// Finds the provider's deposit-tracking record, or creates it empty.
pub fn find_or_create_lq_deposit(
    slot: &Option<LqDeposit>,
    user: Key,
    token_mint: Key,
    config_account: Key,
) -> (r: Lookup<LqDeposit>)
    ensures
        r == lq_deposit_lookup(*slot, user, token_mint, config_account),
{
    match slot {
        None => Lookup::Created(save_liq_deposit(user, token_mint, config_account, 0)),
        Some(d) => if d.user == user {
            Lookup::Existing(*d)
        } else {
            Lookup::Foreign
        },
    }
}

/// Finds the provider's contribution record, or creates it empty.
pub fn find_or_create_lp_data(slot: &Option<LpData>, user: Key, token_mint: Key) -> (r: Lookup<
    LpData,
>)
    ensures
        r == lp_data_lookup(*slot, user, token_mint),
{
    match slot {
        None => Lookup::Created(LpData { user, token_amt: 0, token: token_mint }),
        Some(l) => if l.user == user {
            Lookup::Existing(*l)
        } else {
            Lookup::Foreign
        },
    }
}

/// Stages the supply of `amount` tokens by `user` to the pool `config`.
/// `lq_deposit` and `lp_data` are the provider's records, `None` where none
/// exists yet; `config_account` identifies the pool.
pub fn give_liquidity(
    lq_deposit: &Option<LqDeposit>,
    lp_data: &Option<LpData>,
    config: &Config,
    user: Key,
    token_mint: Key,
    config_account: Key,
    amount: u64,
) -> (r: Result<SupplyPlan, ErrorCode>)
    ensures
        r == supply_outcome(*lq_deposit, *lp_data, *config, user, token_mint, config_account, amount),
{
    let d = match find_or_create_lq_deposit(lq_deposit, user, token_mint, config_account) {
        Lookup::Existing(d) => d,
        Lookup::Created(d) => d,
        Lookup::Foreign => {
            return Err(ErrorCode::UnauthorizedUser);
        },
    };
    let l = match find_or_create_lp_data(lp_data, user, token_mint) {
        Lookup::Existing(l) => l,
        Lookup::Created(l) => l,
        Lookup::Foreign => {
            return Err(ErrorCode::UnauthorizedUser);
        },
    };
    if amount == 0 {
        return Err(ErrorCode::AmountLessThanZero);
    }
    let (deposited, contributed, total_liq) = match (
        d.token_amt.checked_add(amount),
        l.token_amt.checked_add(amount),
        config.total_liq.checked_add(amount),
    ) {
        (Some(a), Some(b), Some(c)) => (a, b, c),
        _ => {
            return Err(ErrorCode::Overflow);
        },
    };
    Ok(
        SupplyPlan {
            lq_deposit: LqDeposit { token_amt: deposited, ..d },
            lp_data: LpData { token_amt: contributed, ..l },
            config: Config { total_liq, ..*config },
            into_vault: amount,
            event: LiquidityProvided { user, token: token_mint, amount },
        },
    )
}

/// Stages the redemption by `user` of their whole contribution to the pool
/// `config`, with their share of the fees collected so far.
pub fn redeem_liquidity(
    lq_deposit: &Option<LqDeposit>,
    lp_data: &Option<LpData>,
    config: &Config,
    user: Key,
    token_mint: Key,
) -> (r: Result<RedeemPlan, ErrorCode>)
    ensures
        r == redeem_outcome(*lq_deposit, *lp_data, *config, user, token_mint),
{
    let d = match lq_deposit {
        None => {
            return Err(ErrorCode::UnauthorizedUser);
        },
        Some(d) => *d,
    };
    if d.user != user {
        return Err(ErrorCode::UnauthorizedUser);
    }
    if d.token_amt == 0 {
        return Err(ErrorCode::NotEnoughTokensInCollateral);
    }
    let l = match lp_data {
        None => {
            return Err(ErrorCode::UnauthorizedUser);
        },
        Some(l) => *l,
    };
    if l.user != user {
        return Err(ErrorCode::UnauthorizedUser);
    }
    if config.total_liq == 0 {
        return Err(ErrorCode::ZeroTotalLiquidity);
    }
    let amt = l.token_amt;
    if amt > config.total_liq {
        return Err(ErrorCode::MathOverflow);
    }
    proof {
        lemma_interest_bounded(amt as int, config.total_liq as int, config.total_collected as int);
    }
    let ratio = (amt as u128) * RATIO_SCALE / (config.total_liq as u128);
    let interest = ((config.total_collected as u128) * ratio / RATIO_SCALE) as u64;
    let total = match amt.checked_add(interest) {
        Some(v) => v,
        None => {
            return Err(ErrorCode::Overflow);
        },
    };
    Ok(
        RedeemPlan {
            lp_data: LpData { token_amt: 0, ..l },
            config: Config {
                total_liq: config.total_liq - amt,
                total_collected: config.total_collected - interest,
                ..*config
            },
            out_of_vault: total,
            event: LiquidityRedeemed { user, token: token_mint, interest },
        },
    )
}

/// With no fees collected, a redemption pays back exactly the contribution.
pub proof fn lemma_redeem_without_fees_returns_principal(
    lq_deposit: Option<LqDeposit>,
    lp_data: Option<LpData>,
    config: Config,
    user: Key,
    token_mint: Key,
)
    requires
        config.total_collected == 0,
    ensures
        redeem_outcome(lq_deposit, lp_data, config, user, token_mint) matches Ok(plan) ==> {
            &&& lp_data matches Some(l)
            &&& plan.event.interest == 0
            &&& plan.out_of_vault == l.token_amt
            &&& plan.config.total_collected == 0
        },
{
    if let Some(l) = lp_data {
        if config.total_liq > 0 && l.token_amt <= config.total_liq {
            lemma_interest_bounded(l.token_amt as int, config.total_liq as int, 0);
        }
    }
}

/// A provider who owns both records, has a contribution on record and is
/// covered by the pool's liquidity can always redeem; with no fees collected
/// they get back exactly their contribution.
pub proof fn lemma_redeem_goes_through(
    lq_deposit: LqDeposit,
    lp_data: LpData,
    config: Config,
    user: Key,
    token_mint: Key,
)
    requires
        lq_deposit.user == user,
        lq_deposit.token_amt > 0,
        lp_data.user == user,
        lp_data.token_amt > 0,
        config.total_liq >= lp_data.token_amt,
        lp_data.token_amt + config.total_collected <= u64::MAX,
    ensures
        redeem_outcome(Some(lq_deposit), Some(lp_data), config, user, token_mint) is Ok,
        config.total_collected == 0 ==> ({
            let plan = redeem_outcome(Some(lq_deposit), Some(lp_data), config, user, token_mint)->Ok_0;
            &&& plan.event.interest == 0
            &&& plan.out_of_vault == lp_data.token_amt
        }),
{
    lemma_interest_bounded(
        lp_data.token_amt as int,
        config.total_liq as int,
        config.total_collected as int,
    );
}

/// Two providers who supply the same amount `a` to an empty pool that then
/// collects `fees` are each paid `a` and half of the fees, the first rounded
/// down and the second taking the rest; once both have redeemed, the pool holds
/// neither liquidity nor fees.
pub proof fn lemma_equal_providers_share_fees(
    pool: Config,
    first: Key,
    second: Key,
    token_mint: Key,
    config_account: Key,
    a: u64,
    fees: u64,
)
    requires
        pool.total_liq == 0,
        a > 0,
        2 * a <= u64::MAX,
        a + fees <= u64::MAX,
    ensures
        ({
            let s1 = supply_outcome(None, None, pool, first, token_mint, config_account, a);
            let s2 = supply_outcome(
                None,
                None,
                s1->Ok_0.config,
                second,
                token_mint,
                config_account,
                a,
            );
            let collected = Config { total_collected: fees, ..s2->Ok_0.config };
            let r1 = redeem_outcome(
                Some(s1->Ok_0.lq_deposit),
                Some(s1->Ok_0.lp_data),
                collected,
                first,
                token_mint,
            );
            let r2 = redeem_outcome(
                Some(s2->Ok_0.lq_deposit),
                Some(s2->Ok_0.lp_data),
                r1->Ok_0.config,
                second,
                token_mint,
            );
            &&& s1 is Ok
            &&& s2 is Ok
            &&& r1 is Ok
            &&& r2 is Ok
            &&& r1->Ok_0.out_of_vault == a + fees / 2
            &&& r2->Ok_0.out_of_vault == a + (fees - fees / 2)
            &&& r2->Ok_0.config.total_liq == 0
            &&& r2->Ok_0.config.total_collected == 0
        }),
{
    let total = 2 * a;
    assert(lp_ratio(a as int, total) == 500_000_000) by (nonlinear_arith)
        requires
            a > 0,
            total == 2 * a,
    {
        vstd::arithmetic::div_mod::lemma_div_by_multiple(500_000_000, total);
        assert(a * 1_000_000_000 == 500_000_000 * total);
    }
    assert(lp_interest(a as int, total, fees as int) == fees / 2) by (nonlinear_arith)
        requires
            lp_ratio(a as int, total) == 500_000_000,
    ;
    let rest = fees - fees / 2;
    assert(lp_ratio(a as int, a as int) == 1_000_000_000) by (nonlinear_arith)
        requires
            a > 0,
    {
        vstd::arithmetic::div_mod::lemma_div_by_multiple(1_000_000_000, a as int);
    }
    assert(lp_interest(a as int, a as int, rest) == rest) by (nonlinear_arith)
        requires
            lp_ratio(a as int, a as int) == 1_000_000_000,
            rest >= 0,
    ;
}

} // verus!
