use dsc_lending::deposit::{deposit_token, find_or_create_deposit, save_deposit, DepositPlan};
use dsc_lending::engine::{initialize_engine, liquidate, mint_dsc};
use dsc_lending::new_token::initialize_token;
use dsc_lending::pricefeeds::{
    calculate_health_factor_after_withdrawal, calculate_health_factor_with_debt,
};
use dsc_lending::withdraw::redeem_collateral;
use dsc_lending::{Config, Deposit, Engine, ErrorCode, Key, Lookup, Price, UserData};

fn key(n: u8) -> Key {
    Key::new([n; 32])
}

const USER: u8 = 10;
const OTHER: u8 = 11;
const MINT: u8 = 3;
const CONFIG: u8 = 4;

fn engine() -> Engine {
    initialize_engine(key(1), key(2), 80, 2, 10, 1_000_000).unwrap()
}

fn pool() -> Config {
    initialize_token(key(MINT), key(5), key(1), 10_000).0
}

fn price(p: u64) -> Price {
    Price { token_mint: key(MINT), price: p }
}

fn fresh_deposit(amount: u64) -> DepositPlan {
    deposit_token(&None, &None, key(USER), key(MINT), key(CONFIG), amount).unwrap()
}

/// A position with `collateral` on deposit and `debt` recorded debt.
fn position(collateral: u64, debt: u64) -> (Deposit, UserData) {
    (
        Deposit { user: key(USER), token_mint: key(MINT), token_amt: collateral, config_account: key(CONFIG) },
        UserData {
            user: key(USER),
            borrowed_amount: debt,
            primary_token: key(MINT),
            hf: u64::MAX,
            token_balance: collateral,
        },
    )
}

#[test]
fn engine_refuses_threshold_over_one_hundred() {
    assert!(initialize_engine(key(1), key(2), 101, 2, 10, 0).is_err());
    let e = initialize_engine(key(1), key(2), 100, 2, 10, 0).unwrap();
    assert_eq!(e.liquidation_threshold, 100);
    assert_eq!(
        initialize_engine(key(1), key(2), 101, 2, 10, 0).err(),
        Some(ErrorCode::InvalidThreshold)
    );
}

#[test]
fn token_registration_starts_empty() {
    let (config, p) = initialize_token(key(MINT), key(5), key(1), 12_345);
    assert_eq!(config.total_liq, 0);
    assert_eq!(config.total_collected, 0);
    assert_eq!(config.protocol_fees, 0);
    assert!(config.vault == key(5));
    assert_eq!(p.price, 12_345);
    assert!(p.token_mint == key(MINT));
}

#[test]
fn first_deposit_creates_both_records() {
    let plan = fresh_deposit(1000);
    assert_eq!(plan.deposit.token_amt, 1000);
    assert!(plan.deposit.user == key(USER));
    assert!(plan.deposit.config_account == key(CONFIG));
    assert_eq!(plan.user_data.token_balance, 1000);
    assert_eq!(plan.user_data.borrowed_amount, 0);
    assert_eq!(plan.user_data.hf, u64::MAX);
    assert_eq!(plan.into_vault, 1000);
    assert_eq!(plan.event.amount, 1000);
}

#[test]
fn deposits_add_up() {
    let first = fresh_deposit(1000);
    let second = deposit_token(
        &Some(first.deposit),
        &Some(first.user_data),
        key(USER),
        key(MINT),
        key(CONFIG),
        234,
    )
    .unwrap();
    assert_eq!(second.deposit.token_amt, 1234);
    assert_eq!(second.user_data.token_balance, 1234);
    assert_eq!(second.into_vault, 234);
}

#[test]
fn deposit_errors() {
    let first = fresh_deposit(1000);
    assert_eq!(
        deposit_token(&Some(first.deposit), &None, key(OTHER), key(MINT), key(CONFIG), 5).err(),
        Some(ErrorCode::UnauthorizedUser)
    );
    assert_eq!(
        deposit_token(&None, &Some(first.user_data), key(OTHER), key(MINT), key(CONFIG), 5).err(),
        Some(ErrorCode::UnauthorizedUser)
    );
    assert_eq!(
        deposit_token(&None, &None, key(USER), key(MINT), key(CONFIG), 0).err(),
        Some(ErrorCode::AmountLessThanZero)
    );
    let (d, u) = position(u64::MAX - 1, 0);
    assert_eq!(
        deposit_token(&Some(d), &Some(u), key(USER), key(MINT), key(CONFIG), 2).err(),
        Some(ErrorCode::Overflow)
    );
    assert_eq!(
        deposit_token(&Some(d), &Some(u), key(USER), key(MINT), key(CONFIG), 1)
            .map(|p| p.deposit.token_amt),
        Ok(u64::MAX)
    );
}

#[test]
fn lookup_tags_records() {
    let d = save_deposit(key(USER), key(MINT), key(CONFIG), 7);
    assert!(matches!(find_or_create_deposit(&Some(d), key(USER), key(MINT), key(CONFIG)), Lookup::Existing(r) if r.token_amt == 7));
    assert!(matches!(find_or_create_deposit(&Some(d), key(OTHER), key(MINT), key(CONFIG)), Lookup::Foreign));
    assert!(matches!(find_or_create_deposit(&None, key(OTHER), key(MINT), key(CONFIG)), Lookup::Created(r) if r.token_amt == 0 && r.user == key(OTHER)));
}

#[test]
fn borrow_within_health() {
    let (_, u) = position(1_000_000, 0);
    // 100_000_000 tokens are 100_000 units of debt; 1e6 * 1e4 * 80 / 100 / 1e4 = 800_000
    let plan = mint_dsc(&Some(u), &price(1), &engine(), key(USER), 100_000_000, 10_000).unwrap();
    assert_eq!(plan.user_data.borrowed_amount, 100_000);
    assert_eq!(plan.mint, 100_000_000);
    assert_eq!(plan.price.price, 10_000);
    assert_eq!(
        calculate_health_factor_with_debt(1_000_000, &plan.price, &engine(), 100_000),
        Ok(8)
    );
}

#[test]
fn borrow_below_minimum_health_is_rejected() {
    let (_, u) = position(1000, 0);
    // 400 units: health factor 800 / 400 = 2, the minimum
    let ok = mint_dsc(&Some(u), &price(1), &engine(), key(USER), 400_000, 10_000).unwrap();
    assert_eq!(ok.user_data.borrowed_amount, 400);
    // 500 units: health factor 1, below the minimum
    let before = u;
    assert_eq!(
        mint_dsc(&Some(u), &price(1), &engine(), key(USER), 500_000, 10_000).err(),
        Some(ErrorCode::LessHealthFactor)
    );
    assert_eq!(u.borrowed_amount, before.borrowed_amount);
    // 900 units: over the threshold value
    assert_eq!(
        mint_dsc(&Some(u), &price(1), &engine(), key(USER), 900_000, 10_000).err(),
        Some(ErrorCode::OverCollateralLimit)
    );
}

#[test]
fn borrow_errors() {
    let (_, u) = position(1000, 0);
    assert_eq!(
        mint_dsc(&Some(u), &price(1), &engine(), key(USER), 0, 10_000).err(),
        Some(ErrorCode::AmountLessThanZero)
    );
    assert_eq!(
        mint_dsc(&None, &price(1), &engine(), key(USER), 1000, 10_000).err(),
        Some(ErrorCode::UnauthorizedUser)
    );
    assert_eq!(
        mint_dsc(&Some(u), &price(1), &engine(), key(OTHER), 1000, 10_000).err(),
        Some(ErrorCode::UnauthorizedUser)
    );
    let (_, full) = position(1000, u64::MAX);
    assert_eq!(
        mint_dsc(&Some(full), &price(1), &engine(), key(USER), 1000, 10_000).err(),
        Some(ErrorCode::Overflow)
    );
}

#[test]
fn deposit_then_full_exit_round_trip() {
    let dep = fresh_deposit(1000);
    let exit = redeem_collateral(
        &Some(dep.deposit),
        &Some(dep.user_data),
        &pool(),
        &price(1),
        &engine(),
        key(USER),
        0,
        10_000,
    )
    .unwrap();
    assert_eq!(exit.out_of_vault, 1000);
    assert_eq!(exit.burn, None);
    assert_eq!(exit.deposit.token_amt, 0);
    assert_eq!(exit.user_data.token_balance, 0);
    assert_eq!(exit.user_data.borrowed_amount, 0);
    assert_eq!(exit.event.amount, 1000);
}

#[test]
fn full_exit_needs_debt_repaid() {
    let (d, u) = position(1000, 5);
    assert_eq!(
        redeem_collateral(&Some(d), &Some(u), &pool(), &price(1), &engine(), key(USER), 0, 10_000)
            .err(),
        Some(ErrorCode::MustRepayDscFirst)
    );
    assert_eq!(u.borrowed_amount, 5);
}

#[test]
fn repay_frees_collateral_less_fee() {
    let (d, u) = position(1_000_000, 100_000);
    let plan = redeem_collateral(
        &Some(d),
        &Some(u),
        &pool(),
        &price(1),
        &engine(),
        key(USER),
        50_000_000,
        10_000,
    )
    .unwrap();
    // 50_000 units of debt are worth 50_000 collateral, all of which leaves the
    // position; the fee is 500 of it and the user gets the other 49_500
    assert_eq!(plan.burn, Some(50_000_000));
    assert_eq!(plan.out_of_vault, 49_500);
    assert_eq!(plan.user_data.borrowed_amount, 50_000);
    assert_eq!(plan.user_data.token_balance, 950_000);
    assert_eq!(plan.deposit.token_amt, 950_000);
    assert_eq!(plan.config.total_collected, 375);
    assert_eq!(plan.config.protocol_fees, 125);
    assert_eq!(plan.price.price, 10_000);
}

#[test]
fn repay_errors() {
    let (d, u) = position(1_000_000, 100_000);
    let run = |d: &Option<Deposit>, u: &Option<UserData>, user: u8, give: u64, p: u64| {
        redeem_collateral(d, u, &pool(), &price(1), &engine(), key(user), give, p).err()
    };
    assert_eq!(run(&None, &Some(u), USER, 1000, 10_000), Some(ErrorCode::UnauthorizedUser));
    assert_eq!(run(&Some(d), &None, USER, 1000, 10_000), Some(ErrorCode::UnauthorizedUser));
    assert_eq!(run(&Some(d), &Some(u), OTHER, 1000, 10_000), Some(ErrorCode::UnauthorizedUser));
    let (empty, eu) = position(0, 0);
    assert_eq!(run(&Some(empty), &Some(eu), USER, 0, 10_000), Some(ErrorCode::NotEnoughTokensInCollateral));
    assert_eq!(run(&Some(d), &Some(u), USER, 200_000_000, 10_000), Some(ErrorCode::NotEnoughDebt));
    assert_eq!(run(&Some(d), &Some(u), USER, 50_000_000, 0), Some(ErrorCode::InvalidPrice));
    // at a price of 0.05 the repaid debt is worth more collateral than is left safe
    assert_eq!(run(&Some(d), &Some(u), USER, 50_000_000, 500), Some(ErrorCode::LessHealthFactor));
    // at a price of 0.01 it is worth more collateral than is on deposit
    assert_eq!(run(&Some(d), &Some(u), USER, 50_000_000, 100), Some(ErrorCode::NotEnoughTokensInCollateral));
}

#[test]
fn repay_fee_above_whole_is_refused() {
    let (d, u) = position(1_000_000, 100_000);
    let greedy = initialize_engine(key(1), key(2), 80, 2, 10, 200_000_000).unwrap();
    assert_eq!(
        redeem_collateral(&Some(d), &Some(u), &pool(), &price(1), &greedy, key(USER), 50_000_000, 10_000)
            .err(),
        Some(ErrorCode::MathOverflow)
    );
}

#[test]
fn liquidation_of_an_unsafe_position() {
    let (d, u) = position(1_000_000, 100_000);
    // at a price of 0.2 the health factor is 1; covering 10_000 units leaves 160_000 / 90_000 = 1
    let plan = liquidate(&d, &u, &price(10_000), &engine(), key(OTHER), key(MINT), 10_000_000, 2000)
        .unwrap();
    // 10_000 units are worth 50_000 collateral, plus a bonus of 5_000
    assert_eq!(plan.out_of_vault, 55_000);
    assert_eq!(plan.burn, 10_000_000);
    assert_eq!(plan.deposit.token_amt, 945_000);
    assert_eq!(plan.user_data.token_balance, 945_000);
    assert_eq!(plan.user_data.borrowed_amount, 90_000);
    assert_eq!(plan.price.price, 2000);
    assert!(plan.event.liquidator == key(OTHER));
    assert!(plan.event.user == key(USER));
    assert_eq!(plan.event.amount, 55_000);
}

#[test]
fn liquidation_errors() {
    let (d, u) = position(1_000_000, 100_000);
    let e = engine();
    let run = |liq: u8, cover: u64, p: u64| liquidate(&d, &u, &price(1), &e, key(liq), key(MINT), cover, p).err();
    assert_eq!(run(OTHER, 0, 2000), Some(ErrorCode::AmountLessThanZero));
    assert_eq!(run(USER, 10_000_000, 2000), Some(ErrorCode::CannotLiquidateSelf));
    assert_eq!(run(OTHER, 200_000_000, 2000), Some(ErrorCode::TooMuchRepay));
    // a healthy position
    assert_eq!(run(OTHER, 10_000_000, 10_000), Some(ErrorCode::NoNeedToLiquidate));
    // covering the whole debt leaves no debt, hence nothing to liquidate
    assert_eq!(run(OTHER, 100_000_000, 2000), Some(ErrorCode::NoNeedToLiquidate));
    // a position beyond the threshold value is refused by the health factor
    assert_eq!(run(OTHER, 10_000_000, 1000), Some(ErrorCode::OverCollateralLimit));
}

#[test]
fn liquidation_never_takes_more_than_deposited() {
    let (d, u) = position(1_000_000, 100_000);
    let generous = initialize_engine(key(1), key(2), 80, 100, 1000, 0).unwrap();
    // 50_000 units are worth 250_000 collateral, and ten times that again as bonus
    assert_eq!(
        liquidate(&d, &u, &price(1), &generous, key(OTHER), key(MINT), 50_000_000, 2000).err(),
        Some(ErrorCode::NotEnoughTokensInCollateral)
    );
}

#[test]
fn operations_agree_on_health_factor() {
    // 1e6 collateral at a price of 0.2 against 100_000 units of debt
    let (d, u) = position(1_000_000, 100_000);
    let e = engine();
    let p = price(2000);
    assert_eq!(calculate_health_factor_with_debt(1_000_000, &p, &e, 100_000), Ok(1));
    assert_eq!(calculate_health_factor_after_withdrawal(100_000, &p, &e, 1_000_000), Ok(1));
    // borrowing less than one unit leaves the debt, and the health factor, as it is: 1 < 2
    assert_eq!(
        mint_dsc(&Some(u), &p, &e, key(USER), 999, 2000).err(),
        Some(ErrorCode::LessHealthFactor)
    );
    // liquidating less than one unit sees the same health factor, below the minimum
    let plan = liquidate(&d, &u, &p, &e, key(OTHER), key(MINT), 999, 2000).unwrap();
    assert_eq!(plan.user_data.borrowed_amount, 100_000);
    assert_eq!(plan.out_of_vault, 0);
}

#[test]
fn liquidation_sweep_only_accepts_unsafe_positions() {
    let e = engine();
    let (d, u) = position(1_000_000, 100_000);
    let mut accepted = 0;
    for new_price in [500u64, 1000, 1250, 1500, 2000, 2500, 3000, 5000, 10_000, 20_000] {
        for cover in [1u64, 999, 1000, 5_000_000, 10_000_000, 50_000_000, 99_999_999, 100_000_000, 100_000_999] {
            let p = price(new_price);
            let remaining = u.borrowed_amount.saturating_sub(cover / 1000);
            let hf = calculate_health_factor_with_debt(u.token_balance, &p, &e, remaining);
            let r = liquidate(&d, &u, &price(1), &e, key(OTHER), key(MINT), cover, new_price);
            if let Ok(plan) = r {
                accepted += 1;
                let hf = hf.unwrap();
                assert!(hf < e.min_health_factor);
                assert_eq!(plan.user_data.borrowed_amount, remaining);
                assert!(plan.out_of_vault <= d.token_amt);
            }
            if cover / 1000 == u.borrowed_amount {
                assert_eq!(
                    liquidate(&d, &u, &price(1), &e, key(OTHER), key(MINT), cover, new_price).err(),
                    Some(ErrorCode::NoNeedToLiquidate)
                );
            }
            if let Ok(h) = hf {
                if h >= e.min_health_factor && cover > 0 && cover / 1000 <= u.borrowed_amount {
                    assert_eq!(
                        liquidate(&d, &u, &price(1), &e, key(OTHER), key(MINT), cover, new_price).err(),
                        Some(ErrorCode::NoNeedToLiquidate)
                    );
                }
            }
        }
    }
    assert!(accepted > 0);
}

#[test]
fn repayment_fee_is_not_counted_twice() {
    let (d, u) = position(1_000_000, 100_000);
    let repaid = redeem_collateral(
        &Some(d),
        &Some(u),
        &pool(),
        &price(1),
        &engine(),
        key(USER),
        100_000_000,
        10_000,
    )
    .unwrap();
    // the whole debt of 100_000 units is worth 100_000 collateral; the fee is 1_000
    assert_eq!(repaid.user_data.borrowed_amount, 0);
    assert_eq!(repaid.out_of_vault, 99_000);
    assert_eq!(repaid.config.total_collected, 750);
    assert_eq!(repaid.config.protocol_fees, 250);
    assert_eq!(repaid.user_data.token_balance, 900_000);
    let exit = redeem_collateral(
        &Some(repaid.deposit),
        &Some(repaid.user_data),
        &repaid.config,
        &repaid.price,
        &engine(),
        key(USER),
        0,
        10_000,
    )
    .unwrap();
    assert_eq!(exit.out_of_vault, 900_000);
    // everything that was deposited is accounted for exactly once
    assert_eq!(
        repaid.out_of_vault + exit.out_of_vault + repaid.config.total_collected + repaid.config.protocol_fees,
        1_000_000
    );
}
