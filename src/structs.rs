use vstd::prelude::*;

use crate::key::Key;

verus! {

/// Protocol-wide risk parameters, set once when the engine starts.
#[derive(Clone, Copy, Debug)]
pub struct Engine {
    pub authority: Key,
    /// The mint of the debt token.
    pub dsc_mint: Key,
    /// Share of the collateral value that may back debt, in percent.
    pub liquidation_threshold: u64,
    /// Lowest health factor a borrower may be left with.
    pub min_health_factor: u64,
    /// Extra collateral a liquidator receives, in percent of what they cover.
    pub liquidation_bonus: u64,
    /// Fee on repaid debt, in units of 1e-8.
    pub fee_percent: u64,
}

impl Engine {
    pub open spec fn wf(self) -> bool {
        self.liquidation_threshold <= 100
    }
}

/// Aggregate state of the pool of one collateral asset.
#[derive(Clone, Copy, Debug)]
pub struct Config {
    pub token_mint: Key,
    /// Liquidity supplied by liquidity providers and not yet redeemed.
    pub total_liq: u64,
    /// Fees collected for liquidity providers and not yet paid out.
    pub total_collected: u64,
    /// The part of the fees that the protocol keeps.
    pub protocol_fees: u64,
    pub vault: Key,
    pub authority: Key,
}

/// The last price pushed for one collateral asset, scaled by 1e4.
#[derive(Clone, Copy, Debug)]
pub struct Price {
    pub token_mint: Key,
    pub price: u64,
}

/// Collateral that one user keeps on deposit in one asset.
#[derive(Clone, Copy, Debug)]
pub struct Deposit {
    pub user: Key,
    pub token_mint: Key,
    pub token_amt: u64,
    pub config_account: Key,
}

/// The borrowing position of one user against one collateral asset.
#[derive(Clone, Copy, Debug)]
pub struct UserData {
    pub user: Key,
    /// Debt owed, in the internal unit (debt tokens divided by 1000).
    pub borrowed_amount: u64,
    pub primary_token: Key,
    /// The health factor last computed for this position.
    pub hf: u64,
    /// The collateral balance that the health factor is computed from; it
    /// moves together with the deposit record's amount.
    pub token_balance: u64,
}

/// The deposit-tracking record of a liquidity provider, closed on redemption.
#[derive(Clone, Copy, Debug)]
pub struct LqDeposit {
    pub user: Key,
    pub token_mint: Key,
    pub token_amt: u64,
    pub config_account: Key,
}

/// The contribution of one liquidity provider to one pool.
#[derive(Clone, Copy, Debug)]
pub struct LpData {
    pub user: Key,
    pub token_amt: u64,
    pub token: Key,
}

/// What looking up a user's record found.
#[derive(Debug)]
pub enum Lookup<T> {
    /// The record exists and belongs to the caller.
    Existing(T),
    /// The record did not exist; this is it, freshly stamped with the caller.
    Created(T),
    /// The record exists and belongs to someone else.
    Foreign,
}

impl<T> Lookup<T> {
    pub open spec fn record(self) -> T
        recommends
            !(self is Foreign),
    {
        match self {
            Lookup::Existing(r) => r,
            Lookup::Created(r) => r,
            Lookup::Foreign => arbitrary(),
        }
    }
}

// Notifications, one per committed operation.

#[derive(Clone, Copy, Debug)]
pub struct TokenDeposited {
    pub user: Key,
    pub token: Key,
    pub amount: u64,
}

#[derive(Clone, Copy, Debug)]
pub struct LiquidityProvided {
    pub user: Key,
    pub token: Key,
    pub amount: u64,
}

#[derive(Clone, Copy, Debug)]
pub struct TokenRedeemed {
    pub user: Key,
    pub token: Key,
    pub amount: u64,
}

#[derive(Clone, Copy, Debug)]
pub struct TokenLiquidated {
    pub liquidator: Key,
    pub user: Key,
    pub token: Key,
    pub amount: u64,
}

#[derive(Clone, Copy, Debug)]
pub struct LiquidityRedeemed {
    pub user: Key,
    pub token: Key,
    pub interest: u64,
}

#[derive(Clone, Copy, Debug)]
pub struct HealthFactors {
    pub health_factor: u64,
}

} // verus!
