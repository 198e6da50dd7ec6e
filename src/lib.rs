//! Ledger engine of an over-collateralised lending protocol: collateral and
//! debt positions, the health factor, deposit / borrow / withdraw / liquidate,
//! and a liquidity pool that shares collected fees among its providers.
//!
//! Every operation that moves tokens is staged: it reads the records it
//! touches, checks everything, and returns the records as they must be written
//! together with the token movements to perform. The library writes none of
//! those records itself, so a caller commits a plan only after its token
//! movements succeeded, and a rejected operation has no effect at all.

pub mod deposit;
pub mod engine;
pub mod errors;
pub mod idea;
pub mod key;
pub mod lp;
pub mod new_token;
pub mod pricefeeds;
pub mod structs;
pub mod withdraw;

pub use errors::ErrorCode;
pub use key::Key;
pub use structs::{
    Config, Deposit, Engine, HealthFactors, LiquidityProvided, LiquidityRedeemed, Lookup, LpData,
    LqDeposit, Price, TokenDeposited, TokenLiquidated, TokenRedeemed, UserData,
};
