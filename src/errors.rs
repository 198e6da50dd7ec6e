use vstd::prelude::*;

verus! {

/// Why an operation was rejected. A rejected operation changes no record and
/// moves no token.
#[derive(Clone, Copy, Debug, PartialEq, Eq, Structural)]
pub enum ErrorCode {
    /// The amount must be greater than zero.
    AmountLessThanZero,
    /// The token does not belong to this position.
    InvalidToken,
    /// The health factor would fall below the protocol minimum.
    LessHealthFactor,
    /// The collateral on deposit does not cover the amount asked for.
    NotEnoughTokensInCollateral,
    /// The position is healthy enough; it cannot be liquidated.
    NoNeedToLiquidate,
    /// The health factor did not improve.
    HealthFactorNotImproved,
    /// More debt is repaid than is owed.
    NotEnoughDebt,
    /// The caller does not own the record, or the record does not exist.
    UnauthorizedUser,
    /// An addition overflowed.
    Overflow,
    /// A division failed.
    DivisionError,
    /// The price is zero.
    InvalidPrice,
    /// A product or a narrowed result does not fit.
    MathOverflow,
    /// The debt must be repaid before all collateral is withdrawn.
    MustRepayDscFirst,
    /// The pool holds no liquidity.
    ZeroTotalLiquidity,
    /// A user cannot liquidate their own position.
    CannotLiquidateSelf,
    /// More debt is covered than the borrower owes.
    TooMuchRepay,
    /// The debt is too large for the collateral's threshold value.
    OverCollateralLimit,
    /// The liquidation threshold is a percentage and cannot exceed 100.
    InvalidThreshold,
}

impl ErrorCode {
    /// The human-readable message of the error.
    pub fn message(&self) -> (r: &'static str) {
        match self {
            ErrorCode::AmountLessThanZero => "Amount must be greater than zero",
            ErrorCode::InvalidToken => "Invalid token",
            ErrorCode::LessHealthFactor => "Health factor too low",
            ErrorCode::NotEnoughTokensInCollateral => "Not enough tokens in collateral",
            ErrorCode::NoNeedToLiquidate => "No need to liquidate",
            ErrorCode::HealthFactorNotImproved => "Health factor not improved",
            ErrorCode::NotEnoughDebt => "Not enough debt",
            ErrorCode::UnauthorizedUser => "Unauthorized user",
            ErrorCode::Overflow => "Overflow",
            ErrorCode::DivisionError => "Division error",
            ErrorCode::InvalidPrice => "Invalid price",
            ErrorCode::MathOverflow => "Math overflow",
            ErrorCode::MustRepayDscFirst => "Debt must be repaid first",
            ErrorCode::ZeroTotalLiquidity => "Pool holds no liquidity",
            ErrorCode::CannotLiquidateSelf => "Cannot liquidate self",
            ErrorCode::TooMuchRepay => "Too much repaid",
            ErrorCode::OverCollateralLimit => "Debt over collateral limit",
            ErrorCode::InvalidThreshold => "Liquidation threshold above 100",
        }
    }
}

} // verus!
