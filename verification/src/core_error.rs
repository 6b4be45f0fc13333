use vstd::prelude::*;

use crate::error::NestError;

verus! {

/// Errors of the nest-core program.
#[derive(Debug, Clone, Copy, PartialEq, Eq, Structural)]
pub enum CoreError {
    InvalidParameter,
    MathOverflow,
    Paused,
    Unauthorized,
    CollateralPaused,
    BorrowPaused,
    WithdrawPaused,
    DepositCapExceeded,
    DebtCapExceeded,
    VaultDebtCapExceeded,
    InsufficientCollateral,
    VaultHealthy,
    OracleError,
    PsmCapExceeded,
    PsmInsufficientLiquidity,
    PsmNoSurplus,
    PsmKaminoTargetReached,
    PsmKaminoPrincipalNotCovered,
    AmountOverflow,
    TransferFeeNotSupported,
    BadDebtOutstanding,
    InsufficientProtocolRevenue,
    InsufficientLiquidationProceeds,
    InvalidPsmOutflowCircuitBreaker,
    PsmOutflowLimitExceeded,
    ProtocolMustBePaused,
    StakerRevenueAccountingAlreadyInitialized,
    StakerRevenueAccountingNotInitialized,
    MarketCalendarExpired,
}

/// Errors of the nest-stake program.
#[derive(Debug, Clone, Copy, PartialEq, Eq, Structural)]
pub enum StakeError {
    Paused,
    Unauthorized,
    MathOverflow,
    InvalidParameter,
    CooldownActive,
    ClaimWindowActive,
    ClaimWindowExpired,
    BadDebtOutstanding,
    InsufficientAssets,
    Insolvent,
    AlreadyCompleted,
    AmountOverflow,
    TransferFeeNotSupported,
    StakeCapacityExceeded,
}

/// How nest-core reports an accounting error.
pub open spec fn core_error_of(error: NestError) -> CoreError {
    match error {
        NestError::MathOverflow | NestError::DivisionByZero => CoreError::MathOverflow,
        NestError::InvalidParameter => CoreError::InvalidParameter,
        NestError::CollateralPaused => CoreError::CollateralPaused,
        NestError::BorrowPaused => CoreError::BorrowPaused,
        NestError::WithdrawPaused => CoreError::WithdrawPaused,
        NestError::DepositCapExceeded => CoreError::DepositCapExceeded,
        NestError::DebtCapExceeded => CoreError::DebtCapExceeded,
        NestError::VaultDebtCapExceeded => CoreError::VaultDebtCapExceeded,
        NestError::InsufficientCollateral => CoreError::InsufficientCollateral,
        NestError::VaultHealthy => CoreError::VaultHealthy,
        NestError::PrincipalNotCovered => CoreError::PsmKaminoPrincipalNotCovered,
        _ => CoreError::OracleError,
    }
}

/// How nest-stake reports an accounting error.
pub open spec fn stake_error_of(error: NestError) -> StakeError {
    match error {
        NestError::MathOverflow | NestError::DivisionByZero => StakeError::MathOverflow,
        NestError::InvalidParameter => StakeError::InvalidParameter,
        NestError::CooldownActive => StakeError::CooldownActive,
        NestError::ClaimWindowActive => StakeError::ClaimWindowActive,
        NestError::ClaimWindowExpired => StakeError::ClaimWindowExpired,
        NestError::InsufficientAssets => StakeError::InsufficientAssets,
        NestError::Insolvent => StakeError::Insolvent,
        _ => StakeError::InvalidParameter,
    }
}

pub fn map_core_error(error: NestError) -> (r: CoreError)
    ensures
        r == core_error_of(error),
{
    match error {
        NestError::MathOverflow | NestError::DivisionByZero => CoreError::MathOverflow,
        NestError::InvalidParameter => CoreError::InvalidParameter,
        NestError::CollateralPaused => CoreError::CollateralPaused,
        NestError::BorrowPaused => CoreError::BorrowPaused,
        NestError::WithdrawPaused => CoreError::WithdrawPaused,
        NestError::DepositCapExceeded => CoreError::DepositCapExceeded,
        NestError::DebtCapExceeded => CoreError::DebtCapExceeded,
        NestError::VaultDebtCapExceeded => CoreError::VaultDebtCapExceeded,
        NestError::InsufficientCollateral => CoreError::InsufficientCollateral,
        NestError::VaultHealthy => CoreError::VaultHealthy,
        NestError::PrincipalNotCovered => CoreError::PsmKaminoPrincipalNotCovered,
        _ => CoreError::OracleError,
    }
}

pub fn map_stake_error(error: NestError) -> (r: StakeError)
    ensures
        r == stake_error_of(error),
{
    match error {
        NestError::MathOverflow | NestError::DivisionByZero => StakeError::MathOverflow,
        NestError::InvalidParameter => StakeError::InvalidParameter,
        NestError::CooldownActive => StakeError::CooldownActive,
        NestError::ClaimWindowActive => StakeError::ClaimWindowActive,
        NestError::ClaimWindowExpired => StakeError::ClaimWindowExpired,
        NestError::InsufficientAssets => StakeError::InsufficientAssets,
        NestError::Insolvent => StakeError::Insolvent,
        _ => StakeError::InvalidParameter,
    }
}

} // verus!
