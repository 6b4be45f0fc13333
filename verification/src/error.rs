use vstd::prelude::*;

verus! {

/// Errors reported by the protocol's accounting rules.
#[derive(Debug, Clone, Copy, PartialEq, Eq, Structural)]
pub enum NestError {
    MathOverflow,
    DivisionByZero,
    InvalidParameter,
    PriceNotPositive,
    ConfidenceTooWide,
    OracleStale,
    WrongFeed,
    CollateralPaused,
    BorrowPaused,
    WithdrawPaused,
    DepositCapExceeded,
    DebtCapExceeded,
    VaultDebtCapExceeded,
    InsufficientCollateral,
    VaultHealthy,
    CooldownActive,
    ClaimWindowActive,
    ClaimWindowExpired,
    LegacyWithdrawalNotMigrated,
    InsufficientAssets,
    Insolvent,
    PrincipalNotCovered,
}

} // verus!
