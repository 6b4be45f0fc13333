use vstd::prelude::*;

verus! {

/// Basis-point denominator: 10_000 bps is 100%.
pub const BPS_DENOMINATOR: u128 = 10_000;
/// Oracle prices carry eight decimals.
pub const PRICE_SCALE: u128 = 100_000_000;
/// nUSD and USDC amounts carry six decimals.
pub const USD_SCALE: u128 = 1_000_000;
/// Seconds in a 365-day year, used for APR accrual.
pub const SECONDS_PER_YEAR: u128 = 31_536_000;
/// Default stability fee, 1.5% APR.
pub const DEFAULT_STABILITY_FEE_BPS: u64 = 150;
/// Default share of a position that one liquidation may repay.
pub const DEFAULT_CLOSE_FACTOR_BPS: u16 = 5_000;
/// Below this health factor a liquidation may repay the whole debt.
pub const FULL_LIQUIDATION_HEALTH_FACTOR_BPS: u16 = 8_000;
/// Insurance fund target as a share of outstanding CDP debt.
pub const INSURANCE_TARGET_BPS: u16 = 1_000;
/// Share of realized fees routed to the insurance fund while under target.
pub const INSURANCE_FEE_SHARE_BPS: u16 = 2_000;
/// Delay between requesting and completing an unstake.
pub const DEFAULT_COOLDOWN_SECONDS: i64 = 604_800;
/// Period over which harvested revenue vests into the staking pool.
pub const DEFAULT_REVENUE_VESTING_SECONDS: i64 = 604_800;
/// Smallest first deposit into an empty staking pool (one nUSD).
pub const MIN_INITIAL_STAKE_NUSD: u128 = 1_000_000;

} // verus!
