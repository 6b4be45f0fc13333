//! Verified accounting core of the Nest stablecoin protocol: fixed-point
//! arithmetic, conservative oracle pricing, collateralised debt positions,
//! liquidations, the peg-stability module and the nUSD staking pool.

pub mod accounts;
pub mod bytes;
pub mod calendar;
pub mod cdp;
pub mod constants;
pub mod core_error;
pub mod error;
pub mod feeds;
pub mod ix;
pub mod lazer;
pub mod ledger;
pub mod liquidation;
pub mod math;
pub mod oracle;
pub mod pda;
pub mod psm;
pub mod psm_ledger;
pub mod readers;
pub mod revenue;
pub mod stake;
pub mod staking;
