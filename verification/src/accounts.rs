use vstd::prelude::*;

verus! {

/// A 32-byte account address.
pub type Pubkey = [u8; 32];

/// The nest-core program.
pub const NEST_CORE_PROGRAM_ID: Pubkey = [
    251, 248, 193, 213, 191, 94, 244, 146, 81, 141, 247, 222, 238, 22, 83, 161, 61, 42, 33, 162,
    212, 12, 186, 223, 14, 73, 98, 160, 105, 226, 159, 155,
];

/// The nest-stake program.
pub const NEST_STAKE_PROGRAM_ID: Pubkey = [
    202, 132, 167, 47, 84, 61, 221, 54, 177, 45, 65, 231, 26, 187, 1, 157, 184, 52, 206, 142, 46,
    70, 49, 67, 104, 165, 240, 158, 125, 27, 131, 250,
];

/// The SPL token program.
pub const SPL_TOKEN_PROGRAM_ID: Pubkey = [
    6, 221, 246, 225, 215, 101, 161, 147, 217, 203, 225, 70, 206, 235, 121, 172, 28, 180, 133,
    237, 95, 91, 55, 145, 58, 140, 245, 133, 126, 255, 0, 169,
];

/// The Token-2022 program.
pub const TOKEN_2022_PROGRAM_ID: Pubkey = [
    6, 221, 246, 225, 238, 117, 143, 222, 24, 66, 93, 188, 228, 108, 205, 218, 182, 26, 252, 77,
    131, 185, 13, 39, 254, 189, 249, 40, 216, 161, 139, 252,
];

/// The Kamino lending program.
pub const KLEND_PROGRAM_ID: Pubkey = [
    4, 178, 172, 177, 18, 88, 204, 227, 104, 44, 65, 139, 168, 114, 255, 61, 249, 17, 2, 113, 47,
    21, 175, 18, 182, 190, 105, 179, 67, 91, 0, 8,
];

/// The Kamino lending program on its staging deployment.
pub const KLEND_STAGING_PROGRAM_ID: Pubkey = [
    6, 125, 189, 128, 129, 16, 125, 148, 208, 174, 76, 239, 161, 150, 103, 191, 215, 156, 76,
    109, 52, 233, 31, 137, 195, 102, 27, 236, 8, 254, 21, 118,
];

/// The address Kamino uses to mark an oracle slot as unused.
pub const KLEND_NULL_PUBKEY: Pubkey = [
    11, 193, 238, 216, 208, 116, 241, 195, 55, 212, 76, 22, 75, 202, 40, 216, 76, 206, 27, 169,
    138, 64, 177, 28, 19, 90, 156, 0, 0, 0, 0, 0,
];

/// The all-zero address, used for "not set".
pub const DEFAULT_PUBKEY: Pubkey = [
    0, 0, 0, 0, 0, 0, 0, 0, 0, 0, 0, 0, 0, 0, 0, 0, 0, 0, 0, 0, 0, 0, 0, 0, 0, 0, 0, 0, 0, 0, 0, 0,
];

/// Byte-wise equality of two addresses.
pub fn keys_eq(a: &Pubkey, b: &Pubkey) -> (r: bool)
    ensures
        r == (a@ == b@),
{
    let mut i: usize = 0;
    while i < 32
        invariant
            i <= 32,
            a@.len() == 32,
            b@.len() == 32,
            forall|j: int| 0 <= j < i ==> a@[j] == b@[j],
        decreases 32 - i,
    {
        if a[i] != b[i] {
            return false;
        }
        i = i + 1;
    }
    assert(a@ =~= b@);
    true
}

/// The address is the all-zero "not set" address.
pub open spec fn is_default_key(key: Pubkey) -> bool {
    forall|i: int| 0 <= i < 32 ==> #[trigger] key@[i] == 0u8
}

/// Whether `key` is the all-zero address.
pub fn key_is_default(key: &Pubkey) -> (r: bool)
    ensures
        r == is_default_key(*key),
{
    let mut i: usize = 0;
    while i < 32
        invariant
            i <= 32,
            key@.len() == 32,
            forall|j: int| 0 <= j < i ==> key@[j] == 0u8,
        decreases 32 - i,
    {
        if key[i] != 0u8 {
            return false;
        }
        i = i + 1;
    }
    true
}

/// Global protocol state: authorities, token vaults, the CDP and PSM ledgers,
/// revenue accounting and the PSM outflow circuit breaker.
#[derive(Debug, Clone, Copy, PartialEq, Eq)]
pub struct Protocol {
    pub authority: Pubkey,
    pub liquidation_authority: Pubkey,
    pub nusd_mint: Pubkey,
    pub usdc_mint: Pubkey,
    pub psm_usdc_vault: Pubkey,
    pub insurance_nusd_vault: Pubkey,
    pub staker_revenue_nusd_vault: Pubkey,
    pub staker_revenue_authority: Pubkey,
    pub total_debt: u128,
    pub total_uncollected_fees: u128,
    /// Staker revenue routed to the staker revenue vault and not yet consumed.
    pub realized_revenue_for_stakers: u128,
    pub insurance_fund_nusd: u128,
    pub bad_debt_nusd: u128,
    pub psm_usdc_liabilities: u128,
    pub psm_nusd_supply: u128,
    pub psm_idle_usdc: u128,
    pub psm_kamino_deployed_usdc: u128,
    pub psm_kamino_collateral_vault: Pubkey,
    pub psm_cap: u128,
    pub protocol_debt_cap: u128,
    pub stability_fee_apr_bps: u64,
    pub psm_swap_in_fee_bps: u16,
    pub psm_swap_out_fee_bps: u16,
    pub kamino_program_id: Pubkey,
    pub insurance_target_bps: u16,
    pub insurance_fee_share_bps: u16,
    pub staker_revenue_accounting_initialized: bool,
    pub paused: bool,
    pub bump: u8,
    pub protocol_revenue_nusd_vault: Pubkey,
    pub realized_revenue_for_protocol: u128,
    pub staker_target_revenue_due: u128,
    pub staker_target_last_accrual_ts: i64,
    pub staker_target_apr_bps: u64,
    pub staker_capacity_kamino_apr_bps: u64,
    pub pending_liquidation_principal: u128,
    pub pending_liquidation_fees: u128,
    pub psm_outflow_window_start_ts: i64,
    pub psm_outflow_window_usdc: u128,
    pub psm_outflow_limit_usdc: u128,
    pub psm_outflow_limit_bps: u16,
    pub psm_outflow_window_seconds: i64,
    pub psm_outflow_circuit_breaker_enabled: bool,
    pub psm_outflow_window_basis_usdc: u128,
    pub buyback_authority: Pubkey,
    pub buyback_usdc_account: Pubkey,
}

/// Per-collateral market configuration and its ledger.
#[derive(Debug, Clone, Copy, PartialEq, Eq)]
pub struct CollateralConfig {
    pub protocol: Pubkey,
    pub collateral_mint: Pubkey,
    pub collateral_vault: Pubkey,
    pub insurance_collateral_vault: Pubkey,
    pub token_program: Pubkey,
    pub symbol: [u8; 16],
    pub collateral_decimals: u8,
    pub xstock_usd_feed_id: [u8; 32],
    pub reserved_underlying_usd_feed_id: [u8; 32],
    pub reserved_redemption_rate_feed_id: [u8; 32],
    pub borrow_ltv_bps: u16,
    pub liquidation_threshold_bps: u16,
    pub liquidation_penalty_bps: u16,
    pub close_factor_bps: u16,
    pub max_confidence_bps: u16,
    pub max_staleness_seconds: i64,
    pub reserved_closed_market_max_staleness_seconds: i64,
    pub reserved_underlying_closed_market_max_staleness_seconds: i64,
    pub reserved_closed_market_haircut_bps: u16,
    pub per_vault_debt_cap: u128,
    pub protocol_debt_cap: u128,
    pub deposit_cap_raw: u128,
    pub total_debt: u128,
    pub total_deposits_raw: u128,
    pub deposits_paused: bool,
    pub borrows_paused: bool,
    pub withdraws_paused: bool,
    pub bump: u8,
}

impl CollateralConfig {
    /// Serialized size of the account without its discriminator.
    pub const INIT_SPACE: usize = 393;
}

/// A borrower's position in one collateral market.
#[derive(Debug, Clone, Copy, PartialEq, Eq)]
pub struct Vault {
    pub owner: Pubkey,
    pub collateral_config: Pubkey,
    pub collateral_raw: u128,
    pub principal_debt: u128,
    pub accrued_fee: u128,
    pub last_accrual_ts: i64,
    pub bump: u8,
}

impl Vault {
    /// Principal plus accrued fee.
    pub fn total_debt(&self) -> (r: Result<u128, crate::core_error::CoreError>)
        ensures
            r == (if self.principal_debt + self.accrued_fee > u128::MAX {
                Err(crate::core_error::CoreError::MathOverflow)
            } else {
                Ok((self.principal_debt + self.accrued_fee) as u128)
            }),
    {
        match self.principal_debt.checked_add(self.accrued_fee) {
            Some(v) => Ok(v),
            None => Err(crate::core_error::CoreError::MathOverflow),
        }
    }
}

/// Record of a two-step liquidation between seizure and settlement.
#[derive(Debug, Clone, Copy, PartialEq, Eq)]
pub struct LiquidationReceipt {
    pub protocol: Pubkey,
    pub collateral_config: Pubkey,
    pub vault: Pubkey,
    pub liquidator: Pubkey,
    pub collateral_mint: Pubkey,
    pub collateral_raw: u128,
    pub min_settlement_usdc: u128,
    pub target_settlement_usdc: u128,
    pub principal_debt: u128,
    pub accrued_fee: u128,
    pub started_at_ts: i64,
    pub bump: u8,
}

/// A stored oracle price with eight decimals.
#[derive(Debug, Clone, Copy, PartialEq, Eq)]
pub struct OraclePriceAccount {
    pub feed_id: [u8; 32],
    pub price_e8: u64,
    pub confidence_e8: u64,
    pub publish_time: i64,
}

#[derive(Debug, Clone, Copy, PartialEq, Eq)]
pub enum MarketStateAccount {
    Regular,
    Extended,
    Closed,
}

/// Latest accepted price for one collateral market.
#[derive(Debug, Clone, Copy, PartialEq, Eq)]
pub struct OracleSnapshot {
    pub protocol: Pubkey,
    pub collateral_config: Pubkey,
    pub xstock_usd: OraclePriceAccount,
    pub reserved_underlying_usd: OraclePriceAccount,
    pub reserved_redemption_rate: OraclePriceAccount,
    pub reserved_market_state: MarketStateAccount,
    /// Publish time of the accepted update at its source, in microseconds.
    pub source_publish_time_us: i64,
    pub bump: u8,
}

impl OracleSnapshot {
    /// Serialized size of the account without its discriminator.
    pub const INIT_SPACE: usize = 242;
}

/// The key allowed to sign Nest price messages.
#[derive(Debug, Clone, Copy, PartialEq, Eq)]
pub struct NestPriceSignerConfig {
    pub protocol: Pubkey,
    pub authority: Pubkey,
    pub signer: Pubkey,
    pub bump: u8,
}

#[derive(Debug, Clone, Copy, PartialEq, Eq)]
pub struct InitializeProtocolParams {
    pub psm_cap: u128,
    pub protocol_debt_cap: u128,
    pub stability_fee_apr_bps: u64,
    pub psm_swap_in_fee_bps: u16,
    pub psm_swap_out_fee_bps: u16,
    pub kamino_program_id: Pubkey,
    pub staker_target_apr_bps: u64,
    pub staker_capacity_kamino_apr_bps: u64,
}

#[derive(Debug, Clone, Copy, PartialEq, Eq)]
pub struct AddCollateralParams {
    pub collateral_mint: Pubkey,
    pub token_program: Pubkey,
    pub symbol: [u8; 16],
    pub collateral_decimals: u8,
    pub xstock_usd_feed_id: [u8; 32],
    pub underlying_usd_feed_id: [u8; 32],
    pub redemption_rate_feed_id: [u8; 32],
    pub borrow_ltv_bps: u16,
    pub liquidation_threshold_bps: u16,
    pub liquidation_penalty_bps: u16,
    pub close_factor_bps: u16,
    pub max_confidence_bps: u16,
    pub max_staleness_seconds: i64,
    pub closed_market_max_staleness_seconds: i64,
    pub underlying_closed_market_max_staleness_seconds: i64,
    pub closed_market_haircut_bps: u16,
    pub per_vault_debt_cap: u128,
    pub protocol_debt_cap: u128,
    pub deposit_cap_raw: u128,
}

/// nest-stake global state.
#[derive(Debug, Clone, Copy, PartialEq, Eq)]
pub struct StakingState {
    pub authority: Pubkey,
    pub nusd_mint: Pubkey,
    pub snusd_mint: Pubkey,
    pub staking_nusd_vault: Pubkey,
    pub revenue_nusd_vault: Pubkey,
    pub revenue_baseline_nusd: u128,
    pub total_shares: u128,
    pub total_user_shares: u128,
    pub staking_vault_nusd: u128,
    pub realized_loss_nusd: u128,
    pub unvested_revenue: u128,
    pub reserved_pending_claims: u128,
    pub vesting_start_ts: i64,
    pub vesting_end_ts: i64,
    pub last_vesting_sync_ts: i64,
    pub cooldown_seconds: i64,
    pub revenue_vesting_seconds: i64,
    pub paused: bool,
    pub bump: u8,
}

/// A user's request to redeem sNUSD shares after the cooldown.
#[derive(Debug, Clone, Copy, PartialEq, Eq)]
pub struct PendingWithdrawalAccount {
    pub owner: Pubkey,
    pub staking_state: Pubkey,
    pub shares: u128,
    pub request_ts: i64,
    pub assets_redeemed: u128,
    pub completed: bool,
    pub bump: u8,
}

impl PendingWithdrawalAccount {
    /// Serialized size of the account without its discriminator.
    pub const INIT_SPACE: usize = 106;
}

#[derive(Debug, Clone, Copy, PartialEq, Eq)]
pub struct InitializeStakingParams {
    pub cooldown_seconds: i64,
    pub revenue_vesting_seconds: i64,
}

} // verus!
