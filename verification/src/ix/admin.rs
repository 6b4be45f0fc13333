use vstd::prelude::*;

use crate::accounts::{
    is_default_key, key_is_default, keys_eq, CollateralConfig, NestPriceSignerConfig, Protocol,
    Pubkey,
};
use crate::core_error::CoreError;
use crate::feeds::{is_zero_key, validate_collateral_feed_config, MAX_XSTOCK_PRICE_STALENESS_SECONDS};
use crate::ledger::{
    collateral_vault_coverage_broken, require_token_account_unencumbered, unencumbered,
    TokenAccountState,
};
use crate::psm_ledger::MAX_PSM_OUTFLOW_WINDOW_SECONDS;
use crate::readers::{spec_staking_vault_nusd_from_account, staking_vault_nusd_from_account};
use crate::readers::spec_staking_vault_nusd_from_data;
use crate::revenue::{
    initialize_staker_revenue_accounting_state, spec_sync_staker_target_revenue,
    sync_staker_target_revenue,
};

verus! {

pub const SECONDS_PER_DAY: i64 = 86_400;
pub const MAX_STAKER_TARGET_APR_BPS: u64 = 2_000;
pub const MAX_STAKER_CAPACITY_KAMINO_APR_BPS: u64 = 2_000;

/// The protocol, changed by its authority.
#[derive(Debug, Clone, Copy, PartialEq, Eq)]
pub struct MutateProtocol {
    pub protocol: Protocol,
    pub authority: Pubkey,
}

/// Only the protocol authority may sign.
pub fn assert_authority(protocol: &Protocol, signer: &Pubkey) -> (r: Result<(), CoreError>)
    ensures
        r == (if protocol.authority@ == signer@ {
            Ok(())
        } else {
            Err(CoreError::Unauthorized)
        }),
{
    if keys_eq(&protocol.authority, signer) {
        Ok(())
    } else {
        Err(CoreError::Unauthorized)
    }
}

pub fn set_paused(ctx: &mut MutateProtocol, paused: bool) -> (r: Result<(), CoreError>)
    ensures
        r == (if old(ctx).protocol.authority@ == old(ctx).authority@ {
            Ok(())
        } else {
            Err(CoreError::Unauthorized)
        }),
        r is Ok ==> final(ctx).protocol == (Protocol { paused, ..old(ctx).protocol }),
        r is Err ==> *final(ctx) == *old(ctx),
        final(ctx).authority == old(ctx).authority,
{
    assert_authority(&ctx.protocol, &ctx.authority)?;
    ctx.protocol.paused = paused;
    Ok(())
}

/// A circuit-breaker setting is acceptable: when enabled it needs a limit
/// and a window of at most a week; the window may be left at zero (one day)
/// when disabled.
pub open spec fn outflow_breaker_setting_valid(
    enabled: bool,
    limit_usdc: u128,
    limit_bps: u16,
    window_seconds: i64,
) -> bool {
    if enabled {
        (limit_usdc > 0 || limit_bps > 0) && limit_bps <= 10_000 && window_seconds > 0
            && window_seconds <= MAX_PSM_OUTFLOW_WINDOW_SECONDS
    } else {
        limit_bps <= 10_000 && (window_seconds == 0 || (window_seconds > 0 && window_seconds
            <= MAX_PSM_OUTFLOW_WINDOW_SECONDS))
    }
}

/// Configures the PSM outflow breaker and starts a fresh window.
pub fn set_psm_outflow_circuit_breaker(
    ctx: &mut MutateProtocol,
    enabled: bool,
    limit_usdc: u128,
    limit_bps: u16,
    window_seconds: i64,
) -> (r: Result<(), CoreError>)
    ensures
        r == (if old(ctx).protocol.authority@ != old(ctx).authority@ {
            Err(CoreError::Unauthorized)
        } else if !outflow_breaker_setting_valid(enabled, limit_usdc, limit_bps, window_seconds) {
            Err(CoreError::InvalidPsmOutflowCircuitBreaker)
        } else {
            Ok(())
        }),
        r is Ok ==> final(ctx).protocol == (Protocol {
            psm_outflow_circuit_breaker_enabled: enabled,
            psm_outflow_limit_usdc: limit_usdc,
            psm_outflow_limit_bps: limit_bps,
            psm_outflow_window_seconds: if window_seconds == 0 {
                SECONDS_PER_DAY
            } else {
                window_seconds
            },
            psm_outflow_window_start_ts: 0,
            psm_outflow_window_usdc: 0,
            psm_outflow_window_basis_usdc: 0,
            ..old(ctx).protocol
        }),
        r is Err ==> *final(ctx) == *old(ctx),
        final(ctx).authority == old(ctx).authority,
{
    assert_authority(&ctx.protocol, &ctx.authority)?;
    let valid = if enabled {
        (limit_usdc > 0 || limit_bps > 0) && limit_bps <= 10_000u16 && window_seconds > 0
            && window_seconds <= MAX_PSM_OUTFLOW_WINDOW_SECONDS
    } else {
        limit_bps <= 10_000u16 && (window_seconds == 0 || (window_seconds > 0 && window_seconds
            <= MAX_PSM_OUTFLOW_WINDOW_SECONDS))
    };
    if !valid {
        return Err(CoreError::InvalidPsmOutflowCircuitBreaker);
    }
    ctx.protocol.psm_outflow_circuit_breaker_enabled = enabled;
    ctx.protocol.psm_outflow_limit_usdc = limit_usdc;
    ctx.protocol.psm_outflow_limit_bps = limit_bps;
    ctx.protocol.psm_outflow_window_seconds = if window_seconds == 0 {
        SECONDS_PER_DAY
    } else {
        window_seconds
    };
    ctx.protocol.psm_outflow_window_start_ts = 0;
    ctx.protocol.psm_outflow_window_usdc = 0;
    ctx.protocol.psm_outflow_window_basis_usdc = 0;
    Ok(())
}

pub fn set_liquidation_authority(ctx: &mut MutateProtocol, liquidation_authority: Pubkey) -> (r:
    Result<(), CoreError>)
    ensures
        r == (if old(ctx).protocol.authority@ != old(ctx).authority@ {
            Err(CoreError::Unauthorized)
        } else if is_default_key(liquidation_authority) {
            Err(CoreError::InvalidParameter)
        } else {
            Ok(())
        }),
        r is Ok ==> final(ctx).protocol == (Protocol { liquidation_authority, ..old(ctx).protocol }),
        r is Err ==> *final(ctx) == *old(ctx),
        final(ctx).authority == old(ctx).authority,
{
    assert_authority(&ctx.protocol, &ctx.authority)?;
    if key_is_default(&liquidation_authority) {
        return Err(CoreError::InvalidParameter);
    }
    ctx.protocol.liquidation_authority = liquidation_authority;
    Ok(())
}

pub fn set_protocol_authority(ctx: &mut MutateProtocol, authority: Pubkey) -> (r: Result<
    (),
    CoreError,
>)
    ensures
        r == (if old(ctx).protocol.authority@ != old(ctx).authority@ {
            Err(CoreError::Unauthorized)
        } else if is_default_key(authority) {
            Err(CoreError::InvalidParameter)
        } else {
            Ok(())
        }),
        r is Ok ==> final(ctx).protocol == (Protocol { authority, ..old(ctx).protocol }),
        r is Err ==> *final(ctx) == *old(ctx),
        final(ctx).authority == old(ctx).authority,
{
    assert_authority(&ctx.protocol, &ctx.authority)?;
    if key_is_default(&authority) {
        return Err(CoreError::InvalidParameter);
    }
    ctx.protocol.authority = authority;
    Ok(())
}

/// The price-signer configuration, set by the protocol authority.
#[derive(Debug, Clone, Copy, PartialEq, Eq)]
pub struct SetNestPriceSigner {
    pub protocol: Protocol,
    pub protocol_key: Pubkey,
    pub nest_price_signer: NestPriceSignerConfig,
    pub nest_price_signer_bump: u8,
    pub authority: Pubkey,
}

pub fn set_nest_price_signer(ctx: &mut SetNestPriceSigner, signer: Pubkey) -> (r: Result<
    (),
    CoreError,
>)
    ensures
        r == (if old(ctx).protocol.authority@ != old(ctx).authority@ {
            Err(CoreError::Unauthorized)
        } else if is_default_key(signer) {
            Err(CoreError::InvalidParameter)
        } else {
            Ok(())
        }),
        r is Ok ==> *final(ctx) == (SetNestPriceSigner {
            nest_price_signer: NestPriceSignerConfig {
                protocol: old(ctx).protocol_key,
                authority: old(ctx).authority,
                signer,
                bump: old(ctx).nest_price_signer_bump,
            },
            ..*old(ctx)
        }),
        r is Err ==> *final(ctx) == *old(ctx),
{
    assert_authority(&ctx.protocol, &ctx.authority)?;
    if key_is_default(&signer) {
        return Err(CoreError::InvalidParameter);
    }
    ctx.nest_price_signer = NestPriceSignerConfig {
        protocol: ctx.protocol_key,
        authority: ctx.authority,
        signer,
        bump: ctx.nest_price_signer_bump,
    };
    Ok(())
}

/// The staking state account as read from the chain.
#[derive(Debug, Clone, PartialEq, Eq)]
pub struct StakingStateAccountInfo {
    pub key: Pubkey,
    pub owner: Pubkey,
    pub data: Vec<u8>,
}

/// Staked nUSD recorded in the nest-stake state account.
pub open spec fn spec_staking_assets(info: StakingStateAccountInfo, nusd_mint: Pubkey) -> Result<
    u128,
    CoreError,
> {
    spec_staking_vault_nusd_from_account(info.key, info.owner, info.data@, nusd_mint)
}

pub fn staking_assets(info: &StakingStateAccountInfo, nusd_mint: &Pubkey) -> (r: Result<
    u128,
    CoreError,
>)
    ensures
        r == spec_staking_assets(*info, *nusd_mint),
{
    staking_vault_nusd_from_account(&info.key, &info.owner, info.data.as_slice(), nusd_mint)
}

pub struct SetStakerYieldParams {
    pub protocol: Protocol,
    pub staking_state: StakingStateAccountInfo,
    pub authority: Pubkey,
}

/// Sets the staker target APR and the Kamino APR used for staking capacity,
/// after accruing the target revenue owed under the old rate.
pub fn set_staker_yield_params(
    ctx: &mut SetStakerYieldParams,
    staker_target_apr_bps: u64,
    staker_capacity_kamino_apr_bps: u64,
    now: i64,
) -> (r: Result<(), CoreError>)
    ensures
        final(ctx).staking_state == old(ctx).staking_state,
        final(ctx).authority == old(ctx).authority,
        old(ctx).protocol.authority@ != old(ctx).authority@ ==> r == Err::<(), CoreError>(
            CoreError::Unauthorized,
        ),
        old(ctx).protocol.authority@ == old(ctx).authority@ && !(staker_target_apr_bps
            <= MAX_STAKER_TARGET_APR_BPS && staker_capacity_kamino_apr_bps
            <= MAX_STAKER_CAPACITY_KAMINO_APR_BPS) ==> r == Err::<(), CoreError>(
            CoreError::InvalidParameter,
        ),
        r is Ok ==> ({
            let assets = spec_staking_assets(old(ctx).staking_state, old(ctx).protocol.nusd_mint);
            let synced = spec_sync_staker_target_revenue(old(ctx).protocol, assets->Ok_0, now);
            &&& assets is Ok
            &&& synced is Ok
            &&& final(ctx).protocol == (Protocol {
                staker_target_apr_bps,
                staker_capacity_kamino_apr_bps,
                ..synced->Ok_0
            })
        }),
        r is Err ==> final(ctx).protocol == old(ctx).protocol,
        old(ctx).protocol.authority@ == old(ctx).authority@ && staker_target_apr_bps
            <= MAX_STAKER_TARGET_APR_BPS && staker_capacity_kamino_apr_bps
            <= MAX_STAKER_CAPACITY_KAMINO_APR_BPS && spec_staking_assets(
            old(ctx).staking_state,
            old(ctx).protocol.nusd_mint,
        ) is Ok && spec_sync_staker_target_revenue(
            old(ctx).protocol,
            spec_staking_assets(old(ctx).staking_state, old(ctx).protocol.nusd_mint)->Ok_0,
            now,
        ) is Ok ==> r is Ok,
{
    assert_authority(&ctx.protocol, &ctx.authority)?;
    if !(staker_target_apr_bps <= MAX_STAKER_TARGET_APR_BPS && staker_capacity_kamino_apr_bps
        <= MAX_STAKER_CAPACITY_KAMINO_APR_BPS) {
        return Err(CoreError::InvalidParameter);
    }
    let assets = staking_assets(&ctx.staking_state, &ctx.protocol.nusd_mint)?;
    let mut protocol = ctx.protocol;
    sync_staker_target_revenue(&mut protocol, assets, now)?;
    protocol.staker_target_apr_bps = staker_target_apr_bps;
    protocol.staker_capacity_kamino_apr_bps = staker_capacity_kamino_apr_bps;
    ctx.protocol = protocol;
    Ok(())
}

#[derive(Debug, Clone, Copy, PartialEq, Eq)]
pub struct InitializeStakerRevenueAccounting {
    pub protocol: Protocol,
    pub staker_revenue_nusd_vault_amount: u64,
    pub authority: Pubkey,
}

/// One-time reconciliation of outstanding staker revenue, by the authority.
pub fn initialize_staker_revenue_accounting(
    ctx: &mut InitializeStakerRevenueAccounting,
    outstanding_revenue: u64,
) -> (r: Result<(), CoreError>)
    ensures
        r == (if old(ctx).protocol.authority@ != old(ctx).authority@ {
            Err(CoreError::Unauthorized)
        } else if !old(ctx).protocol.paused {
            Err(CoreError::ProtocolMustBePaused)
        } else if old(ctx).protocol.staker_revenue_accounting_initialized {
            Err(CoreError::StakerRevenueAccountingAlreadyInitialized)
        } else if outstanding_revenue > old(ctx).staker_revenue_nusd_vault_amount {
            Err(CoreError::InvalidParameter)
        } else {
            Ok(())
        }),
        r is Ok ==> final(ctx).protocol == (Protocol {
            realized_revenue_for_stakers: outstanding_revenue as u128,
            staker_revenue_accounting_initialized: true,
            ..old(ctx).protocol
        }),
        r is Err ==> *final(ctx) == *old(ctx),
        final(ctx).authority == old(ctx).authority,
        final(ctx).staker_revenue_nusd_vault_amount == old(ctx).staker_revenue_nusd_vault_amount,
{
    assert_authority(&ctx.protocol, &ctx.authority)?;
    initialize_staker_revenue_accounting_state(
        &mut ctx.protocol,
        outstanding_revenue as u128,
        ctx.staker_revenue_nusd_vault_amount as u128,
    )
}

#[derive(Debug, Clone, Copy, PartialEq, Eq)]
pub struct SetPsmKaminoCollateralVault {
    pub protocol: Protocol,
    pub protocol_kamino_collateral_vault: TokenAccountState,
    pub authority: Pubkey,
}

/// A Kamino cToken vault may be set once: it must be empty, unencumbered,
/// distinct from the protocol's value vaults and hold neither USDC nor nUSD.
pub open spec fn kamino_vault_acceptable(p: Protocol, vault: TokenAccountState) -> bool {
    &&& is_default_key(p.psm_kamino_collateral_vault)
    &&& p.psm_kamino_deployed_usdc == 0
    &&& vault.amount == 0
    &&& vault.key@ != p.psm_usdc_vault@
    &&& vault.key@ != p.insurance_nusd_vault@
    &&& vault.key@ != p.staker_revenue_nusd_vault@
    &&& vault.key@ != p.protocol_revenue_nusd_vault@
    &&& vault.mint@ != p.usdc_mint@
    &&& vault.mint@ != p.nusd_mint@
}

pub fn set_psm_kamino_collateral_vault(ctx: &mut SetPsmKaminoCollateralVault) -> (r: Result<
    (),
    CoreError,
>)
    ensures
        r == (if old(ctx).protocol.authority@ != old(ctx).authority@ {
            Err(CoreError::Unauthorized)
        } else if !kamino_vault_acceptable(old(ctx).protocol, old(ctx).protocol_kamino_collateral_vault)
            || !unencumbered(old(ctx).protocol_kamino_collateral_vault) {
            Err(CoreError::InvalidParameter)
        } else {
            Ok(())
        }),
        r is Ok ==> final(ctx).protocol == (Protocol {
            psm_kamino_collateral_vault: old(ctx).protocol_kamino_collateral_vault.key,
            ..old(ctx).protocol
        }),
        r is Err ==> *final(ctx) == *old(ctx),
        final(ctx).protocol_kamino_collateral_vault == old(ctx).protocol_kamino_collateral_vault,
        final(ctx).authority == old(ctx).authority,
{
    assert_authority(&ctx.protocol, &ctx.authority)?;
    let vault = ctx.protocol_kamino_collateral_vault;
    let p = ctx.protocol;
    let acceptable = key_is_default(&p.psm_kamino_collateral_vault)
        && p.psm_kamino_deployed_usdc == 0 && vault.amount == 0 && !keys_eq(
        &vault.key,
        &p.psm_usdc_vault,
    ) && !keys_eq(&vault.key, &p.insurance_nusd_vault) && !keys_eq(
        &vault.key,
        &p.staker_revenue_nusd_vault,
    ) && !keys_eq(&vault.key, &p.protocol_revenue_nusd_vault) && !keys_eq(
        &vault.mint,
        &p.usdc_mint,
    ) && !keys_eq(&vault.mint, &p.nusd_mint);
    if !acceptable {
        return Err(CoreError::InvalidParameter);
    }
    require_token_account_unencumbered(&vault)?;
    ctx.protocol.psm_kamino_collateral_vault = vault.key;
    Ok(())
}

#[derive(Debug, Clone, Copy, PartialEq, Eq)]
pub struct SetBuybackConfig {
    pub protocol: Protocol,
    pub buyback_usdc_account: TokenAccountState,
    pub authority: Pubkey,
}

/// A buyback account must be owned by the buyback authority and be none
/// of the protocol's value vaults.
pub open spec fn buyback_account_acceptable(
    p: Protocol,
    account: TokenAccountState,
    buyback_authority: Pubkey,
) -> bool {
    &&& account.owner@ == buyback_authority@
    &&& account.key@ != p.psm_usdc_vault@
    &&& account.key@ != p.insurance_nusd_vault@
    &&& account.key@ != p.staker_revenue_nusd_vault@
    &&& account.key@ != p.protocol_revenue_nusd_vault@
}

pub fn set_buyback_config(ctx: &mut SetBuybackConfig, buyback_authority: Pubkey) -> (r: Result<
    (),
    CoreError,
>)
    ensures
        r == (if old(ctx).protocol.authority@ != old(ctx).authority@ {
            Err(CoreError::Unauthorized)
        } else if is_default_key(buyback_authority) || !buyback_account_acceptable(
            old(ctx).protocol,
            old(ctx).buyback_usdc_account,
            buyback_authority,
        ) {
            Err(CoreError::InvalidParameter)
        } else {
            Ok(())
        }),
        r is Ok ==> final(ctx).protocol == (Protocol {
            buyback_authority,
            buyback_usdc_account: old(ctx).buyback_usdc_account.key,
            ..old(ctx).protocol
        }),
        r is Err ==> *final(ctx) == *old(ctx),
        final(ctx).buyback_usdc_account == old(ctx).buyback_usdc_account,
        final(ctx).authority == old(ctx).authority,
{
    assert_authority(&ctx.protocol, &ctx.authority)?;
    if key_is_default(&buyback_authority) {
        return Err(CoreError::InvalidParameter);
    }
    let account = ctx.buyback_usdc_account;
    let p = ctx.protocol;
    if !keys_eq(&account.owner, &buyback_authority) {
        return Err(CoreError::InvalidParameter);
    }
    if keys_eq(&account.key, &p.psm_usdc_vault) || keys_eq(&account.key, &p.insurance_nusd_vault)
        || keys_eq(&account.key, &p.staker_revenue_nusd_vault) || keys_eq(
        &account.key,
        &p.protocol_revenue_nusd_vault,
    ) {
        return Err(CoreError::InvalidParameter);
    }
    ctx.protocol.buyback_authority = buyback_authority;
    ctx.protocol.buyback_usdc_account = account.key;
    Ok(())
}

/// A collateral market, changed by the protocol authority.
#[derive(Debug, Clone, Copy, PartialEq, Eq)]
pub struct MutateCollateral {
    pub protocol: Protocol,
    pub protocol_key: Pubkey,
    pub collateral_config: CollateralConfig,
    pub authority: Pubkey,
}

/// The authority signs, and the market belongs to this protocol.
pub open spec fn collateral_mutation_allowed(ctx: MutateCollateral) -> Result<(), CoreError> {
    if ctx.protocol.authority@ != ctx.authority@ {
        Err(CoreError::Unauthorized)
    } else if ctx.collateral_config.protocol@ != ctx.protocol_key@ {
        Err(CoreError::InvalidParameter)
    } else {
        Ok(())
    }
}

fn check_collateral_mutation(ctx: &MutateCollateral) -> (r: Result<(), CoreError>)
    ensures
        r == collateral_mutation_allowed(*ctx),
{
    assert_authority(&ctx.protocol, &ctx.authority)?;
    if !keys_eq(&ctx.collateral_config.protocol, &ctx.protocol_key) {
        return Err(CoreError::InvalidParameter);
    }
    Ok(())
}

pub fn set_collateral_paused(
    ctx: &mut MutateCollateral,
    deposits_paused: bool,
    borrows_paused: bool,
    withdraws_paused: bool,
) -> (r: Result<(), CoreError>)
    ensures
        r == collateral_mutation_allowed(*old(ctx)),
        r is Ok ==> *final(ctx) == (MutateCollateral {
            collateral_config: CollateralConfig {
                deposits_paused,
                borrows_paused,
                withdraws_paused,
                ..old(ctx).collateral_config
            },
            ..*old(ctx)
        }),
        r is Err ==> *final(ctx) == *old(ctx),
{
    check_collateral_mutation(ctx)?;
    ctx.collateral_config.deposits_paused = deposits_paused;
    ctx.collateral_config.borrows_paused = borrows_paused;
    ctx.collateral_config.withdraws_paused = withdraws_paused;
    Ok(())
}

#[derive(Debug, Clone, Copy, PartialEq, Eq)]
pub struct TripCollateralVaultCoverageBreaker {
    pub protocol: Protocol,
    pub protocol_key: Pubkey,
    pub collateral_config: CollateralConfig,
    pub collateral_vault: TokenAccountState,
}

/// Anyone may pause a market whose collateral vault no longer covers the
/// recorded deposits or is frozen.
pub fn trip_collateral_vault_coverage_breaker(ctx: &mut TripCollateralVaultCoverageBreaker) -> (r:
    Result<(), CoreError>)
    ensures
        r == (if old(ctx).collateral_config.protocol@ != old(ctx).protocol_key@
            || old(ctx).collateral_vault.key@ != old(ctx).collateral_config.collateral_vault@
            || !(old(ctx).collateral_vault.is_frozen || (old(ctx).collateral_vault.amount as u128)
            < old(ctx).collateral_config.total_deposits_raw) {
            Err(CoreError::InvalidParameter)
        } else {
            Ok(())
        }),
        r is Ok ==> *final(ctx) == (TripCollateralVaultCoverageBreaker {
            collateral_config: CollateralConfig {
                deposits_paused: true,
                borrows_paused: true,
                withdraws_paused: true,
                ..old(ctx).collateral_config
            },
            ..*old(ctx)
        }),
        r is Err ==> *final(ctx) == *old(ctx),
{
    if !keys_eq(&ctx.collateral_config.protocol, &ctx.protocol_key) || !keys_eq(
        &ctx.collateral_vault.key,
        &ctx.collateral_config.collateral_vault,
    ) {
        return Err(CoreError::InvalidParameter);
    }
    if !collateral_vault_coverage_broken(
        ctx.collateral_vault.amount,
        ctx.collateral_config.total_deposits_raw,
        ctx.collateral_vault.is_frozen,
    ) {
        return Err(CoreError::InvalidParameter);
    }
    ctx.collateral_config.deposits_paused = true;
    ctx.collateral_config.borrows_paused = true;
    ctx.collateral_config.withdraws_paused = true;
    Ok(())
}

#[derive(Debug, Clone, Copy, PartialEq, Eq)]
pub struct TripCollateralEmergencyBreaker {
    pub protocol: Protocol,
    pub protocol_key: Pubkey,
    pub collateral_config: CollateralConfig,
    pub liquidator: Pubkey,
}

/// The liquidation authority may pause a market outright.
pub fn trip_collateral_emergency_breaker(ctx: &mut TripCollateralEmergencyBreaker) -> (r: Result<
    (),
    CoreError,
>)
    ensures
        r == (if old(ctx).protocol.liquidation_authority@ != old(ctx).liquidator@ {
            Err(CoreError::Unauthorized)
        } else if old(ctx).collateral_config.protocol@ != old(ctx).protocol_key@ {
            Err(CoreError::InvalidParameter)
        } else {
            Ok(())
        }),
        r is Ok ==> *final(ctx) == (TripCollateralEmergencyBreaker {
            collateral_config: CollateralConfig {
                deposits_paused: true,
                borrows_paused: true,
                withdraws_paused: true,
                ..old(ctx).collateral_config
            },
            ..*old(ctx)
        }),
        r is Err ==> *final(ctx) == *old(ctx),
{
    if !keys_eq(&ctx.protocol.liquidation_authority, &ctx.liquidator) {
        return Err(CoreError::Unauthorized);
    }
    if !keys_eq(&ctx.collateral_config.protocol, &ctx.protocol_key) {
        return Err(CoreError::InvalidParameter);
    }
    ctx.collateral_config.deposits_paused = true;
    ctx.collateral_config.borrows_paused = true;
    ctx.collateral_config.withdraws_paused = true;
    Ok(())
}

/// Risk parameters: 0 < LTV < liquidation threshold < 100%, and a positive
/// penalty and close factor of at most 100%.
pub open spec fn risk_params_valid(
    borrow_ltv_bps: u16,
    liquidation_threshold_bps: u16,
    liquidation_penalty_bps: u16,
    close_factor_bps: u16,
) -> bool {
    &&& 0 < borrow_ltv_bps < liquidation_threshold_bps < 10_000
    &&& 0 < liquidation_penalty_bps <= 10_000
    &&& 0 < close_factor_bps <= 10_000
}

pub fn set_collateral_risk_params(
    ctx: &mut MutateCollateral,
    borrow_ltv_bps: u16,
    liquidation_threshold_bps: u16,
    liquidation_penalty_bps: u16,
    close_factor_bps: u16,
) -> (r: Result<(), CoreError>)
    ensures
        r == (match collateral_mutation_allowed(*old(ctx)) {
            Err(e) => Err(e),
            Ok(_) => if risk_params_valid(
                borrow_ltv_bps,
                liquidation_threshold_bps,
                liquidation_penalty_bps,
                close_factor_bps,
            ) {
                Ok(())
            } else {
                Err(CoreError::InvalidParameter)
            },
        }),
        r is Ok ==> *final(ctx) == (MutateCollateral {
            collateral_config: CollateralConfig {
                borrow_ltv_bps,
                liquidation_threshold_bps,
                liquidation_penalty_bps,
                close_factor_bps,
                ..old(ctx).collateral_config
            },
            ..*old(ctx)
        }),
        r is Err ==> *final(ctx) == *old(ctx),
{
    check_collateral_mutation(ctx)?;
    if !(borrow_ltv_bps > 0 && borrow_ltv_bps < liquidation_threshold_bps
        && liquidation_threshold_bps < 10_000u16 && liquidation_penalty_bps > 0
        && liquidation_penalty_bps <= 10_000u16 && close_factor_bps > 0 && close_factor_bps
        <= 10_000u16) {
        return Err(CoreError::InvalidParameter);
    }
    ctx.collateral_config.borrow_ltv_bps = borrow_ltv_bps;
    ctx.collateral_config.liquidation_threshold_bps = liquidation_threshold_bps;
    ctx.collateral_config.liquidation_penalty_bps = liquidation_penalty_bps;
    ctx.collateral_config.close_factor_bps = close_factor_bps;
    Ok(())
}

pub fn set_collateral_caps(
    ctx: &mut MutateCollateral,
    per_vault_debt_cap: u128,
    protocol_debt_cap: u128,
    deposit_cap_raw: u128,
) -> (r: Result<(), CoreError>)
    ensures
        r == (match collateral_mutation_allowed(*old(ctx)) {
            Err(e) => Err(e),
            Ok(_) => if per_vault_debt_cap > 0 && protocol_debt_cap > 0 && deposit_cap_raw > 0 {
                Ok(())
            } else {
                Err(CoreError::InvalidParameter)
            },
        }),
        r is Ok ==> *final(ctx) == (MutateCollateral {
            collateral_config: CollateralConfig {
                per_vault_debt_cap,
                protocol_debt_cap,
                deposit_cap_raw,
                ..old(ctx).collateral_config
            },
            ..*old(ctx)
        }),
        r is Err ==> *final(ctx) == *old(ctx),
{
    check_collateral_mutation(ctx)?;
    if !(per_vault_debt_cap > 0 && protocol_debt_cap > 0 && deposit_cap_raw > 0) {
        return Err(CoreError::InvalidParameter);
    }
    ctx.collateral_config.per_vault_debt_cap = per_vault_debt_cap;
    ctx.collateral_config.protocol_debt_cap = protocol_debt_cap;
    ctx.collateral_config.deposit_cap_raw = deposit_cap_raw;
    Ok(())
}

/// Points a market at a new xStock feed and price policy, clearing the
/// retired oracle slots.
pub fn set_collateral_oracle_params(
    ctx: &mut MutateCollateral,
    xstock_usd_feed_id: [u8; 32],
    max_confidence_bps: u16,
    max_staleness_seconds: i64,
) -> (r: Result<(), CoreError>)
    ensures
        r == (match collateral_mutation_allowed(*old(ctx)) {
            Err(e) => Err(e),
            Ok(_) => if 0 < max_confidence_bps <= 10_000 && 0 < max_staleness_seconds
                <= MAX_XSTOCK_PRICE_STALENESS_SECONDS && !is_zero_key(xstock_usd_feed_id) {
                Ok(())
            } else {
                Err(CoreError::InvalidParameter)
            },
        }),
        r is Ok ==> *final(ctx) == (MutateCollateral {
            collateral_config: CollateralConfig {
                xstock_usd_feed_id,
                reserved_underlying_usd_feed_id: crate::accounts::DEFAULT_PUBKEY,
                reserved_redemption_rate_feed_id: crate::accounts::DEFAULT_PUBKEY,
                max_confidence_bps,
                max_staleness_seconds,
                reserved_closed_market_max_staleness_seconds: 0,
                reserved_underlying_closed_market_max_staleness_seconds: 0,
                reserved_closed_market_haircut_bps: 0,
                ..old(ctx).collateral_config
            },
            ..*old(ctx)
        }),
        r is Err ==> *final(ctx) == *old(ctx),
{
    check_collateral_mutation(ctx)?;
    if !(max_confidence_bps > 0 && max_confidence_bps <= 10_000u16 && max_staleness_seconds > 0
        && max_staleness_seconds <= MAX_XSTOCK_PRICE_STALENESS_SECONDS) {
        return Err(CoreError::InvalidParameter);
    }
    validate_collateral_feed_config(&xstock_usd_feed_id)?;
    ctx.collateral_config.xstock_usd_feed_id = xstock_usd_feed_id;
    ctx.collateral_config.reserved_underlying_usd_feed_id = crate::accounts::DEFAULT_PUBKEY;
    ctx.collateral_config.reserved_redemption_rate_feed_id = crate::accounts::DEFAULT_PUBKEY;
    ctx.collateral_config.max_confidence_bps = max_confidence_bps;
    ctx.collateral_config.max_staleness_seconds = max_staleness_seconds;
    ctx.collateral_config.reserved_closed_market_max_staleness_seconds = 0;
    ctx.collateral_config.reserved_underlying_closed_market_max_staleness_seconds = 0;
    ctx.collateral_config.reserved_closed_market_haircut_bps = 0;
    Ok(())
}

} // verus!
