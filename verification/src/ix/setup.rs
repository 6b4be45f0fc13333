use vstd::prelude::*;

use crate::accounts::{
    is_default_key, keys_eq, AddCollateralParams, CollateralConfig, InitializeProtocolParams,
    Protocol, Pubkey, Vault, DEFAULT_PUBKEY, SPL_TOKEN_PROGRAM_ID,
};
use crate::constants::{INSURANCE_FEE_SHARE_BPS, INSURANCE_TARGET_BPS};
use crate::core_error::CoreError;
use crate::feeds::{is_zero_key, validate_collateral_feed_config, MAX_XSTOCK_PRICE_STALENESS_SECONDS};
use crate::ix::admin::{
    assert_authority, risk_params_valid, MAX_STAKER_CAPACITY_KAMINO_APR_BPS,
    MAX_STAKER_TARGET_APR_BPS, SECONDS_PER_DAY,
};
use crate::ledger::{require_token_account_unencumbered, unencumbered, TokenAccountState};
use crate::pda::{is_staking_state, is_staking_state_key};
use crate::readers::{valid_collateral_token_program, valid_kamino_program_id};

verus! {

pub const STABLECOIN_DECIMALS: u8 = 6;
pub const MAX_STABILITY_FEE_APR_BPS: u64 = 1_000;

/// The parts of a mint account the protocol checks.
#[derive(Debug, Clone, Copy, PartialEq, Eq)]
pub struct MintState {
    pub key: Pubkey,
    pub owner: Pubkey,
    pub decimals: u8,
    pub supply: u64,
    pub mint_authority: Option<Pubkey>,
    pub freeze_authority: Option<Pubkey>,
}

/// Neither vault of a new market may be one of the protocol's value vaults.
pub open spec fn no_value_vault_alias(p: Protocol, a: Pubkey, b: Pubkey) -> bool {
    &&& a@ != p.psm_usdc_vault@ && a@ != p.insurance_nusd_vault@
    &&& a@ != p.staker_revenue_nusd_vault@ && a@ != p.protocol_revenue_nusd_vault@
    &&& b@ != p.psm_usdc_vault@ && b@ != p.insurance_nusd_vault@
    &&& b@ != p.staker_revenue_nusd_vault@ && b@ != p.protocol_revenue_nusd_vault@
}

pub fn require_no_protocol_value_vault_aliases(
    protocol: &Protocol,
    collateral_vault: &Pubkey,
    insurance_collateral_vault: &Pubkey,
) -> (r: Result<(), CoreError>)
    ensures
        r == (if no_value_vault_alias(*protocol, *collateral_vault, *insurance_collateral_vault) {
            Ok(())
        } else {
            Err(CoreError::InvalidParameter)
        }),
{
    let values: [Pubkey; 4] = [
        protocol.psm_usdc_vault,
        protocol.insurance_nusd_vault,
        protocol.staker_revenue_nusd_vault,
        protocol.protocol_revenue_nusd_vault,
    ];
    let mut i: usize = 0;
    while i < 4
        invariant
            i <= 4,
            values@ == seq![
                protocol.psm_usdc_vault,
                protocol.insurance_nusd_vault,
                protocol.staker_revenue_nusd_vault,
                protocol.protocol_revenue_nusd_vault,
            ],
            forall|j: int|
                0 <= j < i ==> #[trigger] values@[j]@ != collateral_vault@ && values@[j]@
                    != insurance_collateral_vault@,
        decreases 4 - i,
    {
        if keys_eq(collateral_vault, &values[i]) || keys_eq(insurance_collateral_vault, &values[i]) {
            assert(values@[i as int] == values[i as int]);
            return Err(CoreError::InvalidParameter);
        }
        i = i + 1;
    }
    assert(values@[0]@ != collateral_vault@ && values@[1]@ != collateral_vault@);
    assert(values@[2]@ != collateral_vault@ && values@[3]@ != collateral_vault@);
    Ok(())
}

/// The four protocol vaults are pairwise distinct.
pub open spec fn distinct_vaults(a: Pubkey, b: Pubkey, c: Pubkey, d: Pubkey) -> bool {
    a@ != b@ && a@ != c@ && a@ != d@ && b@ != c@ && b@ != d@ && c@ != d@
}

pub fn require_distinct_protocol_init_vaults(
    psm_usdc_vault: &Pubkey,
    insurance_nusd_vault: &Pubkey,
    staker_revenue_nusd_vault: &Pubkey,
    protocol_revenue_nusd_vault: &Pubkey,
) -> (r: Result<(), CoreError>)
    ensures
        r == (if distinct_vaults(
            *psm_usdc_vault,
            *insurance_nusd_vault,
            *staker_revenue_nusd_vault,
            *protocol_revenue_nusd_vault,
        ) {
            Ok(())
        } else {
            Err(CoreError::InvalidParameter)
        }),
{
    if keys_eq(psm_usdc_vault, insurance_nusd_vault) || keys_eq(
        psm_usdc_vault,
        staker_revenue_nusd_vault,
    ) || keys_eq(psm_usdc_vault, protocol_revenue_nusd_vault) || keys_eq(
        insurance_nusd_vault,
        staker_revenue_nusd_vault,
    ) || keys_eq(insurance_nusd_vault, protocol_revenue_nusd_vault) || keys_eq(
        staker_revenue_nusd_vault,
        protocol_revenue_nusd_vault,
    ) {
        return Err(CoreError::InvalidParameter);
    }
    Ok(())
}

/// Accounts of protocol initialization.
#[derive(Debug, Clone, Copy, PartialEq, Eq)]
pub struct InitializeProtocol {
    pub protocol: Protocol,
    pub protocol_key: Pubkey,
    pub protocol_bump: u8,
    pub nusd_mint: MintState,
    pub usdc_mint: MintState,
    pub psm_usdc_vault: TokenAccountState,
    pub insurance_nusd_vault: TokenAccountState,
    pub staker_revenue_nusd_vault: TokenAccountState,
    pub protocol_revenue_nusd_vault: TokenAccountState,
    pub staker_revenue_authority: Pubkey,
    pub authority: Pubkey,
    pub usdc_token_program: Pubkey,
    pub nusd_token_program: Pubkey,
}

pub open spec fn protocol_params_valid(params: InitializeProtocolParams) -> bool {
    &&& params.psm_cap > 0 && params.protocol_debt_cap > 0
    &&& params.stability_fee_apr_bps <= MAX_STABILITY_FEE_APR_BPS
    &&& params.staker_target_apr_bps <= MAX_STAKER_TARGET_APR_BPS
    &&& params.staker_capacity_kamino_apr_bps <= MAX_STAKER_CAPACITY_KAMINO_APR_BPS
    &&& params.psm_swap_in_fee_bps == 0 && params.psm_swap_out_fee_bps == 0
    &&& (params.kamino_program_id@ == crate::accounts::KLEND_PROGRAM_ID@ || params.kamino_program_id@
        == crate::accounts::KLEND_STAGING_PROGRAM_ID@)
}

/// The accounts are fit to start a protocol: empty, unencumbered, distinct
/// vaults; six-decimal SPL mints; a fresh nUSD mint that only the protocol
/// may mint and nobody may freeze; nest-stake's state as revenue authority.
pub open spec fn protocol_accounts_valid(ctx: InitializeProtocol) -> bool {
    &&& ctx.psm_usdc_vault.amount == 0 && ctx.insurance_nusd_vault.amount == 0
    &&& ctx.staker_revenue_nusd_vault.amount == 0 && ctx.protocol_revenue_nusd_vault.amount == 0
    &&& unencumbered(ctx.psm_usdc_vault) && unencumbered(ctx.insurance_nusd_vault)
    &&& unencumbered(ctx.staker_revenue_nusd_vault) && unencumbered(ctx.protocol_revenue_nusd_vault)
    &&& distinct_vaults(
        ctx.psm_usdc_vault.key,
        ctx.insurance_nusd_vault.key,
        ctx.staker_revenue_nusd_vault.key,
        ctx.protocol_revenue_nusd_vault.key,
    )
    &&& ctx.nusd_mint.decimals == STABLECOIN_DECIMALS && ctx.usdc_mint.decimals == STABLECOIN_DECIMALS
    &&& ctx.nusd_mint.supply == 0
    &&& ctx.nusd_token_program@ == SPL_TOKEN_PROGRAM_ID@ && ctx.usdc_token_program@
        == SPL_TOKEN_PROGRAM_ID@
    &&& ctx.nusd_mint.mint_authority == Some(ctx.protocol_key)
    &&& ctx.nusd_mint.freeze_authority is None
    &&& ctx.nusd_mint.owner@ == ctx.nusd_token_program@ && ctx.usdc_mint.owner@
        == ctx.usdc_token_program@
    &&& is_staking_state(ctx.staker_revenue_authority)
}

/// The protocol state right after initialization.
pub open spec fn initial_protocol(ctx: InitializeProtocol, params: InitializeProtocolParams, now: i64) -> Protocol {
    Protocol {
        authority: ctx.authority,
        liquidation_authority: ctx.authority,
        nusd_mint: ctx.nusd_mint.key,
        usdc_mint: ctx.usdc_mint.key,
        psm_usdc_vault: ctx.psm_usdc_vault.key,
        insurance_nusd_vault: ctx.insurance_nusd_vault.key,
        staker_revenue_nusd_vault: ctx.staker_revenue_nusd_vault.key,
        staker_revenue_authority: ctx.staker_revenue_authority,
        total_debt: 0,
        total_uncollected_fees: 0,
        realized_revenue_for_stakers: 0,
        insurance_fund_nusd: 0,
        bad_debt_nusd: 0,
        psm_usdc_liabilities: 0,
        psm_nusd_supply: 0,
        psm_idle_usdc: 0,
        psm_kamino_deployed_usdc: 0,
        psm_kamino_collateral_vault: DEFAULT_PUBKEY,
        psm_cap: params.psm_cap,
        protocol_debt_cap: params.protocol_debt_cap,
        stability_fee_apr_bps: params.stability_fee_apr_bps,
        psm_swap_in_fee_bps: params.psm_swap_in_fee_bps,
        psm_swap_out_fee_bps: params.psm_swap_out_fee_bps,
        kamino_program_id: params.kamino_program_id,
        insurance_target_bps: INSURANCE_TARGET_BPS,
        insurance_fee_share_bps: INSURANCE_FEE_SHARE_BPS,
        staker_revenue_accounting_initialized: true,
        paused: false,
        bump: ctx.protocol_bump,
        protocol_revenue_nusd_vault: ctx.protocol_revenue_nusd_vault.key,
        realized_revenue_for_protocol: 0,
        staker_target_revenue_due: 0,
        staker_target_last_accrual_ts: now,
        staker_target_apr_bps: params.staker_target_apr_bps,
        staker_capacity_kamino_apr_bps: params.staker_capacity_kamino_apr_bps,
        pending_liquidation_principal: 0,
        pending_liquidation_fees: 0,
        psm_outflow_window_start_ts: 0,
        psm_outflow_window_usdc: 0,
        psm_outflow_limit_usdc: 0,
        psm_outflow_limit_bps: 0,
        psm_outflow_window_seconds: SECONDS_PER_DAY,
        psm_outflow_circuit_breaker_enabled: false,
        psm_outflow_window_basis_usdc: 0,
        buyback_authority: DEFAULT_PUBKEY,
        buyback_usdc_account: DEFAULT_PUBKEY,
    }
}

fn option_key_is(value: &Option<Pubkey>, key: &Pubkey) -> (r: bool)
    ensures
        r == (*value == Some(*key)),
{
    match value {
        Some(k) => {
            let same = keys_eq(k, key);
            proof {
                if same {
                    assert(k@ =~= key@);
                    assert(*k =~= *key);
                }
            }
            same
        },
        None => false,
    }
}

pub fn initialize_protocol(
    ctx: &mut InitializeProtocol,
    params: InitializeProtocolParams,
    now: i64,
) -> (r: Result<(), CoreError>)
    ensures
        r == (if protocol_params_valid(params) && protocol_accounts_valid(*old(ctx)) {
            Ok(())
        } else {
            Err(CoreError::InvalidParameter)
        }),
        r is Ok ==> *final(ctx) == (InitializeProtocol {
            protocol: initial_protocol(*old(ctx), params, now),
            ..*old(ctx)
        }),
        r is Err ==> *final(ctx) == *old(ctx),
{
    if !(params.psm_cap > 0 && params.protocol_debt_cap > 0 && params.stability_fee_apr_bps
        <= MAX_STABILITY_FEE_APR_BPS && params.staker_target_apr_bps <= MAX_STAKER_TARGET_APR_BPS
        && params.staker_capacity_kamino_apr_bps <= MAX_STAKER_CAPACITY_KAMINO_APR_BPS
        && params.psm_swap_in_fee_bps == 0 && params.psm_swap_out_fee_bps == 0
        && valid_kamino_program_id(&params.kamino_program_id)) {
        return Err(CoreError::InvalidParameter);
    }
    if !(ctx.psm_usdc_vault.amount == 0 && ctx.insurance_nusd_vault.amount == 0
        && ctx.staker_revenue_nusd_vault.amount == 0 && ctx.protocol_revenue_nusd_vault.amount
        == 0) {
        return Err(CoreError::InvalidParameter);
    }
    require_token_account_unencumbered(&ctx.psm_usdc_vault)?;
    require_token_account_unencumbered(&ctx.insurance_nusd_vault)?;
    require_token_account_unencumbered(&ctx.staker_revenue_nusd_vault)?;
    require_token_account_unencumbered(&ctx.protocol_revenue_nusd_vault)?;
    require_distinct_protocol_init_vaults(
        &ctx.psm_usdc_vault.key,
        &ctx.insurance_nusd_vault.key,
        &ctx.staker_revenue_nusd_vault.key,
        &ctx.protocol_revenue_nusd_vault.key,
    )?;
    if !(ctx.nusd_mint.decimals == STABLECOIN_DECIMALS && ctx.usdc_mint.decimals
        == STABLECOIN_DECIMALS) || ctx.nusd_mint.supply != 0 {
        return Err(CoreError::InvalidParameter);
    }
    if !keys_eq(&ctx.nusd_token_program, &SPL_TOKEN_PROGRAM_ID) || !keys_eq(
        &ctx.usdc_token_program,
        &SPL_TOKEN_PROGRAM_ID,
    ) {
        return Err(CoreError::InvalidParameter);
    }
    if !option_key_is(&ctx.nusd_mint.mint_authority, &ctx.protocol_key)
        || ctx.nusd_mint.freeze_authority.is_some() {
        return Err(CoreError::InvalidParameter);
    }
    if !keys_eq(&ctx.nusd_mint.owner, &ctx.nusd_token_program) || !keys_eq(
        &ctx.usdc_mint.owner,
        &ctx.usdc_token_program,
    ) {
        return Err(CoreError::InvalidParameter);
    }
    if !is_staking_state_key(&ctx.staker_revenue_authority) {
        return Err(CoreError::InvalidParameter);
    }
    ctx.protocol = Protocol {
        authority: ctx.authority,
        liquidation_authority: ctx.authority,
        nusd_mint: ctx.nusd_mint.key,
        usdc_mint: ctx.usdc_mint.key,
        psm_usdc_vault: ctx.psm_usdc_vault.key,
        insurance_nusd_vault: ctx.insurance_nusd_vault.key,
        staker_revenue_nusd_vault: ctx.staker_revenue_nusd_vault.key,
        staker_revenue_authority: ctx.staker_revenue_authority,
        total_debt: 0,
        total_uncollected_fees: 0,
        realized_revenue_for_stakers: 0,
        insurance_fund_nusd: 0,
        bad_debt_nusd: 0,
        psm_usdc_liabilities: 0,
        psm_nusd_supply: 0,
        psm_idle_usdc: 0,
        psm_kamino_deployed_usdc: 0,
        psm_kamino_collateral_vault: DEFAULT_PUBKEY,
        psm_cap: params.psm_cap,
        protocol_debt_cap: params.protocol_debt_cap,
        stability_fee_apr_bps: params.stability_fee_apr_bps,
        psm_swap_in_fee_bps: params.psm_swap_in_fee_bps,
        psm_swap_out_fee_bps: params.psm_swap_out_fee_bps,
        kamino_program_id: params.kamino_program_id,
        insurance_target_bps: INSURANCE_TARGET_BPS,
        insurance_fee_share_bps: INSURANCE_FEE_SHARE_BPS,
        staker_revenue_accounting_initialized: true,
        paused: false,
        bump: ctx.protocol_bump,
        protocol_revenue_nusd_vault: ctx.protocol_revenue_nusd_vault.key,
        realized_revenue_for_protocol: 0,
        staker_target_revenue_due: 0,
        staker_target_last_accrual_ts: now,
        staker_target_apr_bps: params.staker_target_apr_bps,
        staker_capacity_kamino_apr_bps: params.staker_capacity_kamino_apr_bps,
        pending_liquidation_principal: 0,
        pending_liquidation_fees: 0,
        psm_outflow_window_start_ts: 0,
        psm_outflow_window_usdc: 0,
        psm_outflow_limit_usdc: 0,
        psm_outflow_limit_bps: 0,
        psm_outflow_window_seconds: SECONDS_PER_DAY,
        psm_outflow_circuit_breaker_enabled: false,
        psm_outflow_window_basis_usdc: 0,
        buyback_authority: DEFAULT_PUBKEY,
        buyback_usdc_account: DEFAULT_PUBKEY,
    };
    Ok(())
}

/// Accounts of adding a collateral market.
#[derive(Debug, Clone, Copy, PartialEq, Eq)]
pub struct AddCollateral {
    pub protocol: Protocol,
    pub protocol_key: Pubkey,
    pub collateral_config: CollateralConfig,
    pub collateral_config_bump: u8,
    pub collateral_mint: MintState,
    pub collateral_vault: TokenAccountState,
    pub insurance_collateral_vault: TokenAccountState,
    pub authority: Pubkey,
    pub collateral_token_program: Pubkey,
}

/// Market parameters: 1 to 18 decimals, valid risk parameters, a
/// confidence bound of at most 100%, staleness within two minutes, an SPL or
/// Token-2022 mint, and positive caps.
pub open spec fn collateral_params_valid(params: AddCollateralParams) -> bool {
    &&& 0 < params.collateral_decimals <= 18
    &&& risk_params_valid(
        params.borrow_ltv_bps,
        params.liquidation_threshold_bps,
        params.liquidation_penalty_bps,
        params.close_factor_bps,
    )
    &&& 0 < params.max_confidence_bps <= 10_000
    &&& 0 < params.max_staleness_seconds <= MAX_XSTOCK_PRICE_STALENESS_SECONDS
    &&& (params.token_program@ == SPL_TOKEN_PROGRAM_ID@ || params.token_program@
        == crate::accounts::TOKEN_2022_PROGRAM_ID@)
    &&& params.per_vault_debt_cap > 0 && params.protocol_debt_cap > 0 && params.deposit_cap_raw > 0
}

/// The market's accounts: the configured mint and token program, two
/// distinct empty unencumbered vaults that are not protocol value vaults.
pub open spec fn collateral_accounts_valid(ctx: AddCollateral, params: AddCollateralParams) -> bool {
    &&& ctx.collateral_mint.key@ == params.collateral_mint@
    &&& ctx.collateral_token_program@ == params.token_program@
    &&& ctx.collateral_mint.decimals == params.collateral_decimals
    &&& ctx.collateral_vault.key@ != ctx.insurance_collateral_vault.key@
    &&& no_value_vault_alias(ctx.protocol, ctx.collateral_vault.key, ctx.insurance_collateral_vault.key)
    &&& ctx.collateral_vault.amount == 0 && ctx.insurance_collateral_vault.amount == 0
    &&& unencumbered(ctx.collateral_vault) && unencumbered(ctx.insurance_collateral_vault)
    &&& ctx.collateral_mint.owner@ == ctx.collateral_token_program@
}

/// The new market's configuration.
pub open spec fn initial_collateral_config(ctx: AddCollateral, params: AddCollateralParams) -> CollateralConfig {
    CollateralConfig {
        protocol: ctx.protocol_key,
        collateral_mint: ctx.collateral_mint.key,
        collateral_vault: ctx.collateral_vault.key,
        insurance_collateral_vault: ctx.insurance_collateral_vault.key,
        token_program: ctx.collateral_token_program,
        symbol: params.symbol,
        collateral_decimals: params.collateral_decimals,
        xstock_usd_feed_id: params.xstock_usd_feed_id,
        reserved_underlying_usd_feed_id: DEFAULT_PUBKEY,
        reserved_redemption_rate_feed_id: DEFAULT_PUBKEY,
        borrow_ltv_bps: params.borrow_ltv_bps,
        liquidation_threshold_bps: params.liquidation_threshold_bps,
        liquidation_penalty_bps: params.liquidation_penalty_bps,
        close_factor_bps: params.close_factor_bps,
        max_confidence_bps: params.max_confidence_bps,
        max_staleness_seconds: params.max_staleness_seconds,
        reserved_closed_market_max_staleness_seconds: 0,
        reserved_underlying_closed_market_max_staleness_seconds: 0,
        reserved_closed_market_haircut_bps: 0,
        per_vault_debt_cap: params.per_vault_debt_cap,
        protocol_debt_cap: params.protocol_debt_cap,
        deposit_cap_raw: params.deposit_cap_raw,
        total_debt: 0,
        total_deposits_raw: 0,
        deposits_paused: false,
        borrows_paused: false,
        withdraws_paused: false,
        bump: ctx.collateral_config_bump,
    }
}

pub fn add_collateral(ctx: &mut AddCollateral, params: AddCollateralParams) -> (r: Result<
    (),
    CoreError,
>)
    ensures
        r == (if old(ctx).protocol.authority@ != old(ctx).authority@ {
            Err(CoreError::Unauthorized)
        } else if !is_zero_key(params.xstock_usd_feed_id) && collateral_params_valid(params)
            && collateral_accounts_valid(*old(ctx), params) {
            Ok(())
        } else {
            Err(CoreError::InvalidParameter)
        }),
        r is Ok ==> *final(ctx) == (AddCollateral {
            collateral_config: initial_collateral_config(*old(ctx), params),
            ..*old(ctx)
        }),
        r is Err ==> *final(ctx) == *old(ctx),
{
    assert_authority(&ctx.protocol, &ctx.authority)?;
    validate_collateral_feed_config(&params.xstock_usd_feed_id)?;
    if !(params.collateral_decimals > 0 && params.collateral_decimals <= 18
        && params.borrow_ltv_bps > 0 && params.borrow_ltv_bps < params.liquidation_threshold_bps
        && params.liquidation_threshold_bps < 10_000u16 && params.liquidation_penalty_bps > 0
        && params.liquidation_penalty_bps <= 10_000u16 && params.close_factor_bps > 0
        && params.close_factor_bps <= 10_000u16 && params.max_confidence_bps > 0
        && params.max_confidence_bps <= 10_000u16 && params.max_staleness_seconds > 0
        && params.max_staleness_seconds <= MAX_XSTOCK_PRICE_STALENESS_SECONDS
        && valid_collateral_token_program(&params.token_program) && params.per_vault_debt_cap > 0
        && params.protocol_debt_cap > 0 && params.deposit_cap_raw > 0) {
        return Err(CoreError::InvalidParameter);
    }
    if !keys_eq(&ctx.collateral_mint.key, &params.collateral_mint) || !keys_eq(
        &ctx.collateral_token_program,
        &params.token_program,
    ) {
        return Err(CoreError::InvalidParameter);
    }
    if !(ctx.collateral_mint.decimals == params.collateral_decimals) || keys_eq(
        &ctx.collateral_vault.key,
        &ctx.insurance_collateral_vault.key,
    ) {
        return Err(CoreError::InvalidParameter);
    }
    require_no_protocol_value_vault_aliases(
        &ctx.protocol,
        &ctx.collateral_vault.key,
        &ctx.insurance_collateral_vault.key,
    )?;
    if !(ctx.collateral_vault.amount == 0 && ctx.insurance_collateral_vault.amount == 0) {
        return Err(CoreError::InvalidParameter);
    }
    require_token_account_unencumbered(&ctx.collateral_vault)?;
    require_token_account_unencumbered(&ctx.insurance_collateral_vault)?;
    if !keys_eq(&ctx.collateral_mint.owner, &ctx.collateral_token_program) {
        return Err(CoreError::InvalidParameter);
    }
    ctx.collateral_config = CollateralConfig {
        protocol: ctx.protocol_key,
        collateral_mint: ctx.collateral_mint.key,
        collateral_vault: ctx.collateral_vault.key,
        insurance_collateral_vault: ctx.insurance_collateral_vault.key,
        token_program: ctx.collateral_token_program,
        symbol: params.symbol,
        collateral_decimals: params.collateral_decimals,
        xstock_usd_feed_id: params.xstock_usd_feed_id,
        reserved_underlying_usd_feed_id: DEFAULT_PUBKEY,
        reserved_redemption_rate_feed_id: DEFAULT_PUBKEY,
        borrow_ltv_bps: params.borrow_ltv_bps,
        liquidation_threshold_bps: params.liquidation_threshold_bps,
        liquidation_penalty_bps: params.liquidation_penalty_bps,
        close_factor_bps: params.close_factor_bps,
        max_confidence_bps: params.max_confidence_bps,
        max_staleness_seconds: params.max_staleness_seconds,
        reserved_closed_market_max_staleness_seconds: 0,
        reserved_underlying_closed_market_max_staleness_seconds: 0,
        reserved_closed_market_haircut_bps: 0,
        per_vault_debt_cap: params.per_vault_debt_cap,
        protocol_debt_cap: params.protocol_debt_cap,
        deposit_cap_raw: params.deposit_cap_raw,
        total_debt: 0,
        total_deposits_raw: 0,
        deposits_paused: false,
        borrows_paused: false,
        withdraws_paused: false,
        bump: ctx.collateral_config_bump,
    };
    Ok(())
}

/// Accounts of opening a vault in a market.
#[derive(Debug, Clone, Copy, PartialEq, Eq)]
pub struct InitializeVault {
    pub collateral_config_key: Pubkey,
    pub vault: Vault,
    pub vault_bump: u8,
    pub owner: Pubkey,
}

/// Opens an empty vault for `owner`, accruing from `now`.
pub fn initialize_vault(ctx: &mut InitializeVault, now: i64) -> (r: Result<(), CoreError>)
    ensures
        r is Ok,
        *final(ctx) == (InitializeVault {
            vault: Vault {
                owner: old(ctx).owner,
                collateral_config: old(ctx).collateral_config_key,
                collateral_raw: 0,
                principal_debt: 0,
                accrued_fee: 0,
                last_accrual_ts: now,
                bump: old(ctx).vault_bump,
            },
            ..*old(ctx)
        }),
{
    ctx.vault = Vault {
        owner: ctx.owner,
        collateral_config: ctx.collateral_config_key,
        collateral_raw: 0,
        principal_debt: 0,
        accrued_fee: 0,
        last_accrual_ts: now,
        bump: ctx.vault_bump,
    };
    Ok(())
}

} // verus!
