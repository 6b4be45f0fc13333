use vstd::prelude::*;

use crate::accounts::{keys_eq, CollateralConfig, LiquidationReceipt, OracleSnapshot, Protocol, Pubkey, Vault};
use crate::cdp::ProtocolAccounting;
use crate::constants::BPS_DENOMINATOR;
use crate::core_error::{core_error_of, map_core_error, CoreError};
use crate::feeds::{raw_token_safe_price_from_snapshot, spec_raw_token_safe_price};
use crate::ledger::{
    accrue_vault_fee, domain_params, domain_protocol, domain_vault, params_of, position_of,
    require_recorded_amount_covered, spec_accrue_vault_fee, u128_to_u64, TokenAccountState,
};
use crate::liquidation::{liquidate, max_liquidation_repay, spec_liquidate, spec_max_liquidation_repay};
use crate::ledger::{accounting_of, with_accounting};
use crate::feeds::{collateral_value_for_raw_from_snapshot, spec_collateral_value_from_snapshot};
use crate::revenue::{route_targeted_staker_revenue, spec_route_targeted_staker_revenue};
use crate::math::{min_u128, mul_div_up, spec_mul_div_up};
use crate::oracle::{
    collateral_raw_for_usd_value, collateral_value_usd, spec_collateral_raw_for_usd_value,
    spec_collateral_value_usd,
};
use crate::psm_ledger::{require_psm_accounting_invariants, spec_psm_accounting_invariants};
use crate::ix::admin::{spec_staking_assets, staking_assets, StakingStateAccountInfo};
use crate::revenue::{apply_realized_psm_yield_accounting, spec_apply_realized_psm_yield_accounting};

verus! {

/// Settled liquidation debt leaves the pending ledger and becomes USDC-backed
/// PSM liabilities, regardless of the voluntary PSM cap.
pub open spec fn spec_record_liquidation_debt_settlement(
    p: Protocol,
    principal_debt: u128,
    accrued_fee: u128,
) -> Result<Protocol, CoreError> {
    if p.pending_liquidation_principal < principal_debt || p.pending_liquidation_fees < accrued_fee
        || p.psm_usdc_liabilities + principal_debt > u128::MAX || p.psm_nusd_supply
        + principal_debt > u128::MAX || p.psm_idle_usdc + principal_debt > u128::MAX {
        Err(CoreError::MathOverflow)
    } else {
        Ok(
            Protocol {
                pending_liquidation_principal: (p.pending_liquidation_principal
                    - principal_debt) as u128,
                pending_liquidation_fees: (p.pending_liquidation_fees - accrued_fee) as u128,
                psm_usdc_liabilities: (p.psm_usdc_liabilities + principal_debt) as u128,
                psm_nusd_supply: (p.psm_nusd_supply + principal_debt) as u128,
                psm_idle_usdc: (p.psm_idle_usdc + principal_debt) as u128,
                ..p
            },
        )
    }
}

pub fn record_liquidation_debt_settlement(
    protocol: &mut Protocol,
    principal_debt: u128,
    accrued_fee: u128,
) -> (r: Result<(), CoreError>)
    ensures
        match spec_record_liquidation_debt_settlement(*old(protocol), principal_debt, accrued_fee) {
            Ok(p) => r is Ok && *final(protocol) == p,
            Err(e) => r == Err::<(), CoreError>(e) && *final(protocol) == *old(protocol),
        },
{
    if protocol.pending_liquidation_principal < principal_debt || protocol.pending_liquidation_fees
        < accrued_fee {
        return Err(CoreError::MathOverflow);
    }
    let liabilities = match protocol.psm_usdc_liabilities.checked_add(principal_debt) {
        Some(v) => v,
        None => {
            return Err(CoreError::MathOverflow);
        },
    };
    let supply = match protocol.psm_nusd_supply.checked_add(principal_debt) {
        Some(v) => v,
        None => {
            return Err(CoreError::MathOverflow);
        },
    };
    let idle = match protocol.psm_idle_usdc.checked_add(principal_debt) {
        Some(v) => v,
        None => {
            return Err(CoreError::MathOverflow);
        },
    };
    protocol.pending_liquidation_principal = protocol.pending_liquidation_principal - principal_debt;
    protocol.pending_liquidation_fees = protocol.pending_liquidation_fees - accrued_fee;
    protocol.psm_usdc_liabilities = liabilities;
    protocol.psm_nusd_supply = supply;
    protocol.psm_idle_usdc = idle;
    Ok(())
}

/// Issues `amount` of PSM nUSD against USDC that already sits in the vault
/// above recorded idle liquidity.
pub open spec fn psm_issue(p: Protocol, actual_psm_usdc: u64, amount: u128) -> Result<Protocol, CoreError> {
    if p.psm_idle_usdc + amount > u128::MAX {
        Err(CoreError::MathOverflow)
    } else if actual_psm_usdc < p.psm_idle_usdc + amount {
        Err(CoreError::PsmNoSurplus)
    } else if p.psm_usdc_liabilities + amount > u128::MAX || p.psm_nusd_supply + amount
        > u128::MAX {
        Err(CoreError::MathOverflow)
    } else {
        let q = Protocol {
            psm_usdc_liabilities: (p.psm_usdc_liabilities + amount) as u128,
            psm_nusd_supply: (p.psm_nusd_supply + amount) as u128,
            psm_idle_usdc: (p.psm_idle_usdc + amount) as u128,
            ..p
        };
        match spec_psm_accounting_invariants(q, actual_psm_usdc) {
            Err(e) => Err(e),
            Ok(_) => Ok(q),
        }
    }
}

fn issue_backed_psm_nusd(protocol: &mut Protocol, actual_psm_usdc: u64, amount: u128) -> (r: Result<
    (),
    CoreError,
>)
    ensures
        match psm_issue(*old(protocol), actual_psm_usdc, amount) {
            Ok(p) => r is Ok && *final(protocol) == p,
            Err(e) => r == Err::<(), CoreError>(e) && *final(protocol) == *old(protocol),
        },
{
    let idle = match protocol.psm_idle_usdc.checked_add(amount) {
        Some(v) => v,
        None => {
            return Err(CoreError::MathOverflow);
        },
    };
    if (actual_psm_usdc as u128) < idle {
        return Err(CoreError::PsmNoSurplus);
    }
    let liabilities = match protocol.psm_usdc_liabilities.checked_add(amount) {
        Some(v) => v,
        None => {
            return Err(CoreError::MathOverflow);
        },
    };
    let supply = match protocol.psm_nusd_supply.checked_add(amount) {
        Some(v) => v,
        None => {
            return Err(CoreError::MathOverflow);
        },
    };
    let mut q = *protocol;
    q.psm_usdc_liabilities = liabilities;
    q.psm_nusd_supply = supply;
    q.psm_idle_usdc = idle;
    require_psm_accounting_invariants(&q, actual_psm_usdc)?;
    *protocol = q;
    Ok(())
}

/// Sale proceeds above the settlement target belong to the borrower: they
/// are issued as PSM nUSD backed by the USDC received, outside the cap.
pub fn record_liquidation_borrower_surplus(protocol: &mut Protocol, actual_psm_usdc: u64, amount: u128) -> (r:
    Result<(), CoreError>)
    ensures
        amount == 0 ==> r == Err::<(), CoreError>(CoreError::InvalidParameter) && *final(protocol)
            == *old(protocol),
        amount > 0 ==> match psm_issue(*old(protocol), actual_psm_usdc, amount) {
            Ok(p) => r is Ok && *final(protocol) == p,
            Err(e) => r == Err::<(), CoreError>(e) && *final(protocol) == *old(protocol),
        },
{
    if amount == 0 {
        return Err(CoreError::InvalidParameter);
    }
    issue_backed_psm_nusd(protocol, actual_psm_usdc, amount)
}

/// Sale proceeds may retire recorded bad debt, issuing the matching PSM
/// nUSD against the USDC received, even while paused and beyond the cap.
pub fn record_liquidation_bad_debt_recovery(
    protocol: &mut Protocol,
    actual_psm_usdc: u64,
    amount: u128,
) -> (r: Result<(), CoreError>)
    ensures
        amount == 0 || amount > old(protocol).bad_debt_nusd ==> r == Err::<(), CoreError>(
            CoreError::InvalidParameter,
        ) && *final(protocol) == *old(protocol),
        0 < amount <= old(protocol).bad_debt_nusd ==> match psm_issue(
            Protocol {
                bad_debt_nusd: (old(protocol).bad_debt_nusd - amount) as u128,
                ..*old(protocol)
            },
            actual_psm_usdc,
            amount,
        ) {
            Ok(p) => r is Ok && *final(protocol) == p,
            Err(e) => r == Err::<(), CoreError>(e) && *final(protocol) == *old(protocol),
        },
{
    if amount == 0 || amount > protocol.bad_debt_nusd {
        return Err(CoreError::InvalidParameter);
    }
    let mut q = *protocol;
    let mut accounting = domain_protocol(&q);
    match accounting.cover_bad_debt(amount) {
        Ok(()) => {},
        Err(e) => {
            return Err(map_core_error(e));
        },
    }
    q.bad_debt_nusd = accounting.bad_debt_nusd;
    issue_backed_psm_nusd(&mut q, actual_psm_usdc, amount)?;
    *protocol = q;
    Ok(())
}

/// Settlement terms of a full liquidation: the target is debt plus the
/// penalty (rounded up); the floor is the target, or the collateral's value
/// when the collateral is worth less than the target.
pub open spec fn spec_full_liquidation_settlement_terms(
    vault_collateral_raw: u128,
    principal_debt: u128,
    accrued_fee: u128,
    collateral_decimals: u8,
    raw_token_safe_price_e8: u128,
    liquidation_penalty_bps: u16,
) -> Result<(u128, u128), CoreError> {
    let debt = principal_debt + accrued_fee;
    if vault_collateral_raw == 0 {
        Err(CoreError::InvalidParameter)
    } else if debt > u128::MAX {
        Err(CoreError::MathOverflow)
    } else if debt == 0 {
        Err(CoreError::InvalidParameter)
    } else {
        match spec_mul_div_up(debt as u128, liquidation_penalty_bps as u128, 10_000) {
            Err(e) => Err(core_error_of(e)),
            Ok(penalty) => if debt + penalty > u128::MAX {
                Err(CoreError::MathOverflow)
            } else {
                let target = (debt + penalty) as u128;
                match spec_collateral_raw_for_usd_value(target, collateral_decimals, raw_token_safe_price_e8) {
                    Err(e) => Err(core_error_of(e)),
                    Ok(target_raw) => if target_raw == 0 {
                        Err(CoreError::InvalidParameter)
                    } else if target_raw > vault_collateral_raw {
                        match spec_collateral_value_usd(
                            vault_collateral_raw,
                            collateral_decimals,
                            raw_token_safe_price_e8,
                        ) {
                            Err(e) => Err(core_error_of(e)),
                            Ok(value) => Ok((min_u128(value, target), target)),
                        }
                    } else {
                        Ok((target, target))
                    },
                }
            },
        }
    }
}

pub fn full_liquidation_settlement_terms(
    vault_collateral_raw: u128,
    principal_debt: u128,
    accrued_fee: u128,
    collateral_decimals: u8,
    raw_token_safe_price_e8: u128,
    liquidation_penalty_bps: u16,
) -> (r: Result<(u128, u128), CoreError>)
    ensures
        r == spec_full_liquidation_settlement_terms(
            vault_collateral_raw,
            principal_debt,
            accrued_fee,
            collateral_decimals,
            raw_token_safe_price_e8,
            liquidation_penalty_bps,
        ),
        r is Ok ==> r->Ok_0.0 <= r->Ok_0.1,
{
    if vault_collateral_raw == 0 {
        return Err(CoreError::InvalidParameter);
    }
    let debt = match principal_debt.checked_add(accrued_fee) {
        Some(d) => d,
        None => {
            return Err(CoreError::MathOverflow);
        },
    };
    if debt == 0 {
        return Err(CoreError::InvalidParameter);
    }
    let penalty = match mul_div_up(debt, liquidation_penalty_bps as u128, BPS_DENOMINATOR) {
        Ok(v) => v,
        Err(e) => {
            return Err(map_core_error(e));
        },
    };
    let target = match debt.checked_add(penalty) {
        Some(t) => t,
        None => {
            return Err(CoreError::MathOverflow);
        },
    };
    let target_raw = match collateral_raw_for_usd_value(
        target,
        collateral_decimals,
        raw_token_safe_price_e8,
    ) {
        Ok(v) => v,
        Err(e) => {
            return Err(map_core_error(e));
        },
    };
    if target_raw == 0 {
        return Err(CoreError::InvalidParameter);
    }
    if target_raw > vault_collateral_raw {
        let value = match collateral_value_usd(
            vault_collateral_raw,
            collateral_decimals,
            raw_token_safe_price_e8,
        ) {
            Ok(v) => v,
            Err(e) => {
                return Err(map_core_error(e));
            },
        };
        let floor = if value <= target {
            value
        } else {
            target
        };
        return Ok((floor, target));
    }
    Ok((target, target))
}

/// An open liquidation may be settled by the liquidator who started it or
/// by the current liquidation authority.
pub fn require_liquidation_settlement_authority(
    current_authority: Pubkey,
    original_liquidator: Pubkey,
    signer: Pubkey,
) -> (r: Result<(), CoreError>)
    ensures
        r == (if signer@ == current_authority@ || signer@ == original_liquidator@ {
            Ok(())
        } else {
            Err(CoreError::Unauthorized)
        }),
{
    if keys_eq(&signer, &current_authority) || keys_eq(&signer, &original_liquidator) {
        Ok(())
    } else {
        Err(CoreError::Unauthorized)
    }
}

pub struct StartLiquidationWithOracle {
    pub protocol: Protocol,
    pub protocol_key: Pubkey,
    pub collateral_config: CollateralConfig,
    pub collateral_config_key: Pubkey,
    pub vault: Vault,
    pub vault_key: Pubkey,
    pub oracle: OracleSnapshot,
    pub collateral_vault: TokenAccountState,
    pub liquidator: Pubkey,
    pub liquidation_receipt: LiquidationReceipt,
    pub liquidation_receipt_bump: u8,
}

/// The vault, market and snapshot belong together.
pub open spec fn liquidation_context_ok(
    protocol_key: Pubkey,
    config: CollateralConfig,
    config_key: Pubkey,
    vault: Vault,
    oracle: OracleSnapshot,
) -> bool {
    config.protocol@ == protocol_key@ && vault.collateral_config@ == config_key@
        && oracle.protocol@ == protocol_key@ && oracle.collateral_config@ == config_key@
}

fn require_liquidation_context(
    protocol_key: &Pubkey,
    config: &CollateralConfig,
    config_key: &Pubkey,
    vault: &Vault,
    oracle: &OracleSnapshot,
) -> (r: Result<(), CoreError>)
    ensures
        r == (if liquidation_context_ok(*protocol_key, *config, *config_key, *vault, *oracle) {
            Ok(())
        } else {
            Err(CoreError::InvalidParameter)
        }),
{
    if keys_eq(&config.protocol, protocol_key) && keys_eq(&vault.collateral_config, config_key)
        && keys_eq(&oracle.protocol, protocol_key) && keys_eq(&oracle.collateral_config, config_key) {
        Ok(())
    } else {
        Err(CoreError::InvalidParameter)
    }
}

/// The state a two-step liquidation leaves: the receipt, the protocol, the
/// market and the emptied vault.
pub struct LiquidationStart {
    pub receipt: LiquidationReceipt,
    pub protocol: Protocol,
    pub config: CollateralConfig,
    pub vault: Vault,
}

/// A vault eligible for full liquidation hands all its collateral to the
/// liquidation authority; its debt moves to the pending liquidation ledger
/// until the sale is settled at the recorded terms.
pub open spec fn spec_start_liquidation_with_oracle(
    ctx: StartLiquidationWithOracle,
    now: i64,
) -> Result<LiquidationStart, CoreError> {
    if ctx.protocol.liquidation_authority@ != ctx.liquidator@ {
        Err(CoreError::Unauthorized)
    } else if !liquidation_context_ok(
        ctx.protocol_key,
        ctx.collateral_config,
        ctx.collateral_config_key,
        ctx.vault,
        ctx.oracle,
    ) {
        Err(CoreError::InvalidParameter)
    } else {
        match spec_accrue_vault_fee(ctx.vault, ctx.protocol, ctx.collateral_config, now) {
            Err(e) => Err(e),
            Ok((v, p, c)) => if v.principal_debt + v.accrued_fee > u128::MAX {
                Err(CoreError::MathOverflow)
            } else if v.principal_debt + v.accrued_fee == 0 || v.collateral_raw == 0 {
                Err(CoreError::InvalidParameter)
            } else {
                let debt = (v.principal_debt + v.accrued_fee) as u128;
                match spec_raw_token_safe_price(c, ctx.oracle, now) {
                    Err(e) => Err(e),
                    Ok(price) => match spec_collateral_value_usd(v.collateral_raw, c.collateral_decimals, price) {
                        Err(e) => Err(core_error_of(e)),
                        Ok(value) => if (ctx.collateral_vault.amount as u128) < c.total_deposits_raw {
                            Err(CoreError::InvalidParameter)
                        } else {
                            match spec_max_liquidation_repay(position_of(v), value, params_of(c, p)) {
                                Err(e) => Err(core_error_of(e)),
                                Ok((_, full)) => if !full {
                                    Err(CoreError::InvalidParameter)
                                } else {
                                    match spec_full_liquidation_settlement_terms(
                                        v.collateral_raw,
                                        v.principal_debt,
                                        v.accrued_fee,
                                        c.collateral_decimals,
                                        price,
                                        c.liquidation_penalty_bps,
                                    ) {
                                        Err(e) => Err(e),
                                        Ok((min_settlement, target_settlement)) => if p.total_debt < debt
                                            || p.total_uncollected_fees < v.accrued_fee
                                            || p.pending_liquidation_principal + v.principal_debt
                                            > u128::MAX || p.pending_liquidation_fees
                                            + v.accrued_fee > u128::MAX || c.total_debt < debt
                                            || c.total_deposits_raw < v.collateral_raw
                                            || v.collateral_raw > u64::MAX {
                                            if v.collateral_raw > u64::MAX && !(p.total_debt < debt
                                                || p.total_uncollected_fees < v.accrued_fee
                                                || p.pending_liquidation_principal
                                                + v.principal_debt > u128::MAX
                                                || p.pending_liquidation_fees + v.accrued_fee
                                                > u128::MAX || c.total_debt < debt
                                                || c.total_deposits_raw < v.collateral_raw) {
                                                Err(CoreError::AmountOverflow)
                                            } else {
                                                Err(CoreError::MathOverflow)
                                            }
                                        } else {
                                            Ok(
                                                LiquidationStart {
                                                    receipt: LiquidationReceipt {
                                                        protocol: ctx.protocol_key,
                                                        collateral_config: ctx.collateral_config_key,
                                                        vault: ctx.vault_key,
                                                        liquidator: ctx.liquidator,
                                                        collateral_mint: c.collateral_mint,
                                                        collateral_raw: v.collateral_raw,
                                                        min_settlement_usdc: min_settlement,
                                                        target_settlement_usdc: target_settlement,
                                                        principal_debt: v.principal_debt,
                                                        accrued_fee: v.accrued_fee,
                                                        started_at_ts: now,
                                                        bump: ctx.liquidation_receipt_bump,
                                                    },
                                                    protocol: Protocol {
                                                        total_debt: (p.total_debt - debt) as u128,
                                                        total_uncollected_fees: (p.total_uncollected_fees
                                                            - v.accrued_fee) as u128,
                                                        pending_liquidation_principal: (p.pending_liquidation_principal
                                                            + v.principal_debt) as u128,
                                                        pending_liquidation_fees: (p.pending_liquidation_fees
                                                            + v.accrued_fee) as u128,
                                                        ..p
                                                    },
                                                    config: CollateralConfig {
                                                        total_debt: (c.total_debt - debt) as u128,
                                                        total_deposits_raw: (c.total_deposits_raw
                                                            - v.collateral_raw) as u128,
                                                        ..c
                                                    },
                                                    vault: Vault {
                                                        collateral_raw: 0,
                                                        principal_debt: 0,
                                                        accrued_fee: 0,
                                                        last_accrual_ts: now,
                                                        ..v
                                                    },
                                                },
                                            )
                                        },
                                    }
                                },
                            }
                        },
                    },
                }
            },
        }
    }
}

/// Starts a two-step full liquidation. Returns the collateral to hand to the
/// liquidator.
pub fn start_liquidation_with_oracle(ctx: &mut StartLiquidationWithOracle, now: i64) -> (r: Result<
    u64,
    CoreError,
>)
    ensures
        match spec_start_liquidation_with_oracle(*old(ctx), now) {
            Ok(s) => r == Ok::<u64, CoreError>(s.receipt.collateral_raw as u64)
                && final(ctx).liquidation_receipt == s.receipt && final(ctx).protocol == s.protocol
                && final(ctx).collateral_config == s.config && final(ctx).vault == s.vault,
            Err(e) => r == Err::<u64, CoreError>(e) && final(ctx).liquidation_receipt
                == old(ctx).liquidation_receipt && final(ctx).protocol == old(ctx).protocol
                && final(ctx).collateral_config == old(ctx).collateral_config && final(ctx).vault
                == old(ctx).vault,
        },
{
    if !keys_eq(&ctx.protocol.liquidation_authority, &ctx.liquidator) {
        return Err(CoreError::Unauthorized);
    }
    require_liquidation_context(
        &ctx.protocol_key,
        &ctx.collateral_config,
        &ctx.collateral_config_key,
        &ctx.vault,
        &ctx.oracle,
    )?;
    let mut v = ctx.vault;
    let mut p = ctx.protocol;
    let mut c = ctx.collateral_config;
    accrue_vault_fee(&mut v, &mut p, &mut c, now)?;
    let debt = match v.principal_debt.checked_add(v.accrued_fee) {
        Some(d) => d,
        None => {
            return Err(CoreError::MathOverflow);
        },
    };
    if debt == 0 || v.collateral_raw == 0 {
        return Err(CoreError::InvalidParameter);
    }
    let price = raw_token_safe_price_from_snapshot(&c, &ctx.oracle, now)?;
    let value = match collateral_value_usd(v.collateral_raw, c.collateral_decimals, price) {
        Ok(x) => x,
        Err(e) => {
            return Err(map_core_error(e));
        },
    };
    require_recorded_amount_covered(ctx.collateral_vault.amount, c.total_deposits_raw)?;
    let (_, full) = match max_liquidation_repay(domain_vault(&v), value, domain_params(&c, &p)) {
        Ok(x) => x,
        Err(e) => {
            return Err(map_core_error(e));
        },
    };
    if !full {
        return Err(CoreError::InvalidParameter);
    }
    let (min_settlement, target_settlement) = full_liquidation_settlement_terms(
        v.collateral_raw,
        v.principal_debt,
        v.accrued_fee,
        c.collateral_decimals,
        price,
        c.liquidation_penalty_bps,
    )?;
    if p.total_debt < debt || p.total_uncollected_fees < v.accrued_fee
        || c.total_debt < debt || c.total_deposits_raw < v.collateral_raw {
        return Err(CoreError::MathOverflow);
    }
    let pending_principal = match p.pending_liquidation_principal.checked_add(v.principal_debt) {
        Some(x) => x,
        None => {
            return Err(CoreError::MathOverflow);
        },
    };
    let pending_fees = match p.pending_liquidation_fees.checked_add(v.accrued_fee) {
        Some(x) => x,
        None => {
            return Err(CoreError::MathOverflow);
        },
    };
    let seized = u128_to_u64(v.collateral_raw)?;
    ctx.liquidation_receipt = LiquidationReceipt {
        protocol: ctx.protocol_key,
        collateral_config: ctx.collateral_config_key,
        vault: ctx.vault_key,
        liquidator: ctx.liquidator,
        collateral_mint: c.collateral_mint,
        collateral_raw: v.collateral_raw,
        min_settlement_usdc: min_settlement,
        target_settlement_usdc: target_settlement,
        principal_debt: v.principal_debt,
        accrued_fee: v.accrued_fee,
        started_at_ts: now,
        bump: ctx.liquidation_receipt_bump,
    };
    p.total_debt = p.total_debt - debt;
    p.total_uncollected_fees = p.total_uncollected_fees - v.accrued_fee;
    p.pending_liquidation_principal = pending_principal;
    p.pending_liquidation_fees = pending_fees;
    c.total_debt = c.total_debt - debt;
    c.total_deposits_raw = c.total_deposits_raw - v.collateral_raw;
    v.collateral_raw = 0;
    v.principal_debt = 0;
    v.accrued_fee = 0;
    v.last_accrual_ts = now;
    ctx.protocol = p;
    ctx.collateral_config = c;
    ctx.vault = v;
    Ok(seized)
}

pub struct SettleLiquidationProceeds {
    pub protocol: Protocol,
    pub protocol_key: Pubkey,
    pub liquidation_receipt: LiquidationReceipt,
    pub liquidator: Pubkey,
    /// PSM vault balance once the sale proceeds have arrived.
    pub psm_usdc_vault_amount: u64,
    pub staking_state: StakingStateAccountInfo,
}

/// nUSD to mint when a liquidation settles.
#[derive(Debug, Clone, Copy, PartialEq, Eq)]
pub struct SettlementRouting {
    pub insurance: u64,
    pub stakers: u64,
    pub protocol: u64,
    pub borrower_surplus: u64,
}

/// Settles the sale of seized collateral: the proceeds must reach the floor
/// (principal at least). The principal becomes PSM backing; proceeds up to
/// the target first retire bad debt, then count as revenue; proceeds above
/// the target go back to the borrower as PSM nUSD.
pub open spec fn spec_settle_liquidation_proceeds(
    ctx: SettleLiquidationProceeds,
    usdc_amount: u64,
    now: i64,
) -> Result<(Protocol, SettlementRouting), CoreError> {
    let receipt = ctx.liquidation_receipt;
    let principal = receipt.principal_debt;
    let floor = if principal >= receipt.min_settlement_usdc { principal } else { receipt.min_settlement_usdc };
    if usdc_amount == 0 {
        Err(CoreError::InvalidParameter)
    } else if receipt.protocol@ != ctx.protocol_key@ {
        Err(CoreError::InvalidParameter)
    } else if ctx.liquidator@ != ctx.protocol.liquidation_authority@ && ctx.liquidator@
        != receipt.liquidator@ {
        Err(CoreError::Unauthorized)
    } else if receipt.target_settlement_usdc < receipt.min_settlement_usdc
        || receipt.target_settlement_usdc < principal {
        Err(CoreError::InvalidParameter)
    } else if usdc_amount < floor {
        Err(CoreError::InsufficientLiquidationProceeds)
    } else {
        match spec_record_liquidation_debt_settlement(ctx.protocol, principal, receipt.accrued_fee) {
            Err(e) => Err(e),
            Ok(p1) => {
                let settlement = min_u128(usdc_amount as u128, receipt.target_settlement_usdc);
                let revenue = (settlement - principal) as u128;
                let recovery = if revenue > 0 && p1.bad_debt_nusd > 0 {
                    min_u128(revenue, p1.bad_debt_nusd)
                } else {
                    0u128
                };
                let recovered = if recovery > 0 {
                    psm_issue(
                        Protocol { bad_debt_nusd: (p1.bad_debt_nusd - recovery) as u128, ..p1 },
                        ctx.psm_usdc_vault_amount,
                        recovery,
                    )
                } else {
                    Ok(p1)
                };
                match recovered {
                    Err(e) => Err(e),
                    Ok(p2) => {
                        let rest = (revenue - recovery) as u64;
                        let routed = if rest > 0 {
                            match spec_staking_assets(ctx.staking_state, p2.nusd_mint) {
                                Err(e) => Err(e),
                                Ok(assets) => spec_apply_realized_psm_yield_accounting(
                                    p2,
                                    ctx.psm_usdc_vault_amount,
                                    rest,
                                    assets,
                                    now,
                                    false,
                                    false,
                                ),
                            }
                        } else {
                            Ok((p2, (0u64, 0u64, 0u64, 0u64)))
                        };
                        match routed {
                            Err(e) => Err(e),
                            Ok((p3, parts)) => {
                                let surplus = (usdc_amount - settlement) as u128;
                                let issued = if surplus > 0 {
                                    psm_issue(p3, ctx.psm_usdc_vault_amount, surplus)
                                } else {
                                    Ok(p3)
                                };
                                match issued {
                                    Err(e) => Err(e),
                                    Ok(p4) => match spec_psm_accounting_invariants(
                                        p4,
                                        ctx.psm_usdc_vault_amount,
                                    ) {
                                        Err(e) => Err(e),
                                        Ok(_) => Ok(
                                            (
                                                p4,
                                                SettlementRouting {
                                                    insurance: parts.0,
                                                    stakers: parts.1,
                                                    protocol: parts.2,
                                                    borrower_surplus: surplus as u64,
                                                },
                                            ),
                                        ),
                                    },
                                }
                            },
                        }
                    },
                }
            },
        }
    }
}

/// Settles a two-step liquidation from the PSM balance after the proceeds
/// arrived; returns the nUSD to mint to the revenue vaults and borrower.
pub fn settle_liquidation_proceeds(ctx: &mut SettleLiquidationProceeds, usdc_amount: u64, now: i64) -> (r:
    Result<SettlementRouting, CoreError>)
    ensures
        match spec_settle_liquidation_proceeds(*old(ctx), usdc_amount, now) {
            Ok((p, routing)) => r == Ok::<SettlementRouting, CoreError>(routing) && final(ctx).protocol
                == p,
            Err(e) => r == Err::<SettlementRouting, CoreError>(e) && final(ctx).protocol
                == old(ctx).protocol,
        },
        final(ctx).liquidation_receipt == old(ctx).liquidation_receipt,
        final(ctx).staking_state == old(ctx).staking_state,
{
    if usdc_amount == 0 {
        return Err(CoreError::InvalidParameter);
    }
    let receipt = ctx.liquidation_receipt;
    if !keys_eq(&receipt.protocol, &ctx.protocol_key) {
        return Err(CoreError::InvalidParameter);
    }
    require_liquidation_settlement_authority(
        ctx.protocol.liquidation_authority,
        receipt.liquidator,
        ctx.liquidator,
    )?;
    let principal = receipt.principal_debt;
    let floor = if principal >= receipt.min_settlement_usdc {
        principal
    } else {
        receipt.min_settlement_usdc
    };
    if receipt.target_settlement_usdc < receipt.min_settlement_usdc
        || receipt.target_settlement_usdc < principal {
        return Err(CoreError::InvalidParameter);
    }
    if (usdc_amount as u128) < floor {
        return Err(CoreError::InsufficientLiquidationProceeds);
    }
    let mut p = ctx.protocol;
    record_liquidation_debt_settlement(&mut p, principal, receipt.accrued_fee)?;
    let settlement = if (usdc_amount as u128) <= receipt.target_settlement_usdc {
        usdc_amount as u128
    } else {
        receipt.target_settlement_usdc
    };
    let revenue = settlement - principal;
    let recovery = if revenue > 0 && p.bad_debt_nusd > 0 {
        if revenue <= p.bad_debt_nusd {
            revenue
        } else {
            p.bad_debt_nusd
        }
    } else {
        0
    };
    if recovery > 0 {
        record_liquidation_bad_debt_recovery(&mut p, ctx.psm_usdc_vault_amount, recovery)?;
    }
    let rest = (revenue - recovery) as u64;
    let mut parts: (u64, u64, u64, u64) = (0, 0, 0, 0);
    if rest > 0 {
        let assets = staking_assets(&ctx.staking_state, &p.nusd_mint)?;
        parts = apply_realized_psm_yield_accounting(
            &mut p,
            ctx.psm_usdc_vault_amount,
            rest,
            assets,
            now,
            false,
            false,
        )?;
    }
    let surplus = usdc_amount as u128 - settlement;
    if surplus > 0 {
        record_liquidation_borrower_surplus(&mut p, ctx.psm_usdc_vault_amount, surplus)?;
    }
    require_psm_accounting_invariants(&p, ctx.psm_usdc_vault_amount)?;
    ctx.protocol = p;
    Ok(
        SettlementRouting {
            insurance: parts.0,
            stakers: parts.1,
            protocol: parts.2,
            borrower_surplus: surplus as u64,
        },
    )
}

pub struct LiquidateWithOracle {
    pub protocol: Protocol,
    pub protocol_key: Pubkey,
    pub collateral_config: CollateralConfig,
    pub collateral_config_key: Pubkey,
    pub vault: Vault,
    pub oracle: OracleSnapshot,
    pub collateral_vault: TokenAccountState,
    pub liquidator: Pubkey,
    pub staking_state: StakingStateAccountInfo,
}

/// What an instant liquidation moves: the nUSD the liquidator pays, its
/// parts for the insurance, staker and protocol vaults, the nUSD burned
/// (principal and insurance fund), and the collateral handed out.
#[derive(Debug, Clone, Copy, PartialEq, Eq)]
pub struct LiquidationRouting {
    pub liquidator_paid: u64,
    pub insurance: u64,
    pub stakers: u64,
    pub protocol: u64,
    pub nusd_burned: u64,
    pub insurance_nusd_burned: u64,
    pub keeper_collateral: u64,
    pub insurance_collateral: u64,
}

/// The ledgers after an instant liquidation and what it moves.
pub struct InstantLiquidation {
    pub protocol: Protocol,
    pub config: CollateralConfig,
    pub vault: Vault,
    pub routing: LiquidationRouting,
}

/// The liquidation authority repays up to `requested_repay` of an unhealthy
/// vault's debt at the oracle price and takes collateral with a penalty;
/// the fee and penalty are routed as revenue.
pub open spec fn spec_liquidate_with_oracle(
    ctx: LiquidateWithOracle,
    requested_repay: u64,
    now: i64,
) -> Result<InstantLiquidation, CoreError> {
    if requested_repay == 0 {
        Err(CoreError::InvalidParameter)
    } else if ctx.protocol.liquidation_authority@ != ctx.liquidator@ {
        Err(CoreError::Unauthorized)
    } else if !liquidation_context_ok(
        ctx.protocol_key,
        ctx.collateral_config,
        ctx.collateral_config_key,
        ctx.vault,
        ctx.oracle,
    ) {
        Err(CoreError::InvalidParameter)
    } else {
        match spec_accrue_vault_fee(ctx.vault, ctx.protocol, ctx.collateral_config, now) {
            Err(e) => Err(e),
            Ok((v, p, c)) => match spec_staking_assets(ctx.staking_state, p.nusd_mint) {
                Err(e) => Err(e),
                Ok(assets) => match spec_collateral_value_from_snapshot(c, ctx.oracle, v.collateral_raw, now) {
                    Err(e) => Err(e),
                    Ok(value) => if (ctx.collateral_vault.amount as u128) < c.total_deposits_raw {
                        Err(CoreError::InvalidParameter)
                    } else {
                        match spec_raw_token_safe_price(c, ctx.oracle, now) {
                            Err(e) => Err(e),
                            Ok(price) => if v.principal_debt + v.accrued_fee > u128::MAX {
                                Err(CoreError::MathOverflow)
                            } else {
                                match spec_liquidate(
                                    position_of(v),
                                    accounting_of(p),
                                    value,
                                    price,
                                    c.collateral_decimals,
                                    params_of(c, p),
                                    requested_repay as u128,
                                ) {
                                    Err(e) => Err(core_error_of(e)),
                                    Ok((dv, da, out)) => instant_liquidation_outcome(
                                        v,
                                        p,
                                        c,
                                        dv,
                                        da,
                                        out,
                                        assets,
                                        now,
                                    ),
                                }
                            },
                        }
                    },
                },
            },
        }
    }
}

/// Books a liquidation outcome into the ledgers and routes its revenue.
pub open spec fn instant_liquidation_outcome(
    v: Vault,
    p: Protocol,
    c: CollateralConfig,
    dv: crate::cdp::Vault,
    da: ProtocolAccounting,
    out: crate::liquidation::LiquidationOutcome,
    assets: u128,
    now: i64,
) -> Result<InstantLiquidation, CoreError> {
    let debt_before = v.principal_debt + v.accrued_fee;
    let insurance_gross = da.insurance_fund_nusd + out.insurance_nusd_burned;
    let paid = out.fee_paid + out.principal_paid + out.staker_penalty_nusd;
    let burned = out.principal_paid + out.insurance_nusd_burned;
    let reduction = out.insurance_nusd_burned + out.bad_debt + out.fee_paid + out.principal_paid;
    let released = out.keeper_collateral_raw + out.insurance_collateral_raw;
    if insurance_gross > u128::MAX || insurance_gross < p.insurance_fund_nusd
        || da.realized_revenue_for_stakers < p.realized_revenue_for_stakers {
        Err(CoreError::MathOverflow)
    } else if paid > u128::MAX || burned > u128::MAX {
        Err(CoreError::MathOverflow)
    } else if paid > u64::MAX || burned > u64::MAX {
        Err(CoreError::AmountOverflow)
    } else if reduction > u128::MAX || c.total_debt < min_u128(debt_before as u128, reduction as u128)
        || released > u128::MAX || c.total_deposits_raw < released {
        Err(CoreError::MathOverflow)
    } else {
        let raw = (da.realized_revenue_for_stakers - p.realized_revenue_for_stakers) as u128;
        let p1 = with_accounting(
            p,
            ProtocolAccounting { realized_revenue_for_stakers: p.realized_revenue_for_stakers, ..da },
        );
        match spec_route_targeted_staker_revenue(p1, assets, now, raw) {
            Err(e) => Err(e),
            Ok((p2, stakers, surplus)) => {
                let insurance = insurance_gross - p.insurance_fund_nusd;
                if insurance + stakers + surplus != out.fee_paid + out.staker_penalty_nusd {
                    Err(CoreError::MathOverflow)
                } else if insurance > u64::MAX || stakers > u64::MAX || surplus > u64::MAX
                    || out.insurance_nusd_burned > u64::MAX || out.keeper_collateral_raw > u64::MAX
                    || out.insurance_collateral_raw > u64::MAX {
                    Err(CoreError::AmountOverflow)
                } else {
                    Ok(
                        InstantLiquidation {
                            protocol: p2,
                            config: CollateralConfig {
                                total_debt: (c.total_debt - min_u128(
                                    debt_before as u128,
                                    reduction as u128,
                                )) as u128,
                                total_deposits_raw: (c.total_deposits_raw - released) as u128,
                                ..c
                            },
                            vault: Vault {
                                collateral_raw: dv.collateral_raw,
                                principal_debt: dv.principal_debt,
                                accrued_fee: dv.accrued_fee,
                                ..v
                            },
                            routing: LiquidationRouting {
                                liquidator_paid: paid as u64,
                                insurance: insurance as u64,
                                stakers: stakers as u64,
                                protocol: surplus as u64,
                                nusd_burned: burned as u64,
                                insurance_nusd_burned: out.insurance_nusd_burned as u64,
                                keeper_collateral: out.keeper_collateral_raw as u64,
                                insurance_collateral: out.insurance_collateral_raw as u64,
                            },
                        },
                    )
                }
            },
        }
    }
}

fn checked_u128(value: Option<u128>) -> (r: Result<u128, CoreError>)
    ensures
        match value {
            Some(v) => r == Ok::<u128, CoreError>(v),
            None => r == Err::<u128, CoreError>(CoreError::MathOverflow),
        },
{
    match value {
        Some(v) => Ok(v),
        None => Err(CoreError::MathOverflow),
    }
}

/// Instant liquidation by the liquidation authority; returns what to move.
/// What the liquidator pays is accounted for in full: the principal burned
/// from it plus the fee and penalty routed to insurance, stakers and protocol.
#[verifier::rlimit(40)]
pub fn liquidate_with_oracle(ctx: &mut LiquidateWithOracle, requested_repay: u64, now: i64) -> (r:
    Result<LiquidationRouting, CoreError>)
    ensures
        match spec_liquidate_with_oracle(*old(ctx), requested_repay, now) {
            Ok(l) => r == Ok::<LiquidationRouting, CoreError>(l.routing) && final(ctx).protocol
                == l.protocol && final(ctx).collateral_config == l.config && final(ctx).vault
                == l.vault,
            Err(e) => r == Err::<LiquidationRouting, CoreError>(e) && final(ctx).protocol
                == old(ctx).protocol && final(ctx).collateral_config == old(ctx).collateral_config
                && final(ctx).vault == old(ctx).vault,
        },
        final(ctx).staking_state == old(ctx).staking_state,
        r is Ok ==> ({
            let l = r->Ok_0;
            l.liquidator_paid == l.nusd_burned - l.insurance_nusd_burned + l.insurance + l.stakers
                + l.protocol
        }),
{
    if requested_repay == 0 {
        return Err(CoreError::InvalidParameter);
    }
    if !keys_eq(&ctx.protocol.liquidation_authority, &ctx.liquidator) {
        return Err(CoreError::Unauthorized);
    }
    require_liquidation_context(
        &ctx.protocol_key,
        &ctx.collateral_config,
        &ctx.collateral_config_key,
        &ctx.vault,
        &ctx.oracle,
    )?;
    let mut v = ctx.vault;
    let mut p = ctx.protocol;
    let mut c = ctx.collateral_config;
    accrue_vault_fee(&mut v, &mut p, &mut c, now)?;
    let assets = staking_assets(&ctx.staking_state, &p.nusd_mint)?;
    let value = collateral_value_for_raw_from_snapshot(&c, &ctx.oracle, v.collateral_raw, now)?;
    require_recorded_amount_covered(ctx.collateral_vault.amount, c.total_deposits_raw)?;
    let price = raw_token_safe_price_from_snapshot(&c, &ctx.oracle, now)?;
    let debt_before = checked_u128(v.principal_debt.checked_add(v.accrued_fee))?;
    let mut position = domain_vault(&v);
    let mut accounting = domain_protocol(&p);
    let params = domain_params(&c, &p);
    let out = match liquidate(
        &mut position,
        &mut accounting,
        value,
        price,
        c.collateral_decimals,
        params,
        requested_repay as u128,
    ) {
        Ok(o) => o,
        Err(e) => {
            return Err(map_core_error(e));
        },
    };
    let insurance_gross = checked_u128(
        accounting.insurance_fund_nusd.checked_add(out.insurance_nusd_burned),
    )?;
    let insurance = checked_u128(insurance_gross.checked_sub(p.insurance_fund_nusd))?;
    let raw = checked_u128(
        accounting.realized_revenue_for_stakers.checked_sub(p.realized_revenue_for_stakers),
    )?;
    let fee_principal = checked_u128(out.fee_paid.checked_add(out.principal_paid))?;
    let paid = checked_u128(fee_principal.checked_add(out.staker_penalty_nusd))?;
    let burned = checked_u128(out.principal_paid.checked_add(out.insurance_nusd_burned))?;
    let paid_u64 = u128_to_u64(paid)?;
    let burned_u64 = u128_to_u64(burned)?;
    let cancelled = checked_u128(out.insurance_nusd_burned.checked_add(out.bad_debt))?;
    let reduction = checked_u128(cancelled.checked_add(fee_principal))?;
    let retired = if debt_before <= reduction {
        debt_before
    } else {
        reduction
    };
    if c.total_debt < retired {
        return Err(CoreError::MathOverflow);
    }
    let released = checked_u128(out.keeper_collateral_raw.checked_add(out.insurance_collateral_raw))?;
    if c.total_deposits_raw < released {
        return Err(CoreError::MathOverflow);
    }
    accounting.realized_revenue_for_stakers = p.realized_revenue_for_stakers;
    let mut next = p;
    crate::ledger::apply_protocol(&mut next, accounting);
    let (stakers, surplus) = route_targeted_staker_revenue(&mut next, assets, now, raw)?;
    // Every unit of fee and penalty the liquidator pays is routed to exactly
    // one of insurance, stakers and protocol.
    let routed_part = checked_u128(insurance.checked_add(stakers))?;
    let routed = checked_u128(routed_part.checked_add(surplus))?;
    let charged = checked_u128(out.fee_paid.checked_add(out.staker_penalty_nusd))?;
    if routed != charged {
        return Err(CoreError::MathOverflow);
    }
    let insurance_u64 = u128_to_u64(insurance)?;
    let stakers_u64 = u128_to_u64(stakers)?;
    let surplus_u64 = u128_to_u64(surplus)?;
    let burned_insurance_u64 = u128_to_u64(out.insurance_nusd_burned)?;
    let keeper_u64 = u128_to_u64(out.keeper_collateral_raw)?;
    let insurance_collateral_u64 = u128_to_u64(out.insurance_collateral_raw)?;
    v.collateral_raw = position.collateral_raw;
    v.principal_debt = position.principal_debt;
    v.accrued_fee = position.accrued_fee;
    c.total_debt = c.total_debt - retired;
    c.total_deposits_raw = c.total_deposits_raw - released;
    ctx.vault = v;
    ctx.protocol = next;
    ctx.collateral_config = c;
    Ok(
        LiquidationRouting {
            liquidator_paid: paid_u64,
            insurance: insurance_u64,
            stakers: stakers_u64,
            protocol: surplus_u64,
            nusd_burned: burned_u64,
            insurance_nusd_burned: burned_insurance_u64,
            keeper_collateral: keeper_u64,
            insurance_collateral: insurance_collateral_u64,
        },
    )
}

} // verus!
