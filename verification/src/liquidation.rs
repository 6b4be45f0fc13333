use vstd::prelude::*;

use crate::cdp::{
    collect_repayment, health_factor_at_least_bps, retire_bad_debt, spec_collect_repayment,
    spec_health_at_least, spec_retire_bad_debt, CollateralParams, ProtocolAccounting, Vault,
};
use crate::constants::BPS_DENOMINATOR;
use crate::error::NestError;
use crate::math::{
    ceil_div, checked_add, checked_sub, lemma_ceil_div_bounds, min_u128, mul_div_up, pow10_spec,
    spec_mul_div_up,
};
use crate::oracle::{
    collateral_raw_for_usd_value, spec_collateral_raw_for_usd_value,
    spec_collateral_value_usd,
};

verus! {

/// What a liquidation repaid, seized, wrote off and realized.
#[derive(Debug, Clone, Copy, PartialEq, Eq)]
pub struct LiquidationOutcome {
    pub repaid_debt: u128,
    pub fee_paid: u128,
    pub principal_paid: u128,
    pub staker_penalty_nusd: u128,
    pub keeper_collateral_raw: u128,
    pub insurance_collateral_raw: u128,
    pub insurance_nusd_burned: u128,
    pub fee_cancelled: u128,
    pub bad_debt_repaid: u128,
    pub bad_debt: u128,
    pub full_liquidation: bool,
}

/// Debt cancelled without payment: fee first, then principal.
#[derive(Debug, Clone, Copy, PartialEq, Eq)]
pub struct DebtWriteOff {
    pub fee_cancelled: u128,
    pub principal_cancelled: u128,
}

/// The amounts a liquidation settles before any state changes.
#[derive(Debug, Clone, Copy, PartialEq, Eq)]
pub struct LiquidationTerms {
    pub repay_amount: u128,
    pub penalty_value: u128,
    pub keeper_raw: u128,
    pub exhausts_collateral: bool,
    pub full: bool,
    pub penalty_nusd: u128,
}

/// Whether repaying `partial` (plus its penalty in seized collateral) would
/// still leave the vault below a health factor of one.
pub open spec fn spec_partial_liquidation_would_remain_unhealthy(
    collateral_value: u128,
    debt: u128,
    partial: u128,
    params: CollateralParams,
) -> Result<bool, NestError> {
    if partial > debt {
        Err(NestError::MathOverflow)
    } else if partial == debt {
        Ok(false)
    } else {
        match spec_mul_div_up(partial, params.liquidation_penalty_bps as u128, 10_000) {
            Err(e) => Err(e),
            Ok(penalty) => if partial + penalty > u128::MAX {
                Err(NestError::MathOverflow)
            } else if partial + penalty >= collateral_value {
                Ok(true)
            } else {
                match spec_health_at_least(
                    (collateral_value - partial - penalty) as u128,
                    (debt - partial) as u128,
                    params.liquidation_threshold_bps,
                    10_000,
                ) {
                    Err(e) => Err(e),
                    Ok(healthy) => Ok(!healthy),
                }
            },
        }
    }
}

/// Largest repayment a liquidation may make and whether it is a full
/// liquidation: an unhealthy vault may be repaid up to the close factor,
/// or entirely when it is deeply unhealthy, when the close factor covers the
/// debt, or when a close-factor repayment would leave it unhealthy.
pub open spec fn spec_max_liquidation_repay(
    vault: Vault,
    collateral_value: u128,
    params: CollateralParams,
) -> Result<(u128, bool), NestError> {
    let debt = vault.debt();
    if debt > u128::MAX {
        Err(NestError::MathOverflow)
    } else {
        match spec_health_at_least(
            collateral_value,
            debt as u128,
            params.liquidation_threshold_bps,
            10_000,
        ) {
            Err(e) => Err(e),
            Ok(true) => Err(NestError::VaultHealthy),
            Ok(false) => match spec_mul_div_up(debt as u128, params.close_factor_bps as u128, 10_000) {
                Err(e) => Err(e),
                Ok(close) => match spec_health_at_least(
                    collateral_value,
                    debt as u128,
                    params.liquidation_threshold_bps,
                    params.full_liquidation_threshold_bps,
                ) {
                    Err(e) => Err(e),
                    Ok(above_full) => if !above_full || close >= debt {
                        Ok((debt as u128, true))
                    } else {
                        match spec_partial_liquidation_would_remain_unhealthy(
                            collateral_value,
                            debt as u128,
                            close,
                            params,
                        ) {
                            Err(e) => Err(e),
                            Ok(full) => if full {
                                Ok((debt as u128, true))
                            } else {
                                Ok((close, false))
                            },
                        }
                    },
                },
            },
        }
    }
}

pub open spec fn spec_write_off_debt(vault: Vault, protocol: ProtocolAccounting, amount: u128) -> Result<
    (Vault, ProtocolAccounting, DebtWriteOff),
    NestError,
> {
    if amount == 0 {
        Ok((vault, protocol, DebtWriteOff { fee_cancelled: 0, principal_cancelled: 0 }))
    } else if vault.debt() > u128::MAX {
        Err(NestError::MathOverflow)
    } else {
        let writeoff = min_u128(amount, vault.debt() as u128);
        let fee = min_u128(writeoff, vault.accrued_fee);
        let principal = (writeoff - fee) as u128;
        if protocol.total_uncollected_fees < fee || protocol.total_debt < writeoff {
            Err(NestError::MathOverflow)
        } else {
            Ok(
                (
                    Vault {
                        accrued_fee: (vault.accrued_fee - fee) as u128,
                        principal_debt: (vault.principal_debt - principal) as u128,
                        ..vault
                    },
                    ProtocolAccounting {
                        total_uncollected_fees: (protocol.total_uncollected_fees - fee) as u128,
                        total_debt: (protocol.total_debt - writeoff) as u128,
                        ..protocol
                    },
                    DebtWriteOff { fee_cancelled: fee, principal_cancelled: principal },
                ),
            )
        }
    }
}

/// Terms of a liquidation: the repayment (capped by the request, the
/// maximum and the debt), its penalty, the collateral delivered to the
/// keeper and the penalty that collateral actually realizes.
pub open spec fn spec_liquidation_terms(
    vault: Vault,
    collateral_value: u128,
    price_e8: u128,
    decimals: u8,
    params: CollateralParams,
    requested: u128,
) -> Result<LiquidationTerms, NestError> {
    if requested == 0 {
        Err(NestError::InvalidParameter)
    } else if price_e8 == 0 {
        Err(NestError::PriceNotPositive)
    } else {
        match spec_max_liquidation_repay(vault, collateral_value, params) {
            Err(e) => Err(e),
            Ok((max_repay, full)) => {
                let repay = min_u128(min_u128(requested, max_repay), vault.debt() as u128);
                match spec_mul_div_up(repay, params.liquidation_penalty_bps as u128, 10_000) {
                    Err(e) => Err(e),
                    Ok(penalty) => if repay + penalty > u128::MAX {
                        Err(NestError::MathOverflow)
                    } else {
                        match spec_collateral_raw_for_usd_value(
                            (repay + penalty) as u128,
                            decimals,
                            price_e8,
                        ) {
                            Err(e) => Err(e),
                            Ok(needed) => {
                                let enough = vault.collateral_raw >= needed;
                                let keeper = if enough {
                                    needed
                                } else {
                                    vault.collateral_raw
                                };
                                let exhausts = if enough {
                                    full && vault.collateral_raw == needed
                                } else {
                                    true
                                };
                                if !enough && !full {
                                    Err(NestError::InsufficientCollateral)
                                } else if full && !exhausts && repay < vault.debt() {
                                    Err(NestError::InvalidParameter)
                                } else {
                                    match spec_collateral_value_usd(keeper, decimals, price_e8) {
                                        Err(e) => Err(e),
                                        Ok(delivered) => {
                                            let delivered_penalty = if delivered > repay {
                                                (delivered - repay) as u128
                                            } else {
                                                0
                                            };
                                            Ok(
                                                LiquidationTerms {
                                                    repay_amount: repay,
                                                    penalty_value: penalty,
                                                    keeper_raw: keeper,
                                                    exhausts_collateral: exhausts,
                                                    full,
                                                    penalty_nusd: min_u128(
                                                        penalty,
                                                        delivered_penalty,
                                                    ),
                                                },
                                            )
                                        },
                                    }
                                }
                            },
                        }
                    },
                }
            },
        }
    }
}

/// Closing out an emptied vault: its remaining fee is cancelled, its
/// principal is covered by burning insurance nUSD as far as the fund
/// reaches, and the rest becomes recorded bad debt.
/// Yields the vault, the ledger, the cancelled fee, the insurance burned and
/// the new bad debt.
pub open spec fn spec_close_out(vault: Vault, protocol: ProtocolAccounting) -> Result<
    (Vault, ProtocolAccounting, u128, u128, u128),
    NestError,
> {
    let fee = vault.accrued_fee;
    let principal = vault.principal_debt;
    let burned = min_u128(protocol.insurance_fund_nusd, principal);
    let bad = (principal - burned) as u128;
    if protocol.total_uncollected_fees < fee || protocol.total_debt < fee + principal
        || protocol.bad_debt_nusd + bad > u128::MAX {
        Err(NestError::MathOverflow)
    } else {
        Ok(
            (
                Vault { accrued_fee: 0, principal_debt: 0, ..vault },
                ProtocolAccounting {
                    total_uncollected_fees: (protocol.total_uncollected_fees - fee) as u128,
                    total_debt: (protocol.total_debt - fee - principal) as u128,
                    insurance_fund_nusd: (protocol.insurance_fund_nusd - burned) as u128,
                    bad_debt_nusd: (protocol.bad_debt_nusd + bad) as u128,
                    ..protocol
                },
                fee,
                burned,
                bad,
            ),
        )
    }
}

/// Realized fee retires bad debt, the rest is routed as revenue; the
/// realized penalty retires bad debt, the rest goes to stakers.
/// Yields the ledger, the bad debt retired by the fee and by the penalty.
pub open spec fn spec_liquidation_revenue(protocol: ProtocolAccounting, fee_paid: u128, penalty: u128) -> Result<
    (ProtocolAccounting, u128, u128),
    NestError,
> {
    let (p1, fee_bad) = spec_retire_bad_debt(protocol, fee_paid);
    match p1.spec_route_realized_fee((fee_paid - fee_bad) as u128) {
        Err(e) => Err(e),
        Ok(p2) => {
            let (p3, pen_bad) = spec_retire_bad_debt(p2, penalty);
            if p3.realized_revenue_for_stakers + (penalty - pen_bad) > u128::MAX || fee_bad
                + pen_bad > u128::MAX {
                Err(NestError::MathOverflow)
            } else {
                Ok(
                    (
                        ProtocolAccounting {
                            realized_revenue_for_stakers: (p3.realized_revenue_for_stakers + (
                            penalty - pen_bad)) as u128,
                            ..p3
                        },
                        fee_bad,
                        pen_bad,
                    ),
                )
            }
        },
    }
}

/// The whole liquidation: terms, repayment, seizure, close-out of an
/// emptied vault, and revenue realization.
pub open spec fn spec_liquidate(
    vault: Vault,
    protocol: ProtocolAccounting,
    collateral_value: u128,
    price_e8: u128,
    decimals: u8,
    params: CollateralParams,
    requested: u128,
) -> Result<(Vault, ProtocolAccounting, LiquidationOutcome), NestError> {
    match spec_liquidation_terms(vault, collateral_value, price_e8, decimals, params, requested) {
        Err(e) => Err(e),
        Ok(t) => match spec_collect_repayment(vault, protocol, t.repay_amount) {
            Err(e) => Err(e),
            Ok((v1, p1, paid)) => {
                let v2 = Vault { collateral_raw: (v1.collateral_raw - t.keeper_raw) as u128, ..v1 };
                let close = t.full && t.exhausts_collateral && v2.collateral_raw == 0;
                let closed = if close {
                    spec_close_out(v2, p1)
                } else {
                    Ok((v2, p1, 0u128, 0u128, 0u128))
                };
                match closed {
                    Err(e) => Err(e),
                    Ok((v3, p3, fee_cancelled, burned, bad)) => match spec_liquidation_revenue(
                        p3,
                        paid.fee_paid,
                        t.penalty_nusd,
                    ) {
                        Err(e) => Err(e),
                        Ok((p4, fee_bad, pen_bad)) => Ok(
                            (
                                v3,
                                p4,
                                LiquidationOutcome {
                                    repaid_debt: t.repay_amount,
                                    fee_paid: paid.fee_paid,
                                    principal_paid: paid.principal_paid,
                                    staker_penalty_nusd: t.penalty_nusd,
                                    keeper_collateral_raw: t.keeper_raw,
                                    insurance_collateral_raw: 0,
                                    insurance_nusd_burned: burned,
                                    fee_cancelled,
                                    bad_debt_repaid: (fee_bad + pen_bad) as u128,
                                    bad_debt: bad,
                                    full_liquidation: t.full,
                                },
                            ),
                        ),
                    },
                }
            },
        },
    }
}

fn partial_liquidation_would_remain_unhealthy(
    collateral_value_usd: u128,
    debt: u128,
    partial_repay: u128,
    params: CollateralParams,
) -> (r: Result<bool, NestError>)
    ensures
        r == spec_partial_liquidation_would_remain_unhealthy(
            collateral_value_usd,
            debt,
            partial_repay,
            params,
        ),
{
    let remaining_debt = checked_sub(debt, partial_repay)?;
    if remaining_debt == 0 {
        return Ok(false);
    }
    let penalty_value = mul_div_up(
        partial_repay,
        params.liquidation_penalty_bps as u128,
        BPS_DENOMINATOR,
    )?;
    let seized_value = checked_add(partial_repay, penalty_value)?;
    if seized_value >= collateral_value_usd {
        return Ok(true);
    }
    let remaining_collateral_value = collateral_value_usd - seized_value;
    let healthy = health_factor_at_least_bps(
        remaining_collateral_value,
        remaining_debt,
        params.liquidation_threshold_bps,
        10_000u16,
    )?;
    Ok(!healthy)
}

/// Maximum repayment of an unhealthy vault and whether it is a full liquidation.
pub fn max_liquidation_repay(vault: Vault, collateral_value_usd: u128, params: CollateralParams) -> (r:
    Result<(u128, bool), NestError>)
    ensures
        r == spec_max_liquidation_repay(vault, collateral_value_usd, params),
        r is Ok ==> r->Ok_0.0 <= vault.debt() && (r->Ok_0.1 ==> r->Ok_0.0 == vault.debt()),
{
    let debt = vault.total_debt()?;
    if health_factor_at_least_bps(
        collateral_value_usd,
        debt,
        params.liquidation_threshold_bps,
        10_000u16,
    )? {
        return Err(NestError::VaultHealthy);
    }
    let close_factor_repay = mul_div_up(debt, params.close_factor_bps as u128, BPS_DENOMINATOR)?;
    let above_full = health_factor_at_least_bps(
        collateral_value_usd,
        debt,
        params.liquidation_threshold_bps,
        params.full_liquidation_threshold_bps,
    )?;
    let full = if !above_full || close_factor_repay >= debt {
        true
    } else {
        partial_liquidation_would_remain_unhealthy(
            collateral_value_usd,
            debt,
            close_factor_repay,
            params,
        )?
    };
    let max_repay = if full {
        debt
    } else {
        close_factor_repay
    };
    Ok((max_repay, full))
}

fn write_off_debt(vault: &mut Vault, protocol: &mut ProtocolAccounting, amount: u128) -> (r: Result<
    DebtWriteOff,
    NestError,
>)
    ensures
        match spec_write_off_debt(*old(vault), *old(protocol), amount) {
            Ok((v, p, w)) => r == Ok::<DebtWriteOff, NestError>(w) && *final(vault) == v
                && *final(protocol) == p,
            Err(e) => r == Err::<DebtWriteOff, NestError>(e) && *final(vault) == *old(vault)
                && *final(protocol) == *old(protocol),
        },
{
    if amount == 0 {
        return Ok(DebtWriteOff { fee_cancelled: 0, principal_cancelled: 0 });
    }
    let debt = vault.total_debt()?;
    let writeoff = if amount <= debt {
        amount
    } else {
        debt
    };
    let fee_cancelled = if writeoff <= vault.accrued_fee {
        writeoff
    } else {
        vault.accrued_fee
    };
    let uncollected = checked_sub(protocol.total_uncollected_fees, fee_cancelled)?;
    let remaining = writeoff - fee_cancelled;
    let principal_cancelled = if remaining <= vault.principal_debt {
        remaining
    } else {
        vault.principal_debt
    };
    let total_debt = checked_sub(protocol.total_debt, writeoff)?;
    vault.accrued_fee = vault.accrued_fee - fee_cancelled;
    vault.principal_debt = vault.principal_debt - principal_cancelled;
    protocol.total_uncollected_fees = uncollected;
    protocol.total_debt = total_debt;
    Ok(DebtWriteOff { fee_cancelled, principal_cancelled })
}

fn liquidation_terms(
    vault: &Vault,
    collateral_value_usd: u128,
    raw_token_safe_price_e8: u128,
    token_decimals: u8,
    params: CollateralParams,
    requested_repay: u128,
) -> (r: Result<LiquidationTerms, NestError>)
    ensures
        r == spec_liquidation_terms(
            *vault,
            collateral_value_usd,
            raw_token_safe_price_e8,
            token_decimals,
            params,
            requested_repay,
        ),
{
    if requested_repay == 0 {
        return Err(NestError::InvalidParameter);
    }
    if raw_token_safe_price_e8 == 0 {
        return Err(NestError::PriceNotPositive);
    }
    let (max_repay, full) = max_liquidation_repay(*vault, collateral_value_usd, params)?;
    let debt_before = vault.total_debt()?;
    let capped = if requested_repay <= max_repay {
        requested_repay
    } else {
        max_repay
    };
    let repay_amount = if capped <= debt_before {
        capped
    } else {
        debt_before
    };
    let penalty_value = mul_div_up(
        repay_amount,
        params.liquidation_penalty_bps as u128,
        BPS_DENOMINATOR,
    )?;
    let keeper_value = checked_add(repay_amount, penalty_value)?;
    let needed = collateral_raw_for_usd_value(
        keeper_value,
        token_decimals,
        raw_token_safe_price_e8,
    )?;
    let (keeper_raw, exhausts_collateral) = if vault.collateral_raw >= needed {
        (needed, full && vault.collateral_raw == needed)
    } else {
        if !full {
            return Err(NestError::InsufficientCollateral);
        }
        (vault.collateral_raw, true)
    };
    if full && !exhausts_collateral && repay_amount < debt_before {
        return Err(NestError::InvalidParameter);
    }
    let delivered_value = crate::oracle::collateral_value_usd(
        keeper_raw,
        token_decimals,
        raw_token_safe_price_e8,
    )?;
    let delivered_penalty_value = if delivered_value > repay_amount {
        delivered_value - repay_amount
    } else {
        0
    };
    let penalty_nusd = if penalty_value <= delivered_penalty_value {
        penalty_value
    } else {
        delivered_penalty_value
    };
    Ok(LiquidationTerms {
        repay_amount,
        penalty_value,
        keeper_raw,
        exhausts_collateral,
        full,
        penalty_nusd,
    })
}

fn close_out_vault(vault: &mut Vault, protocol: &mut ProtocolAccounting) -> (r: Result<
    (u128, u128, u128),
    NestError,
>)
    requires
        old(vault).debt() <= u128::MAX,
    ensures
        match spec_close_out(*old(vault), *old(protocol)) {
            Ok((v, p, fee, burned, bad)) => r == Ok::<(u128, u128, u128), NestError>(
                (fee, burned, bad),
            ) && *final(vault) == v && *final(protocol) == p,
            Err(e) => r == Err::<(u128, u128, u128), NestError>(e) && *final(vault) == *old(vault)
                && *final(protocol) == *old(protocol),
        },
{
    let mut v = *vault;
    let mut p = *protocol;
    let fee = v.accrued_fee;
    let fee_writeoff = write_off_debt(&mut v, &mut p, fee)?;
    let burned = if p.insurance_fund_nusd <= v.principal_debt {
        p.insurance_fund_nusd
    } else {
        v.principal_debt
    };
    p.insurance_fund_nusd = p.insurance_fund_nusd - burned;
    let insured_writeoff = write_off_debt(&mut v, &mut p, burned)?;
    if insured_writeoff.fee_cancelled != 0 || insured_writeoff.principal_cancelled != burned {
        return Err(NestError::MathOverflow);
    }
    let uncovered = v.principal_debt;
    let mut bad_debt: u128 = 0;
    if uncovered > 0 {
        let uncovered_writeoff = write_off_debt(&mut v, &mut p, uncovered)?;
        if uncovered_writeoff.fee_cancelled != 0 {
            return Err(NestError::MathOverflow);
        }
        bad_debt = uncovered_writeoff.principal_cancelled;
        p.bad_debt_nusd = checked_add(p.bad_debt_nusd, bad_debt)?;
    }
    *vault = v;
    *protocol = p;
    Ok((fee_writeoff.fee_cancelled, burned, bad_debt))
}

fn realize_liquidation_revenue(protocol: &mut ProtocolAccounting, fee_paid: u128, penalty: u128) -> (r:
    Result<(u128, u128), NestError>)
    ensures
        match spec_liquidation_revenue(*old(protocol), fee_paid, penalty) {
            Ok((p, a, b)) => r == Ok::<(u128, u128), NestError>((a, b)) && *final(protocol) == p,
            Err(e) => r == Err::<(u128, u128), NestError>(e) && *final(protocol) == *old(protocol),
        },
{
    let mut p = *protocol;
    let fee_bad_debt_repaid = retire_bad_debt(&mut p, fee_paid);
    p.route_realized_fee(fee_paid - fee_bad_debt_repaid)?;
    let penalty_bad_debt_repaid = retire_bad_debt(&mut p, penalty);
    // The realized penalty that does not retire bad debt is staker revenue.
    let stakers = checked_add(p.realized_revenue_for_stakers, penalty - penalty_bad_debt_repaid)?;
    checked_add(fee_bad_debt_repaid, penalty_bad_debt_repaid)?;
    p.realized_revenue_for_stakers = stakers;
    *protocol = p;
    Ok((fee_bad_debt_repaid, penalty_bad_debt_repaid))
}

/// Liquidates an unhealthy vault: the keeper repays debt and receives
/// collateral worth the repayment plus the liquidation penalty. A full
/// liquidation that empties the vault writes off the remaining fee, covers
/// principal from the insurance fund and records the rest as bad debt.
/// On error nothing changes.
pub fn liquidate(
    vault: &mut Vault,
    protocol: &mut ProtocolAccounting,
    collateral_value_usd: u128,
    raw_token_safe_price_e8: u128,
    token_decimals: u8,
    params: CollateralParams,
    requested_repay: u128,
) -> (r: Result<LiquidationOutcome, NestError>)
    ensures
        match spec_liquidate(
            *old(vault),
            *old(protocol),
            collateral_value_usd,
            raw_token_safe_price_e8,
            token_decimals,
            params,
            requested_repay,
        ) {
            Ok((v, p, o)) => r == Ok::<LiquidationOutcome, NestError>(o) && *final(vault) == v
                && *final(protocol) == p,
            Err(e) => r == Err::<LiquidationOutcome, NestError>(e) && *final(vault) == *old(vault)
                && *final(protocol) == *old(protocol),
        },
{
    let terms = liquidation_terms(
        vault,
        collateral_value_usd,
        raw_token_safe_price_e8,
        token_decimals,
        params,
        requested_repay,
    )?;
    let mut v = *vault;
    let mut p = *protocol;
    let repay_outcome = collect_repayment(&mut v, &mut p, terms.repay_amount)?;
    proof {
        assert(terms.keeper_raw <= vault.collateral_raw);
    }
    v.collateral_raw = v.collateral_raw - terms.keeper_raw;
    let mut fee_cancelled: u128 = 0;
    let mut insurance_nusd_burned: u128 = 0;
    let mut bad_debt: u128 = 0;
    if terms.full && terms.exhausts_collateral && v.collateral_raw == 0 {
        let (f, b, d) = close_out_vault(&mut v, &mut p)?;
        fee_cancelled = f;
        insurance_nusd_burned = b;
        bad_debt = d;
    }
    let (fee_bad, penalty_bad) = realize_liquidation_revenue(
        &mut p,
        repay_outcome.fee_paid,
        terms.penalty_nusd,
    )?;
    *vault = v;
    *protocol = p;
    Ok(LiquidationOutcome {
        repaid_debt: terms.repay_amount,
        fee_paid: repay_outcome.fee_paid,
        principal_paid: repay_outcome.principal_paid,
        staker_penalty_nusd: terms.penalty_nusd,
        keeper_collateral_raw: terms.keeper_raw,
        insurance_collateral_raw: 0,
        insurance_nusd_burned,
        fee_cancelled,
        bad_debt_repaid: fee_bad + penalty_bad,
        bad_debt,
        full_liquidation: terms.full,
    })
}

/// The keeper is paid in collateral for the repayment plus exactly one
/// liquidation penalty (the penalty rate applied to the repayment, rounded
/// up): it receives the least number of base units worth at least that at
/// the liquidation price, or the vault's whole collateral when that is worth
/// less. With `owed` the repayment plus penalty scaled to base units times
/// the price, the keeper's units cover `owed` unless they are all the vault
/// holds, and one unit fewer would not cover it.
pub proof fn lemma_liquidation_keeper_gets_repay_plus_one_penalty(
    vault: Vault,
    protocol: ProtocolAccounting,
    collateral_value: u128,
    price_e8: u128,
    decimals: u8,
    params: CollateralParams,
    requested: u128,
)
    requires
        spec_liquidate(vault, protocol, collateral_value, price_e8, decimals, params, requested)
            is Ok,
    ensures
        ({
            let out = spec_liquidate(
                vault,
                protocol,
                collateral_value,
                price_e8,
                decimals,
                params,
                requested,
            )->Ok_0.2;
            let repay = out.repaid_debt as int;
            let penalty = ceil_div(repay * params.liquidation_penalty_bps, 10_000);
            let owed = (repay + penalty) * pow10_spec(decimals as nat) * 100_000_000;
            let per_unit = price_e8 * 1_000_000;
            let k = out.keeper_collateral_raw as int;
            &&& price_e8 > 0
            &&& k <= vault.collateral_raw
            &&& k == vault.collateral_raw || k * per_unit >= owed
            &&& k == 0 || (k - 1) * per_unit < owed
        }),
{
    let t = spec_liquidation_terms(vault, collateral_value, price_e8, decimals, params, requested)->Ok_0;
    let repay = t.repay_amount as int;
    let penalty = t.penalty_value as int;
    let ts = pow10_spec(decimals as nat) as int;
    let num = (repay + penalty) * ts * 100_000_000;
    let den = (price_e8 as int) * 1_000_000;
    assert(den > 0);
    assert(num >= 0) by (nonlinear_arith)
        requires
            repay + penalty >= 0,
            ts >= 0,
            num == (repay + penalty) * ts * 100_000_000,
    ;
    lemma_ceil_div_bounds(num, den);
    let needed = ceil_div(num, den);
    let k = t.keeper_raw as int;
    if vault.collateral_raw >= needed {
        assert(k == needed);
    } else {
        assert(k == vault.collateral_raw);
        if k > 0 {
            assert(num > 0);
            assert((k - 1) * den <= (needed - 1) * den) by (nonlinear_arith)
                requires
                    k < needed,
                    den > 0,
            ;
        }
    }
}

/// Liquidation accounting: only an unhealthy vault is liquidated; the keeper
/// receives at most the vault's collateral; the vault's debt falls by exactly
/// what was repaid, covered by insurance, cancelled as fee or recorded as bad
/// debt, and the ledger falls by the same; bad debt grows by what was
/// recorded less what revenue retired; a partial liquidation stays within the
/// close factor, and a full liquidation that empties the vault clears its debt.
pub proof fn lemma_liquidation_accounting(
    vault: Vault,
    protocol: ProtocolAccounting,
    collateral_value: u128,
    price_e8: u128,
    decimals: u8,
    params: CollateralParams,
    requested: u128,
)
    requires
        spec_liquidate(vault, protocol, collateral_value, price_e8, decimals, params, requested) is Ok,
    ensures
        ({
            let (v, p, o) = spec_liquidate(
                vault,
                protocol,
                collateral_value,
                price_e8,
                decimals,
                params,
                requested,
            )->Ok_0;
            &&& spec_health_at_least(
                collateral_value,
                vault.debt() as u128,
                params.liquidation_threshold_bps,
                10_000,
            ) == Ok::<bool, NestError>(false)
            &&& crate::cdp::ledger_tracks_vault(vault, protocol, v, p)
            &&& o.keeper_collateral_raw <= vault.collateral_raw
            &&& v.collateral_raw == vault.collateral_raw - o.keeper_collateral_raw
            &&& o.repaid_debt == o.fee_paid + o.principal_paid
            &&& o.repaid_debt <= requested
            &&& vault.debt() - v.debt() == o.fee_paid + o.principal_paid + o.insurance_nusd_burned
                + o.fee_cancelled + o.bad_debt
            &&& o.insurance_nusd_burned <= protocol.insurance_fund_nusd
            &&& p.bad_debt_nusd == protocol.bad_debt_nusd + o.bad_debt - o.bad_debt_repaid
            &&& o.insurance_collateral_raw == 0
            &&& o.staker_penalty_nusd <= crate::math::ceil_div(
                o.repaid_debt * params.liquidation_penalty_bps,
                10_000,
            )
            &&& (!o.full_liquidation ==> o.repaid_debt <= crate::math::ceil_div(
                vault.debt() * params.close_factor_bps,
                10_000,
            ))
            &&& (o.full_liquidation && v.collateral_raw == 0 ==> v.debt() == 0)
        }),
{
    let t = spec_liquidation_terms(vault, collateral_value, price_e8, decimals, params, requested)->Ok_0;
    let (v1, p1, paid) = spec_collect_repayment(vault, protocol, t.repay_amount)->Ok_0;
    let v2 = Vault { collateral_raw: (v1.collateral_raw - t.keeper_raw) as u128, ..v1 };
    let close = t.full && t.exhausts_collateral && v2.collateral_raw == 0;
    let closed = if close {
        spec_close_out(v2, p1)
    } else {
        Ok((v2, p1, 0u128, 0u128, 0u128))
    };
    let (v3, p3, fee_cancelled, burned, bad) = closed->Ok_0;
    let (pa, fee_bad) = spec_retire_bad_debt(p3, paid.fee_paid);
    crate::cdp::lemma_route_realized_fee_splits_exactly(pa, (paid.fee_paid - fee_bad) as u128);
    assert(t.full && v2.collateral_raw == 0 ==> t.exhausts_collateral);
}

} // verus!
