use vstd::prelude::*;

use crate::accounts::{CollateralConfig, Protocol, Pubkey, Vault};
use crate::cdp::{
    accrue_stability_fee, spec_accrue_stability_fee, CollateralParams, ProtocolAccounting,
};
use crate::cdp::Vault as Position;
use crate::constants::FULL_LIQUIDATION_HEALTH_FACTOR_BPS;
use crate::core_error::{core_error_of, map_core_error, CoreError};

verus! {

/// The CDP ledger part of the protocol state.
pub open spec fn accounting_of(p: Protocol) -> ProtocolAccounting {
    ProtocolAccounting {
        total_debt: p.total_debt,
        pending_liquidation_principal: p.pending_liquidation_principal,
        pending_liquidation_fees: p.pending_liquidation_fees,
        total_uncollected_fees: p.total_uncollected_fees,
        realized_revenue_for_stakers: p.realized_revenue_for_stakers,
        insurance_fund_nusd: p.insurance_fund_nusd,
        bad_debt_nusd: p.bad_debt_nusd,
        insurance_target_bps: p.insurance_target_bps,
        insurance_fee_share_bps: p.insurance_fee_share_bps,
    }
}

/// The protocol state with the CDP ledger fields taken from `a`.
pub open spec fn with_accounting(p: Protocol, a: ProtocolAccounting) -> Protocol {
    Protocol {
        total_debt: a.total_debt,
        total_uncollected_fees: a.total_uncollected_fees,
        realized_revenue_for_stakers: a.realized_revenue_for_stakers,
        insurance_fund_nusd: a.insurance_fund_nusd,
        bad_debt_nusd: a.bad_debt_nusd,
        ..p
    }
}

/// The position part of a vault account.
pub open spec fn position_of(v: Vault) -> Position {
    Position {
        collateral_raw: v.collateral_raw,
        principal_debt: v.principal_debt,
        accrued_fee: v.accrued_fee,
        last_accrual_ts: v.last_accrual_ts,
    }
}

/// Risk parameters of a collateral market under the protocol-wide debt cap.
pub open spec fn params_of(config: CollateralConfig, protocol: Protocol) -> CollateralParams {
    CollateralParams {
        borrow_ltv_bps: config.borrow_ltv_bps,
        liquidation_threshold_bps: config.liquidation_threshold_bps,
        liquidation_penalty_bps: config.liquidation_penalty_bps,
        close_factor_bps: config.close_factor_bps,
        full_liquidation_threshold_bps: FULL_LIQUIDATION_HEALTH_FACTOR_BPS,
        per_vault_debt_cap: config.per_vault_debt_cap,
        protocol_debt_cap: protocol.protocol_debt_cap,
        collateral_debt_cap: config.protocol_debt_cap,
        collateral_debt_outstanding: config.total_debt,
        deposit_cap_raw: config.deposit_cap_raw,
        deposits_paused: config.deposits_paused,
        borrows_paused: config.borrows_paused,
        withdraws_paused: config.withdraws_paused,
    }
}

pub fn domain_vault(vault: &Vault) -> (r: Position)
    ensures
        r == position_of(*vault),
{
    Position {
        collateral_raw: vault.collateral_raw,
        principal_debt: vault.principal_debt,
        accrued_fee: vault.accrued_fee,
        last_accrual_ts: vault.last_accrual_ts,
    }
}

pub fn domain_protocol(protocol: &Protocol) -> (r: ProtocolAccounting)
    ensures
        r == accounting_of(*protocol),
{
    ProtocolAccounting {
        total_debt: protocol.total_debt,
        pending_liquidation_principal: protocol.pending_liquidation_principal,
        pending_liquidation_fees: protocol.pending_liquidation_fees,
        total_uncollected_fees: protocol.total_uncollected_fees,
        realized_revenue_for_stakers: protocol.realized_revenue_for_stakers,
        insurance_fund_nusd: protocol.insurance_fund_nusd,
        bad_debt_nusd: protocol.bad_debt_nusd,
        insurance_target_bps: protocol.insurance_target_bps,
        insurance_fee_share_bps: protocol.insurance_fee_share_bps,
    }
}

pub fn apply_protocol(protocol: &mut Protocol, accounting: ProtocolAccounting)
    ensures
        *final(protocol) == with_accounting(*old(protocol), accounting),
{
    protocol.total_debt = accounting.total_debt;
    protocol.total_uncollected_fees = accounting.total_uncollected_fees;
    protocol.realized_revenue_for_stakers = accounting.realized_revenue_for_stakers;
    protocol.insurance_fund_nusd = accounting.insurance_fund_nusd;
    protocol.bad_debt_nusd = accounting.bad_debt_nusd;
}

pub fn domain_params(config: &CollateralConfig, protocol: &Protocol) -> (r: CollateralParams)
    ensures
        r == params_of(*config, *protocol),
{
    CollateralParams {
        borrow_ltv_bps: config.borrow_ltv_bps,
        liquidation_threshold_bps: config.liquidation_threshold_bps,
        liquidation_penalty_bps: config.liquidation_penalty_bps,
        close_factor_bps: config.close_factor_bps,
        full_liquidation_threshold_bps: FULL_LIQUIDATION_HEALTH_FACTOR_BPS,
        per_vault_debt_cap: config.per_vault_debt_cap,
        protocol_debt_cap: protocol.protocol_debt_cap,
        collateral_debt_cap: config.protocol_debt_cap,
        collateral_debt_outstanding: config.total_debt,
        deposit_cap_raw: config.deposit_cap_raw,
        deposits_paused: config.deposits_paused,
        borrows_paused: config.borrows_paused,
        withdraws_paused: config.withdraws_paused,
    }
}

/// Vault, protocol and market after accruing the vault's stability fee up
/// to `now`; the fee also counts towards the market's debt.
pub open spec fn spec_accrue_vault_fee(
    vault: Vault,
    protocol: Protocol,
    config: CollateralConfig,
    now: i64,
) -> Result<(Vault, Protocol, CollateralConfig), CoreError> {
    match spec_accrue_stability_fee(
        position_of(vault),
        accounting_of(protocol),
        protocol.stability_fee_apr_bps,
        now,
    ) {
        Err(e) => Err(core_error_of(e)),
        Ok((v, a, fee)) => if config.total_debt + fee > u128::MAX {
            Err(CoreError::MathOverflow)
        } else {
            Ok(
                (
                    Vault {
                        accrued_fee: v.accrued_fee,
                        last_accrual_ts: v.last_accrual_ts,
                        ..vault
                    },
                    with_accounting(protocol, a),
                    CollateralConfig { total_debt: (config.total_debt + fee) as u128, ..config },
                ),
            )
        },
    }
}

/// Accrues the vault's stability fee into the vault, the protocol ledger and
/// the market's debt; nothing changes on error.
pub fn accrue_vault_fee(
    vault_account: &mut Vault,
    protocol_account: &mut Protocol,
    config_account: &mut CollateralConfig,
    now: i64,
) -> (r: Result<(), CoreError>)
    ensures
        match spec_accrue_vault_fee(*old(vault_account), *old(protocol_account), *old(config_account), now) {
            Ok((v, p, c)) => r is Ok && *final(vault_account) == v && *final(protocol_account) == p
                && *final(config_account) == c,
            Err(e) => r == Err::<(), CoreError>(e) && *final(vault_account) == *old(vault_account)
                && *final(protocol_account) == *old(protocol_account) && *final(config_account)
                == *old(config_account),
        },
{
    let mut vault = domain_vault(vault_account);
    let mut protocol = domain_protocol(protocol_account);
    let fee = match accrue_stability_fee(
        &mut vault,
        &mut protocol,
        protocol_account.stability_fee_apr_bps,
        now,
    ) {
        Ok(fee) => fee,
        Err(e) => {
            return Err(map_core_error(e));
        },
    };
    let total_debt = match config_account.total_debt.checked_add(fee) {
        Some(t) => t,
        None => {
            return Err(CoreError::MathOverflow);
        },
    };
    vault_account.accrued_fee = vault.accrued_fee;
    vault_account.last_accrual_ts = vault.last_accrual_ts;
    apply_protocol(protocol_account, protocol);
    config_account.total_debt = total_debt;
    Ok(())
}

/// Token amount of a ledger value, if it fits in a `u64`.
pub fn u128_to_u64(amount: u128) -> (r: Result<u64, CoreError>)
    ensures
        r == (if amount > u64::MAX {
            Err(CoreError::AmountOverflow)
        } else {
            Ok(amount as u64)
        }),
{
    if amount > u64::MAX as u128 {
        Err(CoreError::AmountOverflow)
    } else {
        Ok(amount as u64)
    }
}

/// The balance after a transfer in is exactly `before + expected_delta`.
pub fn require_token_account_increase(before: u64, after: u64, expected_delta: u64) -> (r: Result<
    (),
    CoreError,
>)
    ensures
        r == (if before + expected_delta > u64::MAX {
            Err(CoreError::MathOverflow)
        } else if after != before + expected_delta {
            Err(CoreError::TransferFeeNotSupported)
        } else {
            Ok(())
        }),
{
    match before.checked_add(expected_delta) {
        None => Err(CoreError::MathOverflow),
        Some(expected_after) => if after == expected_after {
            Ok(())
        } else {
            Err(CoreError::TransferFeeNotSupported)
        },
    }
}

/// The balance after a transfer out is exactly `before - expected_delta`.
pub fn require_token_account_decrease(before: u64, after: u64, expected_delta: u64) -> (r: Result<
    (),
    CoreError,
>)
    ensures
        r == (if expected_delta > before || after != before - expected_delta {
            Err(CoreError::TransferFeeNotSupported)
        } else {
            Ok(())
        }),
{
    match before.checked_sub(expected_delta) {
        None => Err(CoreError::TransferFeeNotSupported),
        Some(expected_after) => if after == expected_after {
            Ok(())
        } else {
            Err(CoreError::TransferFeeNotSupported)
        },
    }
}

/// The mint supply after minting is exactly `before + expected_delta`.
pub fn require_mint_supply_increase(before: u64, after: u64, expected_delta: u64) -> (r: Result<
    (),
    CoreError,
>)
    ensures
        r == (if before + expected_delta > u64::MAX {
            Err(CoreError::MathOverflow)
        } else if after != before + expected_delta {
            Err(CoreError::TransferFeeNotSupported)
        } else {
            Ok(())
        }),
{
    require_token_account_increase(before, after, expected_delta)
}

/// The mint supply after burning is exactly `before - expected_delta`.
pub fn require_mint_supply_decrease(before: u64, after: u64, expected_delta: u64) -> (r: Result<
    (),
    CoreError,
>)
    ensures
        r == (if expected_delta > before || after != before - expected_delta {
            Err(CoreError::TransferFeeNotSupported)
        } else {
            Ok(())
        }),
{
    require_token_account_decrease(before, after, expected_delta)
}

/// A token account holds at least what the ledger records for it.
pub fn require_recorded_amount_covered(actual_amount: u64, recorded_amount: u128) -> (r: Result<
    (),
    CoreError,
>)
    ensures
        r == (if (actual_amount as u128) < recorded_amount {
            Err(CoreError::InvalidParameter)
        } else {
            Ok(())
        }),
{
    if (actual_amount as u128) < recorded_amount {
        Err(CoreError::InvalidParameter)
    } else {
        Ok(())
    }
}

/// The parts of a token account that can let someone else move its funds.
#[derive(Debug, Clone, Copy, PartialEq, Eq)]
pub struct TokenAccountState {
    pub key: Pubkey,
    pub mint: Pubkey,
    pub owner: Pubkey,
    pub amount: u64,
    pub delegate: Option<Pubkey>,
    pub delegated_amount: u64,
    pub close_authority: Option<Pubkey>,
    pub is_native: Option<u64>,
    pub is_frozen: bool,
}

pub open spec fn unencumbered(account: TokenAccountState) -> bool {
    account.delegate is None && account.delegated_amount == 0 && account.close_authority is None
        && account.is_native is None
}

/// A protocol vault has no delegate, close authority or native wrapping.
pub fn require_token_account_unencumbered(account: &TokenAccountState) -> (r: Result<(), CoreError>)
    ensures
        r == (if unencumbered(*account) {
            Ok(())
        } else {
            Err(CoreError::InvalidParameter)
        }),
{
    if account.delegate.is_none() && account.delegated_amount == 0
        && account.close_authority.is_none() && account.is_native.is_none() {
        Ok(())
    } else {
        Err(CoreError::InvalidParameter)
    }
}

/// The collateral vault no longer backs recorded deposits: it holds less
/// than recorded, or it is frozen.
pub fn collateral_vault_coverage_broken(
    collateral_vault_amount: u64,
    recorded_deposits_raw: u128,
    collateral_vault_frozen: bool,
) -> (r: bool)
    ensures
        r == (collateral_vault_frozen || (collateral_vault_amount as u128) < recorded_deposits_raw),
{
    collateral_vault_frozen || (collateral_vault_amount as u128) < recorded_deposits_raw
}

} // verus!
