use vstd::prelude::*;

use crate::accounts::{keys_eq, CollateralConfig, OracleSnapshot, Protocol, Pubkey, Vault};
use crate::cdp::{borrow, can_withdraw, repay, spec_borrow, spec_can_withdraw, spec_repay};
use crate::core_error::{core_error_of, map_core_error, CoreError};
use crate::feeds::{collateral_value_for_raw_from_snapshot, spec_collateral_value_from_snapshot};
use crate::ix::admin::{spec_staking_assets, staking_assets, StakingStateAccountInfo};
use crate::ledger::{
    accounting_of, accrue_vault_fee, apply_protocol, domain_params, domain_protocol,
    domain_vault, params_of, position_of, require_recorded_amount_covered, spec_accrue_vault_fee,
    u128_to_u64, with_accounting, TokenAccountState,
};
use crate::math::min_u128;
use crate::revenue::{route_targeted_staker_revenue, spec_route_targeted_staker_revenue};

verus! {

/// The market belongs to the protocol and the vault to the market and its
/// owner.
pub open spec fn vault_context_ok(
    protocol_key: Pubkey,
    config: CollateralConfig,
    config_key: Pubkey,
    vault: Vault,
    owner: Pubkey,
) -> bool {
    config.protocol@ == protocol_key@ && vault.owner@ == owner@ && vault.collateral_config@
        == config_key@
}

pub fn require_vault_context(
    protocol_key: &Pubkey,
    config: &CollateralConfig,
    config_key: &Pubkey,
    vault: &Vault,
    owner: &Pubkey,
) -> (r: Result<(), CoreError>)
    ensures
        r == (if vault_context_ok(*protocol_key, *config, *config_key, *vault, *owner) {
            Ok(())
        } else {
            Err(CoreError::InvalidParameter)
        }),
{
    if keys_eq(&config.protocol, protocol_key) && keys_eq(&vault.owner, owner) && keys_eq(
        &vault.collateral_config,
        config_key,
    ) {
        Ok(())
    } else {
        Err(CoreError::InvalidParameter)
    }
}

/// The snapshot is the market's oracle account.
pub open spec fn oracle_context_ok(protocol_key: Pubkey, config_key: Pubkey, oracle: OracleSnapshot) -> bool {
    oracle.protocol@ == protocol_key@ && oracle.collateral_config@ == config_key@
}

/// The market's collateral vault, token program and coverage of deposits.
pub open spec fn custody_ok(
    config: CollateralConfig,
    collateral_vault: TokenAccountState,
    token_program: Pubkey,
) -> Result<(), CoreError> {
    if config.token_program@ != token_program@ || collateral_vault.key@ != config.collateral_vault@ {
        Err(CoreError::InvalidParameter)
    } else if (collateral_vault.amount as u128) < config.total_deposits_raw {
        Err(CoreError::InvalidParameter)
    } else {
        Ok(())
    }
}

fn check_custody(
    config: &CollateralConfig,
    collateral_vault: &TokenAccountState,
    token_program: &Pubkey,
) -> (r: Result<(), CoreError>)
    ensures
        r == custody_ok(*config, *collateral_vault, *token_program),
{
    if !keys_eq(&config.token_program, token_program) || !keys_eq(
        &collateral_vault.key,
        &config.collateral_vault,
    ) {
        return Err(CoreError::InvalidParameter);
    }
    require_recorded_amount_covered(collateral_vault.amount, config.total_deposits_raw)
}

#[derive(Debug, Clone, Copy, PartialEq, Eq)]
pub struct Deposit {
    pub protocol: Protocol,
    pub protocol_key: Pubkey,
    pub collateral_config: CollateralConfig,
    pub collateral_config_key: Pubkey,
    pub vault: Vault,
    pub owner: Pubkey,
    pub collateral_vault: TokenAccountState,
    pub collateral_token_program: Pubkey,
}

pub open spec fn spec_deposit(ctx: Deposit, amount: u64) -> Result<Deposit, CoreError> {
    let config = ctx.collateral_config;
    if amount == 0 {
        Err(CoreError::InvalidParameter)
    } else if ctx.protocol.paused {
        Err(CoreError::Paused)
    } else if !vault_context_ok(ctx.protocol_key, config, ctx.collateral_config_key, ctx.vault, ctx.owner) {
        Err(CoreError::InvalidParameter)
    } else if config.deposits_paused {
        Err(CoreError::CollateralPaused)
    } else if custody_ok(config, ctx.collateral_vault, ctx.collateral_token_program) is Err {
        Err(custody_ok(config, ctx.collateral_vault, ctx.collateral_token_program)->Err_0)
    } else if config.total_deposits_raw + amount > u128::MAX {
        Err(CoreError::MathOverflow)
    } else if config.total_deposits_raw + amount > config.deposit_cap_raw {
        Err(CoreError::DepositCapExceeded)
    } else if ctx.vault.collateral_raw + amount > u128::MAX {
        Err(CoreError::MathOverflow)
    } else {
        Ok(
            Deposit {
                vault: Vault {
                    collateral_raw: (ctx.vault.collateral_raw + amount) as u128,
                    ..ctx.vault
                },
                collateral_config: CollateralConfig {
                    total_deposits_raw: (config.total_deposits_raw + amount) as u128,
                    ..config
                },
                ..ctx
            },
        )
    }
}

/// Books a collateral deposit into the vault, within the market's cap; the
/// caller moves the tokens into the collateral vault.
pub fn deposit(ctx: &mut Deposit, amount: u64) -> (r: Result<(), CoreError>)
    ensures
        match spec_deposit(*old(ctx), amount) {
            Ok(c) => r is Ok && *final(ctx) == c,
            Err(e) => r == Err::<(), CoreError>(e) && *final(ctx) == *old(ctx),
        },
{
    if amount == 0 {
        return Err(CoreError::InvalidParameter);
    }
    if ctx.protocol.paused {
        return Err(CoreError::Paused);
    }
    require_vault_context(
        &ctx.protocol_key,
        &ctx.collateral_config,
        &ctx.collateral_config_key,
        &ctx.vault,
        &ctx.owner,
    )?;
    if ctx.collateral_config.deposits_paused {
        return Err(CoreError::CollateralPaused);
    }
    check_custody(&ctx.collateral_config, &ctx.collateral_vault, &ctx.collateral_token_program)?;
    let total = match ctx.collateral_config.total_deposits_raw.checked_add(amount as u128) {
        Some(t) => t,
        None => {
            return Err(CoreError::MathOverflow);
        },
    };
    if total > ctx.collateral_config.deposit_cap_raw {
        return Err(CoreError::DepositCapExceeded);
    }
    let raw = match ctx.vault.collateral_raw.checked_add(amount as u128) {
        Some(v) => v,
        None => {
            return Err(CoreError::MathOverflow);
        },
    };
    ctx.vault.collateral_raw = raw;
    ctx.collateral_config.total_deposits_raw = total;
    Ok(())
}

#[derive(Debug, Clone, Copy, PartialEq, Eq)]
pub struct WithdrawWithOracle {
    pub protocol: Protocol,
    pub protocol_key: Pubkey,
    pub collateral_config: CollateralConfig,
    pub collateral_config_key: Pubkey,
    pub vault: Vault,
    pub oracle: OracleSnapshot,
    pub owner: Pubkey,
    pub collateral_vault: TokenAccountState,
    pub collateral_token_program: Pubkey,
}

/// After accruing fees: a withdrawal that leaves debt must keep it within
/// the borrow limit of the remaining collateral at the oracle price.
pub open spec fn spec_withdraw_with_oracle(ctx: WithdrawWithOracle, amount: u64, now: i64) -> Result<
    WithdrawWithOracle,
    CoreError,
> {
    if amount == 0 {
        Err(CoreError::InvalidParameter)
    } else if ctx.protocol.paused {
        Err(CoreError::Paused)
    } else if !vault_context_ok(ctx.protocol_key, ctx.collateral_config, ctx.collateral_config_key, ctx.vault, ctx.owner)
        || !oracle_context_ok(ctx.protocol_key, ctx.collateral_config_key, ctx.oracle) {
        Err(CoreError::InvalidParameter)
    } else {
        match spec_accrue_vault_fee(ctx.vault, ctx.protocol, ctx.collateral_config, now) {
            Err(e) => Err(e),
            Ok((vault, protocol, config)) => {
                let remaining = vault.collateral_raw - amount;
                if config.withdraws_paused {
                    Err(CoreError::WithdrawPaused)
                } else if custody_ok(config, ctx.collateral_vault, ctx.collateral_token_program) is Err {
                    Err(custody_ok(config, ctx.collateral_vault, ctx.collateral_token_program)->Err_0)
                } else if amount > vault.collateral_raw {
                    Err(CoreError::InsufficientCollateral)
                } else if vault.principal_debt + vault.accrued_fee > u128::MAX {
                    Err(CoreError::MathOverflow)
                } else if vault.principal_debt + vault.accrued_fee > 0 && spec_collateral_value_from_snapshot(
                    config,
                    ctx.oracle,
                    remaining as u128,
                    now,
                ) is Err {
                    Err(spec_collateral_value_from_snapshot(config, ctx.oracle, remaining as u128, now)->Err_0)
                } else if vault.principal_debt + vault.accrued_fee > 0 && spec_can_withdraw(
                    spec_collateral_value_from_snapshot(config, ctx.oracle, remaining as u128, now)->Ok_0,
                    position_of(Vault { collateral_raw: remaining as u128, ..vault }),
                    params_of(config, protocol),
                ) is Err {
                    Err(
                        core_error_of(
                            spec_can_withdraw(
                                spec_collateral_value_from_snapshot(
                                    config,
                                    ctx.oracle,
                                    remaining as u128,
                                    now,
                                )->Ok_0,
                                position_of(Vault { collateral_raw: remaining as u128, ..vault }),
                                params_of(config, protocol),
                            )->Err_0,
                        ),
                    )
                } else if config.total_deposits_raw < amount {
                    Err(CoreError::MathOverflow)
                } else {
                    Ok(
                        WithdrawWithOracle {
                            protocol,
                            vault: Vault { collateral_raw: remaining as u128, ..vault },
                            collateral_config: CollateralConfig {
                                total_deposits_raw: (config.total_deposits_raw - amount) as u128,
                                ..config
                            },
                            ..ctx
                        },
                    )
                }
            },
        }
    }
}

/// A withdrawal takes exactly `amount` out of the vault's collateral, and one
/// that leaves debt keeps that debt within the loan-to-value share of what the
/// remaining collateral is worth at the oracle price.
pub proof fn lemma_withdrawal_keeps_debt_within_remaining_collateral(
    ctx: WithdrawWithOracle,
    amount: u64,
    now: i64,
)
    requires
        spec_withdraw_with_oracle(ctx, amount, now) is Ok,
    ensures
        ({
            let c = spec_withdraw_with_oracle(ctx, amount, now)->Ok_0;
            let debt = c.vault.principal_debt + c.vault.accrued_fee;
            let value = spec_collateral_value_from_snapshot(
                c.collateral_config,
                ctx.oracle,
                c.vault.collateral_raw,
                now,
            );
            &&& amount > 0
            &&& c.vault.collateral_raw + amount == ctx.vault.collateral_raw
            &&& debt > 0 ==> value is Ok && debt * 10_000 <= value->Ok_0
                * c.collateral_config.borrow_ltv_bps + 9_999
        }),
{
    let c = spec_withdraw_with_oracle(ctx, amount, now)->Ok_0;
    let value = spec_collateral_value_from_snapshot(
        c.collateral_config,
        ctx.oracle,
        c.vault.collateral_raw,
        now,
    );
    if c.vault.principal_debt + c.vault.accrued_fee > 0 {
        let v = value->Ok_0;
        let ltv = c.collateral_config.borrow_ltv_bps;
        let limit = (v * ltv) / 10_000;
        assert(limit * 10_000 <= v * ltv) by (nonlinear_arith)
            requires
                limit == (v * ltv) / 10_000,
                v * ltv >= 0,
        ;
    }
}

/// Books a collateral withdrawal after accruing fees; the caller moves the
/// tokens out of the collateral vault.
pub fn withdraw_with_oracle(ctx: &mut WithdrawWithOracle, amount: u64, now: i64) -> (r: Result<
    (),
    CoreError,
>)
    ensures
        match spec_withdraw_with_oracle(*old(ctx), amount, now) {
            Ok(c) => r is Ok && *final(ctx) == c,
            Err(e) => r == Err::<(), CoreError>(e) && *final(ctx) == *old(ctx),
        },
{
    if amount == 0 {
        return Err(CoreError::InvalidParameter);
    }
    if ctx.protocol.paused {
        return Err(CoreError::Paused);
    }
    require_vault_context(
        &ctx.protocol_key,
        &ctx.collateral_config,
        &ctx.collateral_config_key,
        &ctx.vault,
        &ctx.owner,
    )?;
    if !keys_eq(&ctx.oracle.protocol, &ctx.protocol_key) || !keys_eq(
        &ctx.oracle.collateral_config,
        &ctx.collateral_config_key,
    ) {
        return Err(CoreError::InvalidParameter);
    }
    let mut vault = ctx.vault;
    let mut protocol = ctx.protocol;
    let mut config = ctx.collateral_config;
    accrue_vault_fee(&mut vault, &mut protocol, &mut config, now)?;
    if config.withdraws_paused {
        return Err(CoreError::WithdrawPaused);
    }
    check_custody(&config, &ctx.collateral_vault, &ctx.collateral_token_program)?;
    let amount_u128 = amount as u128;
    if amount_u128 > vault.collateral_raw {
        return Err(CoreError::InsufficientCollateral);
    }
    let remaining = vault.collateral_raw - amount_u128;
    let mut after = vault;
    after.collateral_raw = remaining;
    let debt = match vault.principal_debt.checked_add(vault.accrued_fee) {
        Some(d) => d,
        None => {
            return Err(CoreError::MathOverflow);
        },
    };
    if debt > 0 {
        let value = collateral_value_for_raw_from_snapshot(&config, &ctx.oracle, remaining, now)?;
        match can_withdraw(value, domain_vault(&after), domain_params(&config, &protocol)) {
            Ok(()) => {},
            Err(e) => {
                return Err(map_core_error(e));
            },
        }
    }
    if config.total_deposits_raw < amount_u128 {
        return Err(CoreError::MathOverflow);
    }
    config.total_deposits_raw = config.total_deposits_raw - amount_u128;
    ctx.protocol = protocol;
    ctx.vault = after;
    ctx.collateral_config = config;
    Ok(())
}

#[derive(Debug, Clone, Copy, PartialEq, Eq)]
pub struct MutateVault {
    pub protocol: Protocol,
    pub protocol_key: Pubkey,
    pub collateral_config: CollateralConfig,
    pub collateral_config_key: Pubkey,
    pub vault: Vault,
    pub owner: Pubkey,
}

/// Accrues the vault's stability fee up to `now`.
pub fn accrue_fee(ctx: &mut MutateVault, now: i64) -> (r: Result<(), CoreError>)
    ensures
        !vault_context_ok(old(ctx).protocol_key, old(ctx).collateral_config, old(ctx).collateral_config_key, old(ctx).vault, old(ctx).owner)
            ==> r == Err::<(), CoreError>(CoreError::InvalidParameter) && *final(ctx) == *old(ctx),
        vault_context_ok(old(ctx).protocol_key, old(ctx).collateral_config, old(ctx).collateral_config_key, old(ctx).vault, old(ctx).owner)
            ==> match spec_accrue_vault_fee(old(ctx).vault, old(ctx).protocol, old(ctx).collateral_config, now) {
            Ok((v, p, c)) => r is Ok && *final(ctx) == (MutateVault {
                vault: v,
                protocol: p,
                collateral_config: c,
                ..*old(ctx)
            }),
            Err(e) => r == Err::<(), CoreError>(e) && *final(ctx) == *old(ctx),
        },
{
    require_vault_context(
        &ctx.protocol_key,
        &ctx.collateral_config,
        &ctx.collateral_config_key,
        &ctx.vault,
        &ctx.owner,
    )?;
    accrue_vault_fee(&mut ctx.vault, &mut ctx.protocol, &mut ctx.collateral_config, now)
}

#[derive(Debug, Clone, Copy, PartialEq, Eq)]
pub struct MintNusdWithOracle {
    pub protocol: Protocol,
    pub protocol_key: Pubkey,
    pub collateral_config: CollateralConfig,
    pub collateral_config_key: Pubkey,
    pub vault: Vault,
    pub oracle: OracleSnapshot,
    pub owner: Pubkey,
    pub collateral_vault: TokenAccountState,
    pub collateral_token_program: Pubkey,
}

/// After accruing fees: borrowing `amount` against the vault's collateral at
/// the oracle price, within the borrow limit and every debt cap.
pub open spec fn spec_mint_nusd_with_oracle(ctx: MintNusdWithOracle, amount: u64, now: i64) -> Result<
    MintNusdWithOracle,
    CoreError,
> {
    if amount == 0 {
        Err(CoreError::InvalidParameter)
    } else if ctx.protocol.paused {
        Err(CoreError::Paused)
    } else if !vault_context_ok(ctx.protocol_key, ctx.collateral_config, ctx.collateral_config_key, ctx.vault, ctx.owner)
        || !oracle_context_ok(ctx.protocol_key, ctx.collateral_config_key, ctx.oracle) {
        Err(CoreError::InvalidParameter)
    } else {
        match spec_accrue_vault_fee(ctx.vault, ctx.protocol, ctx.collateral_config, now) {
            Err(e) => Err(e),
            Ok((vault, protocol, config)) => match custody_ok(
                config,
                ctx.collateral_vault,
                ctx.collateral_token_program,
            ) {
                Err(e) => Err(e),
                Ok(_) => match spec_collateral_value_from_snapshot(
                    config,
                    ctx.oracle,
                    vault.collateral_raw,
                    now,
                ) {
                    Err(e) => Err(e),
                    Ok(value) => match spec_borrow(
                        position_of(vault),
                        accounting_of(protocol),
                        value,
                        params_of(config, protocol),
                        amount as u128,
                    ) {
                        Err(e) => Err(core_error_of(e)),
                        Ok((v, a)) => if config.total_debt + amount > u128::MAX {
                            Err(CoreError::MathOverflow)
                        } else {
                            Ok(
                                MintNusdWithOracle {
                                    vault: Vault { principal_debt: v.principal_debt, ..vault },
                                    protocol: Protocol { total_debt: a.total_debt, ..protocol },
                                    collateral_config: CollateralConfig {
                                        total_debt: (config.total_debt + amount) as u128,
                                        ..config
                                    },
                                    ..ctx
                                },
                            )
                        },
                    },
                },
            },
        }
    }
}

/// Books new nUSD debt against the vault; the caller mints the nUSD.
pub fn mint_nusd_with_oracle(ctx: &mut MintNusdWithOracle, amount: u64, now: i64) -> (r: Result<
    (),
    CoreError,
>)
    ensures
        match spec_mint_nusd_with_oracle(*old(ctx), amount, now) {
            Ok(c) => r is Ok && *final(ctx) == c,
            Err(e) => r == Err::<(), CoreError>(e) && *final(ctx) == *old(ctx),
        },
{
    if amount == 0 {
        return Err(CoreError::InvalidParameter);
    }
    if ctx.protocol.paused {
        return Err(CoreError::Paused);
    }
    require_vault_context(
        &ctx.protocol_key,
        &ctx.collateral_config,
        &ctx.collateral_config_key,
        &ctx.vault,
        &ctx.owner,
    )?;
    if !keys_eq(&ctx.oracle.protocol, &ctx.protocol_key) || !keys_eq(
        &ctx.oracle.collateral_config,
        &ctx.collateral_config_key,
    ) {
        return Err(CoreError::InvalidParameter);
    }
    let mut vault = ctx.vault;
    let mut protocol = ctx.protocol;
    let mut config = ctx.collateral_config;
    accrue_vault_fee(&mut vault, &mut protocol, &mut config, now)?;
    check_custody(&config, &ctx.collateral_vault, &ctx.collateral_token_program)?;
    let value = collateral_value_for_raw_from_snapshot(
        &config,
        &ctx.oracle,
        vault.collateral_raw,
        now,
    )?;
    let mut position = domain_vault(&vault);
    let mut accounting = domain_protocol(&protocol);
    let params = domain_params(&config, &protocol);
    match borrow(&mut position, &mut accounting, value, params, amount as u128) {
        Ok(()) => {},
        Err(e) => {
            return Err(map_core_error(e));
        },
    }
    let total_debt = match config.total_debt.checked_add(amount as u128) {
        Some(t) => t,
        None => {
            return Err(CoreError::MathOverflow);
        },
    };
    vault.principal_debt = position.principal_debt;
    protocol.total_debt = accounting.total_debt;
    config.total_debt = total_debt;
    ctx.vault = vault;
    ctx.protocol = protocol;
    ctx.collateral_config = config;
    Ok(())
}

/// Where a repayment's nUSD goes: the owner pays `paid`; the insurance,
/// staker and protocol parts are transferred to their vaults and `burned`
/// (principal and retired bad debt) is burned.
#[derive(Debug, Clone, Copy, PartialEq, Eq)]
pub struct RepayRouting {
    pub paid: u64,
    pub insurance: u64,
    pub stakers: u64,
    pub protocol: u64,
    pub burned: u64,
}

pub struct RepayNusd {
    pub protocol: Protocol,
    pub protocol_key: Pubkey,
    pub collateral_config: CollateralConfig,
    pub collateral_config_key: Pubkey,
    pub vault: Vault,
    pub owner: Pubkey,
    pub staking_state: StakingStateAccountInfo,
}

/// After accruing fees: repays fee then principal; the fee retires bad debt
/// first, then fills insurance, stakers up to their target and the protocol.
pub open spec fn spec_repay_nusd(
    protocol: Protocol,
    protocol_key: Pubkey,
    config: CollateralConfig,
    config_key: Pubkey,
    vault: Vault,
    owner: Pubkey,
    staking_state: StakingStateAccountInfo,
    amount: u64,
    now: i64,
) -> Result<(Protocol, CollateralConfig, Vault, RepayRouting), CoreError> {
    if amount == 0 {
        Err(CoreError::InvalidParameter)
    } else if !vault_context_ok(protocol_key, config, config_key, vault, owner) {
        Err(CoreError::InvalidParameter)
    } else {
        match spec_accrue_vault_fee(vault, protocol, config, now) {
            Err(e) => Err(e),
            Ok((v, p, c)) => match spec_staking_assets(staking_state, p.nusd_mint) {
                Err(e) => Err(e),
                Ok(assets) => if v.principal_debt + v.accrued_fee > u128::MAX {
                    Err(CoreError::MathOverflow)
                } else {
                    match spec_repay(position_of(v), accounting_of(p), amount as u128) {
                        Err(e) => Err(core_error_of(e)),
                        Ok((dv, da, out)) => {
                            let paid = out.fee_paid + out.principal_paid;
                            let debt_before = (v.principal_debt + v.accrued_fee) as u128;
                            let insurance = da.insurance_fund_nusd - p.insurance_fund_nusd;
                            let raw = (da.realized_revenue_for_stakers
                                - p.realized_revenue_for_stakers) as u128;
                            let retired = min_u128(debt_before, paid as u128);
                            if c.total_debt < retired {
                                Err(CoreError::MathOverflow)
                            } else {
                                let p1 = with_accounting(
                                    p,
                                    crate::cdp::ProtocolAccounting {
                                        realized_revenue_for_stakers: p.realized_revenue_for_stakers,
                                        ..da
                                    },
                                );
                                match spec_route_targeted_staker_revenue(p1, assets, now, raw) {
                                    Err(e) => Err(e),
                                    Ok((p2, stakers, surplus)) => Ok(
                                        (
                                            p2,
                                            CollateralConfig {
                                                total_debt: (c.total_debt - retired) as u128,
                                                ..c
                                            },
                                            Vault {
                                                principal_debt: dv.principal_debt,
                                                accrued_fee: dv.accrued_fee,
                                                ..v
                                            },
                                            RepayRouting {
                                                paid: paid as u64,
                                                insurance: insurance as u64,
                                                stakers: stakers as u64,
                                                protocol: surplus as u64,
                                                burned: (out.principal_paid
                                                    + out.bad_debt_repaid) as u64,
                                            },
                                        ),
                                    ),
                                }
                            }
                        },
                    }
                },
            },
        }
    }
}

/// Books a repayment and says where its nUSD goes; the caller makes the
/// transfers and the burn.
pub fn repay_nusd(ctx: &mut RepayNusd, amount: u64, now: i64) -> (r: Result<RepayRouting, CoreError>)
    ensures
        match spec_repay_nusd(
            old(ctx).protocol,
            old(ctx).protocol_key,
            old(ctx).collateral_config,
            old(ctx).collateral_config_key,
            old(ctx).vault,
            old(ctx).owner,
            old(ctx).staking_state,
            amount,
            now,
        ) {
            Ok((p, c, v, routing)) => r == Ok::<RepayRouting, CoreError>(routing)
                && final(ctx).protocol == p && final(ctx).collateral_config == c && final(ctx).vault
                == v,
            Err(e) => r == Err::<RepayRouting, CoreError>(e) && final(ctx).protocol
                == old(ctx).protocol && final(ctx).collateral_config == old(ctx).collateral_config
                && final(ctx).vault == old(ctx).vault,
        },
        final(ctx).staking_state == old(ctx).staking_state,
        final(ctx).owner == old(ctx).owner,
        final(ctx).protocol_key == old(ctx).protocol_key,
        final(ctx).collateral_config_key == old(ctx).collateral_config_key,
{
    if amount == 0 {
        return Err(CoreError::InvalidParameter);
    }
    require_vault_context(
        &ctx.protocol_key,
        &ctx.collateral_config,
        &ctx.collateral_config_key,
        &ctx.vault,
        &ctx.owner,
    )?;
    let mut vault = ctx.vault;
    let mut protocol = ctx.protocol;
    let mut config = ctx.collateral_config;
    accrue_vault_fee(&mut vault, &mut protocol, &mut config, now)?;
    let assets = staking_assets(&ctx.staking_state, &protocol.nusd_mint)?;
    let debt_before = match vault.principal_debt.checked_add(vault.accrued_fee) {
        Some(d) => d,
        None => {
            return Err(CoreError::MathOverflow);
        },
    };
    let insurance_before = protocol.insurance_fund_nusd;
    let staker_before = protocol.realized_revenue_for_stakers;
    let mut position = domain_vault(&vault);
    let mut accounting = domain_protocol(&protocol);
    let out = match repay(&mut position, &mut accounting, amount as u128) {
        Ok(o) => o,
        Err(e) => {
            return Err(map_core_error(e));
        },
    };
    proof {
        crate::cdp::lemma_repay_accounting(position_of(vault), accounting_of(protocol), amount as u128);
    }
    let paid = out.fee_paid + out.principal_paid;
    let insurance_delta = accounting.insurance_fund_nusd - insurance_before;
    let staker_delta = accounting.realized_revenue_for_stakers - staker_before;
    accounting.realized_revenue_for_stakers = staker_before;
    let retired = if debt_before <= paid {
        debt_before
    } else {
        paid
    };
    if config.total_debt < retired {
        return Err(CoreError::MathOverflow);
    }
    let mut next = protocol;
    apply_protocol(&mut next, accounting);
    let ghost routed_from = next;
    let (stakers, surplus) = route_targeted_staker_revenue(&mut next, assets, now, staker_delta)?;
    proof {
        crate::revenue::lemma_targeted_routing_splits_exactly(routed_from, assets, now, staker_delta);
    }
    let paid_u64 = u128_to_u64(paid)?;
    let insurance_u64 = u128_to_u64(insurance_delta)?;
    let stakers_u64 = u128_to_u64(stakers)?;
    let surplus_u64 = u128_to_u64(surplus)?;
    let burned_u64 = u128_to_u64(out.principal_paid + out.bad_debt_repaid)?;
    vault.principal_debt = position.principal_debt;
    vault.accrued_fee = position.accrued_fee;
    config.total_debt = config.total_debt - retired;
    ctx.vault = vault;
    ctx.protocol = next;
    ctx.collateral_config = config;
    Ok(
        RepayRouting {
            paid: paid_u64,
            insurance: insurance_u64,
            stakers: stakers_u64,
            protocol: surplus_u64,
            burned: burned_u64,
        },
    )
}

/// A repayment's nUSD is accounted for in full: what the owner pays is the
/// insurance, staker and protocol parts plus what is burned.
pub proof fn lemma_repay_routing_conserves_payment(
    protocol: Protocol,
    protocol_key: Pubkey,
    config: CollateralConfig,
    config_key: Pubkey,
    vault: Vault,
    owner: Pubkey,
    staking_state: StakingStateAccountInfo,
    amount: u64,
    now: i64,
)
    requires
        spec_repay_nusd(
            protocol,
            protocol_key,
            config,
            config_key,
            vault,
            owner,
            staking_state,
            amount,
            now,
        ) is Ok,
    ensures
        ({
            let routing = spec_repay_nusd(
                protocol,
                protocol_key,
                config,
                config_key,
                vault,
                owner,
                staking_state,
                amount,
                now,
            )->Ok_0.3;
            &&& routing.paid == routing.insurance + routing.stakers + routing.protocol
                + routing.burned
            &&& routing.paid <= amount
        }),
{
    let (v, p, c) = spec_accrue_vault_fee(vault, protocol, config, now)->Ok_0;
    let assets = spec_staking_assets(staking_state, p.nusd_mint)->Ok_0;
    crate::cdp::lemma_repay_accounting(position_of(v), accounting_of(p), amount as u128);
    let (dv, da, out) = spec_repay(position_of(v), accounting_of(p), amount as u128)->Ok_0;
    let raw = (da.realized_revenue_for_stakers - p.realized_revenue_for_stakers) as u128;
    let p1 = with_accounting(
        p,
        crate::cdp::ProtocolAccounting { realized_revenue_for_stakers: p.realized_revenue_for_stakers, ..da },
    );
    crate::revenue::lemma_targeted_routing_splits_exactly(p1, assets, now, raw);
}

} // verus!
