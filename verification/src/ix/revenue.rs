use vstd::prelude::*;

use crate::accounts::{keys_eq, Protocol, Pubkey, NEST_STAKE_PROGRAM_ID};
use crate::core_error::{core_error_of, map_core_error, CoreError};
use crate::ix::admin::{assert_authority, spec_staking_assets, staking_assets, StakingStateAccountInfo};
use crate::ledger::{accounting_of, domain_protocol, TokenAccountState};
use crate::pda::{is_staking_state, is_staking_state_key};
use crate::psm_ledger::{require_psm_accounting_invariants, spec_psm_accounting_invariants};
use crate::revenue::{
    apply_protocol_revenue_accounting, apply_realized_psm_yield_accounting,
    record_staker_revenue_consumption, record_staking_loss_absorption,
    spec_apply_protocol_revenue_accounting, spec_apply_realized_psm_yield_accounting,
    spec_sync_staker_target_revenue, sync_staker_target_revenue, ProtocolRevenueAllocation,
};

verus! {

pub struct DepositProtocolRevenue {
    pub protocol: Protocol,
    pub source_nusd_account: TokenAccountState,
    pub staking_state: StakingStateAccountInfo,
}

/// The source account may not be one of the protocol's revenue vaults and
/// must hold the amount.
pub open spec fn revenue_source_ok(ctx: DepositProtocolRevenue, amount: u64) -> bool {
    let source = ctx.source_nusd_account;
    &&& source.amount >= amount
    &&& source.key@ != ctx.protocol.insurance_nusd_vault@
    &&& source.key@ != ctx.protocol.staker_revenue_nusd_vault@
    &&& source.key@ != ctx.protocol.protocol_revenue_nusd_vault@
}

/// Anyone may deposit nUSD revenue: it retires bad debt first, then fills
/// insurance, stakers and protocol revenue, with the staker target checkpointed
/// on the staking pool's assets.
pub open spec fn spec_deposit_protocol_revenue(
    ctx: DepositProtocolRevenue,
    amount: u64,
    now: i64,
) -> Result<(Protocol, ProtocolRevenueAllocation), CoreError> {
    if amount == 0 || !revenue_source_ok(ctx, amount) {
        Err(CoreError::InvalidParameter)
    } else {
        match spec_staking_assets(ctx.staking_state, ctx.protocol.nusd_mint) {
            Err(e) => Err(e),
            Ok(assets) => spec_apply_protocol_revenue_accounting(
                ctx.protocol,
                assets,
                now,
                amount as u128,
            ),
        }
    }
}

/// Books a revenue deposit and returns its split; the caller burns the
/// bad-debt part and transfers the rest from the source account.
pub fn deposit_protocol_revenue(ctx: &mut DepositProtocolRevenue, amount: u64, now: i64) -> (r:
    Result<ProtocolRevenueAllocation, CoreError>)
    ensures
        final(ctx).source_nusd_account == old(ctx).source_nusd_account,
        final(ctx).staking_state == old(ctx).staking_state,
        match spec_deposit_protocol_revenue(*old(ctx), amount, now) {
            Ok((p, split)) => r == Ok::<ProtocolRevenueAllocation, CoreError>(split)
                && final(ctx).protocol == p,
            Err(e) => r == Err::<ProtocolRevenueAllocation, CoreError>(e) && final(ctx).protocol
                == old(ctx).protocol,
        },
{
    if amount == 0 {
        return Err(CoreError::InvalidParameter);
    }
    let source = ctx.source_nusd_account;
    if source.amount < amount || keys_eq(&source.key, &ctx.protocol.insurance_nusd_vault) || keys_eq(
        &source.key,
        &ctx.protocol.staker_revenue_nusd_vault,
    ) || keys_eq(&source.key, &ctx.protocol.protocol_revenue_nusd_vault) {
        return Err(CoreError::InvalidParameter);
    }
    let assets = staking_assets(&ctx.staking_state, &ctx.protocol.nusd_mint)?;
    apply_protocol_revenue_accounting(&mut ctx.protocol, assets, now, amount as u128)
}

/// nest-stake signs with its canonical state account.
pub open spec fn stake_caller_ok(info: StakingStateAccountInfo, is_signer: bool) -> bool {
    is_signer && is_staking_state(info.key) && info.owner@ == NEST_STAKE_PROGRAM_ID@
}

/// nest-stake signs with the account recorded as the staker revenue authority.
pub open spec fn revenue_authority_caller_ok(
    info: StakingStateAccountInfo,
    authority: Pubkey,
    is_signer: bool,
) -> bool {
    is_signer && info.key@ == authority@ && info.owner@ == NEST_STAKE_PROGRAM_ID@
}

fn check_stake_caller(info: &StakingStateAccountInfo, is_signer: bool) -> (r: Result<(), CoreError>)
    ensures
        r == (if stake_caller_ok(*info, is_signer) {
            Ok(())
        } else {
            Err(CoreError::InvalidParameter)
        }),
{
    if is_signer && is_staking_state_key(&info.key) && keys_eq(&info.owner, &NEST_STAKE_PROGRAM_ID) {
        Ok(())
    } else {
        Err(CoreError::InvalidParameter)
    }
}

fn check_revenue_authority_caller(
    info: &StakingStateAccountInfo,
    authority: &Pubkey,
    is_signer: bool,
) -> (r: Result<(), CoreError>)
    ensures
        r == (if revenue_authority_caller_ok(*info, *authority, is_signer) {
            Ok(())
        } else {
            Err(CoreError::InvalidParameter)
        }),
{
    if is_signer && keys_eq(&info.key, authority) && keys_eq(&info.owner, &NEST_STAKE_PROGRAM_ID) {
        Ok(())
    } else {
        Err(CoreError::InvalidParameter)
    }
}

pub struct CheckpointStakerTargetRevenue {
    pub protocol: Protocol,
    pub staking_state: StakingStateAccountInfo,
    pub staking_state_is_signer: bool,
}

/// nest-stake checkpoints the staker target revenue on its current balance.
pub open spec fn spec_checkpoint_staker_target_revenue(
    ctx: CheckpointStakerTargetRevenue,
    now: i64,
) -> Result<Protocol, CoreError> {
    if !stake_caller_ok(ctx.staking_state, ctx.staking_state_is_signer) {
        Err(CoreError::InvalidParameter)
    } else {
        match spec_staking_assets(ctx.staking_state, ctx.protocol.nusd_mint) {
            Err(e) => Err(e),
            Ok(assets) => spec_sync_staker_target_revenue(ctx.protocol, assets, now),
        }
    }
}

pub fn checkpoint_staker_target_revenue(ctx: &mut CheckpointStakerTargetRevenue, now: i64) -> (r:
    Result<(), CoreError>)
    ensures
        final(ctx).staking_state == old(ctx).staking_state,
        final(ctx).staking_state_is_signer == old(ctx).staking_state_is_signer,
        match spec_checkpoint_staker_target_revenue(*old(ctx), now) {
            Ok(p) => r is Ok && final(ctx).protocol == p,
            Err(e) => r == Err::<(), CoreError>(e) && final(ctx).protocol == old(ctx).protocol,
        },
{
    check_stake_caller(&ctx.staking_state, ctx.staking_state_is_signer)?;
    let assets = staking_assets(&ctx.staking_state, &ctx.protocol.nusd_mint)?;
    sync_staker_target_revenue(&mut ctx.protocol, assets, now)
}

pub struct ConsumeStakerRevenue {
    pub protocol: Protocol,
    pub staking_state: StakingStateAccountInfo,
    pub staking_state_is_signer: bool,
}

/// nest-stake reports `amount` of routed staker revenue as harvested, after
/// checkpointing the target revenue.
pub open spec fn spec_consume_staker_revenue(
    ctx: ConsumeStakerRevenue,
    amount: u64,
    now: i64,
) -> Result<Protocol, CoreError> {
    if amount == 0 || !revenue_authority_caller_ok(
        ctx.staking_state,
        ctx.protocol.staker_revenue_authority,
        ctx.staking_state_is_signer,
    ) {
        Err(CoreError::InvalidParameter)
    } else {
        match spec_staking_assets(ctx.staking_state, ctx.protocol.nusd_mint) {
            Err(e) => Err(e),
            Ok(assets) => match spec_sync_staker_target_revenue(ctx.protocol, assets, now) {
                Err(e) => Err(e),
                Ok(p) => if !p.staker_revenue_accounting_initialized {
                    Err(CoreError::StakerRevenueAccountingNotInitialized)
                } else if amount > p.realized_revenue_for_stakers {
                    Err(CoreError::InvalidParameter)
                } else {
                    Ok(
                        Protocol {
                            realized_revenue_for_stakers: (p.realized_revenue_for_stakers
                                - amount) as u128,
                            ..p
                        },
                    )
                },
            },
        }
    }
}

pub fn consume_staker_revenue(ctx: &mut ConsumeStakerRevenue, amount: u64, now: i64) -> (r: Result<
    (),
    CoreError,
>)
    ensures
        final(ctx).staking_state == old(ctx).staking_state,
        final(ctx).staking_state_is_signer == old(ctx).staking_state_is_signer,
        match spec_consume_staker_revenue(*old(ctx), amount, now) {
            Ok(p) => r is Ok && final(ctx).protocol == p,
            Err(e) => r == Err::<(), CoreError>(e) && final(ctx).protocol == old(ctx).protocol,
        },
{
    if amount == 0 {
        return Err(CoreError::InvalidParameter);
    }
    check_revenue_authority_caller(
        &ctx.staking_state,
        &ctx.protocol.staker_revenue_authority,
        ctx.staking_state_is_signer,
    )?;
    let assets = staking_assets(&ctx.staking_state, &ctx.protocol.nusd_mint)?;
    let mut p = ctx.protocol;
    sync_staker_target_revenue(&mut p, assets, now)?;
    record_staker_revenue_consumption(&mut p, amount as u128)?;
    ctx.protocol = p;
    Ok(())
}

pub struct AbsorbStakingLoss {
    pub protocol: Protocol,
    pub staking_state: StakingStateAccountInfo,
    pub staking_state_is_signer: bool,
}

/// nest-stake reports that stakers absorbed `amount` of bad debt.
pub fn absorb_staking_loss(ctx: &mut AbsorbStakingLoss, amount: u64) -> (r: Result<(), CoreError>)
    ensures
        final(ctx).staking_state == old(ctx).staking_state,
        r == (if amount == 0 || !stake_caller_ok(old(ctx).staking_state, old(ctx).staking_state_is_signer)
            || amount > old(ctx).protocol.bad_debt_nusd {
            Err(CoreError::InvalidParameter)
        } else {
            Ok(())
        }),
        r is Ok ==> final(ctx).protocol == (Protocol {
            bad_debt_nusd: (old(ctx).protocol.bad_debt_nusd - amount) as u128,
            ..old(ctx).protocol
        }),
        r is Err ==> final(ctx).protocol == old(ctx).protocol,
{
    if amount == 0 {
        return Err(CoreError::InvalidParameter);
    }
    check_stake_caller(&ctx.staking_state, ctx.staking_state_is_signer)?;
    record_staking_loss_absorption(&mut ctx.protocol, amount as u128)
}

pub struct RealizePsmYield {
    pub protocol: Protocol,
    pub psm_usdc_vault_amount: u64,
    pub staking_state: StakingStateAccountInfo,
    pub authority: Pubkey,
}

/// The authority routes USDC that sits in the PSM vault above recorded idle
/// liquidity as yield, within the PSM cap and while the protocol is open and
/// free of bad debt.
pub open spec fn spec_realize_psm_yield(ctx: RealizePsmYield, amount: u64, now: i64) -> Result<
    (Protocol, (u64, u64, u64, u64)),
    CoreError,
> {
    if ctx.protocol.authority@ != ctx.authority@ {
        Err(CoreError::Unauthorized)
    } else if amount == 0 {
        Err(CoreError::InvalidParameter)
    } else {
        match spec_staking_assets(ctx.staking_state, ctx.protocol.nusd_mint) {
            Err(e) => Err(e),
            Ok(assets) => spec_apply_realized_psm_yield_accounting(
                ctx.protocol,
                ctx.psm_usdc_vault_amount,
                amount,
                assets,
                now,
                true,
                true,
            ),
        }
    }
}

/// Returns the insurance, staker, protocol and total nUSD to mint.
pub fn realize_psm_yield(ctx: &mut RealizePsmYield, amount: u64, now: i64) -> (r: Result<
    (u64, u64, u64, u64),
    CoreError,
>)
    ensures
        final(ctx).staking_state == old(ctx).staking_state,
        final(ctx).psm_usdc_vault_amount == old(ctx).psm_usdc_vault_amount,
        final(ctx).authority == old(ctx).authority,
        match spec_realize_psm_yield(*old(ctx), amount, now) {
            Ok((p, parts)) => r == Ok::<(u64, u64, u64, u64), CoreError>(parts)
                && final(ctx).protocol == p,
            Err(e) => r == Err::<(u64, u64, u64, u64), CoreError>(e) && final(ctx).protocol
                == old(ctx).protocol,
        },
{
    assert_authority(&ctx.protocol, &ctx.authority)?;
    if amount == 0 {
        return Err(CoreError::InvalidParameter);
    }
    let assets = staking_assets(&ctx.staking_state, &ctx.protocol.nusd_mint)?;
    apply_realized_psm_yield_accounting(
        &mut ctx.protocol,
        ctx.psm_usdc_vault_amount,
        amount,
        assets,
        now,
        true,
        true,
    )
}

#[derive(Debug, Clone, Copy, PartialEq, Eq)]
pub struct CoverBadDebt {
    pub protocol: Protocol,
    pub psm_usdc_vault_amount: u64,
    pub authority: Pubkey,
}

/// USDC surplus in the PSM vault backs new PSM nUSD that retires bad debt.
pub open spec fn spec_cover_bad_debt(ctx: CoverBadDebt, amount: u64) -> Result<Protocol, CoreError> {
    let p = ctx.protocol;
    if p.authority@ != ctx.authority@ {
        Err(CoreError::Unauthorized)
    } else if amount == 0 {
        Err(CoreError::InvalidParameter)
    } else if p.psm_idle_usdc + amount > u128::MAX {
        Err(CoreError::MathOverflow)
    } else if ctx.psm_usdc_vault_amount < p.psm_idle_usdc + amount {
        Err(CoreError::PsmNoSurplus)
    } else if p.psm_usdc_liabilities + amount > u128::MAX {
        Err(CoreError::MathOverflow)
    } else if p.psm_usdc_liabilities + amount > p.psm_cap {
        Err(CoreError::PsmCapExceeded)
    } else if amount > p.bad_debt_nusd {
        Err(CoreError::InvalidParameter)
    } else if p.psm_nusd_supply + amount > u128::MAX {
        Err(CoreError::MathOverflow)
    } else {
        let q = Protocol {
            bad_debt_nusd: (p.bad_debt_nusd - amount) as u128,
            psm_usdc_liabilities: (p.psm_usdc_liabilities + amount) as u128,
            psm_nusd_supply: (p.psm_nusd_supply + amount) as u128,
            psm_idle_usdc: (p.psm_idle_usdc + amount) as u128,
            ..p
        };
        match spec_psm_accounting_invariants(q, ctx.psm_usdc_vault_amount) {
            Err(e) => Err(e),
            Ok(_) => Ok(q),
        }
    }
}

pub fn cover_bad_debt(ctx: &mut CoverBadDebt, amount: u64) -> (r: Result<(), CoreError>)
    ensures
        match spec_cover_bad_debt(*old(ctx), amount) {
            Ok(p) => r is Ok && *final(ctx) == (CoverBadDebt { protocol: p, ..*old(ctx) }),
            Err(e) => r == Err::<(), CoreError>(e) && *final(ctx) == *old(ctx),
        },
{
    assert_authority(&ctx.protocol, &ctx.authority)?;
    if amount == 0 {
        return Err(CoreError::InvalidParameter);
    }
    let amount_u128 = amount as u128;
    let idle = match ctx.protocol.psm_idle_usdc.checked_add(amount_u128) {
        Some(v) => v,
        None => {
            return Err(CoreError::MathOverflow);
        },
    };
    if (ctx.psm_usdc_vault_amount as u128) < idle {
        return Err(CoreError::PsmNoSurplus);
    }
    let liabilities = match ctx.protocol.psm_usdc_liabilities.checked_add(amount_u128) {
        Some(v) => v,
        None => {
            return Err(CoreError::MathOverflow);
        },
    };
    if liabilities > ctx.protocol.psm_cap {
        return Err(CoreError::PsmCapExceeded);
    }
    let mut accounting = domain_protocol(&ctx.protocol);
    match accounting.cover_bad_debt(amount_u128) {
        Ok(()) => {},
        Err(e) => {
            return Err(map_core_error(e));
        },
    }
    let supply = match ctx.protocol.psm_nusd_supply.checked_add(amount_u128) {
        Some(v) => v,
        None => {
            return Err(CoreError::MathOverflow);
        },
    };
    let mut q = ctx.protocol;
    q.bad_debt_nusd = accounting.bad_debt_nusd;
    q.psm_usdc_liabilities = liabilities;
    q.psm_nusd_supply = supply;
    q.psm_idle_usdc = idle;
    require_psm_accounting_invariants(&q, ctx.psm_usdc_vault_amount)?;
    ctx.protocol = q;
    Ok(())
}

} // verus!
