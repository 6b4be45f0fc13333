use vstd::prelude::*;

use crate::accounts::{keys_eq, CollateralConfig, Protocol, Pubkey};
use crate::core_error::CoreError;
use crate::ix::admin::assert_authority;
use crate::psm_ledger::{
    record_psm_outflow, require_psm_accounting_invariants, require_psm_redemption_solvent,
    spec_psm_accounting_invariants, spec_record_psm_outflow,
};

verus! {

#[derive(Debug, Clone, Copy, PartialEq, Eq)]
pub struct PsmSwapIn {
    pub protocol: Protocol,
}

/// USDC in, the same amount of nUSD out, within the PSM cap.
pub open spec fn spec_psm_swap_in(p: Protocol, amount: u64) -> Result<Protocol, CoreError> {
    if amount == 0 {
        Err(CoreError::InvalidParameter)
    } else if p.paused {
        Err(CoreError::Paused)
    } else if p.psm_usdc_liabilities + amount > u128::MAX {
        Err(CoreError::MathOverflow)
    } else if p.psm_usdc_liabilities + amount > p.psm_cap {
        Err(CoreError::PsmCapExceeded)
    } else if p.psm_nusd_supply + amount > u128::MAX || p.psm_idle_usdc + amount > u128::MAX {
        Err(CoreError::MathOverflow)
    } else {
        Ok(
            Protocol {
                psm_usdc_liabilities: (p.psm_usdc_liabilities + amount) as u128,
                psm_nusd_supply: (p.psm_nusd_supply + amount) as u128,
                psm_idle_usdc: (p.psm_idle_usdc + amount) as u128,
                ..p
            },
        )
    }
}

/// Books a swap of `amount` USDC into nUSD; the caller moves the USDC into
/// the PSM vault and mints the nUSD.
pub fn psm_swap_in(ctx: &mut PsmSwapIn, amount: u64) -> (r: Result<(), CoreError>)
    ensures
        match spec_psm_swap_in(old(ctx).protocol, amount) {
            Ok(p) => r is Ok && final(ctx).protocol == p,
            Err(e) => r == Err::<(), CoreError>(e) && *final(ctx) == *old(ctx),
        },
{
    if amount == 0 {
        return Err(CoreError::InvalidParameter);
    }
    if ctx.protocol.paused {
        return Err(CoreError::Paused);
    }
    let amount_u128 = amount as u128;
    let liabilities = match ctx.protocol.psm_usdc_liabilities.checked_add(amount_u128) {
        Some(v) => v,
        None => {
            return Err(CoreError::MathOverflow);
        },
    };
    if liabilities > ctx.protocol.psm_cap {
        return Err(CoreError::PsmCapExceeded);
    }
    let supply = match ctx.protocol.psm_nusd_supply.checked_add(amount_u128) {
        Some(v) => v,
        None => {
            return Err(CoreError::MathOverflow);
        },
    };
    let idle = match ctx.protocol.psm_idle_usdc.checked_add(amount_u128) {
        Some(v) => v,
        None => {
            return Err(CoreError::MathOverflow);
        },
    };
    ctx.protocol.psm_usdc_liabilities = liabilities;
    ctx.protocol.psm_nusd_supply = supply;
    ctx.protocol.psm_idle_usdc = idle;
    Ok(())
}

#[derive(Debug, Clone, Copy, PartialEq, Eq)]
pub struct PsmSwapOut {
    pub protocol: Protocol,
    pub user_nusd_amount: u64,
}

/// nUSD in, USDC out from idle liquidity, once bad debt is covered and
/// within the outflow breaker; an outflow beyond the breaker's limit is
/// refused and changes nothing.
pub open spec fn spec_psm_swap_out(
    p: Protocol,
    user_nusd_amount: u64,
    amount: u64,
    now: i64,
) -> Result<Protocol, CoreError> {
    if amount == 0 {
        Err(CoreError::InvalidParameter)
    } else if p.paused {
        Err(CoreError::Paused)
    } else if p.bad_debt_nusd != 0 {
        Err(CoreError::BadDebtOutstanding)
    } else if p.psm_idle_usdc < amount || user_nusd_amount < amount {
        Err(CoreError::PsmInsufficientLiquidity)
    } else {
        match spec_record_psm_outflow(p, amount as u128, p.psm_idle_usdc, now) {
            Err(e) => Err(e),
            Ok(q) => if q.psm_usdc_liabilities < amount || q.psm_nusd_supply < amount {
                Err(CoreError::MathOverflow)
            } else {
                Ok(
                    Protocol {
                        psm_usdc_liabilities: (q.psm_usdc_liabilities - amount) as u128,
                        psm_nusd_supply: (q.psm_nusd_supply - amount) as u128,
                        psm_idle_usdc: (q.psm_idle_usdc - amount) as u128,
                        ..q
                    },
                )
            },
        }
    }
}

/// Books a redemption of `amount` nUSD for USDC; on success the caller burns
/// the nUSD and sends the USDC.
pub fn psm_swap_out(ctx: &mut PsmSwapOut, amount: u64, now: i64) -> (r: Result<(), CoreError>)
    ensures
        match spec_psm_swap_out(old(ctx).protocol, old(ctx).user_nusd_amount, amount, now) {
            Ok(p) => r is Ok && final(ctx).protocol == p && final(ctx).user_nusd_amount == old(
                ctx,
            ).user_nusd_amount,
            Err(e) => r == Err::<(), CoreError>(e) && *final(ctx) == *old(ctx),
        },
{
    if amount == 0 {
        return Err(CoreError::InvalidParameter);
    }
    if ctx.protocol.paused {
        return Err(CoreError::Paused);
    }
    require_psm_redemption_solvent(&ctx.protocol)?;
    let amount_u128 = amount as u128;
    if ctx.protocol.psm_idle_usdc < amount_u128 || ctx.user_nusd_amount < amount {
        return Err(CoreError::PsmInsufficientLiquidity);
    }
    let mut q = ctx.protocol;
    let idle_before = q.psm_idle_usdc;
    record_psm_outflow(&mut q, amount_u128, idle_before, now)?;
    if q.psm_usdc_liabilities < amount_u128 || q.psm_nusd_supply < amount_u128 {
        return Err(CoreError::MathOverflow);
    }
    q.psm_usdc_liabilities = q.psm_usdc_liabilities - amount_u128;
    q.psm_nusd_supply = q.psm_nusd_supply - amount_u128;
    q.psm_idle_usdc = q.psm_idle_usdc - amount_u128;
    ctx.protocol = q;
    Ok(())
}

/// The PSM's books: USDC owed equals nUSD issued, and idle plus deployed
/// USDC does not exceed what is owed.
pub open spec fn psm_books_balanced(p: Protocol) -> bool {
    &&& p.psm_usdc_liabilities == p.psm_nusd_supply
    &&& p.psm_idle_usdc + p.psm_kamino_deployed_usdc <= p.psm_usdc_liabilities
}

/// Swaps keep the PSM's books balanced: a swap in adds the amount to what is
/// owed, issued and idle alike, and a swap out takes it from all three.
pub proof fn lemma_psm_swaps_keep_books_balanced(
    p: Protocol,
    amount: u64,
    user_nusd_amount: u64,
    now: i64,
)
    requires
        psm_books_balanced(p),
    ensures
        spec_psm_swap_in(p, amount) is Ok ==> psm_books_balanced(spec_psm_swap_in(p, amount)->Ok_0),
        spec_psm_swap_out(p, user_nusd_amount, amount, now) is Ok ==> ({
            let q = spec_psm_swap_out(p, user_nusd_amount, amount, now)->Ok_0;
            &&& psm_books_balanced(q)
            &&& q.psm_usdc_liabilities == p.psm_usdc_liabilities - amount
            &&& q.psm_nusd_supply == p.psm_nusd_supply - amount
            &&& q.psm_idle_usdc == p.psm_idle_usdc - amount
            &&& !q.paused
        }),
{
}

/// A swap out undoes a swap in of the same amount on the PSM's books.
pub proof fn lemma_psm_swap_out_undoes_swap_in(
    p: Protocol,
    amount: u64,
    user_nusd_amount: u64,
    now: i64,
)
    requires
        spec_psm_swap_in(p, amount) is Ok,
        spec_psm_swap_out(spec_psm_swap_in(p, amount)->Ok_0, user_nusd_amount, amount, now) is Ok,
    ensures
        ({
            let q = spec_psm_swap_out(
                spec_psm_swap_in(p, amount)->Ok_0,
                user_nusd_amount,
                amount,
                now,
            )->Ok_0;
            &&& q.psm_usdc_liabilities == p.psm_usdc_liabilities
            &&& q.psm_nusd_supply == p.psm_nusd_supply
            &&& q.psm_idle_usdc == p.psm_idle_usdc
            &&& q.psm_kamino_deployed_usdc == p.psm_kamino_deployed_usdc
            &&& q.bad_debt_nusd == p.bad_debt_nusd
        }),
{
}

#[derive(Debug, Clone, Copy, PartialEq, Eq)]
pub struct ReleaseBuybackSurplus {
    pub protocol: Protocol,
    pub psm_usdc_vault_amount: u64,
    pub protocol_revenue_nusd_vault_amount: u64,
    pub buyback_authority: Pubkey,
}

/// Protocol revenue may buy back USDC from the PSM: the nUSD is burned from
/// protocol revenue and the USDC leaves idle liquidity, keeping at least
/// `min_psm_idle_after` idle.
pub open spec fn spec_release_buyback_surplus(
    ctx: ReleaseBuybackSurplus,
    amount: u64,
    min_psm_idle_after: u64,
) -> Result<Protocol, CoreError> {
    let p = ctx.protocol;
    if p.buyback_authority@ != ctx.buyback_authority@ {
        Err(CoreError::Unauthorized)
    } else if amount == 0 {
        Err(CoreError::InvalidParameter)
    } else if p.paused {
        Err(CoreError::Paused)
    } else if p.bad_debt_nusd != 0 {
        Err(CoreError::BadDebtOutstanding)
    } else if spec_psm_accounting_invariants(p, ctx.psm_usdc_vault_amount) is Err {
        Err(spec_psm_accounting_invariants(p, ctx.psm_usdc_vault_amount)->Err_0)
    } else if amount > p.realized_revenue_for_protocol || ctx.protocol_revenue_nusd_vault_amount
        < amount {
        Err(CoreError::InsufficientProtocolRevenue)
    } else if p.psm_idle_usdc < amount + min_psm_idle_after {
        Err(CoreError::PsmInsufficientLiquidity)
    } else if p.psm_usdc_liabilities < amount || p.psm_nusd_supply < amount {
        Err(CoreError::InvalidParameter)
    } else {
        Ok(
            Protocol {
                realized_revenue_for_protocol: (p.realized_revenue_for_protocol - amount) as u128,
                psm_usdc_liabilities: (p.psm_usdc_liabilities - amount) as u128,
                psm_nusd_supply: (p.psm_nusd_supply - amount) as u128,
                psm_idle_usdc: (p.psm_idle_usdc - amount) as u128,
                ..p
            },
        )
    }
}

/// Books a buyback release; the caller burns the nUSD from protocol revenue
/// and sends the USDC to the buyback account.
pub fn release_buyback_surplus(
    ctx: &mut ReleaseBuybackSurplus,
    amount: u64,
    min_psm_idle_after: u64,
) -> (r: Result<(), CoreError>)
    ensures
        match spec_release_buyback_surplus(*old(ctx), amount, min_psm_idle_after) {
            Ok(p) => r is Ok && *final(ctx) == (ReleaseBuybackSurplus { protocol: p, ..*old(ctx) }),
            Err(e) => r == Err::<(), CoreError>(e) && *final(ctx) == *old(ctx),
        },
{
    if !keys_eq(&ctx.protocol.buyback_authority, &ctx.buyback_authority) {
        return Err(CoreError::Unauthorized);
    }
    if amount == 0 {
        return Err(CoreError::InvalidParameter);
    }
    if ctx.protocol.paused {
        return Err(CoreError::Paused);
    }
    if ctx.protocol.bad_debt_nusd != 0 {
        return Err(CoreError::BadDebtOutstanding);
    }
    require_psm_accounting_invariants(&ctx.protocol, ctx.psm_usdc_vault_amount)?;
    let amount_u128 = amount as u128;
    if amount_u128 > ctx.protocol.realized_revenue_for_protocol
        || ctx.protocol_revenue_nusd_vault_amount < amount {
        return Err(CoreError::InsufficientProtocolRevenue);
    }
    if ctx.protocol.psm_idle_usdc < amount_u128 + min_psm_idle_after as u128 {
        return Err(CoreError::PsmInsufficientLiquidity);
    }
    if ctx.protocol.psm_usdc_liabilities < amount_u128 || ctx.protocol.psm_nusd_supply
        < amount_u128 {
        return Err(CoreError::InvalidParameter);
    }
    ctx.protocol.realized_revenue_for_protocol = ctx.protocol.realized_revenue_for_protocol
        - amount_u128;
    ctx.protocol.psm_usdc_liabilities = ctx.protocol.psm_usdc_liabilities - amount_u128;
    ctx.protocol.psm_nusd_supply = ctx.protocol.psm_nusd_supply - amount_u128;
    ctx.protocol.psm_idle_usdc = ctx.protocol.psm_idle_usdc - amount_u128;
    Ok(())
}

#[derive(Debug, Clone, Copy, PartialEq, Eq)]
pub struct WithdrawInsuranceCollateral {
    pub protocol: Protocol,
    pub protocol_key: Pubkey,
    pub collateral_config: CollateralConfig,
    pub insurance_collateral_vault_key: Pubkey,
    pub authority: Pubkey,
}

/// The authority may take collateral out of a market's insurance vault; the
/// caller makes the transfer.
pub fn withdraw_insurance_collateral(ctx: &WithdrawInsuranceCollateral, amount: u64) -> (r: Result<
    (),
    CoreError,
>)
    ensures
        r == (if amount == 0 {
            Err(CoreError::InvalidParameter)
        } else if ctx.protocol.authority@ != ctx.authority@ {
            Err(CoreError::Unauthorized)
        } else if ctx.collateral_config.protocol@ != ctx.protocol_key@
            || ctx.insurance_collateral_vault_key@ != ctx.collateral_config.insurance_collateral_vault@ {
            Err(CoreError::InvalidParameter)
        } else {
            Ok(())
        }),
{
    if amount == 0 {
        return Err(CoreError::InvalidParameter);
    }
    assert_authority(&ctx.protocol, &ctx.authority)?;
    if !keys_eq(&ctx.collateral_config.protocol, &ctx.protocol_key) || !keys_eq(
        &ctx.insurance_collateral_vault_key,
        &ctx.collateral_config.insurance_collateral_vault,
    ) {
        return Err(CoreError::InvalidParameter);
    }
    Ok(())
}

} // verus!
