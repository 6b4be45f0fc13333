use vstd::prelude::*;

use crate::accounts::{is_default_key, key_is_default, keys_eq, Protocol, Pubkey};
use crate::core_error::{map_core_error, CoreError};
use crate::ix::admin::{spec_staking_assets, staking_assets, StakingStateAccountInfo};
use crate::ledger::{require_token_account_decrease, u128_to_u64};
use crate::pda::{is_lending_market_authority, is_lending_market_authority_key};
use crate::psm::{verify_kamino_profit_slice, spec_verify_kamino_profit_slice, KaminoPrincipalRedemption};
use crate::psm_ledger::{
    psm_kamino_target_deployed, record_psm_kamino_redemption, require_psm_accounting_invariants,
    spec_psm_accounting_invariants, spec_psm_kamino_target_deployed,
    spec_record_psm_kamino_redemption,
};
use crate::readers::{
    read_klend_reserve_pubkey, KLEND_RESERVE_COLLATERAL_MINT_OFFSET,
    KLEND_RESERVE_LENDING_MARKET_OFFSET, KLEND_RESERVE_LIQUIDITY_MINT_OFFSET,
    KLEND_RESERVE_LIQUIDITY_SUPPLY_OFFSET, KLEND_RESERVE_LIQUIDITY_TOKEN_PROGRAM_OFFSET,
};
use crate::revenue::{apply_realized_psm_yield_accounting, spec_apply_realized_psm_yield_accounting};

verus! {

/// Accounts of the PSM's Kamino operations, with balances read before the
/// Kamino call.
pub struct PsmKamino {
    pub protocol: Protocol,
    pub psm_usdc_vault_amount: u64,
    pub protocol_kamino_collateral_vault_key: Pubkey,
    pub protocol_kamino_collateral_vault_amount: u64,
    pub reserve_key: Pubkey,
    pub reserve_owner: Pubkey,
    pub reserve_data: Vec<u8>,
    pub lending_market_key: Pubkey,
    pub lending_market_owner: Pubkey,
    pub lending_market_authority: Pubkey,
    pub reserve_liquidity_supply: Pubkey,
    pub reserve_collateral_mint_key: Pubkey,
    pub reserve_collateral_mint_owner: Pubkey,
    pub usdc_mint: Pubkey,
    pub token_program: Pubkey,
}

pub open spec fn reserve_field(data: Seq<u8>, offset: int) -> Seq<u8> {
    data.subrange(offset, offset + 32)
}

/// The Kamino accounts are the protocol's cToken vault and a USDC reserve of
/// the configured Kamino program whose recorded market, mint, supply, token
/// program and collateral mint match the accounts passed.
pub open spec fn kamino_accounts_ok(ctx: PsmKamino) -> bool {
    let p = ctx.protocol;
    let data = ctx.reserve_data@;
    &&& !is_default_key(p.psm_kamino_collateral_vault)
    &&& ctx.protocol_kamino_collateral_vault_key@ == p.psm_kamino_collateral_vault@
    &&& ctx.reserve_owner@ == p.kamino_program_id@
    &&& ctx.lending_market_owner@ == p.kamino_program_id@
    &&& ctx.reserve_collateral_mint_owner@ == ctx.token_program@
    &&& data.len() >= 2592
    &&& reserve_field(data, 32) == ctx.lending_market_key@
    &&& reserve_field(data, 128) == ctx.usdc_mint@
    &&& reserve_field(data, 408) == ctx.token_program@
    &&& reserve_field(data, 160) == ctx.reserve_liquidity_supply@
    &&& reserve_field(data, 2560) == ctx.reserve_collateral_mint_key@
    &&& is_lending_market_authority(ctx.lending_market_authority, ctx.lending_market_key, p.kamino_program_id)
}

pub fn assert_kamino_psm_cpi_accounts(ctx: &PsmKamino) -> (r: Result<(), CoreError>)
    ensures
        r == (if kamino_accounts_ok(*ctx) {
            Ok(())
        } else {
            Err(CoreError::InvalidParameter)
        }),
{
    let p = &ctx.protocol;
    if key_is_default(&p.psm_kamino_collateral_vault) || !keys_eq(
        &ctx.protocol_kamino_collateral_vault_key,
        &p.psm_kamino_collateral_vault,
    ) || !keys_eq(&ctx.reserve_owner, &p.kamino_program_id) || !keys_eq(
        &ctx.lending_market_owner,
        &p.kamino_program_id,
    ) || !keys_eq(&ctx.reserve_collateral_mint_owner, &ctx.token_program) {
        return Err(CoreError::InvalidParameter);
    }
    let data = ctx.reserve_data.as_slice();
    if data.len() < 2592 {
        return Err(CoreError::InvalidParameter);
    }
    let market = read_klend_reserve_pubkey(data, KLEND_RESERVE_LENDING_MARKET_OFFSET)?;
    let mint = read_klend_reserve_pubkey(data, KLEND_RESERVE_LIQUIDITY_MINT_OFFSET)?;
    let supply = read_klend_reserve_pubkey(data, KLEND_RESERVE_LIQUIDITY_SUPPLY_OFFSET)?;
    let token_program = read_klend_reserve_pubkey(
        data,
        KLEND_RESERVE_LIQUIDITY_TOKEN_PROGRAM_OFFSET,
    )?;
    let collateral_mint = read_klend_reserve_pubkey(data, KLEND_RESERVE_COLLATERAL_MINT_OFFSET)?;
    if !keys_eq(&market, &ctx.lending_market_key) || !keys_eq(&mint, &ctx.usdc_mint) || !keys_eq(
        &token_program,
        &ctx.token_program,
    ) || !keys_eq(&ctx.reserve_liquidity_supply, &supply) || !keys_eq(
        &ctx.reserve_collateral_mint_key,
        &collateral_mint,
    ) {
        return Err(CoreError::InvalidParameter);
    }
    if !is_lending_market_authority_key(
        &ctx.lending_market_authority,
        &ctx.lending_market_key,
        &p.kamino_program_id,
    ) {
        return Err(CoreError::InvalidParameter);
    }
    Ok(())
}

/// How much idle USDC to deploy to Kamino: up to `max_amount`, towards the
/// deployment target, and no more than is idle.
pub open spec fn spec_rebalance_amount(ctx: PsmKamino, max_amount: u64) -> Result<u64, CoreError> {
    let p = ctx.protocol;
    if max_amount == 0 {
        Err(CoreError::InvalidParameter)
    } else if p.paused {
        Err(CoreError::Paused)
    } else if !kamino_accounts_ok(ctx) {
        Err(CoreError::InvalidParameter)
    } else {
        match spec_psm_kamino_target_deployed(p.psm_idle_usdc, p.psm_kamino_deployed_usdc) {
            Err(e) => Err(e),
            Ok(target) => if p.psm_kamino_deployed_usdc >= target {
                Err(CoreError::PsmKaminoTargetReached)
            } else {
                let delta = target - p.psm_kamino_deployed_usdc;
                let a = if max_amount <= delta { max_amount as int } else { delta };
                let amount = if a <= p.psm_idle_usdc { a } else { p.psm_idle_usdc as int };
                if amount == 0 {
                    Err(CoreError::PsmInsufficientLiquidity)
                } else {
                    Ok(amount as u64)
                }
            },
        }
    }
}

/// The amount of idle PSM USDC to deposit into Kamino now.
pub fn rebalance_psm_usdc_to_kamino(ctx: &PsmKamino, max_amount: u64) -> (r: Result<u64, CoreError>)
    ensures
        r == spec_rebalance_amount(*ctx, max_amount),
{
    if max_amount == 0 {
        return Err(CoreError::InvalidParameter);
    }
    if ctx.protocol.paused {
        return Err(CoreError::Paused);
    }
    assert_kamino_psm_cpi_accounts(ctx)?;
    let p = &ctx.protocol;
    let target = psm_kamino_target_deployed(p.psm_idle_usdc, p.psm_kamino_deployed_usdc)?;
    if p.psm_kamino_deployed_usdc >= target {
        return Err(CoreError::PsmKaminoTargetReached);
    }
    let delta = target - p.psm_kamino_deployed_usdc;
    let a = if (max_amount as u128) <= delta {
        max_amount as u128
    } else {
        delta
    };
    let amount = if a <= p.psm_idle_usdc {
        a
    } else {
        p.psm_idle_usdc
    };
    if amount == 0 {
        return Err(CoreError::PsmInsufficientLiquidity);
    }
    Ok(amount as u64)
}

/// After the Kamino deposit: the PSM vault lost between one unit and the
/// planned amount, and cTokens arrived; that USDC moves from idle to
/// deployed.
pub open spec fn spec_record_psm_kamino_deposit(
    ctx: PsmKamino,
    amount: u64,
    psm_vault_after: u64,
    kamino_collateral_after: u64,
) -> Result<Protocol, CoreError> {
    let p = ctx.protocol;
    if psm_vault_after > ctx.psm_usdc_vault_amount {
        Err(CoreError::TransferFeeNotSupported)
    } else {
        let deployed = ctx.psm_usdc_vault_amount - psm_vault_after;
        if deployed == 0 || deployed > amount || kamino_collateral_after
            <= ctx.protocol_kamino_collateral_vault_amount {
            Err(CoreError::TransferFeeNotSupported)
        } else if p.psm_idle_usdc < deployed || p.psm_kamino_deployed_usdc + deployed > u128::MAX {
            Err(CoreError::MathOverflow)
        } else {
            let q = Protocol {
                psm_idle_usdc: (p.psm_idle_usdc - deployed) as u128,
                psm_kamino_deployed_usdc: (p.psm_kamino_deployed_usdc + deployed) as u128,
                ..p
            };
            match spec_psm_accounting_invariants(q, psm_vault_after) {
                Err(e) => Err(e),
                Ok(_) => Ok(q),
            }
        }
    }
}

pub fn record_psm_kamino_deposit(
    ctx: &mut PsmKamino,
    amount: u64,
    psm_vault_after: u64,
    kamino_collateral_after: u64,
) -> (r: Result<(), CoreError>)
    ensures
        match spec_record_psm_kamino_deposit(*old(ctx), amount, psm_vault_after, kamino_collateral_after) {
            Ok(p) => r is Ok && final(ctx).protocol == p,
            Err(e) => r == Err::<(), CoreError>(e) && final(ctx).protocol == old(ctx).protocol,
        },
        final(ctx).psm_usdc_vault_amount == old(ctx).psm_usdc_vault_amount,
        final(ctx).reserve_data == old(ctx).reserve_data,
{
    if psm_vault_after > ctx.psm_usdc_vault_amount {
        return Err(CoreError::TransferFeeNotSupported);
    }
    let deployed = ctx.psm_usdc_vault_amount - psm_vault_after;
    if deployed == 0 || deployed > amount || kamino_collateral_after
        <= ctx.protocol_kamino_collateral_vault_amount {
        return Err(CoreError::TransferFeeNotSupported);
    }
    let deployed_u128 = deployed as u128;
    if ctx.protocol.psm_idle_usdc < deployed_u128 {
        return Err(CoreError::MathOverflow);
    }
    let total = match ctx.protocol.psm_kamino_deployed_usdc.checked_add(deployed_u128) {
        Some(v) => v,
        None => {
            return Err(CoreError::MathOverflow);
        },
    };
    let mut q = ctx.protocol;
    q.psm_idle_usdc = q.psm_idle_usdc - deployed_u128;
    q.psm_kamino_deployed_usdc = total;
    require_psm_accounting_invariants(&q, psm_vault_after)?;
    ctx.protocol = q;
    Ok(())
}

/// After redeeming `collateral_amount` cTokens: exactly that many left the
/// cToken vault and some USDC arrived; the principal they stood for leaves
/// Kamino, what came back joins idle liquidity and any shortfall is bad debt.
pub open spec fn spec_redeem_psm_usdc_from_kamino(
    ctx: PsmKamino,
    collateral_amount: u64,
    psm_vault_after: u64,
    kamino_collateral_after: u64,
) -> Result<(Protocol, KaminoPrincipalRedemption), CoreError> {
    let p = ctx.protocol;
    let before = ctx.protocol_kamino_collateral_vault_amount;
    if collateral_amount == 0 || !kamino_accounts_ok(ctx) {
        Err(CoreError::InvalidParameter)
    } else if p.psm_kamino_deployed_usdc == 0 {
        Err(CoreError::PsmInsufficientLiquidity)
    } else if collateral_amount > before || kamino_collateral_after != before - collateral_amount {
        Err(CoreError::TransferFeeNotSupported)
    } else if psm_vault_after <= ctx.psm_usdc_vault_amount {
        Err(CoreError::TransferFeeNotSupported)
    } else {
        match spec_record_psm_kamino_redemption(
            p,
            before as u128,
            collateral_amount as u128,
            (psm_vault_after - ctx.psm_usdc_vault_amount) as u128,
        ) {
            Err(e) => Err(e),
            Ok((q, red)) => match spec_psm_accounting_invariants(q, psm_vault_after) {
                Err(e) => Err(e),
                Ok(_) => Ok((q, red)),
            },
        }
    }
}

/// Books a redemption of Kamino cTokens from balances observed after it.
pub fn redeem_psm_usdc_from_kamino(
    ctx: &mut PsmKamino,
    collateral_amount: u64,
    psm_vault_after: u64,
    kamino_collateral_after: u64,
) -> (r: Result<KaminoPrincipalRedemption, CoreError>)
    ensures
        match spec_redeem_psm_usdc_from_kamino(*old(ctx), collateral_amount, psm_vault_after, kamino_collateral_after) {
            Ok((p, red)) => r == Ok::<KaminoPrincipalRedemption, CoreError>(red)
                && final(ctx).protocol == p,
            Err(e) => r == Err::<KaminoPrincipalRedemption, CoreError>(e) && final(ctx).protocol
                == old(ctx).protocol,
        },
        final(ctx).reserve_data == old(ctx).reserve_data,
{
    if collateral_amount == 0 {
        return Err(CoreError::InvalidParameter);
    }
    assert_kamino_psm_cpi_accounts(ctx)?;
    if ctx.protocol.psm_kamino_deployed_usdc == 0 {
        return Err(CoreError::PsmInsufficientLiquidity);
    }
    let before = ctx.protocol_kamino_collateral_vault_amount;
    require_token_account_decrease(before, kamino_collateral_after, collateral_amount)?;
    if psm_vault_after <= ctx.psm_usdc_vault_amount {
        return Err(CoreError::TransferFeeNotSupported);
    }
    let received = psm_vault_after - ctx.psm_usdc_vault_amount;
    let mut q = ctx.protocol;
    let redemption = record_psm_kamino_redemption(
        &mut q,
        before as u128,
        collateral_amount as u128,
        received as u128,
    )?;
    require_psm_accounting_invariants(&q, psm_vault_after)?;
    ctx.protocol = q;
    Ok(redemption)
}

pub struct RealizePsmKaminoYield {
    pub kamino: PsmKamino,
    pub staking_state: StakingStateAccountInfo,
}

/// After redeeming a cToken slice: the USDC received is at least
/// `min_yield`, the cTokens left still cover tracked principal at the
/// slice's price, and the USDC is booked as PSM yield. Returns the
/// insurance, staker, protocol and total nUSD to mint.
pub open spec fn spec_realize_psm_kamino_yield(
    ctx: PsmKamino,
    staking_state: StakingStateAccountInfo,
    collateral_amount: u64,
    min_yield: u64,
    psm_vault_after: u64,
    kamino_collateral_after: u64,
    now: i64,
) -> Result<(Protocol, (u64, u64, u64, u64)), CoreError> {
    let p = ctx.protocol;
    let before = ctx.protocol_kamino_collateral_vault_amount;
    if collateral_amount == 0 || min_yield == 0 {
        Err(CoreError::InvalidParameter)
    } else if p.paused {
        Err(CoreError::Paused)
    } else if p.bad_debt_nusd != 0 {
        Err(CoreError::BadDebtOutstanding)
    } else if !kamino_accounts_ok(ctx) {
        Err(CoreError::InvalidParameter)
    } else if p.psm_kamino_deployed_usdc == 0 {
        Err(CoreError::PsmInsufficientLiquidity)
    } else if collateral_amount >= before {
        Err(CoreError::PsmKaminoPrincipalNotCovered)
    } else if kamino_collateral_after != before - collateral_amount {
        Err(CoreError::TransferFeeNotSupported)
    } else if psm_vault_after < ctx.psm_usdc_vault_amount {
        Err(CoreError::TransferFeeNotSupported)
    } else if psm_vault_after - ctx.psm_usdc_vault_amount < min_yield {
        Err(CoreError::PsmNoSurplus)
    } else {
        let received = (psm_vault_after - ctx.psm_usdc_vault_amount) as u64;
        match spec_verify_kamino_profit_slice(
            collateral_amount as u128,
            kamino_collateral_after as u128,
            received as u128,
            p.psm_kamino_deployed_usdc,
        ) {
            Err(e) => Err(crate::core_error::core_error_of(e)),
            Ok(proof) => if proof.remaining_value_lower_bound < p.psm_kamino_deployed_usdc {
                Err(CoreError::PsmKaminoPrincipalNotCovered)
            } else {
                match spec_staking_assets(staking_state, p.nusd_mint) {
                    Err(e) => Err(e),
                    Ok(assets) => spec_apply_realized_psm_yield_accounting(
                        p,
                        psm_vault_after,
                        received,
                        assets,
                        now,
                        true,
                        true,
                    ),
                }
            },
        }
    }
}

pub fn realize_psm_kamino_yield(
    ctx: &mut RealizePsmKaminoYield,
    collateral_amount: u64,
    min_yield: u64,
    psm_vault_after: u64,
    kamino_collateral_after: u64,
    now: i64,
) -> (r: Result<(u64, u64, u64, u64), CoreError>)
    ensures
        match spec_realize_psm_kamino_yield(
            old(ctx).kamino,
            old(ctx).staking_state,
            collateral_amount,
            min_yield,
            psm_vault_after,
            kamino_collateral_after,
            now,
        ) {
            Ok((p, parts)) => r == Ok::<(u64, u64, u64, u64), CoreError>(parts)
                && final(ctx).kamino.protocol == p,
            Err(e) => r == Err::<(u64, u64, u64, u64), CoreError>(e) && final(ctx).kamino.protocol
                == old(ctx).kamino.protocol,
        },
        final(ctx).staking_state == old(ctx).staking_state,
{
    if collateral_amount == 0 || min_yield == 0 {
        return Err(CoreError::InvalidParameter);
    }
    if ctx.kamino.protocol.paused {
        return Err(CoreError::Paused);
    }
    if ctx.kamino.protocol.bad_debt_nusd != 0 {
        return Err(CoreError::BadDebtOutstanding);
    }
    assert_kamino_psm_cpi_accounts(&ctx.kamino)?;
    let deployed_before = ctx.kamino.protocol.psm_kamino_deployed_usdc;
    if deployed_before == 0 {
        return Err(CoreError::PsmInsufficientLiquidity);
    }
    let before = ctx.kamino.protocol_kamino_collateral_vault_amount;
    if collateral_amount >= before {
        return Err(CoreError::PsmKaminoPrincipalNotCovered);
    }
    if kamino_collateral_after != before - collateral_amount {
        return Err(CoreError::TransferFeeNotSupported);
    }
    if psm_vault_after < ctx.kamino.psm_usdc_vault_amount {
        return Err(CoreError::TransferFeeNotSupported);
    }
    let received = psm_vault_after - ctx.kamino.psm_usdc_vault_amount;
    if received < min_yield {
        return Err(CoreError::PsmNoSurplus);
    }
    let proof_slice = match verify_kamino_profit_slice(
        collateral_amount as u128,
        kamino_collateral_after as u128,
        received as u128,
        deployed_before,
    ) {
        Ok(p) => p,
        Err(e) => {
            return Err(map_core_error(e));
        },
    };
    if proof_slice.remaining_value_lower_bound < deployed_before {
        return Err(CoreError::PsmKaminoPrincipalNotCovered);
    }
    let assets = staking_assets(&ctx.staking_state, &ctx.kamino.protocol.nusd_mint)?;
    apply_realized_psm_yield_accounting(
        &mut ctx.kamino.protocol,
        psm_vault_after,
        received,
        assets,
        now,
        true,
        true,
    )
}

} // verus!
