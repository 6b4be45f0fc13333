//! Instruction handlers of the nest-stake program, as state transitions; the
//! caller moves nUSD and sNUSD and calls nest-core around them.

use vstd::prelude::*;

use crate::accounts::{
    is_default_key, key_is_default, keys_eq, InitializeStakingParams, PendingWithdrawalAccount,
    Pubkey, StakingState, NEST_CORE_PROGRAM_ID, SPL_TOKEN_PROGRAM_ID,
};
use crate::bytes::{le_value, read_pubkey_at, read_u128_at, read_u16_at, read_u64_at};
use crate::constants::{DEFAULT_COOLDOWN_SECONDS, DEFAULT_REVENUE_VESTING_SECONDS};
use crate::core_error::{map_stake_error, stake_error_of, StakeError};
use crate::ix::setup::{MintState, STABLECOIN_DECIMALS};
use crate::ledger::{unencumbered, TokenAccountState};
use crate::math::min_u128;
use crate::pda::{is_protocol_state, is_protocol_state_key};
use crate::staking::{PendingWithdrawal, StakingPool};

verus! {

/// Account discriminator of nest-core's protocol state.
pub const CORE_PROTOCOL_DISCRIMINATOR: [u8; 8] = [45, 39, 101, 43, 115, 72, 131, 40];
pub const CORE_PROTOCOL_AUTHORITY_OFFSET: usize = 8;
pub const CORE_PROTOCOL_NUSD_MINT_OFFSET: usize = 72;
pub const CORE_PROTOCOL_TOTAL_DEBT_OFFSET: usize = 264;
pub const CORE_PROTOCOL_INSURANCE_FUND_NUSD_OFFSET: usize = 312;
pub const CORE_PROTOCOL_BAD_DEBT_NUSD_OFFSET: usize = 328;
pub const CORE_PROTOCOL_PSM_IDLE_USDC_OFFSET: usize = 376;
pub const CORE_PROTOCOL_PSM_KAMINO_DEPLOYED_USDC_OFFSET: usize = 392;
pub const CORE_PROTOCOL_STABILITY_FEE_APR_BPS_OFFSET: usize = 472;
pub const CORE_PROTOCOL_INSURANCE_TARGET_BPS_OFFSET: usize = 516;
pub const CORE_PROTOCOL_INSURANCE_FEE_SHARE_BPS_OFFSET: usize = 518;
pub const CORE_PROTOCOL_STAKER_TARGET_APR_BPS_OFFSET: usize = 595;
pub const CORE_PROTOCOL_STAKER_CAPACITY_KAMINO_APR_BPS_OFFSET: usize = 603;

/// The pool part of the staking state.
pub open spec fn pool_of(state: StakingState) -> StakingPool {
    StakingPool {
        total_shares: state.total_shares,
        staking_vault_nusd: state.staking_vault_nusd,
        unvested_revenue: state.unvested_revenue,
        reserved_pending_claims: state.reserved_pending_claims,
        vesting_start_ts: state.vesting_start_ts,
        vesting_end_ts: state.vesting_end_ts,
        last_vesting_sync_ts: state.last_vesting_sync_ts,
        cooldown_seconds: state.cooldown_seconds,
        revenue_vesting_seconds: state.revenue_vesting_seconds,
    }
}

/// The staking state with its pool fields taken from `pool`.
pub open spec fn with_pool(state: StakingState, pool: StakingPool) -> StakingState {
    StakingState {
        total_shares: pool.total_shares,
        staking_vault_nusd: pool.staking_vault_nusd,
        unvested_revenue: pool.unvested_revenue,
        reserved_pending_claims: pool.reserved_pending_claims,
        vesting_start_ts: pool.vesting_start_ts,
        vesting_end_ts: pool.vesting_end_ts,
        last_vesting_sync_ts: pool.last_vesting_sync_ts,
        ..state
    }
}

pub fn domain_pool(state: &StakingState) -> (r: StakingPool)
    ensures
        r == pool_of(*state),
{
    StakingPool {
        total_shares: state.total_shares,
        staking_vault_nusd: state.staking_vault_nusd,
        unvested_revenue: state.unvested_revenue,
        reserved_pending_claims: state.reserved_pending_claims,
        vesting_start_ts: state.vesting_start_ts,
        vesting_end_ts: state.vesting_end_ts,
        last_vesting_sync_ts: state.last_vesting_sync_ts,
        cooldown_seconds: state.cooldown_seconds,
        revenue_vesting_seconds: state.revenue_vesting_seconds,
    }
}

pub fn apply_pool(state: &mut StakingState, pool: StakingPool)
    ensures
        *final(state) == with_pool(*old(state), pool),
{
    state.total_shares = pool.total_shares;
    state.staking_vault_nusd = pool.staking_vault_nusd;
    state.unvested_revenue = pool.unvested_revenue;
    state.reserved_pending_claims = pool.reserved_pending_claims;
    state.vesting_start_ts = pool.vesting_start_ts;
    state.vesting_end_ts = pool.vesting_end_ts;
    state.last_vesting_sync_ts = pool.last_vesting_sync_ts;
}

/// Only the staking authority may sign.
pub fn assert_authority(state: &StakingState, signer: &Pubkey) -> (r: Result<(), StakeError>)
    ensures
        r == (if state.authority@ == signer@ {
            Ok(())
        } else {
            Err(StakeError::Unauthorized)
        }),
{
    if keys_eq(&state.authority, signer) {
        Ok(())
    } else {
        Err(StakeError::Unauthorized)
    }
}

/// The staking vault holds at least the nUSD the pool records.
pub fn require_recorded_staking_vault_covered(actual_amount: u64, recorded_amount: u128) -> (r:
    Result<(), StakeError>)
    ensures
        r == (if (actual_amount as u128) < recorded_amount {
            Err(StakeError::InsufficientAssets)
        } else {
            Ok(())
        }),
{
    if (actual_amount as u128) < recorded_amount {
        Err(StakeError::InsufficientAssets)
    } else {
        Ok(())
    }
}

/// nest-core's protocol account as read from the chain.
#[derive(Debug, Clone, PartialEq, Eq)]
pub struct CoreProtocolAccountInfo {
    pub key: Pubkey,
    pub owner: Pubkey,
    pub data: Vec<u8>,
}

/// The account is nest-core's protocol state for this nUSD mint and holds at
/// least `minimum_data_len` bytes.
pub open spec fn core_protocol_account_ok(
    info: CoreProtocolAccountInfo,
    expected_nusd_mint: Pubkey,
    minimum_data_len: usize,
) -> bool {
    let data = info.data@;
    &&& info.owner@ == NEST_CORE_PROGRAM_ID@
    &&& is_protocol_state(info.key)
    &&& data.len() >= minimum_data_len && data.len() >= 104
    &&& data.subrange(0, 8) == CORE_PROTOCOL_DISCRIMINATOR@
    &&& data.subrange(72, 104) == expected_nusd_mint@
}

fn prefix_matches(data: &[u8], expected: &[u8; 8]) -> (r: bool)
    requires
        data@.len() >= 8,
    ensures
        r == (data@.subrange(0, 8) == expected@),
{
    let mut i: usize = 0;
    while i < 8
        invariant
            i <= 8,
            data@.len() >= 8,
            expected@.len() == 8,
            forall|j: int| 0 <= j < i ==> data@[j] == expected@[j],
        decreases 8 - i,
    {
        if data[i] != expected[i] {
            assert(data@.subrange(0, 8)[i as int] != expected@[i as int]);
            return false;
        }
        i = i + 1;
    }
    assert(data@.subrange(0, 8) =~= expected@);
    true
}

pub fn require_core_protocol_account(
    info: &CoreProtocolAccountInfo,
    expected_nusd_mint: &Pubkey,
    minimum_data_len: usize,
) -> (r: Result<(), StakeError>)
    ensures
        r == (if core_protocol_account_ok(*info, *expected_nusd_mint, minimum_data_len) {
            Ok(())
        } else {
            Err(StakeError::InvalidParameter)
        }),
{
    if !keys_eq(&info.owner, &NEST_CORE_PROGRAM_ID) || !is_protocol_state_key(&info.key) {
        return Err(StakeError::InvalidParameter);
    }
    let data = info.data.as_slice();
    if data.len() < minimum_data_len || data.len() < 104 {
        return Err(StakeError::InvalidParameter);
    }
    let discriminator: [u8; 8] = CORE_PROTOCOL_DISCRIMINATOR;
    if !prefix_matches(data, &discriminator) {
        return Err(StakeError::InvalidParameter);
    }
    let mint = match read_pubkey_at(data, CORE_PROTOCOL_NUSD_MINT_OFFSET) {
        Ok(m) => m,
        Err(_) => {
            return Err(StakeError::InvalidParameter);
        },
    };
    if !keys_eq(&mint, expected_nusd_mint) {
        return Err(StakeError::InvalidParameter);
    }
    Ok(())
}

/// The little-endian number at `offset` of `len` bytes in `data`.
pub open spec fn field(data: Seq<u8>, offset: int, len: int) -> nat {
    le_value(data.subrange(offset, offset + len))
}

/// Staking is blocked while nest-core records bad debt.
pub fn require_no_bad_debt(info: &CoreProtocolAccountInfo, expected_nusd_mint: &Pubkey) -> (r:
    Result<(), StakeError>)
    ensures
        r == (if !core_protocol_account_ok(*info, *expected_nusd_mint, 344) {
            Err(StakeError::InvalidParameter)
        } else if field(info.data@, 328, 16) != 0 {
            Err(StakeError::BadDebtOutstanding)
        } else {
            Ok(())
        }),
{
    require_core_protocol_account(info, expected_nusd_mint, CORE_PROTOCOL_BAD_DEBT_NUSD_OFFSET + 16)?;
    let bad_debt = match read_u128_at(info.data.as_slice(), CORE_PROTOCOL_BAD_DEBT_NUSD_OFFSET) {
        Ok(v) => v,
        Err(_) => {
            return Err(StakeError::InvalidParameter);
        },
    };
    if bad_debt != 0 {
        return Err(StakeError::BadDebtOutstanding);
    }
    Ok(())
}

/// How much nUSD can be staked at the target APR: projected borrow fees and
/// Kamino yield on PSM USDC, less what insurance still takes, capitalised at
/// the target APR.
pub open spec fn spec_staking_capacity(
    total_debt: u128,
    insurance_fund_nusd: u128,
    psm_idle_usdc: u128,
    psm_kamino_deployed_usdc: u128,
    stability_fee_apr_bps: u64,
    insurance_target_bps: u16,
    insurance_fee_share_bps: u16,
    kamino_apr_bps: u64,
    target_apr_bps: u64,
) -> Result<u128, StakeError> {
    let borrow_revenue = (total_debt * stability_fee_apr_bps) / 10_000;
    let deployable = psm_idle_usdc + psm_kamino_deployed_usdc;
    let kamino_revenue = (deployable * kamino_apr_bps) / 10_000;
    let gross = borrow_revenue + kamino_revenue;
    let insurance_target = (total_debt * insurance_target_bps) / 10_000;
    let shortfall = if insurance_target > insurance_fund_nusd {
        insurance_target - insurance_fund_nusd
    } else {
        0
    };
    let insurance_share = (gross * insurance_fee_share_bps) / 10_000;
    let kept = if insurance_share <= shortfall { insurance_share } else { shortfall };
    let net = gross - kept;
    if kept > gross && !(total_debt * stability_fee_apr_bps > u128::MAX || deployable > u128::MAX
        || deployable * kamino_apr_bps > u128::MAX || gross > u128::MAX || total_debt
        * insurance_target_bps > u128::MAX || gross * insurance_fee_share_bps > u128::MAX) {
        Err(StakeError::MathOverflow)
    } else if total_debt * stability_fee_apr_bps > u128::MAX || deployable > u128::MAX || deployable
        * kamino_apr_bps > u128::MAX || gross > u128::MAX || total_debt * insurance_target_bps
        > u128::MAX || gross * insurance_fee_share_bps > u128::MAX || net * 10_000 > u128::MAX {
        Err(StakeError::MathOverflow)
    } else if target_apr_bps == 0 {
        Err(StakeError::MathOverflow)
    } else {
        Ok(((net * 10_000) / (target_apr_bps as int)) as u128)
    }
}

/// The staking capacity capitalises, at the target APR, only the projected
/// revenue that stakers can receive: yearly borrow fees and Kamino yield on
/// the PSM's USDC, less the part of it that still goes to insurance (its fee
/// share of the revenue, up to what insurance lacks of its target). The
/// capacity is the largest amount whose target yield that net revenue covers.
pub proof fn lemma_staking_capacity_excludes_insurance_share(
    total_debt: u128,
    insurance_fund_nusd: u128,
    psm_idle_usdc: u128,
    psm_kamino_deployed_usdc: u128,
    stability_fee_apr_bps: u64,
    insurance_target_bps: u16,
    insurance_fee_share_bps: u16,
    kamino_apr_bps: u64,
    target_apr_bps: u64,
)
    requires
        spec_staking_capacity(
            total_debt,
            insurance_fund_nusd,
            psm_idle_usdc,
            psm_kamino_deployed_usdc,
            stability_fee_apr_bps,
            insurance_target_bps,
            insurance_fee_share_bps,
            kamino_apr_bps,
            target_apr_bps,
        ) is Ok,
    ensures
        ({
            let capacity = spec_staking_capacity(
                total_debt,
                insurance_fund_nusd,
                psm_idle_usdc,
                psm_kamino_deployed_usdc,
                stability_fee_apr_bps,
                insurance_target_bps,
                insurance_fee_share_bps,
                kamino_apr_bps,
                target_apr_bps,
            )->Ok_0;
            let gross = total_debt * stability_fee_apr_bps / 10_000 + (psm_idle_usdc
                + psm_kamino_deployed_usdc) * kamino_apr_bps / 10_000;
            let owed_to_insurance = total_debt * insurance_target_bps / 10_000
                - insurance_fund_nusd;
            let shortfall = if owed_to_insurance > 0 { owed_to_insurance } else { 0 };
            let to_insurance = gross * insurance_fee_share_bps / 10_000;
            let net = gross - (if to_insurance < shortfall { to_insurance } else { shortfall });
            &&& target_apr_bps > 0
            &&& capacity * target_apr_bps <= net * 10_000
            &&& (capacity + 1) * target_apr_bps > net * 10_000
        }),
{
    let gross = total_debt * stability_fee_apr_bps / 10_000 + (psm_idle_usdc
        + psm_kamino_deployed_usdc) * kamino_apr_bps / 10_000;
    let owed = total_debt * insurance_target_bps / 10_000 - insurance_fund_nusd;
    let shortfall = if owed > 0 { owed } else { 0 };
    let to_insurance = gross * insurance_fee_share_bps / 10_000;
    let net = gross - (if to_insurance < shortfall { to_insurance } else { shortfall });
    let c = (net * 10_000) / (target_apr_bps as int);
    assert(c * target_apr_bps <= net * 10_000 && (c + 1) * target_apr_bps > net * 10_000)
        by (nonlinear_arith)
        requires
            c == (net * 10_000) / (target_apr_bps as int),
            target_apr_bps > 0,
    ;
}

fn mul_div_bps(a: u128, bps: u128) -> (r: Result<u128, StakeError>)
    ensures
        r == (if a * bps > u128::MAX {
            Err(StakeError::MathOverflow)
        } else {
            Ok::<u128, StakeError>(((a * bps) / 10_000) as u128)
        }),
{
    match a.checked_mul(bps) {
        Some(v) => Ok(v / 10_000),
        None => Err(StakeError::MathOverflow),
    }
}

pub fn staking_capacity(
    total_debt: u128,
    insurance_fund_nusd: u128,
    psm_idle_usdc: u128,
    psm_kamino_deployed_usdc: u128,
    stability_fee_apr_bps: u64,
    insurance_target_bps: u16,
    insurance_fee_share_bps: u16,
    kamino_apr_bps: u64,
    target_apr_bps: u64,
) -> (r: Result<u128, StakeError>)
    ensures
        r == spec_staking_capacity(
            total_debt,
            insurance_fund_nusd,
            psm_idle_usdc,
            psm_kamino_deployed_usdc,
            stability_fee_apr_bps,
            insurance_target_bps,
            insurance_fee_share_bps,
            kamino_apr_bps,
            target_apr_bps,
        ),
{
    let borrow_revenue = mul_div_bps(total_debt, stability_fee_apr_bps as u128)?;
    let deployable = match psm_idle_usdc.checked_add(psm_kamino_deployed_usdc) {
        Some(v) => v,
        None => {
            return Err(StakeError::MathOverflow);
        },
    };
    let kamino_revenue = mul_div_bps(deployable, kamino_apr_bps as u128)?;
    let gross = match borrow_revenue.checked_add(kamino_revenue) {
        Some(v) => v,
        None => {
            return Err(StakeError::MathOverflow);
        },
    };
    let insurance_target = mul_div_bps(total_debt, insurance_target_bps as u128)?;
    let shortfall = if insurance_target > insurance_fund_nusd {
        insurance_target - insurance_fund_nusd
    } else {
        0
    };
    let insurance_share = mul_div_bps(gross, insurance_fee_share_bps as u128)?;
    let kept = if insurance_share <= shortfall {
        insurance_share
    } else {
        shortfall
    };
    if kept > gross {
        return Err(StakeError::MathOverflow);
    }
    let net = gross - kept;
    let scaled = match net.checked_mul(10_000) {
        Some(v) => v,
        None => {
            return Err(StakeError::MathOverflow);
        },
    };
    if target_apr_bps == 0 {
        return Err(StakeError::MathOverflow);
    }
    Ok(scaled / target_apr_bps as u128)
}

/// The staking authority recorded in nest-core and, when a target APR is
/// set, the staking capacity it implies.
pub fn staking_authority_and_capacity_from_protocol(
    info: &CoreProtocolAccountInfo,
    expected_nusd_mint: &Pubkey,
) -> (r: Result<(Pubkey, Option<u128>), StakeError>)
    ensures
        !core_protocol_account_ok(*info, *expected_nusd_mint, 611) ==> r == Err::<
            (Pubkey, Option<u128>),
            StakeError,
        >(StakeError::InvalidParameter),
        r is Ok ==> core_protocol_account_ok(*info, *expected_nusd_mint, 611) && r->Ok_0.0@
            == info.data@.subrange(8, 40),
        r is Ok && field(info.data@, 595, 8) == 0 ==> r->Ok_0.1 is None,
        core_protocol_account_ok(*info, *expected_nusd_mint, 611) && field(info.data@, 595, 8) == 0
            ==> r is Ok,
        core_protocol_account_ok(*info, *expected_nusd_mint, 611) && field(info.data@, 595, 8) != 0
            ==> match spec_staking_capacity(
            field(info.data@, 264, 16) as u128,
            field(info.data@, 312, 16) as u128,
            field(info.data@, 376, 16) as u128,
            field(info.data@, 392, 16) as u128,
            field(info.data@, 472, 8) as u64,
            field(info.data@, 516, 2) as u16,
            field(info.data@, 518, 2) as u16,
            field(info.data@, 603, 8) as u64,
            field(info.data@, 595, 8) as u64,
        ) {
            Ok(capacity) => r is Ok && r->Ok_0.1 == Some(capacity),
            Err(e) => r == Err::<(Pubkey, Option<u128>), StakeError>(e),
        },
{
    require_core_protocol_account(
        info,
        expected_nusd_mint,
        CORE_PROTOCOL_STAKER_CAPACITY_KAMINO_APR_BPS_OFFSET + 8,
    )?;
    let data = info.data.as_slice();
    let authority = match read_pubkey_at(data, CORE_PROTOCOL_AUTHORITY_OFFSET) {
        Ok(a) => a,
        Err(_) => {
            return Err(StakeError::InvalidParameter);
        },
    };
    let target_apr_bps = match read_u64_at(data, CORE_PROTOCOL_STAKER_TARGET_APR_BPS_OFFSET) {
        Ok(v) => v,
        Err(_) => {
            return Err(StakeError::InvalidParameter);
        },
    };
    if target_apr_bps == 0 {
        return Ok((authority, None));
    }
    let total_debt = read_u128_at(data, CORE_PROTOCOL_TOTAL_DEBT_OFFSET);
    let insurance_fund = read_u128_at(data, CORE_PROTOCOL_INSURANCE_FUND_NUSD_OFFSET);
    let idle = read_u128_at(data, CORE_PROTOCOL_PSM_IDLE_USDC_OFFSET);
    let deployed = read_u128_at(data, CORE_PROTOCOL_PSM_KAMINO_DEPLOYED_USDC_OFFSET);
    let fee_bps = read_u64_at(data, CORE_PROTOCOL_STABILITY_FEE_APR_BPS_OFFSET);
    let target_bps = read_u16_at(data, CORE_PROTOCOL_INSURANCE_TARGET_BPS_OFFSET);
    let share_bps = read_u16_at(data, CORE_PROTOCOL_INSURANCE_FEE_SHARE_BPS_OFFSET);
    let kamino_bps = read_u64_at(data, CORE_PROTOCOL_STAKER_CAPACITY_KAMINO_APR_BPS_OFFSET);
    match (total_debt, insurance_fund, idle, deployed, fee_bps, target_bps, share_bps, kamino_bps) {
        (Ok(d), Ok(f), Ok(i), Ok(k), Ok(fee), Ok(tb), Ok(sb), Ok(kb)) => {
            let capacity = staking_capacity(d, f, i, k, fee, tb, sb, kb, target_apr_bps)?;
            Ok((authority, Some(capacity)))
        },
        _ => Err(StakeError::InvalidParameter),
    }
}

/// The staking capacity nest-core's state implies, if any.
pub fn staking_capacity_from_protocol(info: &CoreProtocolAccountInfo, expected_nusd_mint: &Pubkey) -> (r:
    Result<Option<u128>, StakeError>)
    ensures
        !core_protocol_account_ok(*info, *expected_nusd_mint, 611) ==> r == Err::<
            Option<u128>,
            StakeError,
        >(StakeError::InvalidParameter),
        r is Ok && field(info.data@, 595, 8) == 0 ==> r->Ok_0 is None,
        core_protocol_account_ok(*info, *expected_nusd_mint, 611) && field(info.data@, 595, 8) == 0
            ==> r is Ok,
        core_protocol_account_ok(*info, *expected_nusd_mint, 611) && field(info.data@, 595, 8) != 0
            ==> match spec_staking_capacity(
            field(info.data@, 264, 16) as u128,
            field(info.data@, 312, 16) as u128,
            field(info.data@, 376, 16) as u128,
            field(info.data@, 392, 16) as u128,
            field(info.data@, 472, 8) as u64,
            field(info.data@, 516, 2) as u16,
            field(info.data@, 518, 2) as u16,
            field(info.data@, 603, 8) as u64,
            field(info.data@, 595, 8) as u64,
        ) {
            Ok(capacity) => r == Ok::<Option<u128>, StakeError>(Some(capacity)),
            Err(e) => r == Err::<Option<u128>, StakeError>(e),
        },
{
    let (_, capacity) = staking_authority_and_capacity_from_protocol(info, expected_nusd_mint)?;
    Ok(capacity)
}

pub struct InitializeStaking {
    pub staking_state: StakingState,
    pub staking_state_key: Pubkey,
    pub staking_state_bump: u8,
    pub authority: Pubkey,
    pub nusd_mint: MintState,
    pub snusd_mint: MintState,
    pub staking_nusd_vault: TokenAccountState,
    pub revenue_nusd_vault: TokenAccountState,
    pub nusd_token_program: Pubkey,
    pub snusd_token_program: Pubkey,
}

/// The pool starts with the default cooldown and vesting, six-decimal SPL
/// mints (nUSD minted by nest-core's protocol address, sNUSD by the pool, neither freezable, no
/// sNUSD yet) and two distinct, empty, unencumbered vaults.
pub open spec fn staking_setup_valid(ctx: InitializeStaking, params: InitializeStakingParams) -> bool {
    &&& params.cooldown_seconds == DEFAULT_COOLDOWN_SECONDS
    &&& params.revenue_vesting_seconds == DEFAULT_REVENUE_VESTING_SECONDS
    &&& ctx.nusd_mint.decimals == STABLECOIN_DECIMALS && ctx.snusd_mint.decimals == STABLECOIN_DECIMALS
    &&& ctx.snusd_mint.supply == 0
    &&& ctx.nusd_token_program@ == SPL_TOKEN_PROGRAM_ID@ && ctx.snusd_token_program@
        == SPL_TOKEN_PROGRAM_ID@
    &&& ctx.nusd_mint.mint_authority matches Some(k) && is_protocol_state(k)
    &&& ctx.snusd_mint.mint_authority == Some(ctx.staking_state_key)
    &&& ctx.nusd_mint.freeze_authority is None && ctx.snusd_mint.freeze_authority is None
    &&& ctx.staking_nusd_vault.key@ != ctx.revenue_nusd_vault.key@
    &&& ctx.staking_nusd_vault.amount == 0 && ctx.revenue_nusd_vault.amount == 0
    &&& unencumbered(ctx.staking_nusd_vault) && unencumbered(ctx.revenue_nusd_vault)
    &&& ctx.nusd_mint.owner@ == ctx.nusd_token_program@ && ctx.snusd_mint.owner@
        == ctx.snusd_token_program@
}

pub open spec fn initial_staking_state(ctx: InitializeStaking, params: InitializeStakingParams) -> StakingState {
    StakingState {
        authority: ctx.authority,
        nusd_mint: ctx.nusd_mint.key,
        snusd_mint: ctx.snusd_mint.key,
        staking_nusd_vault: ctx.staking_nusd_vault.key,
        revenue_nusd_vault: ctx.revenue_nusd_vault.key,
        revenue_baseline_nusd: 0,
        total_shares: 0,
        total_user_shares: 0,
        staking_vault_nusd: 0,
        realized_loss_nusd: 0,
        unvested_revenue: 0,
        reserved_pending_claims: 0,
        vesting_start_ts: 0,
        vesting_end_ts: 0,
        last_vesting_sync_ts: 0,
        cooldown_seconds: params.cooldown_seconds,
        revenue_vesting_seconds: params.revenue_vesting_seconds,
        paused: false,
        bump: ctx.staking_state_bump,
    }
}

fn option_key_is_protocol_state(value: &Option<Pubkey>) -> (r: bool)
    ensures
        r == (*value matches Some(k) && is_protocol_state(k)),
{
    match value {
        Some(k) => is_protocol_state_key(k),
        None => false,
    }
}

fn option_key_is(value: &Option<Pubkey>, key: &Pubkey) -> (r: bool)
    ensures
        r == (*value == Some(*key)),
{
    match value {
        Some(k) => {
            let same = keys_eq(k, key);
            proof {
                if same {
                    assert(*k =~= *key);
                }
            }
            same
        },
        None => false,
    }
}

pub fn initialize_staking(ctx: &mut InitializeStaking, params: InitializeStakingParams) -> (r: Result<
    (),
    StakeError,
>)
    ensures
        r == (if staking_setup_valid(*old(ctx), params) {
            Ok(())
        } else {
            Err(StakeError::InvalidParameter)
        }),
        r is Ok ==> final(ctx).staking_state == initial_staking_state(*old(ctx), params),
        r is Err ==> final(ctx).staking_state == old(ctx).staking_state,
{
    let unencumbered_vaults = ctx.staking_nusd_vault.delegate.is_none()
        && ctx.staking_nusd_vault.delegated_amount == 0
        && ctx.staking_nusd_vault.close_authority.is_none()
        && ctx.staking_nusd_vault.is_native.is_none() && ctx.revenue_nusd_vault.delegate.is_none()
        && ctx.revenue_nusd_vault.delegated_amount == 0
        && ctx.revenue_nusd_vault.close_authority.is_none()
        && ctx.revenue_nusd_vault.is_native.is_none();
    if !(params.cooldown_seconds == DEFAULT_COOLDOWN_SECONDS && params.revenue_vesting_seconds
        == DEFAULT_REVENUE_VESTING_SECONDS && ctx.nusd_mint.decimals == STABLECOIN_DECIMALS
        && ctx.snusd_mint.decimals == STABLECOIN_DECIMALS && ctx.snusd_mint.supply == 0 && keys_eq(
        &ctx.nusd_token_program,
        &SPL_TOKEN_PROGRAM_ID,
    ) && keys_eq(&ctx.snusd_token_program, &SPL_TOKEN_PROGRAM_ID) && option_key_is_protocol_state(&ctx.nusd_mint.mint_authority)
        && option_key_is(&ctx.snusd_mint.mint_authority, &ctx.staking_state_key)
        && ctx.nusd_mint.freeze_authority.is_none() && ctx.snusd_mint.freeze_authority.is_none()
        && !keys_eq(&ctx.staking_nusd_vault.key, &ctx.revenue_nusd_vault.key)
        && ctx.staking_nusd_vault.amount == 0 && ctx.revenue_nusd_vault.amount == 0
        && unencumbered_vaults && keys_eq(&ctx.nusd_mint.owner, &ctx.nusd_token_program) && keys_eq(
        &ctx.snusd_mint.owner,
        &ctx.snusd_token_program,
    )) {
        return Err(StakeError::InvalidParameter);
    }
    ctx.staking_state = StakingState {
        authority: ctx.authority,
        nusd_mint: ctx.nusd_mint.key,
        snusd_mint: ctx.snusd_mint.key,
        staking_nusd_vault: ctx.staking_nusd_vault.key,
        revenue_nusd_vault: ctx.revenue_nusd_vault.key,
        revenue_baseline_nusd: 0,
        total_shares: 0,
        total_user_shares: 0,
        staking_vault_nusd: 0,
        realized_loss_nusd: 0,
        unvested_revenue: 0,
        reserved_pending_claims: 0,
        vesting_start_ts: 0,
        vesting_end_ts: 0,
        last_vesting_sync_ts: 0,
        cooldown_seconds: params.cooldown_seconds,
        revenue_vesting_seconds: params.revenue_vesting_seconds,
        paused: false,
        bump: ctx.staking_state_bump,
    };
    Ok(())
}

pub struct Stake {
    pub staking_state: StakingState,
    pub revenue_nusd_vault_amount: u64,
    pub protocol: CoreProtocolAccountInfo,
}

/// Staking `amount` nUSD mints shares at the entry price (revenue waiting in
/// the revenue vault included), within the capacity nest-core's target APR
/// allows. Returns the shares to mint.
pub open spec fn spec_stake(ctx: Stake, amount: u64, now: i64) -> Result<(StakingState, u64), StakeError> {
    let state = ctx.staking_state;
    let was_empty = state.total_shares == 0;
    if amount == 0 {
        Err(StakeError::InvalidParameter)
    } else if state.paused {
        Err(StakeError::Paused)
    } else if !was_empty && (ctx.revenue_nusd_vault_amount as u128) < state.revenue_baseline_nusd {
        Err(StakeError::InsufficientAssets)
    } else {
        let pending = if was_empty {
            0u128
        } else {
            (ctx.revenue_nusd_vault_amount - state.revenue_baseline_nusd) as u128
        };
        match pool_of(state).spec_stake(amount as u128, pending, now) {
            Err(e) => Err(stake_error_of(e)),
            Ok((pool, minted)) => {
                let capacity_ok = !core_protocol_account_ok(ctx.protocol, state.nusd_mint, 611)
                    || field(ctx.protocol.data@, 595, 8) == 0 || (spec_staking_capacity(
                    field(ctx.protocol.data@, 264, 16) as u128,
                    field(ctx.protocol.data@, 312, 16) as u128,
                    field(ctx.protocol.data@, 376, 16) as u128,
                    field(ctx.protocol.data@, 392, 16) as u128,
                    field(ctx.protocol.data@, 472, 8) as u64,
                    field(ctx.protocol.data@, 516, 2) as u16,
                    field(ctx.protocol.data@, 518, 2) as u16,
                    field(ctx.protocol.data@, 603, 8) as u64,
                    field(ctx.protocol.data@, 595, 8) as u64,
                ) is Ok);
                if !core_protocol_account_ok(ctx.protocol, state.nusd_mint, 611) {
                    Err(StakeError::InvalidParameter)
                } else if !capacity_ok {
                    Err(
                        spec_staking_capacity(
                            field(ctx.protocol.data@, 264, 16) as u128,
                            field(ctx.protocol.data@, 312, 16) as u128,
                            field(ctx.protocol.data@, 376, 16) as u128,
                            field(ctx.protocol.data@, 392, 16) as u128,
                            field(ctx.protocol.data@, 472, 8) as u64,
                            field(ctx.protocol.data@, 516, 2) as u16,
                            field(ctx.protocol.data@, 518, 2) as u16,
                            field(ctx.protocol.data@, 603, 8) as u64,
                            field(ctx.protocol.data@, 595, 8) as u64,
                        )->Err_0,
                    )
                } else if field(ctx.protocol.data@, 595, 8) != 0 && pool.staking_vault_nusd
                    > spec_staking_capacity(
                    field(ctx.protocol.data@, 264, 16) as u128,
                    field(ctx.protocol.data@, 312, 16) as u128,
                    field(ctx.protocol.data@, 376, 16) as u128,
                    field(ctx.protocol.data@, 392, 16) as u128,
                    field(ctx.protocol.data@, 472, 8) as u64,
                    field(ctx.protocol.data@, 516, 2) as u16,
                    field(ctx.protocol.data@, 518, 2) as u16,
                    field(ctx.protocol.data@, 603, 8) as u64,
                    field(ctx.protocol.data@, 595, 8) as u64,
                )->Ok_0 {
                    Err(StakeError::StakeCapacityExceeded)
                } else if state.total_user_shares + minted > u128::MAX {
                    Err(StakeError::MathOverflow)
                } else if minted > u64::MAX {
                    Err(StakeError::AmountOverflow)
                } else {
                    let applied = with_pool(state, pool);
                    Ok(
                        (
                            StakingState {
                                revenue_baseline_nusd: if was_empty {
                                    ctx.revenue_nusd_vault_amount as u128
                                } else {
                                    state.revenue_baseline_nusd
                                },
                                total_user_shares: (state.total_user_shares + minted) as u128,
                                ..applied
                            },
                            minted as u64,
                        ),
                    )
                }
            },
        }
    }
}

pub fn stake(ctx: &mut Stake, amount: u64, now: i64) -> (r: Result<u64, StakeError>)
    ensures
        match spec_stake(*old(ctx), amount, now) {
            Ok((state, minted)) => r == Ok::<u64, StakeError>(minted) && final(ctx).staking_state
                == state,
            Err(e) => r == Err::<u64, StakeError>(e) && final(ctx).staking_state
                == old(ctx).staking_state,
        },
        final(ctx).protocol == old(ctx).protocol,
        final(ctx).revenue_nusd_vault_amount == old(ctx).revenue_nusd_vault_amount,
{
    if amount == 0 {
        return Err(StakeError::InvalidParameter);
    }
    if ctx.staking_state.paused {
        return Err(StakeError::Paused);
    }
    let was_empty = ctx.staking_state.total_shares == 0;
    let revenue = ctx.revenue_nusd_vault_amount as u128;
    let pending = if was_empty {
        0
    } else {
        if revenue < ctx.staking_state.revenue_baseline_nusd {
            return Err(StakeError::InsufficientAssets);
        }
        revenue - ctx.staking_state.revenue_baseline_nusd
    };
    let mut pool = domain_pool(&ctx.staking_state);
    let minted = match pool.stake(amount as u128, pending, now) {
        Ok(m) => m,
        Err(e) => {
            return Err(map_stake_error(e));
        },
    };
    let capacity = staking_capacity_from_protocol(&ctx.protocol, &ctx.staking_state.nusd_mint)?;
    match capacity {
        Some(cap) => {
            if pool.staking_vault_nusd > cap {
                return Err(StakeError::StakeCapacityExceeded);
            }
        },
        None => {},
    }
    let user_shares = match ctx.staking_state.total_user_shares.checked_add(minted) {
        Some(v) => v,
        None => {
            return Err(StakeError::MathOverflow);
        },
    };
    if minted > u64::MAX as u128 {
        return Err(StakeError::AmountOverflow);
    }
    let mut state = ctx.staking_state;
    apply_pool(&mut state, pool);
    if was_empty {
        state.revenue_baseline_nusd = revenue;
    }
    state.total_user_shares = user_shares;
    ctx.staking_state = state;
    Ok(minted as u64)
}

#[derive(Debug, Clone, Copy, PartialEq, Eq)]
pub struct Harvest {
    pub staking_state: StakingState,
    pub revenue_nusd_account_amount: u64,
    pub authority: Pubkey,
}

/// The authority moves `amount` of waiting revenue into the pool, where it
/// vests.
pub open spec fn spec_harvest(ctx: Harvest, amount: u64, now: i64) -> Result<StakingState, StakeError> {
    let state = ctx.staking_state;
    if state.authority@ != ctx.authority@ {
        Err(StakeError::Unauthorized)
    } else if amount == 0 || state.total_shares == 0 {
        Err(StakeError::InvalidParameter)
    } else if (ctx.revenue_nusd_account_amount as u128) < state.revenue_baseline_nusd || amount
        > ctx.revenue_nusd_account_amount - state.revenue_baseline_nusd {
        Err(StakeError::InsufficientAssets)
    } else {
        match pool_of(state).spec_harvest(amount as u128, now) {
            Err(e) => Err(stake_error_of(e)),
            Ok(pool) => Ok(with_pool(state, pool)),
        }
    }
}

pub fn harvest(ctx: &mut Harvest, amount: u64, now: i64) -> (r: Result<(), StakeError>)
    ensures
        match spec_harvest(*old(ctx), amount, now) {
            Ok(state) => r is Ok && *final(ctx) == (Harvest { staking_state: state, ..*old(ctx) }),
            Err(e) => r == Err::<(), StakeError>(e) && *final(ctx) == *old(ctx),
        },
{
    assert_authority(&ctx.staking_state, &ctx.authority)?;
    if amount == 0 || ctx.staking_state.total_shares == 0 {
        return Err(StakeError::InvalidParameter);
    }
    let balance = ctx.revenue_nusd_account_amount as u128;
    if balance < ctx.staking_state.revenue_baseline_nusd {
        return Err(StakeError::InsufficientAssets);
    }
    if amount as u128 > balance - ctx.staking_state.revenue_baseline_nusd {
        return Err(StakeError::InsufficientAssets);
    }
    let mut pool = domain_pool(&ctx.staking_state);
    match pool.harvest(amount as u128, now) {
        Ok(()) => {},
        Err(e) => {
            return Err(map_stake_error(e));
        },
    }
    apply_pool(&mut ctx.staking_state, pool);
    Ok(())
}

#[derive(Debug, Clone, Copy, PartialEq, Eq)]
pub struct RequestUnstake {
    pub staking_state: StakingState,
    pub staking_state_key: Pubkey,
    pub pending_withdrawal: PendingWithdrawalAccount,
    pub pending_withdrawal_bump: u8,
    pub owner: Pubkey,
}

/// A holder burns `shares` sNUSD and opens a withdrawal that completes after
/// the cooldown.
pub open spec fn spec_request_unstake(ctx: RequestUnstake, shares: u64, now: i64) -> Result<
    RequestUnstake,
    StakeError,
> {
    let state = ctx.staking_state;
    if shares == 0 {
        Err(StakeError::InvalidParameter)
    } else if state.paused {
        Err(StakeError::Paused)
    } else if shares > state.total_user_shares {
        Err(StakeError::InvalidParameter)
    } else {
        match pool_of(state).spec_request_unstake(shares as u128, now) {
            Err(e) => Err(stake_error_of(e)),
            Ok((pool, pending)) => Ok(
                RequestUnstake {
                    staking_state: StakingState {
                        total_user_shares: (state.total_user_shares - shares) as u128,
                        ..with_pool(state, pool)
                    },
                    pending_withdrawal: PendingWithdrawalAccount {
                        owner: ctx.owner,
                        staking_state: ctx.staking_state_key,
                        shares: pending.shares,
                        request_ts: pending.request_ts,
                        assets_redeemed: 0,
                        completed: false,
                        bump: ctx.pending_withdrawal_bump,
                    },
                    ..ctx
                },
            ),
        }
    }
}

pub fn request_unstake(ctx: &mut RequestUnstake, shares: u64, now: i64) -> (r: Result<(), StakeError>)
    ensures
        match spec_request_unstake(*old(ctx), shares, now) {
            Ok(c) => r is Ok && *final(ctx) == c,
            Err(e) => r == Err::<(), StakeError>(e) && *final(ctx) == *old(ctx),
        },
{
    if shares == 0 {
        return Err(StakeError::InvalidParameter);
    }
    if ctx.staking_state.paused {
        return Err(StakeError::Paused);
    }
    if shares as u128 > ctx.staking_state.total_user_shares {
        return Err(StakeError::InvalidParameter);
    }
    let mut pool = domain_pool(&ctx.staking_state);
    let pending = match pool.request_unstake(shares as u128, now) {
        Ok(p) => p,
        Err(e) => {
            return Err(map_stake_error(e));
        },
    };
    let mut state = ctx.staking_state;
    apply_pool(&mut state, pool);
    state.total_user_shares = state.total_user_shares - shares as u128;
    ctx.staking_state = state;
    ctx.pending_withdrawal = PendingWithdrawalAccount {
        owner: ctx.owner,
        staking_state: ctx.staking_state_key,
        shares: pending.shares,
        request_ts: pending.request_ts,
        assets_redeemed: 0,
        completed: false,
        bump: ctx.pending_withdrawal_bump,
    };
    Ok(())
}

#[derive(Debug, Clone, Copy, PartialEq, Eq)]
pub struct CompleteUnstake {
    pub staking_state: StakingState,
    pub pending_withdrawal: PendingWithdrawalAccount,
    pub authority: Pubkey,
}

/// The authority completes a withdrawal after its cooldown; returns the nUSD
/// to pay out.
pub open spec fn spec_complete_unstake(ctx: CompleteUnstake, now: i64) -> Result<
    (CompleteUnstake, u64),
    StakeError,
> {
    let state = ctx.staking_state;
    let w = ctx.pending_withdrawal;
    if state.authority@ != ctx.authority@ {
        Err(StakeError::Unauthorized)
    } else if state.paused {
        Err(StakeError::Paused)
    } else if w.completed {
        Err(StakeError::AlreadyCompleted)
    } else {
        match pool_of(state).spec_complete_unstake(
            PendingWithdrawal { shares: w.shares, request_ts: w.request_ts },
            now,
        ) {
            Err(e) => Err(stake_error_of(e)),
            Ok((pool, assets)) => if assets > u64::MAX {
                Err(StakeError::AmountOverflow)
            } else {
                Ok(
                    (
                        CompleteUnstake {
                            staking_state: with_pool(state, pool),
                            pending_withdrawal: PendingWithdrawalAccount {
                                assets_redeemed: assets,
                                completed: true,
                                ..w
                            },
                            ..ctx
                        },
                        assets as u64,
                    ),
                )
            },
        }
    }
}

pub fn complete_unstake(ctx: &mut CompleteUnstake, now: i64) -> (r: Result<u64, StakeError>)
    ensures
        match spec_complete_unstake(*old(ctx), now) {
            Ok((c, assets)) => r == Ok::<u64, StakeError>(assets) && *final(ctx) == c,
            Err(e) => r == Err::<u64, StakeError>(e) && *final(ctx) == *old(ctx),
        },
{
    assert_authority(&ctx.staking_state, &ctx.authority)?;
    if ctx.staking_state.paused {
        return Err(StakeError::Paused);
    }
    if ctx.pending_withdrawal.completed {
        return Err(StakeError::AlreadyCompleted);
    }
    let mut pool = domain_pool(&ctx.staking_state);
    let assets = match pool.complete_unstake(
        PendingWithdrawal {
            shares: ctx.pending_withdrawal.shares,
            request_ts: ctx.pending_withdrawal.request_ts,
        },
        now,
    ) {
        Ok(a) => a,
        Err(e) => {
            return Err(map_stake_error(e));
        },
    };
    if assets > u64::MAX as u128 {
        return Err(StakeError::AmountOverflow);
    }
    apply_pool(&mut ctx.staking_state, pool);
    ctx.pending_withdrawal.assets_redeemed = assets;
    ctx.pending_withdrawal.completed = true;
    Ok(assets as u64)
}

#[derive(Debug, Clone, Copy, PartialEq, Eq)]
pub struct RealizeLoss {
    pub staking_state: StakingState,
    pub authority: Pubkey,
}

/// The authority burns `amount` of staked nUSD to absorb a protocol loss.
pub open spec fn spec_realize_loss(ctx: RealizeLoss, amount: u64) -> Result<StakingState, StakeError> {
    let state = ctx.staking_state;
    if amount == 0 {
        Err(StakeError::InvalidParameter)
    } else if state.authority@ != ctx.authority@ {
        Err(StakeError::Unauthorized)
    } else {
        match pool_of(state).spec_realize_loss(amount as u128) {
            Err(e) => Err(stake_error_of(e)),
            Ok(pool) => if state.realized_loss_nusd + amount > u128::MAX {
                Err(StakeError::MathOverflow)
            } else {
                Ok(
                    StakingState {
                        realized_loss_nusd: (state.realized_loss_nusd + amount) as u128,
                        ..with_pool(state, pool)
                    },
                )
            },
        }
    }
}

pub fn realize_loss(ctx: &mut RealizeLoss, amount: u64) -> (r: Result<(), StakeError>)
    ensures
        match spec_realize_loss(*old(ctx), amount) {
            Ok(state) => r is Ok && *final(ctx) == (RealizeLoss { staking_state: state, ..*old(ctx) }),
            Err(e) => r == Err::<(), StakeError>(e) && *final(ctx) == *old(ctx),
        },
{
    if amount == 0 {
        return Err(StakeError::InvalidParameter);
    }
    assert_authority(&ctx.staking_state, &ctx.authority)?;
    let mut pool = domain_pool(&ctx.staking_state);
    match pool.realize_loss(amount as u128) {
        Ok(()) => {},
        Err(e) => {
            return Err(map_stake_error(e));
        },
    }
    let loss = match ctx.staking_state.realized_loss_nusd.checked_add(amount as u128) {
        Some(v) => v,
        None => {
            return Err(StakeError::MathOverflow);
        },
    };
    apply_pool(&mut ctx.staking_state, pool);
    ctx.staking_state.realized_loss_nusd = loss;
    Ok(())
}

#[derive(Debug, Clone, Copy, PartialEq, Eq)]
pub struct MutateStake {
    pub staking_state: StakingState,
    pub authority: Pubkey,
}

pub fn set_paused(ctx: &mut MutateStake, paused: bool) -> (r: Result<(), StakeError>)
    ensures
        r == (if old(ctx).staking_state.authority@ == old(ctx).authority@ {
            Ok(())
        } else {
            Err(StakeError::Unauthorized)
        }),
        r is Ok ==> *final(ctx) == (MutateStake {
            staking_state: StakingState { paused, ..old(ctx).staking_state },
            ..*old(ctx)
        }),
        r is Err ==> *final(ctx) == *old(ctx),
{
    assert_authority(&ctx.staking_state, &ctx.authority)?;
    ctx.staking_state.paused = paused;
    Ok(())
}

pub fn set_staking_authority(ctx: &mut MutateStake, authority: Pubkey) -> (r: Result<(), StakeError>)
    ensures
        r == (if old(ctx).staking_state.authority@ != old(ctx).authority@ {
            Err(StakeError::Unauthorized)
        } else if is_default_key(authority) {
            Err(StakeError::InvalidParameter)
        } else {
            Ok(())
        }),
        r is Ok ==> *final(ctx) == (MutateStake {
            staking_state: StakingState { authority, ..old(ctx).staking_state },
            ..*old(ctx)
        }),
        r is Err ==> *final(ctx) == *old(ctx),
{
    assert_authority(&ctx.staking_state, &ctx.authority)?;
    if key_is_default(&authority) {
        return Err(StakeError::InvalidParameter);
    }
    ctx.staking_state.authority = authority;
    Ok(())
}

} // verus!
