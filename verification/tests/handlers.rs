use anchor_lang::prelude::Pubkey as SolanaPubkey;

use nest_protocol::accounts::{
    Protocol, Pubkey, StakingState, DEFAULT_PUBKEY, KLEND_PROGRAM_ID, NEST_CORE_PROGRAM_ID,
    NEST_STAKE_PROGRAM_ID,
};
use nest_protocol::accounts::MarketStateAccount;
use nest_protocol::calendar::{
    apply_market_calendar_params, derive_market_state_from_calendar, is_weekend_utc_day,
    validate_market_calendar_params, MarketCalendarParams,
};
use nest_protocol::cdp::{borrow, repay, CollateralParams, ProtocolAccounting, Vault};
use nest_protocol::core_error::{CoreError, StakeError};
use nest_protocol::ix::admin::{set_paused, staking_assets, MutateProtocol, StakingStateAccountInfo};
use nest_protocol::ix::psm::{psm_swap_in, psm_swap_out, PsmSwapIn, PsmSwapOut};
use nest_protocol::ix::revenue::{
    checkpoint_staker_target_revenue, consume_staker_revenue, deposit_protocol_revenue,
    realize_psm_yield, CheckpointStakerTargetRevenue, ConsumeStakerRevenue,
    DepositProtocolRevenue, RealizePsmYield,
};
use nest_protocol::ledger::TokenAccountState;
use nest_protocol::revenue::ProtocolRevenueAllocation;
use nest_protocol::pda::{
    is_staking_state_key, lending_market_authority_address, protocol_address,
    staking_state_address,
};
use nest_protocol::readers::{read_lazer_price, STAKING_STATE_DISCRIMINATOR};
use nest_protocol::stake::{stake, CoreProtocolAccountInfo, Stake, CORE_PROTOCOL_DISCRIMINATOR};

fn key(byte: u8) -> Pubkey {
    [byte; 32]
}

fn derived(seeds: &[&[u8]], program: Pubkey) -> Pubkey {
    SolanaPubkey::find_program_address(seeds, &SolanaPubkey::new_from_array(program))
        .0
        .to_bytes()
}

fn protocol() -> Protocol {
    Protocol {
        authority: key(1),
        liquidation_authority: key(2),
        nusd_mint: key(3),
        usdc_mint: key(4),
        psm_usdc_vault: key(5),
        insurance_nusd_vault: key(6),
        staker_revenue_nusd_vault: key(7),
        staker_revenue_authority: derived(&[b"staking"], NEST_STAKE_PROGRAM_ID),
        total_debt: 0,
        total_uncollected_fees: 0,
        realized_revenue_for_stakers: 0,
        insurance_fund_nusd: 0,
        bad_debt_nusd: 0,
        psm_usdc_liabilities: 1_000,
        psm_nusd_supply: 1_000,
        psm_idle_usdc: 1_000,
        psm_kamino_deployed_usdc: 0,
        psm_kamino_collateral_vault: DEFAULT_PUBKEY,
        psm_cap: 2_000,
        protocol_debt_cap: 0,
        stability_fee_apr_bps: 0,
        psm_swap_in_fee_bps: 0,
        psm_swap_out_fee_bps: 0,
        kamino_program_id: KLEND_PROGRAM_ID,
        insurance_target_bps: 0,
        insurance_fee_share_bps: 0,
        staker_revenue_accounting_initialized: true,
        paused: false,
        bump: 255,
        protocol_revenue_nusd_vault: key(9),
        realized_revenue_for_protocol: 0,
        staker_target_revenue_due: 0,
        staker_target_last_accrual_ts: 0,
        staker_target_apr_bps: 0,
        staker_capacity_kamino_apr_bps: 0,
        pending_liquidation_principal: 0,
        pending_liquidation_fees: 0,
        psm_outflow_window_start_ts: 0,
        psm_outflow_window_usdc: 0,
        psm_outflow_limit_usdc: 100,
        psm_outflow_limit_bps: 0,
        psm_outflow_window_seconds: 60,
        psm_outflow_circuit_breaker_enabled: true,
        psm_outflow_window_basis_usdc: 0,
        buyback_authority: DEFAULT_PUBKEY,
        buyback_usdc_account: DEFAULT_PUBKEY,
    }
}

/// nest-stake's state account bytes, as nest-core reads them.
fn staking_state_data(nusd_mint: Pubkey, staking_vault_nusd: u128) -> Vec<u8> {
    let mut data = STAKING_STATE_DISCRIMINATOR.to_vec();
    for field in [[10_u8; 32], nusd_mint, [12; 32], [13; 32], [14; 32]] {
        data.extend_from_slice(&field);
    }
    for value in [0_u128, 0, 0, staking_vault_nusd, 0, 0, 0] {
        data.extend_from_slice(&value.to_le_bytes());
    }
    for value in [0_i64, 0, 0, 604_800, 604_800] {
        data.extend_from_slice(&value.to_le_bytes());
    }
    data.push(0);
    data.push(255);
    data
}

/// nest-core's protocol account bytes, as nest-stake reads them.
fn core_protocol_data(p: &Protocol) -> Vec<u8> {
    let mut data = CORE_PROTOCOL_DISCRIMINATOR.to_vec();
    for k in [
        p.authority,
        p.liquidation_authority,
        p.nusd_mint,
        p.usdc_mint,
        p.psm_usdc_vault,
        p.insurance_nusd_vault,
        p.staker_revenue_nusd_vault,
        p.staker_revenue_authority,
    ] {
        data.extend_from_slice(&k);
    }
    for v in [
        p.total_debt,
        p.total_uncollected_fees,
        p.realized_revenue_for_stakers,
        p.insurance_fund_nusd,
        p.bad_debt_nusd,
        p.psm_usdc_liabilities,
        p.psm_nusd_supply,
        p.psm_idle_usdc,
        p.psm_kamino_deployed_usdc,
    ] {
        data.extend_from_slice(&v.to_le_bytes());
    }
    data.extend_from_slice(&p.psm_kamino_collateral_vault);
    data.extend_from_slice(&p.psm_cap.to_le_bytes());
    data.extend_from_slice(&p.protocol_debt_cap.to_le_bytes());
    data.extend_from_slice(&p.stability_fee_apr_bps.to_le_bytes());
    data.extend_from_slice(&p.psm_swap_in_fee_bps.to_le_bytes());
    data.extend_from_slice(&p.psm_swap_out_fee_bps.to_le_bytes());
    data.extend_from_slice(&p.kamino_program_id);
    data.extend_from_slice(&p.insurance_target_bps.to_le_bytes());
    data.extend_from_slice(&p.insurance_fee_share_bps.to_le_bytes());
    data.push(p.staker_revenue_accounting_initialized as u8);
    data.push(p.paused as u8);
    data.push(p.bump);
    data.extend_from_slice(&p.protocol_revenue_nusd_vault);
    data.extend_from_slice(&p.realized_revenue_for_protocol.to_le_bytes());
    data.extend_from_slice(&p.staker_target_revenue_due.to_le_bytes());
    data.extend_from_slice(&p.staker_target_last_accrual_ts.to_le_bytes());
    data.extend_from_slice(&p.staker_target_apr_bps.to_le_bytes());
    data.extend_from_slice(&p.staker_capacity_kamino_apr_bps.to_le_bytes());
    data
}

fn empty_staking_state(nusd_mint: Pubkey) -> StakingState {
    StakingState {
        authority: key(20),
        nusd_mint,
        snusd_mint: key(21),
        staking_nusd_vault: key(22),
        revenue_nusd_vault: key(23),
        revenue_baseline_nusd: 0,
        total_shares: 0,
        total_user_shares: 0,
        staking_vault_nusd: 0,
        realized_loss_nusd: 0,
        unvested_revenue: 0,
        reserved_pending_claims: 0,
        vesting_start_ts: 0,
        vesting_end_ts: 0,
        last_vesting_sync_ts: 0,
        cooldown_seconds: 604_800,
        revenue_vesting_seconds: 604_800,
        paused: false,
        bump: 254,
    }
}

#[test]
fn derived_addresses_match_solana_program_derivation() {
    assert_eq!(
        staking_state_address(),
        Some(derived(&[b"staking"], NEST_STAKE_PROGRAM_ID))
    );
    assert_eq!(
        protocol_address(),
        Some(derived(&[b"protocol"], NEST_CORE_PROGRAM_ID))
    );
    let market = key(77);
    assert_eq!(
        lending_market_authority_address(&market, &KLEND_PROGRAM_ID),
        Some(derived(&[b"lma", &market], KLEND_PROGRAM_ID))
    );
    assert_ne!(staking_state_address(), Some(NEST_STAKE_PROGRAM_ID));
    assert!(is_staking_state_key(&derived(&[b"staking"], NEST_STAKE_PROGRAM_ID)));
    assert!(!is_staking_state_key(&key(5)));
}

#[test]
fn staking_assets_are_read_only_from_the_canonical_staking_state() {
    let p = protocol();
    let info = StakingStateAccountInfo {
        key: p.staker_revenue_authority,
        owner: NEST_STAKE_PROGRAM_ID,
        data: staking_state_data(p.nusd_mint, 123_456),
    };
    assert_eq!(staking_assets(&info, &p.nusd_mint), Ok(123_456));

    let elsewhere = StakingStateAccountInfo { key: key(50), ..info.clone() };
    assert_eq!(
        staking_assets(&elsewhere, &p.nusd_mint),
        Err(CoreError::InvalidParameter)
    );
    let foreign_owner = StakingStateAccountInfo { owner: key(51), ..info.clone() };
    assert_eq!(
        staking_assets(&foreign_owner, &p.nusd_mint),
        Err(CoreError::InvalidParameter)
    );
    assert_eq!(staking_assets(&info, &key(52)), Err(CoreError::InvalidParameter));
}

#[test]
fn checkpoint_requires_the_signing_staking_state() {
    let mut p = protocol();
    p.staker_target_apr_bps = 1_000;
    p.staker_target_last_accrual_ts = 1;
    let info = StakingStateAccountInfo {
        key: p.staker_revenue_authority,
        owner: NEST_STAKE_PROGRAM_ID,
        data: staking_state_data(p.nusd_mint, 100_000_000),
    };
    let mut unsigned = CheckpointStakerTargetRevenue {
        protocol: p,
        staking_state: info.clone(),
        staking_state_is_signer: false,
    };
    assert_eq!(
        checkpoint_staker_target_revenue(&mut unsigned, 1 + 31_536_000),
        Err(CoreError::InvalidParameter)
    );
    assert_eq!(unsigned.protocol, p);

    let mut signed = CheckpointStakerTargetRevenue {
        protocol: p,
        staking_state: info,
        staking_state_is_signer: true,
    };
    checkpoint_staker_target_revenue(&mut signed, 1 + 31_536_000).unwrap();
    assert_eq!(signed.protocol.staker_target_revenue_due, 10_000_000);
    assert_eq!(signed.protocol.staker_target_last_accrual_ts, 1 + 31_536_000);
}

#[test]
fn first_stake_mints_one_share_per_nusd() {
    let p = protocol();
    let mut ctx = Stake {
        staking_state: empty_staking_state(p.nusd_mint),
        revenue_nusd_vault_amount: 7,
        protocol: CoreProtocolAccountInfo {
            key: derived(&[b"protocol"], NEST_CORE_PROGRAM_ID),
            owner: NEST_CORE_PROGRAM_ID,
            data: core_protocol_data(&p),
        },
    };
    assert_eq!(stake(&mut ctx, 1_000_000, 10), Ok(1_000_000));
    assert_eq!(ctx.staking_state.total_shares, 1_000_000);
    assert_eq!(ctx.staking_state.total_user_shares, 1_000_000);
    assert_eq!(ctx.staking_state.staking_vault_nusd, 1_000_000);
    assert_eq!(ctx.staking_state.revenue_baseline_nusd, 7);
}

#[test]
fn stake_rejects_a_protocol_account_at_another_address() {
    let p = protocol();
    let mut ctx = Stake {
        staking_state: empty_staking_state(p.nusd_mint),
        revenue_nusd_vault_amount: 0,
        protocol: CoreProtocolAccountInfo {
            key: key(60),
            owner: NEST_CORE_PROGRAM_ID,
            data: core_protocol_data(&p),
        },
    };
    let before = ctx.staking_state;
    assert_eq!(stake(&mut ctx, 1_000_000, 10), Err(StakeError::InvalidParameter));
    assert_eq!(ctx.staking_state, before);
}

#[test]
fn stake_respects_the_capacity_nest_core_implies() {
    let mut p = protocol();
    p.total_debt = 1_000_000;
    p.stability_fee_apr_bps = 1_000;
    p.psm_idle_usdc = 0;
    p.staker_target_apr_bps = 1_000;
    let mut ctx = Stake {
        staking_state: empty_staking_state(p.nusd_mint),
        revenue_nusd_vault_amount: 0,
        protocol: CoreProtocolAccountInfo {
            key: derived(&[b"protocol"], NEST_CORE_PROGRAM_ID),
            owner: NEST_CORE_PROGRAM_ID,
            data: core_protocol_data(&p),
        },
    };
    // 10% of 1 nUSD of debt is 0.1 nUSD a year, which pays 10% on 1 nUSD.
    assert_eq!(stake(&mut ctx, 1_000_001, 10), Err(StakeError::StakeCapacityExceeded));
    assert_eq!(stake(&mut ctx, 1_000_000, 10), Ok(1_000_000));
}

#[test]
fn psm_swap_out_undoes_a_swap_in_on_the_books() {
    let p = protocol();
    let mut swap_in = PsmSwapIn { protocol: p };
    psm_swap_in(&mut swap_in, 40).unwrap();
    assert_eq!(swap_in.protocol.psm_usdc_liabilities, 1_040);
    assert_eq!(swap_in.protocol.psm_nusd_supply, 1_040);
    assert_eq!(swap_in.protocol.psm_idle_usdc, 1_040);

    let mut swap_out = PsmSwapOut {
        protocol: swap_in.protocol,
        user_nusd_amount: 40,
    };
    assert_eq!(psm_swap_out(&mut swap_out, 40, 10), Ok(()));
    assert_eq!(swap_out.protocol.psm_usdc_liabilities, p.psm_usdc_liabilities);
    assert_eq!(swap_out.protocol.psm_nusd_supply, p.psm_nusd_supply);
    assert_eq!(swap_out.protocol.psm_idle_usdc, p.psm_idle_usdc);
    assert_eq!(swap_out.protocol.psm_outflow_window_usdc, 40);
}

#[test]
fn psm_swap_in_errors() {
    let mut ctx = PsmSwapIn { protocol: protocol() };
    assert_eq!(psm_swap_in(&mut ctx, 0), Err(CoreError::InvalidParameter));
    assert_eq!(psm_swap_in(&mut ctx, 1_001), Err(CoreError::PsmCapExceeded));
    ctx.protocol.paused = true;
    assert_eq!(psm_swap_in(&mut ctx, 1), Err(CoreError::Paused));
    assert_eq!(ctx.protocol.psm_usdc_liabilities, 1_000);
}

#[test]
fn psm_swap_out_errors_and_breaker() {
    let mut bad_debt = PsmSwapOut { protocol: protocol(), user_nusd_amount: 50 };
    bad_debt.protocol.bad_debt_nusd = 1;
    assert_eq!(psm_swap_out(&mut bad_debt, 10, 10), Err(CoreError::BadDebtOutstanding));

    let mut short = PsmSwapOut { protocol: protocol(), user_nusd_amount: 5 };
    assert_eq!(psm_swap_out(&mut short, 10, 10), Err(CoreError::PsmInsufficientLiquidity));

    let mut paused = PsmSwapOut { protocol: protocol(), user_nusd_amount: 50 };
    paused.protocol.paused = true;
    assert_eq!(psm_swap_out(&mut paused, 10, 10), Err(CoreError::Paused));

    let mut broken = PsmSwapOut { protocol: protocol(), user_nusd_amount: 50 };
    broken.protocol.psm_outflow_window_seconds = 0;
    assert_eq!(
        psm_swap_out(&mut broken, 10, 10),
        Err(CoreError::InvalidPsmOutflowCircuitBreaker)
    );

    // Exactly the window's limit goes through.
    let mut exact = PsmSwapOut { protocol: protocol(), user_nusd_amount: 500 };
    assert_eq!(psm_swap_out(&mut exact, 100, 10), Ok(()));
    assert!(!exact.protocol.paused);
    assert_eq!(exact.protocol.psm_outflow_window_usdc, 100);
    assert_eq!(exact.protocol.psm_idle_usdc, 900);

    // One unit more in the same window is refused; the protocol stays open
    // and the window total stays at the limit.
    let before = exact.protocol;
    assert_eq!(psm_swap_out(&mut exact, 1, 11), Err(CoreError::PsmOutflowLimitExceeded));
    assert_eq!(exact.protocol, before);
    assert!(!exact.protocol.paused);
    assert_eq!(exact.protocol.psm_outflow_window_usdc, 100);

    // So is a single outflow beyond the limit.
    let mut excess = PsmSwapOut { protocol: protocol(), user_nusd_amount: 500 };
    assert_eq!(psm_swap_out(&mut excess, 101, 10), Err(CoreError::PsmOutflowLimitExceeded));
    assert!(!excess.protocol.paused);
    assert_eq!(excess.protocol.psm_idle_usdc, 1_000);
}

#[test]
fn repaying_a_fresh_borrow_restores_the_vault() {
    let mut protocol = ProtocolAccounting::new();
    let mut vault = Vault::default();
    let params = CollateralParams {
        borrow_ltv_bps: 4_500,
        liquidation_threshold_bps: 5_500,
        per_vault_debt_cap: 50_000_000,
        protocol_debt_cap: 500_000_000,
        ..CollateralParams::default()
    };
    let vault_before = vault;
    let protocol_before = protocol;
    borrow(&mut vault, &mut protocol, 100_000_000, params, 30_000_000).unwrap();
    let outcome = repay(&mut vault, &mut protocol, 30_000_000).unwrap();
    assert_eq!(outcome.principal_paid, 30_000_000);
    assert_eq!(outcome.fee_paid, 0);
    assert_eq!(outcome.overpayment, 0);
    assert_eq!(vault, vault_before);
    assert_eq!(protocol.total_debt, protocol_before.total_debt);
}

#[test]
fn protocol_mutations_require_the_authority() {
    let mut ctx = MutateProtocol { protocol: protocol(), authority: key(99) };
    assert_eq!(set_paused(&mut ctx, true), Err(CoreError::Unauthorized));
    assert!(!ctx.protocol.paused);
    ctx.authority = key(1);
    assert_eq!(set_paused(&mut ctx, true), Ok(()));
    assert!(ctx.protocol.paused);
}

#[test]
fn undecodable_lazer_payload_is_an_oracle_error() {
    let mut config_key = [0_u8; 32];
    config_key[0] = 1;
    let config = nest_protocol::accounts::CollateralConfig {
        protocol: key(1),
        collateral_mint: key(2),
        collateral_vault: key(3),
        insurance_collateral_vault: key(4),
        token_program: key(5),
        symbol: [0; 16],
        collateral_decimals: 6,
        xstock_usd_feed_id: config_key,
        reserved_underlying_usd_feed_id: [0; 32],
        reserved_redemption_rate_feed_id: [0; 32],
        borrow_ltv_bps: 4_500,
        liquidation_threshold_bps: 5_500,
        liquidation_penalty_bps: 800,
        close_factor_bps: 5_000,
        max_confidence_bps: 200,
        max_staleness_seconds: 120,
        reserved_closed_market_max_staleness_seconds: 0,
        reserved_underlying_closed_market_max_staleness_seconds: 0,
        reserved_closed_market_haircut_bps: 0,
        per_vault_debt_cap: 1,
        protocol_debt_cap: 1,
        deposit_cap_raw: 1,
        total_debt: 0,
        total_deposits_raw: 0,
        deposits_paused: false,
        borrows_paused: false,
        withdraws_paused: false,
        bump: 255,
    };
    assert_eq!(
        read_lazer_price(&[1, 2, 3, 4, 5], &config),
        Err(CoreError::OracleError)
    );
    let mut signed_config = config;
    signed_config.xstock_usd_feed_id = [7; 32];
    assert_eq!(
        read_lazer_price(&[1, 2, 3, 4, 5], &signed_config),
        Err(CoreError::InvalidParameter)
    );
}

fn calendar() -> nest_protocol::calendar::MarketCalendar {
    nest_protocol::calendar::MarketCalendar {
        protocol: key(1),
        valid_until_ts: 1_800_000_000,
        regular_open_seconds: 52_200,
        regular_close_seconds: 75_600,
        extended_open_seconds: 32_400,
        extended_close_seconds: 86_400,
        closed_days: vec![19_724],
        bump: 255,
    }
}

#[test]
fn market_calendar_derives_sessions_weekends_and_holidays() {
    // Day 19_723 is Monday 1 January 2024; 19_728 and 19_729 are a weekend.
    assert!(!is_weekend_utc_day(19_723));
    assert!(is_weekend_utc_day(19_728));
    assert!(is_weekend_utc_day(19_729));
    assert!(!is_weekend_utc_day(0));
    assert!(is_weekend_utc_day(-4));
    assert!(is_weekend_utc_day(-5));
    assert!(!is_weekend_utc_day(-6));

    let cal = calendar();
    let monday = 19_723_i64 * 86_400;
    assert_eq!(
        derive_market_state_from_calendar(&cal, monday + 60_000),
        Ok(MarketStateAccount::Regular)
    );
    assert_eq!(
        derive_market_state_from_calendar(&cal, monday + 40_000),
        Ok(MarketStateAccount::Extended)
    );
    assert_eq!(
        derive_market_state_from_calendar(&cal, monday + 1_000),
        Ok(MarketStateAccount::Closed)
    );
    // The listed holiday and a Saturday are closed all day.
    assert_eq!(
        derive_market_state_from_calendar(&cal, 19_724 * 86_400 + 60_000),
        Ok(MarketStateAccount::Closed)
    );
    assert_eq!(
        derive_market_state_from_calendar(&cal, 19_728 * 86_400 + 60_000),
        Ok(MarketStateAccount::Closed)
    );
    assert_eq!(
        derive_market_state_from_calendar(&cal, 1_800_000_001),
        Err(CoreError::MarketCalendarExpired)
    );
    assert_eq!(
        derive_market_state_from_calendar(&cal, -1),
        Err(CoreError::InvalidParameter)
    );
}

#[test]
fn market_calendar_params_must_nest_sessions_and_order_days() {
    let params = MarketCalendarParams {
        valid_until_ts: 2_000,
        regular_open_seconds: 52_200,
        regular_close_seconds: 75_600,
        extended_open_seconds: 32_400,
        extended_close_seconds: 86_400,
        closed_days: vec![3, 9],
    };
    assert_eq!(validate_market_calendar_params(&params, 2, 1_000), Ok(()));
    assert_eq!(
        validate_market_calendar_params(&params, 1, 1_000),
        Err(CoreError::InvalidParameter)
    );
    assert_eq!(
        validate_market_calendar_params(&params, 2, 2_001),
        Err(CoreError::InvalidParameter)
    );
    let unordered = MarketCalendarParams { closed_days: vec![9, 3], ..params.clone() };
    assert_eq!(
        validate_market_calendar_params(&unordered, 2, 1_000),
        Err(CoreError::InvalidParameter)
    );
    let before_epoch = MarketCalendarParams { closed_days: vec![-1], ..params.clone() };
    assert_eq!(
        validate_market_calendar_params(&before_epoch, 2, 1_000),
        Err(CoreError::InvalidParameter)
    );
    let past_midnight = MarketCalendarParams { extended_close_seconds: 86_401, ..params.clone() };
    assert_eq!(
        validate_market_calendar_params(&past_midnight, 2, 1_000),
        Err(CoreError::InvalidParameter)
    );

    let mut cal = calendar();
    apply_market_calendar_params(&mut cal, key(44), params.clone(), 7);
    assert_eq!(cal.protocol, key(44));
    assert_eq!(cal.valid_until_ts, 2_000);
    assert_eq!(cal.closed_days, vec![3, 9]);
    assert_eq!(cal.bump, 7);
}

fn staking_info(p: &Protocol, staking_vault_nusd: u128) -> StakingStateAccountInfo {
    StakingStateAccountInfo {
        key: p.staker_revenue_authority,
        owner: NEST_STAKE_PROGRAM_ID,
        data: staking_state_data(p.nusd_mint, staking_vault_nusd),
    }
}

fn nusd_source(p: &Protocol, amount: u64) -> TokenAccountState {
    TokenAccountState {
        key: key(40),
        mint: p.nusd_mint,
        owner: key(41),
        amount,
        delegate: None,
        delegated_amount: 0,
        close_authority: None,
        is_native: None,
        is_frozen: false,
    }
}

#[test]
fn deposited_revenue_retires_bad_debt_then_fills_insurance_stakers_and_protocol() {
    let mut p = protocol();
    p.total_debt = 1_000;
    p.bad_debt_nusd = 10;
    p.insurance_target_bps = 1_000;
    p.insurance_fee_share_bps = 2_000;
    p.staker_target_apr_bps = 600;
    p.staker_target_last_accrual_ts = 10;
    p.staker_target_revenue_due = 30;
    let mut ctx = DepositProtocolRevenue {
        protocol: p,
        source_nusd_account: nusd_source(&p, 500),
        staking_state: staking_info(&p, 1_000),
    };
    let split = deposit_protocol_revenue(&mut ctx, 100, 10).unwrap();
    assert_eq!(
        split,
        ProtocolRevenueAllocation { bad_debt_repaid: 10, insurance: 18, stakers: 30, protocol: 42 }
    );
    assert_eq!(ctx.protocol.bad_debt_nusd, 0);
    assert_eq!(ctx.protocol.insurance_fund_nusd, 18);
    assert_eq!(ctx.protocol.staker_target_revenue_due, 0);
    assert_eq!(ctx.protocol.realized_revenue_for_stakers, 30);
    assert_eq!(ctx.protocol.realized_revenue_for_protocol, 42);

    let mut zero = DepositProtocolRevenue {
        protocol: p,
        source_nusd_account: nusd_source(&p, 500),
        staking_state: staking_info(&p, 1_000),
    };
    assert_eq!(deposit_protocol_revenue(&mut zero, 0, 10), Err(CoreError::InvalidParameter));
    assert_eq!(zero.protocol, p);

    let mut uninitialized_protocol = p;
    uninitialized_protocol.staker_revenue_accounting_initialized = false;
    let mut uninitialized = DepositProtocolRevenue {
        protocol: uninitialized_protocol,
        source_nusd_account: nusd_source(&p, 500),
        staking_state: staking_info(&p, 1_000),
    };
    assert_eq!(
        deposit_protocol_revenue(&mut uninitialized, 100, 10),
        Err(CoreError::StakerRevenueAccountingNotInitialized)
    );
    assert_eq!(uninitialized.protocol, uninitialized_protocol);

    let mut from_vault = DepositProtocolRevenue {
        protocol: p,
        source_nusd_account: TokenAccountState { key: p.insurance_nusd_vault, ..nusd_source(&p, 500) },
        staking_state: staking_info(&p, 1_000),
    };
    assert_eq!(
        deposit_protocol_revenue(&mut from_vault, 100, 10),
        Err(CoreError::InvalidParameter)
    );
}

#[test]
fn psm_yield_needs_an_open_solvent_protocol_surplus_and_cap_room() {
    let mut p = protocol();
    p.psm_cap = 1_000;
    let yield_ctx = |p: Protocol, vault: u64| RealizePsmYield {
        protocol: p,
        psm_usdc_vault_amount: vault,
        staking_state: staking_info(&p, 1_000),
        authority: key(1),
    };

    let mut at_cap = yield_ctx(p, 1_250);
    assert_eq!(realize_psm_yield(&mut at_cap, 250, 10), Err(CoreError::PsmCapExceeded));
    assert_eq!(at_cap.protocol, p);

    p.psm_cap = 2_000;
    let mut paused_protocol = p;
    paused_protocol.paused = true;
    assert_eq!(
        realize_psm_yield(&mut yield_ctx(paused_protocol, 1_250), 250, 10),
        Err(CoreError::Paused)
    );
    let mut indebted = p;
    indebted.bad_debt_nusd = 1;
    assert_eq!(
        realize_psm_yield(&mut yield_ctx(indebted, 1_250), 250, 10),
        Err(CoreError::BadDebtOutstanding)
    );
    assert_eq!(
        realize_psm_yield(&mut yield_ctx(p, 1_249), 250, 10),
        Err(CoreError::PsmNoSurplus)
    );
    let mut stranger = yield_ctx(p, 1_250);
    stranger.authority = key(77);
    assert_eq!(realize_psm_yield(&mut stranger, 250, 10), Err(CoreError::Unauthorized));

    let mut ok = yield_ctx(p, 1_250);
    let (insurance, stakers, protocol_part, minted) = realize_psm_yield(&mut ok, 250, 10).unwrap();
    assert_eq!(minted, 250);
    assert_eq!(insurance + stakers + protocol_part, 250);
    assert_eq!(ok.protocol.psm_usdc_liabilities, 1_250);
    assert_eq!(ok.protocol.psm_nusd_supply, 1_250);
    assert_eq!(ok.protocol.psm_idle_usdc, 1_250);
}

#[test]
fn consumed_staker_revenue_leaves_the_routed_balance() {
    let mut p = protocol();
    p.realized_revenue_for_stakers = 50;
    let mut ctx = ConsumeStakerRevenue {
        protocol: p,
        staking_state: staking_info(&p, 1_000),
        staking_state_is_signer: true,
    };
    assert_eq!(consume_staker_revenue(&mut ctx, 20, 10), Ok(()));
    assert_eq!(ctx.protocol.realized_revenue_for_stakers, 30);
    assert_eq!(consume_staker_revenue(&mut ctx, 31, 10), Err(CoreError::InvalidParameter));
    assert_eq!(ctx.protocol.realized_revenue_for_stakers, 30);
}
