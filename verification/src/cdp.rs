use vstd::prelude::*;

use crate::constants::{
    BPS_DENOMINATOR, DEFAULT_CLOSE_FACTOR_BPS, FULL_LIQUIDATION_HEALTH_FACTOR_BPS,
    INSURANCE_FEE_SHARE_BPS, INSURANCE_TARGET_BPS, SECONDS_PER_YEAR,
};
use crate::error::NestError;
use crate::math::{checked_add, checked_sub, min_u128, mul_div_down};

verus! {

/// Risk parameters of one collateral market.
#[derive(Debug, Clone, Copy, PartialEq, Eq)]
pub struct CollateralParams {
    pub borrow_ltv_bps: u16,
    pub liquidation_threshold_bps: u16,
    pub liquidation_penalty_bps: u16,
    pub close_factor_bps: u16,
    pub full_liquidation_threshold_bps: u16,
    pub per_vault_debt_cap: u128,
    pub protocol_debt_cap: u128,
    pub collateral_debt_cap: u128,
    pub collateral_debt_outstanding: u128,
    pub deposit_cap_raw: u128,
    pub deposits_paused: bool,
    pub borrows_paused: bool,
    pub withdraws_paused: bool,
}

/// Protocol-wide debt, fee and revenue ledger.
#[derive(Debug, Clone, Copy, PartialEq, Eq)]
pub struct ProtocolAccounting {
    pub total_debt: u128,
    pub pending_liquidation_principal: u128,
    pub pending_liquidation_fees: u128,
    pub total_uncollected_fees: u128,
    pub realized_revenue_for_stakers: u128,
    pub insurance_fund_nusd: u128,
    pub bad_debt_nusd: u128,
    pub insurance_target_bps: u16,
    pub insurance_fee_share_bps: u16,
}

/// One borrower's collateralised debt position.
#[derive(Debug, Clone, Copy, PartialEq, Eq)]
pub struct Vault {
    pub collateral_raw: u128,
    pub principal_debt: u128,
    pub accrued_fee: u128,
    pub last_accrual_ts: i64,
}

#[derive(Debug, Clone, Copy, PartialEq, Eq)]
pub struct RepayOutcome {
    pub fee_paid: u128,
    pub principal_paid: u128,
    pub bad_debt_repaid: u128,
    pub overpayment: u128,
}

impl CollateralParams {
    /// Loan-to-value below the liquidation threshold, every bps value in range.
    pub open spec fn valid(self) -> bool {
        &&& self.borrow_ltv_bps != 0
        &&& self.borrow_ltv_bps < self.liquidation_threshold_bps
        &&& self.liquidation_threshold_bps < 10_000
        &&& self.close_factor_bps != 0
        &&& self.close_factor_bps <= 10_000
        &&& self.liquidation_penalty_bps != 0
        &&& self.liquidation_penalty_bps <= 10_000
        &&& self.full_liquidation_threshold_bps <= 10_000
    }

    pub fn validate(&self) -> (r: Result<(), NestError>)
        ensures
            r is Ok <==> self.valid(),
            r is Err ==> r == Err::<(), NestError>(NestError::InvalidParameter),
    {
        if self.borrow_ltv_bps == 0 || self.borrow_ltv_bps >= self.liquidation_threshold_bps
            || self.liquidation_threshold_bps >= 10_000u16 || self.close_factor_bps == 0
            || self.close_factor_bps > 10_000u16 || self.liquidation_penalty_bps == 0
            || self.liquidation_penalty_bps > 10_000u16 || self.full_liquidation_threshold_bps
            > 10_000u16 {
            return Err(NestError::InvalidParameter);
        }
        Ok(())
    }
}

impl Default for CollateralParams {
    fn default() -> (r: Self)
        ensures
            r.borrow_ltv_bps == 4_500,
            r.liquidation_threshold_bps == 5_500,
            r.liquidation_penalty_bps == 800,
            r.close_factor_bps == DEFAULT_CLOSE_FACTOR_BPS,
            r.full_liquidation_threshold_bps == FULL_LIQUIDATION_HEALTH_FACTOR_BPS,
            r.per_vault_debt_cap == 50_000_000_000,
            r.protocol_debt_cap == 500_000_000_000,
            r.collateral_debt_cap == 100_000_000_000,
            r.collateral_debt_outstanding == 0,
            r.deposit_cap_raw == u128::MAX,
            !r.deposits_paused,
            !r.borrows_paused,
            !r.withdraws_paused,
            r.valid(),
    {
        CollateralParams {
            borrow_ltv_bps: 4_500,
            liquidation_threshold_bps: 5_500,
            liquidation_penalty_bps: 800,
            close_factor_bps: DEFAULT_CLOSE_FACTOR_BPS,
            full_liquidation_threshold_bps: FULL_LIQUIDATION_HEALTH_FACTOR_BPS,
            per_vault_debt_cap: 50_000_000_000,
            protocol_debt_cap: 500_000_000_000,
            collateral_debt_cap: 100_000_000_000,
            collateral_debt_outstanding: 0,
            deposit_cap_raw: u128::MAX,
            deposits_paused: false,
            borrows_paused: false,
            withdraws_paused: false,
        }
    }
}

impl Default for ProtocolAccounting {
    fn default() -> (r: Self)
        ensures
            r == ProtocolAccounting::zero(),
    {
        ProtocolAccounting {
            total_debt: 0,
            pending_liquidation_principal: 0,
            pending_liquidation_fees: 0,
            total_uncollected_fees: 0,
            realized_revenue_for_stakers: 0,
            insurance_fund_nusd: 0,
            bad_debt_nusd: 0,
            insurance_target_bps: 0,
            insurance_fee_share_bps: 0,
        }
    }
}

impl Default for Vault {
    fn default() -> (r: Self)
        ensures
            r == (Vault { collateral_raw: 0, principal_debt: 0, accrued_fee: 0, last_accrual_ts: 0 }),
    {
        Vault { collateral_raw: 0, principal_debt: 0, accrued_fee: 0, last_accrual_ts: 0 }
    }
}

/// Part of `amount` that fills the insurance fund towards its target.
pub open spec fn insurance_share(p: ProtocolAccounting, target: int, amount: u128) -> int {
    if p.insurance_fund_nusd >= target {
        0
    } else {
        let desired = (amount * p.insurance_fee_share_bps) / 10_000;
        if desired <= target - p.insurance_fund_nusd {
            desired
        } else {
            target - p.insurance_fund_nusd
        }
    }
}

impl ProtocolAccounting {
    pub open spec fn zero() -> ProtocolAccounting {
        ProtocolAccounting {
            total_debt: 0,
            pending_liquidation_principal: 0,
            pending_liquidation_fees: 0,
            total_uncollected_fees: 0,
            realized_revenue_for_stakers: 0,
            insurance_fund_nusd: 0,
            bad_debt_nusd: 0,
            insurance_target_bps: 0,
            insurance_fee_share_bps: 0,
        }
    }

    /// Insurance fund target: a share of outstanding debt, rounded down.
    pub open spec fn spec_insurance_target(self) -> Result<u128, NestError> {
        if self.total_debt * self.insurance_target_bps > u128::MAX {
            Err(NestError::MathOverflow)
        } else {
            Ok(((self.total_debt * self.insurance_target_bps) / 10_000) as u128)
        }
    }

    /// Splits realized revenue between the insurance fund (while it is under
    /// target, up to the fee share) and stakers.
    pub open spec fn spec_route_realized_fee(self, amount: u128) -> Result<ProtocolAccounting, NestError> {
        match self.spec_insurance_target() {
            Err(e) => Err(e),
            Ok(target) => {
                if self.insurance_fund_nusd < target && amount * self.insurance_fee_share_bps
                    > u128::MAX {
                    Err(NestError::MathOverflow)
                } else {
                    let share = insurance_share(self, target as int, amount);
                    if share > amount || self.insurance_fund_nusd + share > u128::MAX
                        || self.realized_revenue_for_stakers + (amount - share) > u128::MAX {
                        Err(NestError::MathOverflow)
                    } else {
                        Ok(
                            ProtocolAccounting {
                                insurance_fund_nusd: (self.insurance_fund_nusd + share) as u128,
                                realized_revenue_for_stakers: (self.realized_revenue_for_stakers
                                    + amount - share) as u128,
                                ..self
                            },
                        )
                    }
                }
            },
        }
    }

    pub open spec fn spec_cover_bad_debt(self, amount: u128) -> Result<ProtocolAccounting, NestError> {
        if amount == 0 || amount > self.bad_debt_nusd {
            Err(NestError::InvalidParameter)
        } else {
            Ok(ProtocolAccounting { bad_debt_nusd: (self.bad_debt_nusd - amount) as u128, ..self })
        }
    }

    /// A fresh ledger with the default insurance parameters.
    pub fn new() -> (r: Self)
        ensures
            r == (ProtocolAccounting {
                insurance_target_bps: INSURANCE_TARGET_BPS,
                insurance_fee_share_bps: INSURANCE_FEE_SHARE_BPS,
                ..ProtocolAccounting::zero()
            }),
    {
        ProtocolAccounting {
            total_debt: 0,
            pending_liquidation_principal: 0,
            pending_liquidation_fees: 0,
            total_uncollected_fees: 0,
            realized_revenue_for_stakers: 0,
            insurance_fund_nusd: 0,
            bad_debt_nusd: 0,
            insurance_target_bps: INSURANCE_TARGET_BPS,
            insurance_fee_share_bps: INSURANCE_FEE_SHARE_BPS,
        }
    }

    pub fn cdp_insurance_target(&self) -> (r: Result<u128, NestError>)
        ensures
            r == self.spec_insurance_target(),
    {
        mul_div_down(self.total_debt, self.insurance_target_bps as u128, BPS_DENOMINATOR)
    }

    /// Routes realized revenue; on error the ledger is left unchanged.
    pub fn route_realized_fee(&mut self, amount: u128) -> (r: Result<(), NestError>)
        ensures
            match old(self).spec_route_realized_fee(amount) {
                Ok(p) => r is Ok && *final(self) == p,
                Err(e) => r == Err::<(), NestError>(e) && *final(self) == *old(self),
            },
    {
        let target = self.cdp_insurance_target()?;
        let insurance_share = if self.insurance_fund_nusd >= target {
            0
        } else {
            let desired = mul_div_down(
                amount,
                self.insurance_fee_share_bps as u128,
                BPS_DENOMINATOR,
            )?;
            let room = target - self.insurance_fund_nusd;
            if desired <= room {
                desired
            } else {
                room
            }
        };
        let staker_share = checked_sub(amount, insurance_share)?;
        let insurance = checked_add(self.insurance_fund_nusd, insurance_share)?;
        let stakers = checked_add(self.realized_revenue_for_stakers, staker_share)?;
        self.insurance_fund_nusd = insurance;
        self.realized_revenue_for_stakers = stakers;
        Ok(())
    }

    /// Retires `amount` of recorded bad debt.
    pub fn cover_bad_debt(&mut self, amount: u128) -> (r: Result<(), NestError>)
        ensures
            match old(self).spec_cover_bad_debt(amount) {
                Ok(p) => r is Ok && *final(self) == p,
                Err(e) => r == Err::<(), NestError>(e) && *final(self) == *old(self),
            },
    {
        if amount == 0 || amount > self.bad_debt_nusd {
            return Err(NestError::InvalidParameter);
        }
        self.bad_debt_nusd = self.bad_debt_nusd - amount;
        Ok(())
    }
}

impl Vault {
    /// Principal plus accrued fee, as a mathematical integer.
    pub open spec fn debt(self) -> int {
        self.principal_debt + self.accrued_fee
    }

    pub fn total_debt(&self) -> (r: Result<u128, NestError>)
        ensures
            r == crate::math::fit_u128(self.debt()),
    {
        checked_add(self.principal_debt, self.accrued_fee)
    }
}

/// Stability fee for `elapsed` seconds on `debt` at `apr_bps`, rounded down
/// but never below one unit for a positive interval.
pub open spec fn stability_fee(debt: int, apr_bps: int, elapsed: int) -> int {
    let q = (debt * apr_bps * elapsed) / 315_360_000_000int;
    if q == 0 {
        1
    } else {
        q
    }
}

/// Vault, ledger and fee after accruing the stability fee up to `now`.
pub open spec fn spec_accrue_stability_fee(
    vault: Vault,
    protocol: ProtocolAccounting,
    apr_bps: u64,
    now: i64,
) -> Result<(Vault, ProtocolAccounting, u128), NestError> {
    let elapsed = now - vault.last_accrual_ts;
    let debt = vault.debt();
    if now <= vault.last_accrual_ts {
        Ok((vault, protocol, 0))
    } else if elapsed > i64::MAX || debt > u128::MAX {
        Err(NestError::MathOverflow)
    } else if debt == 0 || apr_bps == 0 {
        Ok((Vault { last_accrual_ts: now, ..vault }, protocol, 0))
    } else if debt * apr_bps > u128::MAX || debt * apr_bps * elapsed > u128::MAX {
        Err(NestError::MathOverflow)
    } else {
        let fee = stability_fee(debt, apr_bps as int, elapsed);
        if vault.accrued_fee + fee > u128::MAX || protocol.total_debt + fee > u128::MAX
            || protocol.total_uncollected_fees + fee > u128::MAX {
            Err(NestError::MathOverflow)
        } else {
            Ok(
                (
                    Vault {
                        accrued_fee: (vault.accrued_fee + fee) as u128,
                        last_accrual_ts: now,
                        ..vault
                    },
                    ProtocolAccounting {
                        total_debt: (protocol.total_debt + fee) as u128,
                        total_uncollected_fees: (protocol.total_uncollected_fees + fee) as u128,
                        ..protocol
                    },
                    fee as u128,
                ),
            )
        }
    }
}

/// Accrues the stability fee into the vault and the protocol ledger.
pub fn accrue_stability_fee(
    vault: &mut Vault,
    protocol: &mut ProtocolAccounting,
    stability_fee_apr_bps: u64,
    now: i64,
) -> (r: Result<u128, NestError>)
    ensures
        match spec_accrue_stability_fee(*old(vault), *old(protocol), stability_fee_apr_bps, now) {
            Ok((v, p, fee)) => r == Ok::<u128, NestError>(fee) && *final(vault) == v
                && *final(protocol) == p,
            Err(e) => r == Err::<u128, NestError>(e) && *final(vault) == *old(vault)
                && *final(protocol) == *old(protocol),
        },
{
    if now <= vault.last_accrual_ts {
        return Ok(0);
    }
    let elapsed_i64 = match now.checked_sub(vault.last_accrual_ts) {
        Some(e) => e,
        None => {
            return Err(NestError::MathOverflow);
        },
    };
    let elapsed = elapsed_i64 as u128;
    let debt = vault.total_debt()?;
    if debt == 0 || stability_fee_apr_bps == 0 {
        vault.last_accrual_ts = now;
        return Ok(0);
    }
    let step = match debt.checked_mul(stability_fee_apr_bps as u128) {
        Some(s) => s,
        None => {
            return Err(NestError::MathOverflow);
        },
    };
    let numerator = match step.checked_mul(elapsed) {
        Some(n) => n,
        None => {
            return Err(NestError::MathOverflow);
        },
    };
    let denominator = BPS_DENOMINATOR * SECONDS_PER_YEAR;
    let mut fee = numerator / denominator;
    if fee == 0 {
        fee = 1;
    }
    let accrued_fee = checked_add(vault.accrued_fee, fee)?;
    let total_debt = checked_add(protocol.total_debt, fee)?;
    let uncollected = checked_add(protocol.total_uncollected_fees, fee)?;
    vault.last_accrual_ts = now;
    vault.accrued_fee = accrued_fee;
    protocol.total_debt = total_debt;
    protocol.total_uncollected_fees = uncollected;
    Ok(fee)
}

/// Health factor in bps: liquidation-weighted collateral over debt, rounded
/// down; unbounded (`u128::MAX`) without debt.
pub open spec fn spec_health_factor_bps(collateral_value: u128, debt: u128, threshold_bps: u16) -> Result<
    u128,
    NestError,
> {
    if debt == 0 {
        Ok(u128::MAX)
    } else {
        crate::math::spec_mul_div_down(collateral_value, threshold_bps as u128, debt)
    }
}

pub fn health_factor_bps(
    collateral_value_usd: u128,
    debt: u128,
    liquidation_threshold_bps: u16,
) -> (r: Result<u128, NestError>)
    ensures
        r == spec_health_factor_bps(collateral_value_usd, debt, liquidation_threshold_bps),
{
    if debt == 0 {
        return Ok(u128::MAX);
    }
    mul_div_down(collateral_value_usd, liquidation_threshold_bps as u128, debt)
}

/// Whether the health factor reaches `required_bps`, compared exactly.
pub open spec fn spec_health_at_least(
    collateral_value: u128,
    debt: u128,
    threshold_bps: u16,
    required_bps: u16,
) -> Result<bool, NestError> {
    if debt == 0 {
        Ok(true)
    } else if collateral_value * threshold_bps > u128::MAX || debt * required_bps > u128::MAX {
        Err(NestError::MathOverflow)
    } else {
        Ok(collateral_value * threshold_bps >= debt * required_bps)
    }
}

pub fn health_factor_at_least_bps(
    collateral_value_usd: u128,
    debt: u128,
    liquidation_threshold_bps: u16,
    required_health_factor_bps: u16,
) -> (r: Result<bool, NestError>)
    ensures
        r == spec_health_at_least(
            collateral_value_usd,
            debt,
            liquidation_threshold_bps,
            required_health_factor_bps,
        ),
{
    if debt == 0 {
        return Ok(true);
    }
    let collateral_side = match collateral_value_usd.checked_mul(liquidation_threshold_bps as u128) {
        Some(v) => v,
        None => {
            return Err(NestError::MathOverflow);
        },
    };
    let debt_side = match debt.checked_mul(required_health_factor_bps as u128) {
        Some(v) => v,
        None => {
            return Err(NestError::MathOverflow);
        },
    };
    Ok(collateral_side >= debt_side)
}

/// Borrow limit: collateral value times the loan-to-value, rounded down.
pub open spec fn borrow_limit(collateral_value: u128, ltv_bps: u16) -> int {
    (collateral_value * ltv_bps) / 10_000
}

/// Whether `borrow_amount` more debt is allowed, or the first rule it breaks.
pub open spec fn spec_can_borrow(
    collateral_value: u128,
    vault: Vault,
    params: CollateralParams,
    protocol: ProtocolAccounting,
    amount: u128,
) -> Result<(), NestError> {
    let debt_after = vault.debt() + amount;
    let pending = protocol.pending_liquidation_principal + protocol.pending_liquidation_fees;
    let protocol_after = protocol.total_debt + pending + amount;
    let market_after = params.collateral_debt_outstanding + pending + amount;
    if !params.valid() || amount == 0 {
        Err(NestError::InvalidParameter)
    } else if params.borrows_paused {
        Err(NestError::BorrowPaused)
    } else if debt_after > u128::MAX || collateral_value * params.borrow_ltv_bps > u128::MAX {
        Err(NestError::MathOverflow)
    } else if debt_after > borrow_limit(collateral_value, params.borrow_ltv_bps) {
        Err(NestError::InsufficientCollateral)
    } else if debt_after > params.per_vault_debt_cap {
        Err(NestError::VaultDebtCapExceeded)
    } else if protocol_after > u128::MAX {
        Err(NestError::MathOverflow)
    } else if protocol_after > params.protocol_debt_cap {
        Err(NestError::DebtCapExceeded)
    } else if market_after > u128::MAX {
        Err(NestError::MathOverflow)
    } else if market_after > params.collateral_debt_cap {
        Err(NestError::DebtCapExceeded)
    } else {
        Ok(())
    }
}

pub fn can_borrow(
    collateral_value_usd: u128,
    vault: Vault,
    params: CollateralParams,
    protocol: ProtocolAccounting,
    borrow_amount: u128,
) -> (r: Result<(), NestError>)
    ensures
        r == spec_can_borrow(collateral_value_usd, vault, params, protocol, borrow_amount),
{
    params.validate()?;
    if borrow_amount == 0 {
        return Err(NestError::InvalidParameter);
    }
    if params.borrows_paused {
        return Err(NestError::BorrowPaused);
    }
    let debt_after = checked_add(vault.total_debt()?, borrow_amount)?;
    let limit = mul_div_down(collateral_value_usd, params.borrow_ltv_bps as u128, BPS_DENOMINATOR)?;
    if debt_after > limit {
        return Err(NestError::InsufficientCollateral);
    }
    if debt_after > params.per_vault_debt_cap {
        return Err(NestError::VaultDebtCapExceeded);
    }
    let pending_liquidation_debt = checked_add(
        protocol.pending_liquidation_principal,
        protocol.pending_liquidation_fees,
    )?;
    let reserved_debt = checked_add(protocol.total_debt, pending_liquidation_debt)?;
    if checked_add(reserved_debt, borrow_amount)? > params.protocol_debt_cap {
        return Err(NestError::DebtCapExceeded);
    }
    // Pending receipts are tracked globally; reserving all of them against each
    // market keeps a market cap closed while seized collateral awaits settlement.
    let reserved_collateral_debt = checked_add(
        params.collateral_debt_outstanding,
        pending_liquidation_debt,
    )?;
    if checked_add(reserved_collateral_debt, borrow_amount)? > params.collateral_debt_cap {
        return Err(NestError::DebtCapExceeded);
    }
    Ok(())
}

pub open spec fn spec_borrow(
    vault: Vault,
    protocol: ProtocolAccounting,
    collateral_value: u128,
    params: CollateralParams,
    amount: u128,
) -> Result<(Vault, ProtocolAccounting), NestError> {
    match spec_can_borrow(collateral_value, vault, params, protocol, amount) {
        Err(e) => Err(e),
        Ok(_) => if vault.principal_debt + amount > u128::MAX || protocol.total_debt + amount
            > u128::MAX {
            Err(NestError::MathOverflow)
        } else {
            Ok(
                (
                    Vault { principal_debt: (vault.principal_debt + amount) as u128, ..vault },
                    ProtocolAccounting {
                        total_debt: (protocol.total_debt + amount) as u128,
                        ..protocol
                    },
                ),
            )
        },
    }
}

/// Adds `borrow_amount` to the vault's principal and the protocol's debt
/// when `can_borrow` allows it.
pub fn borrow(
    vault: &mut Vault,
    protocol: &mut ProtocolAccounting,
    collateral_value_usd: u128,
    params: CollateralParams,
    borrow_amount: u128,
) -> (r: Result<(), NestError>)
    ensures
        match spec_borrow(*old(vault), *old(protocol), collateral_value_usd, params, borrow_amount) {
            Ok((v, p)) => r is Ok && *final(vault) == v && *final(protocol) == p,
            Err(e) => r == Err::<(), NestError>(e) && *final(vault) == *old(vault)
                && *final(protocol) == *old(protocol),
        },
        r is Ok ==> final(vault).debt() <= borrow_limit(collateral_value_usd, params.borrow_ltv_bps)
            && final(vault).debt() <= params.per_vault_debt_cap,
{
    can_borrow(collateral_value_usd, *vault, params, *protocol, borrow_amount)?;
    let principal = checked_add(vault.principal_debt, borrow_amount)?;
    let total = checked_add(protocol.total_debt, borrow_amount)?;
    vault.principal_debt = principal;
    protocol.total_debt = total;
    Ok(())
}

pub open spec fn spec_can_withdraw(collateral_value: u128, vault: Vault, params: CollateralParams) -> Result<
    (),
    NestError,
> {
    if !params.valid() {
        Err(NestError::InvalidParameter)
    } else if params.withdraws_paused {
        Err(NestError::WithdrawPaused)
    } else if vault.debt() > u128::MAX {
        Err(NestError::MathOverflow)
    } else if vault.debt() == 0 {
        Ok(())
    } else if collateral_value * params.borrow_ltv_bps > u128::MAX {
        Err(NestError::MathOverflow)
    } else if vault.debt() > borrow_limit(collateral_value, params.borrow_ltv_bps) {
        Err(NestError::InsufficientCollateral)
    } else {
        Ok(())
    }
}

/// A withdrawal must leave the remaining debt within the borrow limit.
pub fn can_withdraw(collateral_value_usd: u128, vault: Vault, params: CollateralParams) -> (r: Result<
    (),
    NestError,
>)
    ensures
        r == spec_can_withdraw(collateral_value_usd, vault, params),
{
    params.validate()?;
    if params.withdraws_paused {
        return Err(NestError::WithdrawPaused);
    }
    let debt = vault.total_debt()?;
    if debt == 0 {
        return Ok(());
    }
    let limit = mul_div_down(collateral_value_usd, params.borrow_ltv_bps as u128, BPS_DENOMINATOR)?;
    if debt > limit {
        return Err(NestError::InsufficientCollateral);
    }
    Ok(())
}

/// Applies a payment to the accrued fee first, then principal.
pub open spec fn spec_collect_repayment(vault: Vault, protocol: ProtocolAccounting, amount: u128) -> Result<
    (Vault, ProtocolAccounting, RepayOutcome),
    NestError,
> {
    let fee_paid = min_u128(amount, vault.accrued_fee);
    let remaining = (amount - fee_paid) as u128;
    let principal_paid = min_u128(remaining, vault.principal_debt);
    if amount == 0 {
        Err(NestError::InvalidParameter)
    } else if protocol.total_uncollected_fees < fee_paid || protocol.total_debt < fee_paid
        + principal_paid {
        Err(NestError::MathOverflow)
    } else {
        Ok(
            (
                Vault {
                    accrued_fee: (vault.accrued_fee - fee_paid) as u128,
                    principal_debt: (vault.principal_debt - principal_paid) as u128,
                    ..vault
                },
                ProtocolAccounting {
                    total_uncollected_fees: (protocol.total_uncollected_fees - fee_paid) as u128,
                    total_debt: (protocol.total_debt - fee_paid - principal_paid) as u128,
                    ..protocol
                },
                RepayOutcome {
                    fee_paid,
                    principal_paid,
                    bad_debt_repaid: 0,
                    overpayment: (remaining - principal_paid) as u128,
                },
            ),
        )
    }
}

pub fn collect_repayment(vault: &mut Vault, protocol: &mut ProtocolAccounting, amount: u128) -> (r:
    Result<RepayOutcome, NestError>)
    ensures
        match spec_collect_repayment(*old(vault), *old(protocol), amount) {
            Ok((v, p, o)) => r == Ok::<RepayOutcome, NestError>(o) && *final(vault) == v
                && *final(protocol) == p,
            Err(e) => r == Err::<RepayOutcome, NestError>(e) && *final(vault) == *old(vault)
                && *final(protocol) == *old(protocol),
        },
{
    if amount == 0 {
        return Err(NestError::InvalidParameter);
    }
    let fee_paid = if amount <= vault.accrued_fee {
        amount
    } else {
        vault.accrued_fee
    };
    let uncollected = checked_sub(protocol.total_uncollected_fees, fee_paid)?;
    let debt_after_fee = checked_sub(protocol.total_debt, fee_paid)?;
    let remaining = amount - fee_paid;
    let principal_paid = if remaining <= vault.principal_debt {
        remaining
    } else {
        vault.principal_debt
    };
    let total_debt = checked_sub(debt_after_fee, principal_paid)?;
    vault.accrued_fee = vault.accrued_fee - fee_paid;
    vault.principal_debt = vault.principal_debt - principal_paid;
    protocol.total_uncollected_fees = uncollected;
    protocol.total_debt = total_debt;
    Ok(RepayOutcome {
        fee_paid,
        principal_paid,
        bad_debt_repaid: 0,
        overpayment: remaining - principal_paid,
    })
}

/// Burns up to `amount` of recorded bad debt.
pub open spec fn spec_retire_bad_debt(protocol: ProtocolAccounting, amount: u128) -> (
    ProtocolAccounting,
    u128,
) {
    let repaid = min_u128(amount, protocol.bad_debt_nusd);
    (ProtocolAccounting { bad_debt_nusd: (protocol.bad_debt_nusd - repaid) as u128, ..protocol }, repaid)
}

pub fn retire_bad_debt(protocol: &mut ProtocolAccounting, amount: u128) -> (r: u128)
    ensures
        (*final(protocol), r) == spec_retire_bad_debt(*old(protocol), amount),
{
    let repaid = if amount <= protocol.bad_debt_nusd {
        amount
    } else {
        protocol.bad_debt_nusd
    };
    protocol.bad_debt_nusd = protocol.bad_debt_nusd - repaid;
    repaid
}

/// Repayment: fee then principal; the fee retires bad debt first and the
/// rest is routed as revenue.
pub open spec fn spec_repay(vault: Vault, protocol: ProtocolAccounting, amount: u128) -> Result<
    (Vault, ProtocolAccounting, RepayOutcome),
    NestError,
> {
    match spec_collect_repayment(vault, protocol, amount) {
        Err(e) => Err(e),
        Ok((v, p, o)) => {
            let (p2, repaid) = spec_retire_bad_debt(p, o.fee_paid);
            match p2.spec_route_realized_fee((o.fee_paid - repaid) as u128) {
                Err(e) => Err(e),
                Ok(p3) => Ok((v, p3, RepayOutcome { bad_debt_repaid: repaid, ..o })),
            }
        },
    }
}

pub fn repay(vault: &mut Vault, protocol: &mut ProtocolAccounting, amount: u128) -> (r: Result<
    RepayOutcome,
    NestError,
>)
    ensures
        match spec_repay(*old(vault), *old(protocol), amount) {
            Ok((v, p, o)) => r == Ok::<RepayOutcome, NestError>(o) && *final(vault) == v
                && *final(protocol) == p,
            Err(e) => r == Err::<RepayOutcome, NestError>(e) && *final(vault) == *old(vault)
                && *final(protocol) == *old(protocol),
        },
{
    let mut v = *vault;
    let mut p = *protocol;
    let mut outcome = collect_repayment(&mut v, &mut p, amount)?;
    outcome.bad_debt_repaid = retire_bad_debt(&mut p, outcome.fee_paid);
    p.route_realized_fee(outcome.fee_paid - outcome.bad_debt_repaid)?;
    *vault = v;
    *protocol = p;
    Ok(outcome)
}

/// The protocol ledger moves in step with the vault: total debt changes by
/// exactly the change in the vault's debt, uncollected fees by exactly the
/// change in its accrued fee.
pub open spec fn ledger_tracks_vault(
    v0: Vault,
    p0: ProtocolAccounting,
    v1: Vault,
    p1: ProtocolAccounting,
) -> bool {
    &&& p1.total_debt - v1.debt() == p0.total_debt - v0.debt()
    &&& p1.total_uncollected_fees - v1.accrued_fee == p0.total_uncollected_fees - v0.accrued_fee
}

/// Routing realized revenue distributes all of it between the insurance
/// fund and stakers, and never lifts the fund above its target.
pub proof fn lemma_route_realized_fee_splits_exactly(p: ProtocolAccounting, amount: u128)
    requires
        p.spec_route_realized_fee(amount) is Ok,
    ensures
        ({
            let q = p.spec_route_realized_fee(amount)->Ok_0;
            let target = p.spec_insurance_target()->Ok_0;
            &&& (q.insurance_fund_nusd - p.insurance_fund_nusd) + (q.realized_revenue_for_stakers
                - p.realized_revenue_for_stakers) == amount
            &&& q.insurance_fund_nusd >= p.insurance_fund_nusd
            &&& q.realized_revenue_for_stakers >= p.realized_revenue_for_stakers
            &&& p.insurance_fund_nusd <= target ==> q.insurance_fund_nusd <= target
            &&& q.total_debt == p.total_debt && q.bad_debt_nusd == p.bad_debt_nusd
        }),
{
}

/// Accruing the stability fee adds the same fee to the vault and to the
/// ledger's debt and uncollected fees.
pub proof fn lemma_accrual_keeps_ledger(
    vault: Vault,
    protocol: ProtocolAccounting,
    apr_bps: u64,
    now: i64,
)
    requires
        spec_accrue_stability_fee(vault, protocol, apr_bps, now) is Ok,
    ensures
        ({
            let (v, p, fee) = spec_accrue_stability_fee(vault, protocol, apr_bps, now)->Ok_0;
            &&& ledger_tracks_vault(vault, protocol, v, p)
            &&& v.accrued_fee == vault.accrued_fee + fee
            &&& v.principal_debt == vault.principal_debt
            &&& v.collateral_raw == vault.collateral_raw
            &&& (now > vault.last_accrual_ts ==> v.last_accrual_ts == now)
            &&& (now > vault.last_accrual_ts && vault.debt() > 0 && apr_bps > 0 ==> fee >= 1)
        }),
{
}

/// Borrowing adds the amount to the vault's principal and to protocol debt,
/// and the new debt stays within the borrow limit and the vault cap.
pub proof fn lemma_borrow_keeps_ledger_and_limits(
    vault: Vault,
    protocol: ProtocolAccounting,
    collateral_value: u128,
    params: CollateralParams,
    amount: u128,
)
    requires
        spec_borrow(vault, protocol, collateral_value, params, amount) is Ok,
    ensures
        ({
            let (v, p) = spec_borrow(vault, protocol, collateral_value, params, amount)->Ok_0;
            &&& ledger_tracks_vault(vault, protocol, v, p)
            &&& v.debt() == vault.debt() + amount
            &&& v.debt() <= borrow_limit(collateral_value, params.borrow_ltv_bps)
            &&& v.debt() <= params.per_vault_debt_cap
            &&& p.total_debt + p.pending_liquidation_principal + p.pending_liquidation_fees
                <= params.protocol_debt_cap
        }),
{
}

/// Borrowing reaches the borrow limit exactly: with the caps leaving room, a
/// vault below its limit can borrow the whole remaining capacity, ending at
/// the limit, and one unit more than the remaining capacity is refused for
/// insufficient collateral.
pub proof fn lemma_borrow_reaches_limit_exactly(
    vault: Vault,
    protocol: ProtocolAccounting,
    collateral_value: u128,
    params: CollateralParams,
)
    requires
        params.valid(),
        !params.borrows_paused,
        collateral_value * params.borrow_ltv_bps <= u128::MAX,
        vault.debt() <= borrow_limit(collateral_value, params.borrow_ltv_bps),
        params.per_vault_debt_cap >= borrow_limit(collateral_value, params.borrow_ltv_bps),
        protocol.total_debt + protocol.pending_liquidation_principal
            + protocol.pending_liquidation_fees + borrow_limit(
            collateral_value,
            params.borrow_ltv_bps,
        ) - vault.debt() <= params.protocol_debt_cap,
        params.collateral_debt_outstanding + protocol.pending_liquidation_principal
            + protocol.pending_liquidation_fees + borrow_limit(
            collateral_value,
            params.borrow_ltv_bps,
        ) - vault.debt() <= params.collateral_debt_cap,
    ensures
        ({
            let limit = borrow_limit(collateral_value, params.borrow_ltv_bps);
            let room = limit - vault.debt();
            &&& room > 0 ==> {
                let r = spec_borrow(vault, protocol, collateral_value, params, room as u128);
                &&& r is Ok
                &&& r->Ok_0.0.debt() == limit
                &&& r->Ok_0.1.total_debt == protocol.total_debt + room
            }
            &&& spec_can_borrow(collateral_value, vault, params, protocol, (room + 1) as u128)
                == Err::<(), NestError>(NestError::InsufficientCollateral)
        }),
{
    let limit = borrow_limit(collateral_value, params.borrow_ltv_bps);
    assert(limit <= collateral_value * params.borrow_ltv_bps) by (nonlinear_arith)
        requires
            limit == (collateral_value * params.borrow_ltv_bps) / 10_000,
            collateral_value * params.borrow_ltv_bps >= 0,
    ;
}

/// A borrow that is allowed respects every limit: the amount is positive and
/// borrowing is open, the vault's new debt is within the loan-to-value share
/// of its collateral's value and within the per-vault cap, and the protocol's
/// debt and the market's outstanding debt, each with pending liquidation debt
/// and the new amount, stay within their caps.
pub proof fn lemma_can_borrow_respects_every_cap(
    collateral_value: u128,
    vault: Vault,
    params: CollateralParams,
    protocol: ProtocolAccounting,
    amount: u128,
)
    requires
        spec_can_borrow(collateral_value, vault, params, protocol, amount) is Ok,
    ensures
        amount > 0,
        !params.borrows_paused,
        (vault.principal_debt + vault.accrued_fee + amount) * 10_000 <= collateral_value
            * params.borrow_ltv_bps + 9_999,
        vault.principal_debt + vault.accrued_fee + amount <= params.per_vault_debt_cap,
        protocol.total_debt + protocol.pending_liquidation_principal
            + protocol.pending_liquidation_fees + amount <= params.protocol_debt_cap,
        params.collateral_debt_outstanding + protocol.pending_liquidation_principal
            + protocol.pending_liquidation_fees + amount <= params.collateral_debt_cap,
{
    let limit = borrow_limit(collateral_value, params.borrow_ltv_bps);
    assert(limit * 10_000 <= collateral_value * params.borrow_ltv_bps) by (nonlinear_arith)
        requires
            limit == (collateral_value * params.borrow_ltv_bps) / 10_000,
            collateral_value * params.borrow_ltv_bps >= 0,
    ;
}

/// Repayment pays the fee before principal, returns the excess, retires bad
/// debt from the fee, and routes the rest of the fee as revenue.
pub proof fn lemma_repay_accounting(vault: Vault, protocol: ProtocolAccounting, amount: u128)
    requires
        spec_repay(vault, protocol, amount) is Ok,
    ensures
        ({
            let (v, p, o) = spec_repay(vault, protocol, amount)->Ok_0;
            &&& ledger_tracks_vault(vault, protocol, v, p)
            &&& o.fee_paid + o.principal_paid + o.overpayment == amount
            &&& v.accrued_fee == vault.accrued_fee - o.fee_paid
            &&& v.principal_debt == vault.principal_debt - o.principal_paid
            &&& (o.principal_paid > 0 ==> v.accrued_fee == 0)
            &&& (o.overpayment > 0 ==> v.debt() == 0)
            &&& p.bad_debt_nusd == protocol.bad_debt_nusd - o.bad_debt_repaid
            &&& o.bad_debt_repaid <= o.fee_paid
            &&& (p.insurance_fund_nusd - protocol.insurance_fund_nusd) + (
            p.realized_revenue_for_stakers - protocol.realized_revenue_for_stakers) == o.fee_paid
                - o.bad_debt_repaid
        }),
{
    let (v1, p1, o1) = spec_collect_repayment(vault, protocol, amount)->Ok_0;
    let (p2, repaid) = spec_retire_bad_debt(p1, o1.fee_paid);
    lemma_route_realized_fee_splits_exactly(p2, (o1.fee_paid - repaid) as u128);
}

/// Repaying, before any fee accrues, exactly what was just borrowed returns
/// the vault and the protocol's debt to where they were.
pub proof fn lemma_repay_undoes_borrow(
    vault: Vault,
    protocol: ProtocolAccounting,
    collateral_value: u128,
    params: CollateralParams,
    amount: u128,
)
    requires
        vault.accrued_fee == 0,
        spec_borrow(vault, protocol, collateral_value, params, amount) is Ok,
        (protocol.total_debt + amount) * protocol.insurance_target_bps <= u128::MAX,
    ensures
        ({
            let (v1, p1) = spec_borrow(vault, protocol, collateral_value, params, amount)->Ok_0;
            let r = spec_repay(v1, p1, amount);
            &&& r is Ok
            &&& r->Ok_0.0 == vault
            &&& r->Ok_0.1.total_debt == protocol.total_debt
            &&& r->Ok_0.1.total_uncollected_fees == protocol.total_uncollected_fees
            &&& r->Ok_0.1.bad_debt_nusd == protocol.bad_debt_nusd
            &&& r->Ok_0.2.principal_paid == amount && r->Ok_0.2.fee_paid == 0
            &&& r->Ok_0.2.overpayment == 0
        }),
{
    let (v1, p1) = spec_borrow(vault, protocol, collateral_value, params, amount)->Ok_0;
    assert(spec_can_borrow(collateral_value, vault, params, protocol, amount) is Ok);
    let (v2, p2, o) = spec_collect_repayment(v1, p1, amount)->Ok_0;
    assert(o.fee_paid == 0);
    let (p3, repaid) = spec_retire_bad_debt(p2, 0);
    assert(repaid == 0);
    assert(p3.total_debt == p1.total_debt - amount);
    let target = p3.spec_insurance_target();
    assert(p3.total_debt * p3.insurance_target_bps <= u128::MAX) by (nonlinear_arith)
        requires
            p3.total_debt <= protocol.total_debt + amount,
            (protocol.total_debt + amount) * p3.insurance_target_bps <= u128::MAX,
    ;
    assert(0 * p3.insurance_fee_share_bps == 0);
    assert(insurance_share(p3, target->Ok_0 as int, 0) == 0);
    assert(v2 == vault);
}

} // verus!
