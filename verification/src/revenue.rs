use vstd::prelude::*;

use crate::accounts::Protocol;
use crate::constants::SECONDS_PER_YEAR;
use crate::core_error::{core_error_of, map_core_error, CoreError};
use crate::ledger::{accounting_of, domain_protocol, u128_to_u64};
use crate::math::min_u128;
use crate::psm_ledger::{require_psm_accounting_invariants, spec_psm_accounting_invariants};

verus! {

/// Revenue owed to stakers at the target APR on `staking_assets` over
/// `elapsed` seconds, rounded down.
pub open spec fn target_accrual(staking_assets: u128, apr_bps: u64, elapsed: int) -> int {
    ((staking_assets * apr_bps * elapsed) / 10_000) / 31_536_000
}

/// Accrues the staker target revenue owed since the last checkpoint on the
/// given staking balance; the first checkpoint only starts the clock.
pub open spec fn spec_sync_staker_target_revenue(p: Protocol, staking_assets: u128, now: i64) -> Result<
    Protocol,
    CoreError,
> {
    let last = p.staker_target_last_accrual_ts;
    if now < 0 {
        Err(CoreError::InvalidParameter)
    } else if last == 0 {
        Ok(Protocol { staker_target_last_accrual_ts: now, ..p })
    } else if last < 0 {
        Err(CoreError::InvalidParameter)
    } else if now <= last {
        Ok(p)
    } else if staking_assets == 0 || p.staker_target_apr_bps == 0 {
        Ok(Protocol { staker_target_last_accrual_ts: now, ..p })
    } else if staking_assets * p.staker_target_apr_bps > u128::MAX || staking_assets
        * p.staker_target_apr_bps * (now - last) > u128::MAX || p.staker_target_revenue_due
        + target_accrual(staking_assets, p.staker_target_apr_bps, now - last) > u128::MAX {
        Err(CoreError::MathOverflow)
    } else {
        Ok(
            Protocol {
                staker_target_last_accrual_ts: now,
                staker_target_revenue_due: (p.staker_target_revenue_due + target_accrual(
                    staking_assets,
                    p.staker_target_apr_bps,
                    now - last,
                )) as u128,
                ..p
            },
        )
    }
}

pub fn sync_staker_target_revenue(protocol: &mut Protocol, staking_assets: u128, now: i64) -> (r:
    Result<(), CoreError>)
    ensures
        match spec_sync_staker_target_revenue(*old(protocol), staking_assets, now) {
            Ok(p) => r is Ok && *final(protocol) == p,
            Err(e) => r == Err::<(), CoreError>(e) && *final(protocol) == *old(protocol),
        },
{
    if now < 0 {
        return Err(CoreError::InvalidParameter);
    }
    let last = protocol.staker_target_last_accrual_ts;
    if last == 0 {
        protocol.staker_target_last_accrual_ts = now;
        return Ok(());
    }
    if last < 0 {
        return Err(CoreError::InvalidParameter);
    }
    if now <= last {
        return Ok(());
    }
    let elapsed = (now - last) as u128;
    if staking_assets == 0 || protocol.staker_target_apr_bps == 0 {
        protocol.staker_target_last_accrual_ts = now;
        return Ok(());
    }
    let rate = match staking_assets.checked_mul(protocol.staker_target_apr_bps as u128) {
        Some(v) => v,
        None => {
            return Err(CoreError::MathOverflow);
        },
    };
    let scaled = match rate.checked_mul(elapsed) {
        Some(v) => v,
        None => {
            return Err(CoreError::MathOverflow);
        },
    };
    let accrued = scaled / 10_000 / SECONDS_PER_YEAR;
    let due = match protocol.staker_target_revenue_due.checked_add(accrued) {
        Some(v) => v,
        None => {
            return Err(CoreError::MathOverflow);
        },
    };
    protocol.staker_target_last_accrual_ts = now;
    protocol.staker_target_revenue_due = due;
    Ok(())
}

/// Splits `raw_staker_revenue` between stakers, up to the target revenue
/// owed to them, and the protocol, which takes the rest; without a target
/// APR stakers take it all. Returns the state and the two parts.
pub open spec fn spec_route_targeted_staker_revenue(
    p: Protocol,
    staking_assets: u128,
    now: i64,
    raw_staker_revenue: u128,
) -> Result<(Protocol, u128, u128), CoreError> {
    if p.staker_target_apr_bps == 0 {
        if p.realized_revenue_for_stakers + raw_staker_revenue > u128::MAX {
            Err(CoreError::MathOverflow)
        } else {
            Ok(
                (
                    Protocol {
                        realized_revenue_for_stakers: (p.realized_revenue_for_stakers
                            + raw_staker_revenue) as u128,
                        ..p
                    },
                    raw_staker_revenue,
                    0,
                ),
            )
        }
    } else {
        match spec_sync_staker_target_revenue(p, staking_assets, now) {
            Err(e) => Err(e),
            Ok(q) => {
                let stakers = min_u128(raw_staker_revenue, q.staker_target_revenue_due);
                let surplus = (raw_staker_revenue - stakers) as u128;
                if q.realized_revenue_for_stakers + stakers > u128::MAX
                    || q.realized_revenue_for_protocol + surplus > u128::MAX {
                    Err(CoreError::MathOverflow)
                } else {
                    Ok(
                        (
                            Protocol {
                                staker_target_revenue_due: (q.staker_target_revenue_due
                                    - stakers) as u128,
                                realized_revenue_for_stakers: (q.realized_revenue_for_stakers
                                    + stakers) as u128,
                                realized_revenue_for_protocol: (q.realized_revenue_for_protocol
                                    + surplus) as u128,
                                ..q
                            },
                            stakers,
                            surplus,
                        ),
                    )
                }
            },
        }
    }
}

pub fn route_targeted_staker_revenue(
    protocol: &mut Protocol,
    staking_assets: u128,
    now: i64,
    raw_staker_revenue: u128,
) -> (r: Result<(u128, u128), CoreError>)
    ensures
        match spec_route_targeted_staker_revenue(*old(protocol), staking_assets, now, raw_staker_revenue) {
            Ok((p, s, x)) => r == Ok::<(u128, u128), CoreError>((s, x)) && *final(protocol) == p,
            Err(e) => r == Err::<(u128, u128), CoreError>(e) && *final(protocol) == *old(protocol),
        },
{
    if protocol.staker_target_apr_bps == 0 {
        let realized = match protocol.realized_revenue_for_stakers.checked_add(raw_staker_revenue) {
            Some(v) => v,
            None => {
                return Err(CoreError::MathOverflow);
            },
        };
        protocol.realized_revenue_for_stakers = realized;
        return Ok((raw_staker_revenue, 0));
    }
    let mut q = *protocol;
    sync_staker_target_revenue(&mut q, staking_assets, now)?;
    let stakers = if raw_staker_revenue <= q.staker_target_revenue_due {
        raw_staker_revenue
    } else {
        q.staker_target_revenue_due
    };
    let surplus = raw_staker_revenue - stakers;
    let realized = match q.realized_revenue_for_stakers.checked_add(stakers) {
        Some(v) => v,
        None => {
            return Err(CoreError::MathOverflow);
        },
    };
    let realized_protocol = match q.realized_revenue_for_protocol.checked_add(surplus) {
        Some(v) => v,
        None => {
            return Err(CoreError::MathOverflow);
        },
    };
    q.staker_target_revenue_due = q.staker_target_revenue_due - stakers;
    q.realized_revenue_for_stakers = realized;
    q.realized_revenue_for_protocol = realized_protocol;
    *protocol = q;
    Ok((stakers, surplus))
}

/// Targeted routing hands every unit of revenue to exactly one of stakers
/// and protocol, and stakers never receive more than they are owed.
pub proof fn lemma_targeted_routing_splits_exactly(
    p: Protocol,
    staking_assets: u128,
    now: i64,
    raw_staker_revenue: u128,
)
    requires
        spec_route_targeted_staker_revenue(p, staking_assets, now, raw_staker_revenue) is Ok,
    ensures
        ({
            let (q, stakers, surplus) = spec_route_targeted_staker_revenue(
                p,
                staking_assets,
                now,
                raw_staker_revenue,
            )->Ok_0;
            &&& stakers + surplus == raw_staker_revenue
            &&& q.realized_revenue_for_stakers == p.realized_revenue_for_stakers + stakers
            &&& q.realized_revenue_for_protocol == p.realized_revenue_for_protocol + surplus
            &&& (p.staker_target_apr_bps != 0 ==> stakers <= spec_sync_staker_target_revenue(
                p,
                staking_assets,
                now,
            )->Ok_0.staker_target_revenue_due)
        }),
{
}

/// How deposited protocol revenue was split.
#[derive(Debug, Clone, Copy, PartialEq, Eq)]
pub struct ProtocolRevenueAllocation {
    pub bad_debt_repaid: u128,
    pub insurance: u128,
    pub stakers: u128,
    pub protocol: u128,
}

/// Deposited revenue first retires bad debt; the rest goes through the
/// insurance fund share, then to stakers up to their target, and the
/// surplus to the protocol.
pub open spec fn spec_apply_protocol_revenue_accounting(
    p: Protocol,
    staking_assets: u128,
    now: i64,
    amount: u128,
) -> Result<(Protocol, ProtocolRevenueAllocation), CoreError> {
    if amount == 0 {
        Err(CoreError::InvalidParameter)
    } else if !p.staker_revenue_accounting_initialized {
        Err(CoreError::StakerRevenueAccountingNotInitialized)
    } else {
        let repaid = min_u128(amount, p.bad_debt_nusd);
        let rest = (amount - repaid) as u128;
        let p1 = Protocol { bad_debt_nusd: (p.bad_debt_nusd - repaid) as u128, ..p };
        if rest == 0 {
            Ok(
                (
                    p1,
                    ProtocolRevenueAllocation {
                        bad_debt_repaid: repaid,
                        insurance: 0,
                        stakers: 0,
                        protocol: 0,
                    },
                ),
            )
        } else {
            match accounting_of(p1).spec_route_realized_fee(rest) {
                Err(e) => Err(core_error_of(e)),
                Ok(a) => {
                    let insurance = (a.insurance_fund_nusd - p1.insurance_fund_nusd) as u128;
                    let raw = (a.realized_revenue_for_stakers
                        - p1.realized_revenue_for_stakers) as u128;
                    let p2 = Protocol { insurance_fund_nusd: a.insurance_fund_nusd, ..p1 };
                    match spec_route_targeted_staker_revenue(p2, staking_assets, now, raw) {
                        Err(e) => Err(e),
                        Ok((p3, stakers, surplus)) => Ok(
                            (
                                p3,
                                ProtocolRevenueAllocation {
                                    bad_debt_repaid: repaid,
                                    insurance,
                                    stakers,
                                    protocol: surplus,
                                },
                            ),
                        ),
                    }
                },
            }
        }
    }
}

pub fn apply_protocol_revenue_accounting(
    protocol: &mut Protocol,
    staking_assets: u128,
    now: i64,
    amount: u128,
) -> (r: Result<ProtocolRevenueAllocation, CoreError>)
    ensures
        match spec_apply_protocol_revenue_accounting(*old(protocol), staking_assets, now, amount) {
            Ok((p, a)) => r == Ok::<ProtocolRevenueAllocation, CoreError>(a) && *final(protocol)
                == p,
            Err(e) => r == Err::<ProtocolRevenueAllocation, CoreError>(e) && *final(protocol)
                == *old(protocol),
        },
{
    if amount == 0 {
        return Err(CoreError::InvalidParameter);
    }
    if !protocol.staker_revenue_accounting_initialized {
        return Err(CoreError::StakerRevenueAccountingNotInitialized);
    }
    let repaid = if amount <= protocol.bad_debt_nusd {
        amount
    } else {
        protocol.bad_debt_nusd
    };
    let rest = amount - repaid;
    let mut q = *protocol;
    q.bad_debt_nusd = q.bad_debt_nusd - repaid;
    if rest == 0 {
        *protocol = q;
        return Ok(
            ProtocolRevenueAllocation { bad_debt_repaid: repaid, insurance: 0, stakers: 0, protocol: 0 },
        );
    }
    let mut accounting = domain_protocol(&q);
    match accounting.route_realized_fee(rest) {
        Ok(()) => {},
        Err(e) => {
            return Err(map_core_error(e));
        },
    }
    proof {
        crate::cdp::lemma_route_realized_fee_splits_exactly(accounting_of(q), rest);
    }
    let insurance = accounting.insurance_fund_nusd - q.insurance_fund_nusd;
    let raw = accounting.realized_revenue_for_stakers - q.realized_revenue_for_stakers;
    q.insurance_fund_nusd = accounting.insurance_fund_nusd;
    let (stakers, surplus) = route_targeted_staker_revenue(&mut q, staking_assets, now, raw)?;
    *protocol = q;
    Ok(ProtocolRevenueAllocation { bad_debt_repaid: repaid, insurance, stakers, protocol: surplus })
}

/// Deposited protocol revenue is allocated in full: bad debt retired,
/// insurance, stakers and protocol surplus add up to the deposit, and each
/// part is booked in the ledger.
pub proof fn lemma_protocol_revenue_allocated_exactly(
    p: Protocol,
    staking_assets: u128,
    now: i64,
    amount: u128,
)
    requires
        spec_apply_protocol_revenue_accounting(p, staking_assets, now, amount) is Ok,
    ensures
        ({
            let (q, a) = spec_apply_protocol_revenue_accounting(p, staking_assets, now, amount)->Ok_0;
            &&& a.bad_debt_repaid + a.insurance + a.stakers + a.protocol == amount
            &&& q.bad_debt_nusd == p.bad_debt_nusd - a.bad_debt_repaid
            &&& a.bad_debt_repaid == min_u128(amount, p.bad_debt_nusd)
            &&& q.insurance_fund_nusd == p.insurance_fund_nusd + a.insurance
            &&& q.realized_revenue_for_stakers == p.realized_revenue_for_stakers + a.stakers
            &&& q.realized_revenue_for_protocol == p.realized_revenue_for_protocol + a.protocol
            &&& q.paused == p.paused
        }),
{
    let repaid = min_u128(amount, p.bad_debt_nusd);
    let rest = (amount - repaid) as u128;
    let p1 = Protocol { bad_debt_nusd: (p.bad_debt_nusd - repaid) as u128, ..p };
    if rest != 0 {
        crate::cdp::lemma_route_realized_fee_splits_exactly(accounting_of(p1), rest);
        let a = accounting_of(p1).spec_route_realized_fee(rest)->Ok_0;
        let raw = (a.realized_revenue_for_stakers - p1.realized_revenue_for_stakers) as u128;
        let p2 = Protocol { insurance_fund_nusd: a.insurance_fund_nusd, ..p1 };
        lemma_targeted_routing_splits_exactly(p2, staking_assets, now, raw);
    }
}

/// The staker revenue vault covers the outstanding staker revenue, or,
/// before that ledger was reconciled, at least the newly routed revenue.
pub open spec fn staker_revenue_covered(p: Protocol, vault_balance: u64, newly_routed: u128) -> bool {
    if p.staker_revenue_accounting_initialized {
        vault_balance >= p.realized_revenue_for_stakers
    } else {
        vault_balance >= newly_routed
    }
}

pub fn require_staker_revenue_covered(
    protocol: &Protocol,
    staker_revenue_vault_balance: u64,
    newly_routed_revenue: u128,
) -> (r: Result<(), CoreError>)
    ensures
        r == (if staker_revenue_covered(*protocol, staker_revenue_vault_balance, newly_routed_revenue) {
            Ok(())
        } else {
            Err(CoreError::InvalidParameter)
        }),
{
    let needed = if protocol.staker_revenue_accounting_initialized {
        protocol.realized_revenue_for_stakers
    } else {
        newly_routed_revenue
    };
    if (staker_revenue_vault_balance as u128) < needed {
        Err(CoreError::InvalidParameter)
    } else {
        Ok(())
    }
}

/// Stakers harvested `amount` of their routed revenue.
pub fn record_staker_revenue_consumption(protocol: &mut Protocol, amount: u128) -> (r: Result<
    (),
    CoreError,
>)
    ensures
        r == (if amount == 0 {
            Err(CoreError::InvalidParameter)
        } else if !old(protocol).staker_revenue_accounting_initialized {
            Err(CoreError::StakerRevenueAccountingNotInitialized)
        } else if amount > old(protocol).realized_revenue_for_stakers {
            Err(CoreError::InvalidParameter)
        } else {
            Ok(())
        }),
        r is Ok ==> *final(protocol) == (Protocol {
            realized_revenue_for_stakers: (old(protocol).realized_revenue_for_stakers
                - amount) as u128,
            ..*old(protocol)
        }),
        r is Err ==> *final(protocol) == *old(protocol),
{
    if amount == 0 {
        return Err(CoreError::InvalidParameter);
    }
    if !protocol.staker_revenue_accounting_initialized {
        return Err(CoreError::StakerRevenueAccountingNotInitialized);
    }
    if amount > protocol.realized_revenue_for_stakers {
        return Err(CoreError::InvalidParameter);
    }
    protocol.realized_revenue_for_stakers = protocol.realized_revenue_for_stakers - amount;
    Ok(())
}

/// A staking-pool loss of `amount` retires the same amount of recorded bad
/// debt, and no more than is recorded.
pub fn record_staking_loss_absorption(protocol: &mut Protocol, amount: u128) -> (r: Result<
    (),
    CoreError,
>)
    ensures
        r == (if amount == 0 || amount > old(protocol).bad_debt_nusd {
            Err(CoreError::InvalidParameter)
        } else {
            Ok(())
        }),
        r is Ok ==> *final(protocol) == (Protocol {
            bad_debt_nusd: (old(protocol).bad_debt_nusd - amount) as u128,
            ..*old(protocol)
        }),
        r is Err ==> *final(protocol) == *old(protocol),
{
    if amount == 0 {
        return Err(CoreError::InvalidParameter);
    }
    let mut accounting = domain_protocol(protocol);
    match accounting.cover_bad_debt(amount) {
        Ok(()) => {},
        Err(e) => {
            return Err(map_core_error(e));
        },
    }
    protocol.bad_debt_nusd = accounting.bad_debt_nusd;
    Ok(())
}

/// One-time reconciliation of the staker revenue ledger while paused: the
/// outstanding revenue must be covered by the vault.
pub fn initialize_staker_revenue_accounting_state(
    protocol: &mut Protocol,
    outstanding_revenue: u128,
    staker_revenue_vault_balance: u128,
) -> (r: Result<(), CoreError>)
    ensures
        r == (if !old(protocol).paused {
            Err(CoreError::ProtocolMustBePaused)
        } else if old(protocol).staker_revenue_accounting_initialized {
            Err(CoreError::StakerRevenueAccountingAlreadyInitialized)
        } else if outstanding_revenue > staker_revenue_vault_balance {
            Err(CoreError::InvalidParameter)
        } else {
            Ok(())
        }),
        r is Ok ==> *final(protocol) == (Protocol {
            realized_revenue_for_stakers: outstanding_revenue,
            staker_revenue_accounting_initialized: true,
            ..*old(protocol)
        }),
        r is Err ==> *final(protocol) == *old(protocol),
{
    if !protocol.paused {
        return Err(CoreError::ProtocolMustBePaused);
    }
    if protocol.staker_revenue_accounting_initialized {
        return Err(CoreError::StakerRevenueAccountingAlreadyInitialized);
    }
    if outstanding_revenue > staker_revenue_vault_balance {
        return Err(CoreError::InvalidParameter);
    }
    protocol.realized_revenue_for_stakers = outstanding_revenue;
    protocol.staker_revenue_accounting_initialized = true;
    Ok(())
}

/// Books USDC that arrived in the PSM vault above recorded idle liquidity as
/// yield: nUSD backed by it is issued, split between the insurance fund,
/// stakers up to their target and the protocol. Returns the state and the
/// insurance, staker, protocol and total amounts.
pub open spec fn spec_apply_realized_psm_yield_accounting(
    p: Protocol,
    actual_psm_usdc: u64,
    amount: u64,
    staking_assets: u128,
    now: i64,
    enforce_psm_cap: bool,
    enforce_protocol_open: bool,
) -> Result<(Protocol, (u64, u64, u64, u64)), CoreError> {
    if amount == 0 {
        Err(CoreError::InvalidParameter)
    } else if enforce_protocol_open && p.paused {
        Err(CoreError::Paused)
    } else if p.bad_debt_nusd != 0 {
        Err(CoreError::BadDebtOutstanding)
    } else if p.psm_idle_usdc + amount > u128::MAX {
        Err(CoreError::MathOverflow)
    } else if actual_psm_usdc < p.psm_idle_usdc + amount {
        Err(CoreError::PsmNoSurplus)
    } else if p.psm_usdc_liabilities + amount > u128::MAX {
        Err(CoreError::MathOverflow)
    } else if enforce_psm_cap && p.psm_usdc_liabilities + amount > p.psm_cap {
        Err(CoreError::PsmCapExceeded)
    } else {
        match accounting_of(p).spec_route_realized_fee(amount as u128) {
            Err(e) => Err(core_error_of(e)),
            Ok(a) => {
                let insurance = (a.insurance_fund_nusd - p.insurance_fund_nusd) as u128;
                let raw = (a.realized_revenue_for_stakers - p.realized_revenue_for_stakers) as u128;
                if p.psm_nusd_supply + amount > u128::MAX {
                    Err(CoreError::MathOverflow)
                } else {
                    let p2 = Protocol {
                        insurance_fund_nusd: a.insurance_fund_nusd,
                        psm_usdc_liabilities: (p.psm_usdc_liabilities + amount) as u128,
                        psm_nusd_supply: (p.psm_nusd_supply + amount) as u128,
                        psm_idle_usdc: (p.psm_idle_usdc + amount) as u128,
                        ..p
                    };
                    match spec_route_targeted_staker_revenue(p2, staking_assets, now, raw) {
                        Err(e) => Err(e),
                        Ok((p3, stakers, surplus)) => match spec_psm_accounting_invariants(
                            p3,
                            actual_psm_usdc,
                        ) {
                            Err(e) => Err(e),
                            Ok(_) => Ok(
                                (p3, (insurance as u64, stakers as u64, surplus as u64, amount)),
                            ),
                        },
                    }
                }
            },
        }
    }
}

pub fn apply_realized_psm_yield_accounting(
    protocol: &mut Protocol,
    actual_psm_usdc: u64,
    amount: u64,
    staking_assets: u128,
    now: i64,
    enforce_psm_cap: bool,
    enforce_protocol_open: bool,
) -> (r: Result<(u64, u64, u64, u64), CoreError>)
    ensures
        match spec_apply_realized_psm_yield_accounting(
            *old(protocol),
            actual_psm_usdc,
            amount,
            staking_assets,
            now,
            enforce_psm_cap,
            enforce_protocol_open,
        ) {
            Ok((p, parts)) => r == Ok::<(u64, u64, u64, u64), CoreError>(parts) && *final(protocol)
                == p,
            Err(e) => r == Err::<(u64, u64, u64, u64), CoreError>(e) && *final(protocol)
                == *old(protocol),
        },
{
    if amount == 0 {
        return Err(CoreError::InvalidParameter);
    }
    if enforce_protocol_open && protocol.paused {
        return Err(CoreError::Paused);
    }
    if protocol.bad_debt_nusd != 0 {
        return Err(CoreError::BadDebtOutstanding);
    }
    let amount_u128 = amount as u128;
    let new_idle = match protocol.psm_idle_usdc.checked_add(amount_u128) {
        Some(v) => v,
        None => {
            return Err(CoreError::MathOverflow);
        },
    };
    if (actual_psm_usdc as u128) < new_idle {
        return Err(CoreError::PsmNoSurplus);
    }
    let new_liabilities = match protocol.psm_usdc_liabilities.checked_add(amount_u128) {
        Some(v) => v,
        None => {
            return Err(CoreError::MathOverflow);
        },
    };
    if enforce_psm_cap && new_liabilities > protocol.psm_cap {
        return Err(CoreError::PsmCapExceeded);
    }
    let mut accounting = domain_protocol(protocol);
    match accounting.route_realized_fee(amount_u128) {
        Ok(()) => {},
        Err(e) => {
            return Err(map_core_error(e));
        },
    }
    proof {
        crate::cdp::lemma_route_realized_fee_splits_exactly(accounting_of(*protocol), amount_u128);
    }
    let insurance = accounting.insurance_fund_nusd - protocol.insurance_fund_nusd;
    let raw = accounting.realized_revenue_for_stakers - protocol.realized_revenue_for_stakers;
    let new_supply = match protocol.psm_nusd_supply.checked_add(amount_u128) {
        Some(v) => v,
        None => {
            return Err(CoreError::MathOverflow);
        },
    };
    let mut q = *protocol;
    q.insurance_fund_nusd = accounting.insurance_fund_nusd;
    q.psm_usdc_liabilities = new_liabilities;
    q.psm_nusd_supply = new_supply;
    q.psm_idle_usdc = new_idle;
    let (stakers, surplus) = route_targeted_staker_revenue(&mut q, staking_assets, now, raw)?;
    require_psm_accounting_invariants(&q, actual_psm_usdc)?;
    let insurance_u64 = u128_to_u64(insurance)?;
    let stakers_u64 = u128_to_u64(stakers)?;
    let surplus_u64 = u128_to_u64(surplus)?;
    *protocol = q;
    Ok((insurance_u64, stakers_u64, surplus_u64, amount))
}

/// Realized PSM yield is issued in full: the insurance, staker and protocol
/// parts add up to the amount, which is the nUSD minted and the USDC that
/// joins PSM liabilities and idle liquidity.
pub proof fn lemma_psm_yield_issued_exactly(
    p: Protocol,
    actual_psm_usdc: u64,
    amount: u64,
    staking_assets: u128,
    now: i64,
    enforce_psm_cap: bool,
    enforce_protocol_open: bool,
)
    requires
        spec_apply_realized_psm_yield_accounting(
            p,
            actual_psm_usdc,
            amount,
            staking_assets,
            now,
            enforce_psm_cap,
            enforce_protocol_open,
        ) is Ok,
    ensures
        ({
            let (q, parts) = spec_apply_realized_psm_yield_accounting(
                p,
                actual_psm_usdc,
                amount,
                staking_assets,
                now,
                enforce_psm_cap,
                enforce_protocol_open,
            )->Ok_0;
            &&& parts.0 + parts.1 + parts.2 == amount
            &&& parts.3 == amount
            &&& q.psm_usdc_liabilities == p.psm_usdc_liabilities + amount
            &&& q.psm_nusd_supply == p.psm_nusd_supply + amount
            &&& q.psm_idle_usdc == p.psm_idle_usdc + amount
            &&& q.insurance_fund_nusd == p.insurance_fund_nusd + parts.0
            &&& spec_psm_accounting_invariants(q, actual_psm_usdc) is Ok
        }),
{
    crate::cdp::lemma_route_realized_fee_splits_exactly(accounting_of(p), amount as u128);
    let a = accounting_of(p).spec_route_realized_fee(amount as u128)->Ok_0;
    let raw = (a.realized_revenue_for_stakers - p.realized_revenue_for_stakers) as u128;
    let p2 = Protocol {
        insurance_fund_nusd: a.insurance_fund_nusd,
        psm_usdc_liabilities: (p.psm_usdc_liabilities + amount) as u128,
        psm_nusd_supply: (p.psm_nusd_supply + amount) as u128,
        psm_idle_usdc: (p.psm_idle_usdc + amount) as u128,
        ..p
    };
    lemma_targeted_routing_splits_exactly(p2, staking_assets, now, raw);
}

} // verus!
