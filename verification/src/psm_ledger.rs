use vstd::prelude::*;

use crate::accounts::Protocol;
use crate::core_error::{core_error_of, map_core_error, CoreError};
use crate::math::min_u128;
use crate::psm::{
    account_kamino_principal_redemption, spec_account_kamino_principal_redemption,
    KaminoPrincipalRedemption,
};

verus! {

/// Share of PSM USDC that should sit in Kamino.
pub const PSM_KAMINO_TARGET_BPS: u128 = 9_000;
pub const PSM_KAMINO_BPS_DENOMINATOR: u128 = 10_000;
/// Longest PSM outflow window, seven days.
pub const MAX_PSM_OUTFLOW_WINDOW_SECONDS: i64 = 604_800;

/// Kamino deployment target for the PSM's USDC: 90% of idle plus deployed.
pub open spec fn spec_psm_kamino_target_deployed(idle_usdc: u128, deployed_usdc: u128) -> Result<
    u128,
    CoreError,
> {
    let total = idle_usdc + deployed_usdc;
    if total > u128::MAX || total * 9_000 > u128::MAX {
        Err(CoreError::MathOverflow)
    } else {
        Ok(((total * 9_000) / 10_000) as u128)
    }
}

pub fn psm_kamino_target_deployed(idle_usdc: u128, deployed_usdc: u128) -> (r: Result<
    u128,
    CoreError,
>)
    ensures
        r == spec_psm_kamino_target_deployed(idle_usdc, deployed_usdc),
{
    let total = match idle_usdc.checked_add(deployed_usdc) {
        Some(t) => t,
        None => {
            return Err(CoreError::MathOverflow);
        },
    };
    let scaled = match total.checked_mul(PSM_KAMINO_TARGET_BPS) {
        Some(s) => s,
        None => {
            return Err(CoreError::MathOverflow);
        },
    };
    Ok(scaled / PSM_KAMINO_BPS_DENOMINATOR)
}

/// Moving idle USDC up to the Kamino target never takes more than the idle
/// balance, and leaves at most a tenth of the PSM's USDC (plus one unit of
/// rounding) idle; so users never need a Kamino withdrawal to reach it.
pub proof fn lemma_kamino_target_within_idle(idle_usdc: u128, deployed_usdc: u128)
    requires
        spec_psm_kamino_target_deployed(idle_usdc, deployed_usdc) is Ok,
    ensures
        ({
            let target = spec_psm_kamino_target_deployed(idle_usdc, deployed_usdc)->Ok_0;
            let total = idle_usdc + deployed_usdc;
            &&& target <= total
            &&& deployed_usdc < target ==> target - deployed_usdc <= idle_usdc
            &&& deployed_usdc < target ==> idle_usdc - (target - deployed_usdc) <= total / 10 + 1
        }),
{
    let total = idle_usdc + deployed_usdc;
    let target = (total * 9_000) / 10_000;
    assert(target <= total && total - target <= total / 10 + 1) by (nonlinear_arith)
        requires
            total >= 0,
            target == (total * 9_000) / 10_000,
    ;
}

/// What the PSM books must satisfy: nUSD issued by the PSM equals its USDC
/// liabilities, tracked assets do not exceed the liabilities, and the vault
/// holds at least the recorded idle USDC.
pub open spec fn spec_psm_accounting_invariants(p: Protocol, actual_psm_usdc: u64) -> Result<
    (),
    CoreError,
> {
    if p.psm_usdc_liabilities != p.psm_nusd_supply {
        Err(CoreError::InvalidParameter)
    } else if p.psm_idle_usdc + p.psm_kamino_deployed_usdc > u128::MAX {
        Err(CoreError::MathOverflow)
    } else if p.psm_idle_usdc + p.psm_kamino_deployed_usdc > p.psm_usdc_liabilities {
        Err(CoreError::InvalidParameter)
    } else if (actual_psm_usdc as u128) < p.psm_idle_usdc {
        Err(CoreError::InvalidParameter)
    } else {
        Ok(())
    }
}

pub fn require_psm_accounting_invariants(protocol: &Protocol, actual_psm_usdc: u64) -> (r: Result<
    (),
    CoreError,
>)
    ensures
        r == spec_psm_accounting_invariants(*protocol, actual_psm_usdc),
{
    if protocol.psm_usdc_liabilities != protocol.psm_nusd_supply {
        return Err(CoreError::InvalidParameter);
    }
    let tracked_assets = match protocol.psm_idle_usdc.checked_add(protocol.psm_kamino_deployed_usdc) {
        Some(t) => t,
        None => {
            return Err(CoreError::MathOverflow);
        },
    };
    if tracked_assets > protocol.psm_usdc_liabilities {
        return Err(CoreError::InvalidParameter);
    }
    if (actual_psm_usdc as u128) < protocol.psm_idle_usdc {
        return Err(CoreError::InvalidParameter);
    }
    Ok(())
}

/// PSM redemptions wait until recorded bad debt is covered.
pub fn require_psm_redemption_solvent(protocol: &Protocol) -> (r: Result<(), CoreError>)
    ensures
        r == (if protocol.bad_debt_nusd == 0 {
            Ok(())
        } else {
            Err(CoreError::BadDebtOutstanding)
        }),
{
    if protocol.bad_debt_nusd == 0 {
        Ok(())
    } else {
        Err(CoreError::BadDebtOutstanding)
    }
}

/// The breaker is configured with a limit and a window of at most a week.
pub open spec fn outflow_breaker_valid(p: Protocol) -> bool {
    &&& p.psm_outflow_limit_usdc > 0 || p.psm_outflow_limit_bps > 0
    &&& p.psm_outflow_limit_bps <= 10_000
    &&& p.psm_outflow_window_seconds > 0
    &&& p.psm_outflow_window_seconds <= MAX_PSM_OUTFLOW_WINDOW_SECONDS
}

/// The outflow window at `now`: a new window, with `liquid_basis` as its
/// basis, once the current one has run out; otherwise the current window,
/// taking `liquid_basis` as its basis if it has none yet.
pub open spec fn spec_outflow_window(p: Protocol, liquid_basis: u128, now: i64) -> Result<
    Protocol,
    CoreError,
> {
    let start = p.psm_outflow_window_start_ts;
    if start > 0 && now >= start && start + p.psm_outflow_window_seconds > i64::MAX {
        Err(CoreError::MathOverflow)
    } else if start <= 0 || now < start || now >= start + p.psm_outflow_window_seconds {
        Ok(
            Protocol {
                psm_outflow_window_start_ts: now,
                psm_outflow_window_usdc: 0,
                psm_outflow_window_basis_usdc: liquid_basis,
                ..p
            },
        )
    } else if p.psm_outflow_window_basis_usdc == 0 {
        Ok(Protocol { psm_outflow_window_basis_usdc: liquid_basis, ..p })
    } else {
        Ok(p)
    }
}

/// The window's limit: the fixed USDC limit, the bps share of the window's
/// basis, or the smaller of the two when both are set.
pub open spec fn spec_outflow_limit(p: Protocol) -> Result<u128, CoreError> {
    if p.psm_outflow_limit_bps == 0 {
        Ok(p.psm_outflow_limit_usdc)
    } else if p.psm_outflow_window_basis_usdc * p.psm_outflow_limit_bps > u128::MAX {
        Err(CoreError::MathOverflow)
    } else {
        let bps_limit = ((p.psm_outflow_window_basis_usdc * p.psm_outflow_limit_bps) / 10_000) as u128;
        if p.psm_outflow_limit_usdc == 0 {
            Ok(bps_limit)
        } else {
            Ok(min_u128(p.psm_outflow_limit_usdc, bps_limit))
        }
    }
}

/// Records an outflow of `amount` within the window's limit; one beyond it
/// is refused and changes nothing.
pub open spec fn spec_record_psm_outflow(
    p: Protocol,
    amount: u128,
    liquid_basis: u128,
    now: i64,
) -> Result<Protocol, CoreError> {
    if !p.psm_outflow_circuit_breaker_enabled {
        Ok(p)
    } else if !outflow_breaker_valid(p) {
        Err(CoreError::InvalidPsmOutflowCircuitBreaker)
    } else {
        match spec_outflow_window(p, liquid_basis, now) {
            Err(e) => Err(e),
            Ok(q) => match spec_outflow_limit(q) {
                Err(e) => Err(e),
                Ok(limit) => if q.psm_outflow_window_usdc + amount > u128::MAX {
                    Err(CoreError::MathOverflow)
                } else if q.psm_outflow_window_usdc + amount > limit {
                    Err(CoreError::PsmOutflowLimitExceeded)
                } else {
                    Ok(
                        Protocol {
                            psm_outflow_window_usdc: (q.psm_outflow_window_usdc
                                + amount) as u128,
                            ..q
                        },
                    )
                },
            },
        }
    }
}

/// Once the current window has run out (it started at a positive time and
/// `now` is at or past its end), an outflow is counted in a new window that
/// starts at `now`, with `liquid_basis` as its basis and nothing counted
/// before the amount.
pub proof fn lemma_expired_outflow_window_starts_afresh(
    p: Protocol,
    amount: u128,
    liquid_basis: u128,
    now: i64,
)
    requires
        p.psm_outflow_circuit_breaker_enabled,
        p.psm_outflow_window_start_ts > 0,
        now >= p.psm_outflow_window_start_ts + p.psm_outflow_window_seconds,
        spec_record_psm_outflow(p, amount, liquid_basis, now) is Ok,
    ensures
        ({
            let q = spec_record_psm_outflow(p, amount, liquid_basis, now)->Ok_0;
            &&& q.psm_outflow_window_start_ts == now
            &&& q.psm_outflow_window_usdc == amount
            &&& q.psm_outflow_window_basis_usdc == liquid_basis
        }),
{
}

/// An outflow within the limits of a fresh window is always counted: when the
/// window has run out and the breaker is configured, any amount up to the
/// fixed limit (when set) and up to the bps share of `liquid_basis` (when set)
/// is accepted, whatever was counted in the old window.
pub proof fn lemma_expired_outflow_window_accepts_within_limit(
    p: Protocol,
    amount: u128,
    liquid_basis: u128,
    now: i64,
)
    requires
        p.psm_outflow_circuit_breaker_enabled,
        p.psm_outflow_limit_usdc > 0 || p.psm_outflow_limit_bps > 0,
        p.psm_outflow_limit_bps <= 10_000,
        0 < p.psm_outflow_window_seconds <= MAX_PSM_OUTFLOW_WINDOW_SECONDS,
        p.psm_outflow_window_start_ts > 0,
        p.psm_outflow_window_start_ts + p.psm_outflow_window_seconds <= now,
        p.psm_outflow_limit_usdc == 0 || amount <= p.psm_outflow_limit_usdc,
        p.psm_outflow_limit_bps == 0 || amount * 10_000 <= liquid_basis * p.psm_outflow_limit_bps,
        liquid_basis * p.psm_outflow_limit_bps <= u128::MAX,
    ensures
        spec_record_psm_outflow(p, amount, liquid_basis, now) is Ok,
{
    let b = liquid_basis * p.psm_outflow_limit_bps;
    if p.psm_outflow_limit_bps > 0 {
        assert(amount <= b / 10_000) by (nonlinear_arith)
            requires
                amount * 10_000 <= b,
                b >= 0,
        ;
    }
}

fn outflow_breaker_config_ok(protocol: &Protocol) -> (r: bool)
    ensures
        r == outflow_breaker_valid(*protocol),
{
    (protocol.psm_outflow_limit_usdc > 0 || protocol.psm_outflow_limit_bps > 0)
        && protocol.psm_outflow_limit_bps <= 10_000u16 && protocol.psm_outflow_window_seconds > 0
        && protocol.psm_outflow_window_seconds <= MAX_PSM_OUTFLOW_WINDOW_SECONDS
}

fn outflow_window(protocol: &Protocol, liquid_basis: u128, now: i64) -> (r: Result<
    Protocol,
    CoreError,
>)
    ensures
        r == spec_outflow_window(*protocol, liquid_basis, now),
{
    let start = protocol.psm_outflow_window_start_ts;
    let expired = if start <= 0 || now < start {
        true
    } else {
        match start.checked_add(protocol.psm_outflow_window_seconds) {
            Some(end) => now >= end,
            None => {
                return Err(CoreError::MathOverflow);
            },
        }
    };
    let mut q = *protocol;
    if expired {
        q.psm_outflow_window_start_ts = now;
        q.psm_outflow_window_usdc = 0;
        q.psm_outflow_window_basis_usdc = liquid_basis;
    } else if q.psm_outflow_window_basis_usdc == 0 {
        q.psm_outflow_window_basis_usdc = liquid_basis;
    }
    Ok(q)
}

fn outflow_limit(protocol: &Protocol) -> (r: Result<u128, CoreError>)
    ensures
        r == spec_outflow_limit(*protocol),
{
    if protocol.psm_outflow_limit_bps == 0 {
        return Ok(protocol.psm_outflow_limit_usdc);
    }
    let scaled = match protocol.psm_outflow_window_basis_usdc.checked_mul(
        protocol.psm_outflow_limit_bps as u128,
    ) {
        Some(s) => s,
        None => {
            return Err(CoreError::MathOverflow);
        },
    };
    let bps_limit = scaled / 10_000;
    if protocol.psm_outflow_limit_usdc == 0 {
        Ok(bps_limit)
    } else if protocol.psm_outflow_limit_usdc <= bps_limit {
        Ok(protocol.psm_outflow_limit_usdc)
    } else {
        Ok(bps_limit)
    }
}

/// Counts an outflow against the breaker, refusing one beyond the window's
/// limit; on error nothing changes.
pub fn record_psm_outflow(protocol: &mut Protocol, amount: u128, liquid_basis: u128, now: i64) -> (r:
    Result<(), CoreError>)
    ensures
        match spec_record_psm_outflow(*old(protocol), amount, liquid_basis, now) {
            Ok(p) => r is Ok && *final(protocol) == p,
            Err(e) => r == Err::<(), CoreError>(e) && *final(protocol) == *old(protocol),
        },
{
    if !protocol.psm_outflow_circuit_breaker_enabled {
        return Ok(());
    }
    if !outflow_breaker_config_ok(protocol) {
        return Err(CoreError::InvalidPsmOutflowCircuitBreaker);
    }
    let mut q = outflow_window(protocol, liquid_basis, now)?;
    let limit = outflow_limit(&q)?;
    let next = match q.psm_outflow_window_usdc.checked_add(amount) {
        Some(n) => n,
        None => {
            return Err(CoreError::MathOverflow);
        },
    };
    if next > limit {
        return Err(CoreError::PsmOutflowLimitExceeded);
    }
    q.psm_outflow_window_usdc = next;
    *protocol = q;
    Ok(())
}

/// Books a redemption of Kamino cTokens: the principal it retires leaves
/// the deployed balance, the USDC that came back joins idle liquidity, and
/// any shortfall becomes bad debt.
pub open spec fn spec_record_psm_kamino_redemption(
    p: Protocol,
    ctokens_before: u128,
    redeemed_ctokens: u128,
    usdc_received: u128,
) -> Result<(Protocol, KaminoPrincipalRedemption), CoreError> {
    match spec_account_kamino_principal_redemption(
        p.psm_kamino_deployed_usdc,
        ctokens_before,
        redeemed_ctokens,
        usdc_received,
    ) {
        Err(e) => Err(core_error_of(e)),
        Ok(r) => if p.psm_idle_usdc + r.principal_received > u128::MAX || p.bad_debt_nusd
            + r.principal_loss > u128::MAX || r.principal_removed > p.psm_kamino_deployed_usdc {
            Err(CoreError::MathOverflow)
        } else {
            Ok(
                (
                    Protocol {
                        psm_kamino_deployed_usdc: (p.psm_kamino_deployed_usdc
                            - r.principal_removed) as u128,
                        psm_idle_usdc: (p.psm_idle_usdc + r.principal_received) as u128,
                        bad_debt_nusd: (p.bad_debt_nusd + r.principal_loss) as u128,
                        ..p
                    },
                    r,
                ),
            )
        },
    }
}

pub fn record_psm_kamino_redemption(
    protocol: &mut Protocol,
    ctokens_before: u128,
    redeemed_ctokens: u128,
    usdc_received: u128,
) -> (r: Result<KaminoPrincipalRedemption, CoreError>)
    ensures
        match spec_record_psm_kamino_redemption(
            *old(protocol),
            ctokens_before,
            redeemed_ctokens,
            usdc_received,
        ) {
            Ok((p, red)) => r == Ok::<KaminoPrincipalRedemption, CoreError>(red) && *final(protocol)
                == p,
            Err(e) => r == Err::<KaminoPrincipalRedemption, CoreError>(e) && *final(protocol)
                == *old(protocol),
        },
{
    let redemption = match account_kamino_principal_redemption(
        protocol.psm_kamino_deployed_usdc,
        ctokens_before,
        redeemed_ctokens,
        usdc_received,
    ) {
        Ok(red) => red,
        Err(e) => {
            return Err(map_core_error(e));
        },
    };
    let idle = match protocol.psm_idle_usdc.checked_add(redemption.principal_received) {
        Some(v) => v,
        None => {
            return Err(CoreError::MathOverflow);
        },
    };
    let bad_debt = match protocol.bad_debt_nusd.checked_add(redemption.principal_loss) {
        Some(v) => v,
        None => {
            return Err(CoreError::MathOverflow);
        },
    };
    let deployed = match protocol.psm_kamino_deployed_usdc.checked_sub(
        redemption.principal_removed,
    ) {
        Some(v) => v,
        None => {
            return Err(CoreError::MathOverflow);
        },
    };
    protocol.psm_kamino_deployed_usdc = deployed;
    protocol.psm_idle_usdc = idle;
    protocol.bad_debt_nusd = bad_debt;
    Ok(redemption)
}

} // verus!
