use vstd::prelude::*;

use crate::constants::{DEFAULT_COOLDOWN_SECONDS, DEFAULT_REVENUE_VESTING_SECONDS, MIN_INITIAL_STAKE_NUSD};
use crate::error::NestError;
use crate::math::{checked_add, checked_sub, mul_div_down};

verus! {

/// nUSD staking pool: shares over the vault, with harvested revenue vesting
/// linearly before it counts towards share value.
#[derive(Debug, Clone, Copy, PartialEq, Eq)]
pub struct StakingPool {
    pub total_shares: u128,
    pub staking_vault_nusd: u128,
    pub unvested_revenue: u128,
    pub reserved_pending_claims: u128,
    pub vesting_start_ts: i64,
    pub vesting_end_ts: i64,
    pub last_vesting_sync_ts: i64,
    pub cooldown_seconds: i64,
    pub revenue_vesting_seconds: i64,
}

/// A request to redeem shares after the cooldown.
#[derive(Debug, Clone, Copy, PartialEq, Eq)]
pub struct PendingWithdrawal {
    pub shares: u128,
    pub request_ts: i64,
}

impl Default for StakingPool {
    fn default() -> (r: Self)
        ensures
            r == StakingPool::empty(),
    {
        StakingPool {
            total_shares: 0,
            staking_vault_nusd: 0,
            unvested_revenue: 0,
            reserved_pending_claims: 0,
            vesting_start_ts: 0,
            vesting_end_ts: 0,
            last_vesting_sync_ts: 0,
            cooldown_seconds: DEFAULT_COOLDOWN_SECONDS,
            revenue_vesting_seconds: DEFAULT_REVENUE_VESTING_SECONDS,
        }
    }
}

/// Revenue vested between the last sync and `now`, pro rata over the rest
/// of the vesting period.
pub open spec fn vested_amount(pool: StakingPool, now: i64) -> int {
    if now >= pool.vesting_end_ts {
        pool.unvested_revenue as int
    } else {
        (pool.unvested_revenue * (now - pool.last_vesting_sync_ts)) / ((pool.vesting_end_ts
            - pool.last_vesting_sync_ts) as int)
    }
}

impl StakingPool {
    pub open spec fn empty() -> StakingPool {
        StakingPool {
            total_shares: 0,
            staking_vault_nusd: 0,
            unvested_revenue: 0,
            reserved_pending_claims: 0,
            vesting_start_ts: 0,
            vesting_end_ts: 0,
            last_vesting_sync_ts: 0,
            cooldown_seconds: DEFAULT_COOLDOWN_SECONDS,
            revenue_vesting_seconds: DEFAULT_REVENUE_VESTING_SECONDS,
        }
    }

    /// Vault balance that backs the shares: unvested revenue and reserved
    /// claims do not count.
    pub open spec fn accounted(self) -> int {
        self.staking_vault_nusd - self.unvested_revenue - self.reserved_pending_claims
    }

    /// The vault covers unvested revenue and reserved claims.
    pub open spec fn solvent(self) -> bool {
        self.staking_vault_nusd >= self.unvested_revenue + self.reserved_pending_claims
    }

    pub open spec fn spec_sync_vesting(self, now: i64) -> Result<(StakingPool, u128), NestError> {
        if now < 0 || self.last_vesting_sync_ts < 0 || self.vesting_end_ts < 0 {
            Err(NestError::InvalidParameter)
        } else if self.unvested_revenue == 0 || now <= self.last_vesting_sync_ts {
            Ok((self, 0))
        } else if now < self.vesting_end_ts && self.unvested_revenue * (now
            - self.last_vesting_sync_ts) > u128::MAX {
            Err(NestError::MathOverflow)
        } else {
            let vested = vested_amount(self, now);
            Ok(
                (
                    StakingPool {
                        unvested_revenue: (self.unvested_revenue - vested) as u128,
                        last_vesting_sync_ts: now,
                        ..self
                    },
                    vested as u128,
                ),
            )
        }
    }

    /// Shares minted for `amount` at the entry price: vault net of reserved
    /// claims plus revenue not yet harvested, so newcomers buy in at full value.
    pub open spec fn spec_stake(self, amount: u128, pending_revenue: u128, now: i64) -> Result<
        (StakingPool, u128),
        NestError,
    > {
        if amount == 0 || (self.total_shares == 0 && amount < MIN_INITIAL_STAKE_NUSD) {
            Err(NestError::InvalidParameter)
        } else {
            match self.spec_sync_vesting(now) {
                Err(e) => Err(e),
                Ok((p, _)) => {
                    let entry = p.staking_vault_nusd - p.reserved_pending_claims + pending_revenue;
                    if p.staking_vault_nusd < p.reserved_pending_claims || entry > u128::MAX {
                        Err(NestError::MathOverflow)
                    } else if p.total_shares != 0 && entry == 0 {
                        Err(NestError::InvalidParameter)
                    } else if p.total_shares != 0 && amount * p.total_shares > u128::MAX {
                        Err(NestError::MathOverflow)
                    } else {
                        let shares = if p.total_shares == 0 {
                            amount as int
                        } else {
                            (amount * p.total_shares) / entry
                        };
                        if shares == 0 {
                            Err(NestError::InvalidParameter)
                        } else if p.staking_vault_nusd + amount > u128::MAX || p.total_shares
                            + shares > u128::MAX {
                            Err(NestError::MathOverflow)
                        } else {
                            Ok(
                                (
                                    StakingPool {
                                        staking_vault_nusd: (p.staking_vault_nusd + amount) as u128,
                                        total_shares: (p.total_shares + shares) as u128,
                                        ..p
                                    },
                                    shares as u128,
                                ),
                            )
                        }
                    }
                },
            }
        }
    }

    pub open spec fn spec_harvest(self, amount: u128, now: i64) -> Result<StakingPool, NestError> {
        if now < 0 || amount == 0 || self.total_shares == 0 || (self.unvested_revenue > 0 && now
            < self.vesting_end_ts) {
            Err(NestError::InvalidParameter)
        } else {
            match self.spec_sync_vesting(now) {
                Err(e) => Err(e),
                Ok((p, _)) => if p.unvested_revenue != 0 {
                    Err(NestError::InvalidParameter)
                } else if p.staking_vault_nusd + amount > u128::MAX || now
                    + p.revenue_vesting_seconds > i64::MAX || now + p.revenue_vesting_seconds
                    < i64::MIN {
                    Err(NestError::MathOverflow)
                } else {
                    Ok(
                        StakingPool {
                            staking_vault_nusd: (p.staking_vault_nusd + amount) as u128,
                            unvested_revenue: amount,
                            vesting_start_ts: now,
                            last_vesting_sync_ts: now,
                            vesting_end_ts: (now + p.revenue_vesting_seconds) as i64,
                            ..p
                        },
                    )
                },
            }
        }
    }

    pub open spec fn spec_request_unstake(self, shares: u128, now: i64) -> Result<
        (StakingPool, PendingWithdrawal),
        NestError,
    > {
        if now < 0 || self.cooldown_seconds < 0 {
            Err(NestError::InvalidParameter)
        } else {
            match self.spec_sync_vesting(now) {
                Err(e) => Err(e),
                Ok((p, _)) => if shares == 0 || shares > p.total_shares {
                    Err(NestError::InvalidParameter)
                } else {
                    Ok((p, PendingWithdrawal { shares, request_ts: now }))
                },
            }
        }
    }

    /// Redemption after the cooldown, once revenue harvested meanwhile has
    /// vested: the shares' pro-rata part of the vault net of reserved claims.
    pub open spec fn spec_complete_unstake(self, pending: PendingWithdrawal, now: i64) -> Result<
        (StakingPool, u128),
        NestError,
    > {
        let unlock = pending.request_ts + self.cooldown_seconds;
        if now < 0 || pending.request_ts < 0 || self.cooldown_seconds < 0 {
            Err(NestError::InvalidParameter)
        } else if unlock > i64::MAX {
            Err(NestError::MathOverflow)
        } else if now < unlock || (self.unvested_revenue > 0 && now < self.vesting_end_ts) {
            Err(NestError::CooldownActive)
        } else {
            match self.spec_sync_vesting(now) {
                Err(e) => Err(e),
                Ok((p, _)) => {
                    let redeemable = p.staking_vault_nusd - p.reserved_pending_claims;
                    if pending.shares == 0 || pending.shares > p.total_shares {
                        Err(NestError::InvalidParameter)
                    } else if redeemable < 0 || pending.shares * redeemable > u128::MAX || (
                    pending.shares != p.total_shares && pending.shares * p.unvested_revenue
                        > u128::MAX) {
                        Err(NestError::MathOverflow)
                    } else {
                        let assets = (pending.shares * redeemable) / (p.total_shares as int);
                        let unvested_redeemed = if pending.shares == p.total_shares {
                            p.unvested_revenue as int
                        } else {
                            (pending.shares * p.unvested_revenue) / (p.total_shares as int)
                        };
                        Ok(
                            (
                                StakingPool {
                                    total_shares: (p.total_shares - pending.shares) as u128,
                                    staking_vault_nusd: (p.staking_vault_nusd - assets) as u128,
                                    unvested_revenue: (p.unvested_revenue
                                        - unvested_redeemed) as u128,
                                    ..p
                                },
                                assets as u128,
                            ),
                        )
                    }
                },
            }
        }
    }

    pub open spec fn spec_realize_loss(self, amount: u128) -> Result<StakingPool, NestError> {
        if amount > self.staking_vault_nusd {
            Err(NestError::Insolvent)
        } else {
            let vault = (self.staking_vault_nusd - amount) as u128;
            Ok(
                StakingPool {
                    staking_vault_nusd: vault,
                    unvested_revenue: if self.unvested_revenue > vault {
                        vault
                    } else {
                        self.unvested_revenue
                    },
                    ..self
                },
            )
        }
    }

    pub fn accounted_assets(&self) -> (r: Result<u128, NestError>)
        ensures
            r == crate::math::fit_u128(self.accounted()),
    {
        let after_unvested = checked_sub(self.staking_vault_nusd, self.unvested_revenue)?;
        checked_sub(after_unvested, self.reserved_pending_claims)
    }

    pub fn stake_entry_assets(&self, pending_revenue: u128) -> (r: Result<u128, NestError>)
        ensures
            r == (if self.staking_vault_nusd < self.reserved_pending_claims {
                Err::<u128, NestError>(NestError::MathOverflow)
            } else {
                crate::math::fit_u128(
                    self.staking_vault_nusd - self.reserved_pending_claims + pending_revenue,
                )
            }),
    {
        let net = checked_sub(self.staking_vault_nusd, self.reserved_pending_claims)?;
        checked_add(net, pending_revenue)
    }

    /// Vests revenue up to `now`; returns the amount vested.
    pub fn sync_vesting(&mut self, now: i64) -> (r: Result<u128, NestError>)
        ensures
            match old(self).spec_sync_vesting(now) {
                Ok((p, v)) => r == Ok::<u128, NestError>(v) && *final(self) == p,
                Err(e) => r == Err::<u128, NestError>(e) && *final(self) == *old(self),
            },
            r is Ok ==> final(self).unvested_revenue <= old(self).unvested_revenue,
    {
        require_nonnegative_ts(now)?;
        require_nonnegative_ts(self.last_vesting_sync_ts)?;
        require_nonnegative_ts(self.vesting_end_ts)?;
        if self.unvested_revenue == 0 || now <= self.last_vesting_sync_ts {
            return Ok(0);
        }
        if now >= self.vesting_end_ts {
            let vested = self.unvested_revenue;
            self.unvested_revenue = 0;
            self.last_vesting_sync_ts = now;
            return Ok(vested);
        }
        let elapsed = (now as u128) - (self.last_vesting_sync_ts as u128);
        let remaining_duration = (self.vesting_end_ts as u128) - (self.last_vesting_sync_ts as u128);
        let vested = mul_div_down(self.unvested_revenue, elapsed, remaining_duration)?;
        proof {
            assert(vested <= self.unvested_revenue) by (nonlinear_arith)
                requires
                    vested == (self.unvested_revenue * elapsed) / (remaining_duration as int),
                    elapsed <= remaining_duration,
                    remaining_duration > 0,
            ;
        }
        self.unvested_revenue = self.unvested_revenue - vested;
        self.last_vesting_sync_ts = now;
        Ok(vested)
    }

    /// Deposits `amount` and mints shares at the entry price.
    pub fn stake(&mut self, amount: u128, pending_revenue: u128, now: i64) -> (r: Result<u128, NestError>)
        ensures
            match old(self).spec_stake(amount, pending_revenue, now) {
                Ok((p, s)) => r == Ok::<u128, NestError>(s) && *final(self) == p,
                Err(e) => r == Err::<u128, NestError>(e) && *final(self) == *old(self),
            },
    {
        if amount == 0 {
            return Err(NestError::InvalidParameter);
        }
        if self.total_shares == 0 && amount < MIN_INITIAL_STAKE_NUSD {
            return Err(NestError::InvalidParameter);
        }
        let mut pool = *self;
        pool.sync_vesting(now)?;
        let entry_assets = pool.stake_entry_assets(pending_revenue)?;
        let shares = if pool.total_shares == 0 {
            amount
        } else {
            if entry_assets == 0 {
                return Err(NestError::InvalidParameter);
            }
            mul_div_down(amount, pool.total_shares, entry_assets)?
        };
        if shares == 0 {
            return Err(NestError::InvalidParameter);
        }
        pool.staking_vault_nusd = checked_add(pool.staking_vault_nusd, amount)?;
        pool.total_shares = checked_add(pool.total_shares, shares)?;
        *self = pool;
        Ok(shares)
    }

    /// Moves harvested revenue into the vault to vest over the vesting period;
    /// refused while earlier revenue is still vesting.
    pub fn harvest(&mut self, amount: u128, now: i64) -> (r: Result<(), NestError>)
        ensures
            match old(self).spec_harvest(amount, now) {
                Ok(p) => r is Ok && *final(self) == p,
                Err(e) => r == Err::<(), NestError>(e) && *final(self) == *old(self),
            },
    {
        require_nonnegative_ts(now)?;
        if amount == 0 || self.total_shares == 0 {
            return Err(NestError::InvalidParameter);
        }
        if self.unvested_revenue > 0 && now < self.vesting_end_ts {
            return Err(NestError::InvalidParameter);
        }
        let mut pool = *self;
        pool.sync_vesting(now)?;
        if pool.unvested_revenue != 0 {
            return Err(NestError::InvalidParameter);
        }
        pool.staking_vault_nusd = checked_add(pool.staking_vault_nusd, amount)?;
        pool.unvested_revenue = amount;
        pool.vesting_start_ts = now;
        pool.last_vesting_sync_ts = now;
        pool.vesting_end_ts = match now.checked_add(pool.revenue_vesting_seconds) {
            Some(end) => end,
            None => {
                return Err(NestError::MathOverflow);
            },
        };
        *self = pool;
        Ok(())
    }

    /// Records a withdrawal request; the shares keep earning until completion.
    pub fn request_unstake(&mut self, shares: u128, now: i64) -> (r: Result<PendingWithdrawal, NestError>)
        ensures
            match old(self).spec_request_unstake(shares, now) {
                Ok((p, w)) => r == Ok::<PendingWithdrawal, NestError>(w) && *final(self) == p,
                Err(e) => r == Err::<PendingWithdrawal, NestError>(e) && *final(self) == *old(self),
            },
    {
        require_nonnegative_ts(now)?;
        require_nonnegative_ts(self.cooldown_seconds)?;
        let mut pool = *self;
        pool.sync_vesting(now)?;
        if shares == 0 || shares > pool.total_shares {
            return Err(NestError::InvalidParameter);
        }
        *self = pool;
        Ok(PendingWithdrawal { shares, request_ts: now })
    }

    /// Redeems a pending withdrawal for its share of the vault.
    pub fn complete_unstake(&mut self, pending: PendingWithdrawal, now: i64) -> (r: Result<
        u128,
        NestError,
    >)
        ensures
            match old(self).spec_complete_unstake(pending, now) {
                Ok((p, a)) => r == Ok::<u128, NestError>(a) && *final(self) == p,
                Err(e) => r == Err::<u128, NestError>(e) && *final(self) == *old(self),
            },
    {
        require_nonnegative_ts(now)?;
        require_nonnegative_ts(pending.request_ts)?;
        require_nonnegative_ts(self.cooldown_seconds)?;
        let unlock_ts = match pending.request_ts.checked_add(self.cooldown_seconds) {
            Some(t) => t,
            None => {
                return Err(NestError::MathOverflow);
            },
        };
        if now < unlock_ts {
            return Err(NestError::CooldownActive);
        }
        // Revenue harvested while the request waited must finish vesting
        // before the request can be redeemed.
        if self.unvested_revenue > 0 && now < self.vesting_end_ts {
            return Err(NestError::CooldownActive);
        }
        let mut pool = *self;
        pool.sync_vesting(now)?;
        if pending.shares == 0 || pending.shares > pool.total_shares {
            return Err(NestError::InvalidParameter);
        }
        let redeemable_assets = checked_sub(pool.staking_vault_nusd, pool.reserved_pending_claims)?;
        let assets = mul_div_down(pending.shares, redeemable_assets, pool.total_shares)?;
        let unvested_redeemed = if pending.shares == pool.total_shares {
            pool.unvested_revenue
        } else {
            mul_div_down(pending.shares, pool.unvested_revenue, pool.total_shares)?
        };
        proof {
            assert(assets <= redeemable_assets) by (nonlinear_arith)
                requires
                    assets == (pending.shares * redeemable_assets) / (pool.total_shares as int),
                    pending.shares <= pool.total_shares,
                    pool.total_shares > 0,
            ;
            assert(unvested_redeemed <= pool.unvested_revenue) by (nonlinear_arith)
                requires
                    pending.shares == pool.total_shares ==> unvested_redeemed
                        == pool.unvested_revenue,
                    pending.shares != pool.total_shares ==> unvested_redeemed == (pending.shares
                        * pool.unvested_revenue) / (pool.total_shares as int),
                    pending.shares <= pool.total_shares,
                    pool.total_shares > 0,
            ;
        }
        pool.total_shares = pool.total_shares - pending.shares;
        pool.staking_vault_nusd = pool.staking_vault_nusd - assets;
        pool.unvested_revenue = pool.unvested_revenue - unvested_redeemed;
        *self = pool;
        Ok(assets)
    }

    /// A withdrawal request without a claim window can always be cancelled;
    /// returns the shares to restore.
    pub fn cancel_expired_unstake(&self, pending: PendingWithdrawal, now: i64) -> (r: Result<
        u128,
        NestError,
    >)
        ensures
            r == (if now < 0 || pending.request_ts < 0 || pending.shares == 0 || pending.shares
                > self.total_shares {
                Err::<u128, NestError>(NestError::InvalidParameter)
            } else {
                Ok(pending.shares)
            }),
    {
        require_nonnegative_ts(now)?;
        require_nonnegative_ts(pending.request_ts)?;
        if pending.shares == 0 || pending.shares > self.total_shares {
            return Err(NestError::InvalidParameter);
        }
        Ok(pending.shares)
    }

    /// Burns `amount` from the vault; unvested revenue never exceeds the vault.
    pub fn realize_loss(&mut self, amount: u128) -> (r: Result<(), NestError>)
        ensures
            match old(self).spec_realize_loss(amount) {
                Ok(p) => r is Ok && *final(self) == p,
                Err(e) => r == Err::<(), NestError>(e) && *final(self) == *old(self),
            },
    {
        if amount > self.staking_vault_nusd {
            return Err(NestError::Insolvent);
        }
        self.staking_vault_nusd = self.staking_vault_nusd - amount;
        if self.unvested_revenue > self.staking_vault_nusd {
            self.unvested_revenue = self.staking_vault_nusd;
        }
        Ok(())
    }
}

pub fn require_nonnegative_ts(value: i64) -> (r: Result<(), NestError>)
    ensures
        r == (if value < 0 {
            Err::<(), NestError>(NestError::InvalidParameter)
        } else {
            Ok(())
        }),
{
    if value < 0 {
        return Err(NestError::InvalidParameter);
    }
    Ok(())
}

/// Vesting never releases more than the unvested revenue.
pub proof fn lemma_vested_bounded(pool: StakingPool, now: i64)
    requires
        pool.spec_sync_vesting(now) is Ok,
    ensures
        pool.spec_sync_vesting(now)->Ok_0.0.unvested_revenue <= pool.unvested_revenue,
        pool.spec_sync_vesting(now)->Ok_0.0.staking_vault_nusd == pool.staking_vault_nusd,
        pool.spec_sync_vesting(now)->Ok_0.0.total_shares == pool.total_shares,
        pool.spec_sync_vesting(now)->Ok_0.0.reserved_pending_claims
            == pool.reserved_pending_claims,
        now >= pool.vesting_end_ts && now > pool.last_vesting_sync_ts ==> pool.spec_sync_vesting(
            now,
        )->Ok_0.0.unvested_revenue == 0,
{
    if pool.unvested_revenue != 0 && now > pool.last_vesting_sync_ts && now < pool.vesting_end_ts {
        let u = pool.unvested_revenue as int;
        let e = (now - pool.last_vesting_sync_ts) as int;
        let d = (pool.vesting_end_ts - pool.last_vesting_sync_ts) as int;
        assert(0 <= (u * e) / d <= u) by (nonlinear_arith)
            requires
                u >= 0,
                0 < e < d,
        ;
    }
}

/// Every pool operation keeps the vault covering unvested revenue and
/// reserved claims; a loss keeps it when no claims are reserved.
pub proof fn lemma_pool_operations_keep_solvency(
    pool: StakingPool,
    amount: u128,
    pending_revenue: u128,
    pending: PendingWithdrawal,
    now: i64,
)
    requires
        pool.solvent(),
    ensures
        pool.spec_sync_vesting(now) is Ok ==> pool.spec_sync_vesting(now)->Ok_0.0.solvent(),
        pool.spec_stake(amount, pending_revenue, now) is Ok ==> pool.spec_stake(
            amount,
            pending_revenue,
            now,
        )->Ok_0.0.solvent(),
        pool.spec_harvest(amount, now) is Ok ==> pool.spec_harvest(amount, now)->Ok_0.solvent(),
        pool.spec_request_unstake(amount, now) is Ok ==> pool.spec_request_unstake(
            amount,
            now,
        )->Ok_0.0.solvent(),
        pool.spec_complete_unstake(pending, now) is Ok ==> pool.spec_complete_unstake(
            pending,
            now,
        )->Ok_0.0.solvent(),
        pool.reserved_pending_claims == 0 && pool.spec_realize_loss(amount) is Ok
            ==> pool.spec_realize_loss(amount)->Ok_0.solvent(),
{
    if pool.spec_sync_vesting(now) is Ok {
        lemma_vested_bounded(pool, now);
    }
    if pool.spec_complete_unstake(pending, now) is Ok {
        let p = pool.spec_sync_vesting(now)->Ok_0.0;
        let a = (p.staking_vault_nusd - p.reserved_pending_claims) as int;
        let s = pending.shares as int;
        let t = p.total_shares as int;
        let u = p.unvested_revenue as int;
        assert(u <= a);
        assert((s * a) / t <= a && (s * u) / t <= u) by (nonlinear_arith)
            requires
                0 < s <= t,
                a >= 0,
                u >= 0,
        ;
        if s != t {
            lemma_pro_rata_keeps_cover(s, t, a, u);
        }
        let after = pool.spec_complete_unstake(pending, now)->Ok_0.0;
        let assets = pool.spec_complete_unstake(pending, now)->Ok_0.1;
        assert(assets == (s * a) / t);
        assert(after.staking_vault_nusd == p.staking_vault_nusd - assets);
        assert(after.reserved_pending_claims == p.reserved_pending_claims);
    }
}

/// Taking the same pro-rata part `s / t` of two amounts, rounded down,
/// leaves at least as much of the larger as of the smaller.
proof fn lemma_pro_rata_keeps_cover(s: int, t: int, a: int, u: int)
    requires
        0 < s < t,
        0 <= u <= a,
    ensures
        a - (s * a) / t >= u - (s * u) / t,
{
    let big = (s * a) / t;
    let small = (s * u) / t;
    assert(s * a >= 0 && s * u >= 0 && s * (a - u) <= (t - 1) * (a - u)) by (nonlinear_arith)
        requires
            0 < s < t,
            0 <= u <= a,
    ;
    vstd::arithmetic::div_mod::lemma_fundamental_div_mod(s * a, t);
    vstd::arithmetic::div_mod::lemma_fundamental_div_mod(s * u, t);
    vstd::arithmetic::div_mod::lemma_mod_pos_bound(s * a, t);
    vstd::arithmetic::div_mod::lemma_mod_pos_bound(s * u, t);
    let ra = (s * a) % t;
    let ru = (s * u) % t;
    assert(t * big + ra == s * a);
    assert(t * small + ru == s * u);
    assert(big - small <= a - u) by (nonlinear_arith)
        requires
            t > 0,
            t * big + ra == s * a,
            t * small + ru == s * u,
            0 <= ra < t,
            0 <= ru < t,
            s * (a - u) <= (t - 1) * (a - u),
            a - u >= 0,
    ;
}

/// Redeeming a pending withdrawal pays the shares' floor share of the vault
/// net of reserved claims, never more than that, and takes exactly the
/// payment out of the vault; once revenue has vested, exactly the payment
/// leaves the assets that back the shares.
pub proof fn lemma_unstake_never_over_redeems(pool: StakingPool, pending: PendingWithdrawal, now: i64)
    requires
        pool.spec_complete_unstake(pending, now) is Ok,
    ensures
        ({
            let synced = pool.spec_sync_vesting(now)->Ok_0.0;
            let redeemable = synced.staking_vault_nusd - synced.reserved_pending_claims;
            let (after, assets) = pool.spec_complete_unstake(pending, now)->Ok_0;
            &&& assets <= redeemable
            &&& assets * synced.total_shares <= pending.shares * redeemable
            &&& after.staking_vault_nusd == synced.staking_vault_nusd - assets
            &&& after.total_shares == synced.total_shares - pending.shares
            &&& (synced.unvested_revenue == 0 ==> after.accounted() == synced.accounted() - assets)
        }),
{
    let synced = pool.spec_sync_vesting(now)->Ok_0.0;
    let a = (synced.staking_vault_nusd - synced.reserved_pending_claims) as int;
    let s = pending.shares as int;
    let t = synced.total_shares as int;
    let assets = (s * a) / t;
    assert((s * 0) / t == 0) by (nonlinear_arith)
        requires
            t > 0,
    ;
    assert(assets <= a && assets * t <= s * a) by (nonlinear_arith)
        requires
            0 < s <= t,
            a >= 0,
            assets == (s * a) / t,
    ;
}

/// Staking mints shares at or below the entry price, so existing holders
/// are never diluted: new shares times entry assets never exceed the
/// deposit times existing shares.
pub proof fn lemma_stake_does_not_dilute(
    pool: StakingPool,
    amount: u128,
    pending_revenue: u128,
    now: i64,
)
    requires
        pool.spec_stake(amount, pending_revenue, now) is Ok,
    ensures
        ({
            let synced = pool.spec_sync_vesting(now)->Ok_0.0;
            let entry = synced.staking_vault_nusd - synced.reserved_pending_claims + pending_revenue;
            let (after, shares) = pool.spec_stake(amount, pending_revenue, now)->Ok_0;
            &&& after.staking_vault_nusd == synced.staking_vault_nusd + amount
            &&& after.total_shares == synced.total_shares + shares
            &&& shares > 0
            &&& (synced.total_shares > 0 ==> shares * entry <= amount * synced.total_shares)
            &&& (synced.total_shares == 0 ==> shares == amount && amount >= MIN_INITIAL_STAKE_NUSD)
        }),
{
    let synced = pool.spec_sync_vesting(now)->Ok_0.0;
    let entry = synced.staking_vault_nusd - synced.reserved_pending_claims + pending_revenue;
    if synced.total_shares > 0 {
        let shares = (amount * synced.total_shares) / entry;
        assert(shares * entry <= amount * synced.total_shares) by (nonlinear_arith)
            requires
                entry > 0,
                amount * synced.total_shares >= 0,
                shares == (amount * synced.total_shares) / entry,
        ;
    }
}

} // verus!
