use vstd::prelude::*;

use crate::constants::{BPS_DENOMINATOR, PRICE_SCALE, USD_SCALE};
use crate::error::NestError;
use crate::math::{
    ceil_div, checked_mul, lemma_ceil_div_bounds, lemma_pow10_positive, mul_div_down,
    mul_div_up, pow10, pow10_spec,
};

verus! {

/// How far in the future an oracle publish time may lie before the price is
/// treated as unusable.
pub const MAX_ORACLE_CLOCK_SKEW_SECONDS: i64 = 60;

#[derive(Debug, Clone, Copy, PartialEq, Eq)]
pub enum MarketState {
    Regular,
    Extended,
    Closed,
}

/// A price with eight decimals and its confidence interval.
#[derive(Debug, Clone, Copy, PartialEq, Eq)]
pub struct OraclePrice {
    pub feed_id: [u8; 32],
    pub price_e8: u64,
    pub confidence_e8: u64,
    pub publish_time: i64,
}

/// What a price must satisfy to be used.
#[derive(Debug, Clone, Copy, PartialEq, Eq)]
pub struct PricePolicy {
    pub expected_feed_id: [u8; 32],
    pub max_staleness_seconds: i64,
    pub max_confidence_bps: u16,
}

/// Collateral is priced from the xStock/USD feed alone.
#[derive(Debug, Clone, Copy, PartialEq, Eq)]
pub struct PricingInputs {
    pub xstock_usd: OraclePrice,
    pub now: i64,
    pub xstock_policy: PricePolicy,
}

/// The lower end of the confidence interval of a fresh price from the
/// expected feed, or the first rule it breaks.
pub open spec fn spec_lower_confidence_bound(
    price: OraclePrice,
    policy: PricePolicy,
    now: i64,
) -> Result<u128, NestError> {
    let age = now - price.publish_time;
    if policy.max_staleness_seconds <= 0 || policy.max_confidence_bps == 0
        || policy.max_confidence_bps > 10_000 {
        Err(NestError::InvalidParameter)
    } else if price.feed_id@ != policy.expected_feed_id@ {
        Err(NestError::WrongFeed)
    } else if price.price_e8 == 0 {
        Err(NestError::PriceNotPositive)
    } else if age < i64::MIN || age > i64::MAX || age < -MAX_ORACLE_CLOCK_SKEW_SECONDS || age
        > policy.max_staleness_seconds {
        Err(NestError::OracleStale)
    } else if price.confidence_e8 * 10_000 > price.price_e8 * policy.max_confidence_bps {
        Err(NestError::ConfidenceTooWide)
    } else if price.confidence_e8 >= price.price_e8 {
        Err(NestError::PriceNotPositive)
    } else {
        Ok((price.price_e8 - price.confidence_e8) as u128)
    }
}

/// USD value (six decimals) of `raw` base units of a token with `decimals`
/// decimals at `price_e8` per whole token, rounded down.
pub open spec fn spec_collateral_value_usd(raw: u128, decimals: u8, price_e8: u128) -> Result<
    u128,
    NestError,
> {
    let denominator = pow10_spec(decimals as nat) * PRICE_SCALE;
    let price_scaled = price_e8 * USD_SCALE;
    if denominator > u128::MAX || price_scaled > u128::MAX || raw * price_scaled > u128::MAX {
        Err(NestError::MathOverflow)
    } else {
        Ok(((raw * price_scaled) / denominator) as u128)
    }
}

/// Base units needed to be worth at least `usd_value`, rounded up.
pub open spec fn spec_collateral_raw_for_usd_value(usd_value: u128, decimals: u8, price_e8: u128) -> Result<
    u128,
    NestError,
> {
    let token_scale = pow10_spec(decimals as nat);
    let numerator = usd_value * token_scale * PRICE_SCALE;
    let denominator = price_e8 * USD_SCALE;
    if price_e8 == 0 {
        Err(NestError::PriceNotPositive)
    } else if token_scale > u128::MAX || numerator > u128::MAX || denominator > u128::MAX {
        Err(NestError::MathOverflow)
    } else {
        Ok(ceil_div(numerator, denominator) as u128)
    }
}

/// Byte-wise equality of two feed identifiers.
pub fn feed_ids_equal(a: &[u8; 32], b: &[u8; 32]) -> (r: bool)
    ensures
        r == (a@ == b@),
{
    let mut i: usize = 0;
    while i < 32
        invariant
            i <= 32,
            a@.len() == 32,
            b@.len() == 32,
            forall|j: int| 0 <= j < i ==> a@[j] == b@[j],
        decreases 32 - i,
    {
        if a[i] != b[i] {
            return false;
        }
        i = i + 1;
    }
    assert(a@ =~= b@);
    true
}

/// Conservative price: the lower confidence bound of a fresh, tight price
/// from the expected feed.
pub fn lower_confidence_bound(price: OraclePrice, policy: PricePolicy, now: i64) -> (r: Result<
    u128,
    NestError,
>)
    ensures
        r == spec_lower_confidence_bound(price, policy, now),
{
    if policy.max_staleness_seconds <= 0 || policy.max_confidence_bps == 0
        || policy.max_confidence_bps > 10_000u16 {
        return Err(NestError::InvalidParameter);
    }
    if !feed_ids_equal(&price.feed_id, &policy.expected_feed_id) {
        return Err(NestError::WrongFeed);
    }
    if price.price_e8 == 0 {
        return Err(NestError::PriceNotPositive);
    }
    let age = match now.checked_sub(price.publish_time) {
        Some(a) => a,
        None => {
            return Err(NestError::OracleStale);
        },
    };
    if age < -MAX_ORACLE_CLOCK_SKEW_SECONDS || age > policy.max_staleness_seconds {
        return Err(NestError::OracleStale);
    }
    let price_u128 = price.price_e8 as u128;
    let conf_u128 = price.confidence_e8 as u128;
    proof {
        assert(price_u128 * (policy.max_confidence_bps as u128) <= u64::MAX * 10_000) by (
        nonlinear_arith)
            requires
                price_u128 <= u64::MAX,
                policy.max_confidence_bps <= 10_000,
        ;
    }
    let conf_side = checked_mul(conf_u128, BPS_DENOMINATOR)?;
    let price_side = checked_mul(price_u128, policy.max_confidence_bps as u128)?;
    if conf_side > price_side {
        return Err(NestError::ConfidenceTooWide);
    }
    if conf_u128 >= price_u128 {
        return Err(NestError::PriceNotPositive);
    }
    Ok(price_u128 - conf_u128)
}

/// Collateral is priced at the conservative xStock/USD price.
pub fn safe_raw_token_price_e8(inputs: PricingInputs) -> (r: Result<u128, NestError>)
    ensures
        r == spec_lower_confidence_bound(inputs.xstock_usd, inputs.xstock_policy, inputs.now),
{
    lower_confidence_bound(inputs.xstock_usd, inputs.xstock_policy, inputs.now)
}

/// USD value of `raw_token_amount`, rounded down.
pub fn collateral_value_usd(raw_token_amount: u128, token_decimals: u8, raw_token_price_e8: u128) -> (r:
    Result<u128, NestError>)
    ensures
        r == spec_collateral_value_usd(raw_token_amount, token_decimals, raw_token_price_e8),
{
    proof {
        lemma_pow10_positive(token_decimals as nat);
    }
    let token_scale = pow10(token_decimals)?;
    let denominator = checked_mul(token_scale, PRICE_SCALE)?;
    let numerator_scale = checked_mul(raw_token_price_e8, USD_SCALE)?;
    mul_div_down(raw_token_amount, numerator_scale, denominator)
}

/// Base units of collateral worth at least `usd_value`, rounded up.
pub fn collateral_raw_for_usd_value(usd_value: u128, token_decimals: u8, raw_token_price_e8: u128) -> (r:
    Result<u128, NestError>)
    ensures
        r == spec_collateral_raw_for_usd_value(usd_value, token_decimals, raw_token_price_e8),
{
    if raw_token_price_e8 == 0 {
        return Err(NestError::PriceNotPositive);
    }
    let token_scale = pow10(token_decimals)?;
    proof {
        lemma_pow10_positive(token_decimals as nat);
        assert(usd_value * token_scale * PRICE_SCALE >= usd_value * token_scale) by (
        nonlinear_arith)
            requires
                usd_value * token_scale >= 0,
        ;
    }
    let scaled = checked_mul(usd_value, token_scale)?;
    let numerator = checked_mul(scaled, PRICE_SCALE)?;
    let denominator = checked_mul(raw_token_price_e8, USD_SCALE)?;
    proof {
        lemma_ceil_div_bounds(numerator as int, denominator as int);
    }
    mul_div_up(numerator, 1, denominator)
}

/// Round trip of collateral through its USD value: for a positive value `v`
/// of `raw` base units, the base units that `collateral_raw_for_usd_value`
/// asks for `v` are the least amount worth at least `v`: never more than
/// `raw`, worth at least `v`, and one unit fewer is worth less than `v`.
pub proof fn lemma_collateral_round_trip_is_conservative(raw: u128, decimals: u8, price_e8: u128)
    requires
        spec_collateral_value_usd(raw, decimals, price_e8) is Ok,
        spec_collateral_value_usd(raw, decimals, price_e8)->Ok_0 > 0,
    ensures
        ({
            let v = spec_collateral_value_usd(raw, decimals, price_e8)->Ok_0;
            let back = spec_collateral_raw_for_usd_value(v, decimals, price_e8);
            &&& back is Ok
            &&& back->Ok_0 <= raw
            &&& spec_collateral_value_usd(back->Ok_0, decimals, price_e8) is Ok
            &&& spec_collateral_value_usd(back->Ok_0, decimals, price_e8)->Ok_0 >= v
            &&& back->Ok_0 > 0 ==> spec_collateral_value_usd(
                (back->Ok_0 - 1) as u128,
                decimals,
                price_e8,
            ) is Ok && spec_collateral_value_usd(
                (back->Ok_0 - 1) as u128,
                decimals,
                price_e8,
            )->Ok_0 < v
        }),
{
    let t = pow10_spec(decimals as nat) as int;
    lemma_pow10_positive(decimals as nat);
    let s = t * (PRICE_SCALE as int);
    let p = (price_e8 as int) * (USD_SCALE as int);
    let v = (raw as int) * p / s;
    assert(v == spec_collateral_value_usd(raw, decimals, price_e8)->Ok_0);
    assert(s > 0) by (nonlinear_arith)
        requires
            t >= 1,
            s == t * 100_000_000,
    ;
    assert(p > 0) by (nonlinear_arith)
        requires
            (raw as int) * p / s > 0,
            s > 0,
            raw >= 0,
            p >= 0,
    ;
    // v * s <= raw * p
    assert(v * s <= (raw as int) * p) by (nonlinear_arith)
        requires
            s > 0,
            v == (raw as int) * p / s,
    ;
    let num = v * t * (PRICE_SCALE as int);
    assert(num == v * s) by (nonlinear_arith)
        requires
            num == v * t * 100_000_000,
            s == t * 100_000_000,
    ;
    assert(num <= u128::MAX) by (nonlinear_arith)
        requires
            num == v * s,
            v * s <= (raw as int) * p,
            (raw as int) * p <= u128::MAX,
    ;
    assert(t <= u128::MAX) by (nonlinear_arith)
        requires
            s == t * 100_000_000,
            s <= u128::MAX,
            t >= 1,
    ;
    assert(v * t * (PRICE_SCALE as int) == v * (t as int) * 100_000_000);
    lemma_ceil_div_bounds(num, p);
    let back = ceil_div(num, p);
    assert(spec_collateral_raw_for_usd_value(v as u128, decimals, price_e8) == Ok::<
        u128,
        NestError,
    >(back as u128));
    // back <= raw because num <= raw * p
    if num > 0 {
        assert((back - 1) * p < (raw as int) * p);
        assert(back - 1 < raw) by (nonlinear_arith)
            requires
                (back - 1) * p < (raw as int) * p,
                p > 0,
        ;
    }
    // value of back >= v
    assert(back * p >= num);
    assert(back * p <= u128::MAX) by (nonlinear_arith)
        requires
            back <= raw,
            raw >= 0,
            p > 0,
            (raw as int) * p <= u128::MAX,
    ;
    assert((back * p) / s >= v) by (nonlinear_arith)
        requires
            back * p >= v * s,
            s > 0,
    ;
    assert(spec_collateral_value_usd(back as u128, decimals, price_e8)->Ok_0 == (back * p) / s);
    if back > 0 {
        assert(num > 0);
        assert((back - 1) * p < v * s);
        assert(((back - 1) * p) / s < v) by (nonlinear_arith)
            requires
                (back - 1) * p < v * s,
                s > 0,
        ;
        assert((back - 1) * p <= u128::MAX) by (nonlinear_arith)
            requires
                back - 1 >= 0,
                back <= raw,
                p > 0,
                (raw as int) * p <= u128::MAX,
        ;
        assert(spec_collateral_value_usd((back - 1) as u128, decimals, price_e8)->Ok_0 == ((
        back - 1) * p) / s);
    }
}

} // verus!
