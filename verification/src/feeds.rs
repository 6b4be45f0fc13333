use vstd::prelude::*;

use crate::accounts::{keys_eq, CollateralConfig, OraclePriceAccount, OracleSnapshot};
use crate::core_error::{core_error_of, map_core_error, CoreError};
use crate::math::pow10_spec;
use crate::oracle::{
    collateral_value_usd, safe_raw_token_price_e8, spec_collateral_value_usd,
    spec_lower_confidence_bound, OraclePrice, PricePolicy, PricingInputs,
};

verus! {

/// Longest staleness a collateral market may accept for its xStock price.
pub const MAX_XSTOCK_PRICE_STALENESS_SECONDS: i64 = 120;
/// Pyth Lazer feed ids occupy the first four bytes of a feed key.
pub const LAZER_FEED_ID_BYTES: usize = 4;

/// A Lazer feed key: a little-endian `u32` id followed by zero bytes.
pub open spec fn is_lazer_key(feed_id: [u8; 32]) -> bool {
    forall|i: int| 4 <= i < 32 ==> #[trigger] feed_id@[i] == 0u8
}

pub open spec fn is_zero_key(feed_id: [u8; 32]) -> bool {
    forall|i: int| 0 <= i < 32 ==> #[trigger] feed_id@[i] == 0u8
}

/// The `u32` id in the first four bytes of a feed key, little-endian.
pub open spec fn lazer_id_of(feed_id: [u8; 32]) -> int {
    feed_id@[0] + 256 * feed_id@[1] + 65_536 * feed_id@[2] + 16_777_216 * feed_id@[3]
}

/// Feed keys are distinct where set, and the xStock feed is set.
pub open spec fn spec_valid_price_feed_ids(
    xstock: [u8; 32],
    underlying: [u8; 32],
    redemption: [u8; 32],
) -> bool {
    &&& !is_zero_key(xstock)
    &&& !is_zero_key(underlying) ==> underlying@ != xstock@
    &&& !is_zero_key(redemption) ==> redemption@ != xstock@
    &&& !is_zero_key(underlying) && !is_zero_key(redemption) ==> underlying@ != redemption@
}

pub fn is_zero_feed(feed_id: &[u8; 32]) -> (r: bool)
    ensures
        r == is_zero_key(*feed_id),
{
    let mut i: usize = 0;
    while i < 32
        invariant
            i <= 32,
            feed_id@.len() == 32,
            forall|j: int| 0 <= j < i ==> feed_id@[j] == 0u8,
        decreases 32 - i,
    {
        if feed_id[i] != 0u8 {
            return false;
        }
        i = i + 1;
    }
    true
}

pub fn valid_price_feed_ids(xstock: &[u8; 32], underlying: &[u8; 32], redemption: &[u8; 32]) -> (r:
    bool)
    ensures
        r == spec_valid_price_feed_ids(*xstock, *underlying, *redemption),
{
    if is_zero_feed(xstock) {
        return false;
    }
    let underlying_set = !is_zero_feed(underlying);
    let redemption_set = !is_zero_feed(redemption);
    if underlying_set && keys_eq(underlying, xstock) {
        return false;
    }
    if redemption_set && keys_eq(redemption, xstock) {
        return false;
    }
    if underlying_set && redemption_set && keys_eq(underlying, redemption) {
        return false;
    }
    true
}

/// The key names a Pyth Lazer feed: all bytes after the id are zero.
pub fn is_lazer_feed_key(feed_id: &[u8; 32]) -> (r: bool)
    ensures
        r == is_lazer_key(*feed_id),
{
    let mut i: usize = LAZER_FEED_ID_BYTES;
    while i < 32
        invariant
            4 <= i <= 32,
            feed_id@.len() == 32,
            forall|j: int| 4 <= j < i ==> feed_id@[j] == 0u8,
        decreases 32 - i,
    {
        if feed_id[i] != 0u8 {
            return false;
        }
        i = i + 1;
    }
    true
}

/// The key names a Nest-signed feed: set, and outside the Lazer namespace.
pub fn is_signed_feed_key(feed_id: &[u8; 32]) -> (r: bool)
    ensures
        r == (!is_zero_key(*feed_id) && !is_lazer_key(*feed_id)),
{
    !is_zero_feed(feed_id) && !is_lazer_feed_key(feed_id)
}

/// A collateral's xStock feed must be set and be a Lazer or a signed feed.
pub fn validate_collateral_feed_config(xstock_usd_feed_id: &[u8; 32]) -> (r: Result<(), CoreError>)
    ensures
        r is Ok <==> !is_zero_key(*xstock_usd_feed_id),
        r is Err ==> r == Err::<(), CoreError>(CoreError::InvalidParameter),
{
    if is_zero_feed(xstock_usd_feed_id) {
        return Err(CoreError::InvalidParameter);
    }
    if !(is_lazer_feed_key(xstock_usd_feed_id) || is_signed_feed_key(xstock_usd_feed_id)) {
        return Err(CoreError::InvalidParameter);
    }
    Ok(())
}

/// The Lazer feed id named by a key, which must be a nonzero Lazer id.
pub fn validate_lazer_feed_config(xstock_usd_feed_id: &[u8; 32]) -> (r: Result<u32, CoreError>)
    ensures
        r == (if is_lazer_key(*xstock_usd_feed_id) && lazer_id_of(*xstock_usd_feed_id) > 0 {
            Ok::<u32, CoreError>(lazer_id_of(*xstock_usd_feed_id) as u32)
        } else {
            Err(CoreError::InvalidParameter)
        }),
{
    if !is_lazer_feed_key(xstock_usd_feed_id) {
        return Err(CoreError::InvalidParameter);
    }
    let id: u32 = xstock_usd_feed_id[0] as u32 + 256u32 * (xstock_usd_feed_id[1] as u32)
        + 65_536u32 * (xstock_usd_feed_id[2] as u32) + 16_777_216u32 * (
    xstock_usd_feed_id[3] as u32);
    if id == 0 {
        return Err(CoreError::InvalidParameter);
    }
    Ok(id)
}

/// The signed-price path only serves feeds outside the Lazer namespace.
pub fn validate_signed_feed_config(feed_id: &[u8; 32]) -> (r: Result<(), CoreError>)
    ensures
        r == (if !is_zero_key(*feed_id) && !is_lazer_key(*feed_id) {
            Ok(())
        } else {
            Err(CoreError::InvalidParameter)
        }),
{
    if is_signed_feed_key(feed_id) {
        Ok(())
    } else {
        Err(CoreError::InvalidParameter)
    }
}

/// The Lazer feed id configured for a collateral market.
pub fn lazer_feed_id_from_config(config: &CollateralConfig) -> (r: Result<u32, CoreError>)
    ensures
        r == (if is_lazer_key(config.xstock_usd_feed_id) && lazer_id_of(config.xstock_usd_feed_id)
            > 0 {
            Ok::<u32, CoreError>(lazer_id_of(config.xstock_usd_feed_id) as u32)
        } else {
            Err(CoreError::InvalidParameter)
        }),
{
    validate_lazer_feed_config(&config.xstock_usd_feed_id)
}

/// The feed key of a Lazer feed id.
pub fn lazer_feed_key(feed_id: u32) -> (r: [u8; 32])
    ensures
        is_lazer_key(r),
        lazer_id_of(r) == feed_id,
{
    let b0 = (feed_id % 256) as u8;
    let b1 = ((feed_id / 256) % 256) as u8;
    let b2 = ((feed_id / 65_536) % 256) as u8;
    let b3 = (feed_id / 16_777_216) as u8;
    let key: [u8; 32] = [
        b0, b1, b2, b3, 0, 0, 0, 0, 0, 0, 0, 0, 0, 0, 0, 0, 0, 0, 0, 0, 0, 0, 0, 0, 0, 0, 0, 0, 0,
        0, 0, 0,
    ];
    assert(key@[0] == b0 && key@[1] == b1 && key@[2] == b2 && key@[3] == b3);
    key
}

/// 10 to the power `exponent`, for exponents 0 to 38.
pub fn pow10_i32(exponent: i32) -> (r: Result<u128, CoreError>)
    ensures
        r == (if 0 <= exponent <= 38 {
            Ok::<u128, CoreError>(pow10_spec(exponent as nat) as u128)
        } else {
            Err(CoreError::InvalidParameter)
        }),
        r is Ok ==> pow10_spec(exponent as nat) <= u128::MAX,
{
    if exponent < 0 || exponent > 38 {
        return Err(CoreError::InvalidParameter);
    }
    let mut value: u128 = 1;
    let mut i: i32 = 0;
    while i < exponent
        invariant
            0 <= i <= exponent <= 38,
            value == pow10_spec(i as nat),
        decreases exponent - i,
    {
        proof {
            crate::math::lemma_pow10_monotone((i + 1) as nat, 38);
            assert(pow10_spec(38) == 100_000_000_000_000_000_000_000_000_000_000_000_000nat) by {
                reveal_with_fuel(pow10_spec, 39);
            }
        }
        value = value * 10;
        i = i + 1;
    }
    Ok(value)
}

/// An oracle value rescaled to eight decimals from `value * 10^exponent`:
/// rounded down, or up when `round_up` (for confidence intervals).
pub open spec fn spec_scale_oracle_price_to_e8(value: u128, exponent: i32, round_up: bool) -> Result<
    u128,
    CoreError,
> {
    let adjustment = exponent + 8;
    if adjustment > i32::MAX {
        Err(CoreError::MathOverflow)
    } else if adjustment >= 0 {
        if adjustment > 38 {
            Err(CoreError::InvalidParameter)
        } else if value * pow10_spec(adjustment as nat) > u128::MAX {
            Err(CoreError::MathOverflow)
        } else {
            Ok((value * pow10_spec(adjustment as nat)) as u128)
        }
    } else {
        let divisor = pow10_spec((-adjustment) as nat);
        if -adjustment > 38 {
            Err(CoreError::InvalidParameter)
        } else if round_up && value > 0 {
            if value + divisor - 1 > u128::MAX {
                Err(CoreError::MathOverflow)
            } else {
                Ok(((value + divisor - 1) / (divisor as int)) as u128)
            }
        } else {
            Ok((value as int / (divisor as int)) as u128)
        }
    }
}

pub fn scale_oracle_price_to_e8(value: u128, exponent: i32, round_up: bool) -> (r: Result<
    u128,
    CoreError,
>)
    ensures
        r == spec_scale_oracle_price_to_e8(value, exponent, round_up),
{
    let adjustment = match exponent.checked_add(8) {
        Some(a) => a,
        None => {
            return Err(CoreError::MathOverflow);
        },
    };
    if adjustment >= 0 {
        let factor = pow10_i32(adjustment)?;
        match value.checked_mul(factor) {
            Some(v) => Ok(v),
            None => Err(CoreError::MathOverflow),
        }
    } else {
        let divisor = pow10_i32(-adjustment)?;
        proof {
            crate::math::lemma_pow10_positive((-adjustment) as nat);
        }
        if round_up && value > 0 {
            match value.checked_add(divisor - 1) {
                Some(v) => Ok(v / divisor),
                None => Err(CoreError::MathOverflow),
            }
        } else {
            Ok(value / divisor)
        }
    }
}

/// A Lazer price converted to an eight-decimal oracle price: the price is
/// rounded down and its confidence up.
pub open spec fn spec_lazer_price_to_oracle_price(
    feed_id: u32,
    price_mantissa: i64,
    confidence_mantissa: i64,
    exponent: i16,
    publish_time: i64,
) -> Result<(u64, u64), CoreError> {
    if price_mantissa <= 0 || confidence_mantissa < 0 {
        Err(CoreError::OracleError)
    } else {
        match spec_scale_oracle_price_to_e8(price_mantissa as u128, exponent as i32, false) {
            Err(e) => Err(e),
            Ok(price) => match spec_scale_oracle_price_to_e8(
                confidence_mantissa as u128,
                exponent as i32,
                true,
            ) {
                Err(e) => Err(e),
                Ok(confidence) => if price > u64::MAX || confidence > u64::MAX {
                    Err(CoreError::AmountOverflow)
                } else {
                    Ok((price as u64, confidence as u64))
                },
            },
        }
    }
}

pub fn lazer_price_to_oracle_price(
    feed_id: u32,
    price_mantissa: i64,
    confidence_mantissa: i64,
    exponent: i16,
    publish_time: i64,
) -> (r: Result<OraclePriceAccount, CoreError>)
    ensures
        match spec_lazer_price_to_oracle_price(
            feed_id,
            price_mantissa,
            confidence_mantissa,
            exponent,
            publish_time,
        ) {
            Ok((price, confidence)) => r is Ok && r->Ok_0.price_e8 == price
                && r->Ok_0.confidence_e8 == confidence && r->Ok_0.publish_time == publish_time
                && is_lazer_key(r->Ok_0.feed_id) && lazer_id_of(r->Ok_0.feed_id) == feed_id,
            Err(e) => r == Err::<OraclePriceAccount, CoreError>(e),
        },
{
    if price_mantissa <= 0 || confidence_mantissa < 0 {
        return Err(CoreError::OracleError);
    }
    let price_e8 = scale_oracle_price_to_e8(price_mantissa as u128, exponent as i32, false)?;
    let confidence_e8 = scale_oracle_price_to_e8(confidence_mantissa as u128, exponent as i32, true)?;
    if price_e8 > u64::MAX as u128 || confidence_e8 > u64::MAX as u128 {
        return Err(CoreError::AmountOverflow);
    }
    Ok(
        OraclePriceAccount {
            feed_id: lazer_feed_key(feed_id),
            price_e8: price_e8 as u64,
            confidence_e8: confidence_e8 as u64,
            publish_time,
        },
    )
}

/// A placeholder price for an unused feed slot.
pub fn inactive_oracle_price(feed_id: [u8; 32]) -> (r: OraclePriceAccount)
    ensures
        r == (OraclePriceAccount { feed_id, price_e8: 0, confidence_e8: 0, publish_time: 0 }),
{
    OraclePriceAccount { feed_id, price_e8: 0, confidence_e8: 0, publish_time: 0 }
}

pub open spec fn domain_price_of(price: OraclePriceAccount) -> OraclePrice {
    OraclePrice {
        feed_id: price.feed_id,
        price_e8: price.price_e8,
        confidence_e8: price.confidence_e8,
        publish_time: price.publish_time,
    }
}

pub fn to_domain_price(price: OraclePriceAccount) -> (r: OraclePrice)
    ensures
        r == domain_price_of(price),
{
    OraclePrice {
        feed_id: price.feed_id,
        price_e8: price.price_e8,
        confidence_e8: price.confidence_e8,
        publish_time: price.publish_time,
    }
}

/// The market's xStock staleness bound, which must lie in (0, 120] seconds.
pub fn xstock_max_staleness_seconds(config: &CollateralConfig) -> (r: Result<i64, CoreError>)
    ensures
        r == (if 0 < config.max_staleness_seconds <= MAX_XSTOCK_PRICE_STALENESS_SECONDS {
            Ok::<i64, CoreError>(config.max_staleness_seconds)
        } else {
            Err(CoreError::InvalidParameter)
        }),
{
    if config.max_staleness_seconds > 0
        && config.max_staleness_seconds <= MAX_XSTOCK_PRICE_STALENESS_SECONDS {
        Ok(config.max_staleness_seconds)
    } else {
        Err(CoreError::InvalidParameter)
    }
}

/// The price policy a market applies to a feed.
pub open spec fn spec_policy(feed_id: [u8; 32], config: CollateralConfig) -> Result<
    PricePolicy,
    CoreError,
> {
    if 0 < config.max_staleness_seconds <= MAX_XSTOCK_PRICE_STALENESS_SECONDS {
        Ok(
            PricePolicy {
                expected_feed_id: feed_id,
                max_staleness_seconds: config.max_staleness_seconds,
                max_confidence_bps: config.max_confidence_bps,
            },
        )
    } else {
        Err(CoreError::InvalidParameter)
    }
}

pub fn policy(feed_id: [u8; 32], config: &CollateralConfig) -> (r: Result<PricePolicy, CoreError>)
    ensures
        r == spec_policy(feed_id, *config),
{
    let max_staleness_seconds = xstock_max_staleness_seconds(config)?;
    Ok(
        PricePolicy {
            expected_feed_id: feed_id,
            max_staleness_seconds,
            max_confidence_bps: config.max_confidence_bps,
        },
    )
}

/// Conservative per-token price of a market's collateral at `now` from its
/// snapshot: the snapshot must hold the market's feed.
pub open spec fn spec_raw_token_safe_price(
    config: CollateralConfig,
    oracle: OracleSnapshot,
    now: i64,
) -> Result<u128, CoreError> {
    if oracle.xstock_usd.feed_id@ != config.xstock_usd_feed_id@ {
        Err(CoreError::OracleError)
    } else {
        match spec_policy(config.xstock_usd_feed_id, config) {
            Err(e) => Err(e),
            Ok(policy) => match spec_lower_confidence_bound(
                domain_price_of(oracle.xstock_usd),
                policy,
                now,
            ) {
                Err(e) => Err(core_error_of(e)),
                Ok(price) => Ok(price),
            },
        }
    }
}

pub fn raw_token_safe_price_from_snapshot(
    config: &CollateralConfig,
    oracle: &OracleSnapshot,
    now: i64,
) -> (r: Result<u128, CoreError>)
    ensures
        r == spec_raw_token_safe_price(*config, *oracle, now),
{
    if !keys_eq(&oracle.xstock_usd.feed_id, &config.xstock_usd_feed_id) {
        return Err(CoreError::OracleError);
    }
    let xstock_policy = policy(config.xstock_usd_feed_id, config)?;
    match safe_raw_token_price_e8(
        PricingInputs { xstock_usd: to_domain_price(oracle.xstock_usd), now, xstock_policy },
    ) {
        Ok(price) => Ok(price),
        Err(e) => Err(map_core_error(e)),
    }
}

/// USD value of `raw_amount` of a market's collateral at the snapshot price.
pub open spec fn spec_collateral_value_from_snapshot(
    config: CollateralConfig,
    oracle: OracleSnapshot,
    raw_amount: u128,
    now: i64,
) -> Result<u128, CoreError> {
    match spec_raw_token_safe_price(config, oracle, now) {
        Err(e) => Err(e),
        Ok(price) => match spec_collateral_value_usd(raw_amount, config.collateral_decimals, price) {
            Err(e) => Err(core_error_of(e)),
            Ok(v) => Ok(v),
        },
    }
}

pub fn collateral_value_for_raw_from_snapshot(
    config: &CollateralConfig,
    oracle: &OracleSnapshot,
    raw_amount: u128,
    now: i64,
) -> (r: Result<u128, CoreError>)
    ensures
        r == spec_collateral_value_from_snapshot(*config, *oracle, raw_amount, now),
{
    let price = raw_token_safe_price_from_snapshot(config, oracle, now)?;
    match collateral_value_usd(raw_amount, config.collateral_decimals, price) {
        Ok(v) => Ok(v),
        Err(e) => Err(map_core_error(e)),
    }
}

/// A new xStock price must pass the market's price policy at `now`.
pub fn validate_xstock_oracle_price(
    config: &CollateralConfig,
    xstock_usd: OraclePriceAccount,
    now: i64,
) -> (r: Result<(), CoreError>)
    ensures
        r == (match spec_policy(config.xstock_usd_feed_id, *config) {
            Err(e) => Err(e),
            Ok(policy) => match spec_lower_confidence_bound(domain_price_of(xstock_usd), policy, now) {
                Err(e) => Err(core_error_of(e)),
                Ok(_) => Ok(()),
            },
        }),
{
    let xstock_policy = policy(config.xstock_usd_feed_id, config)?;
    match safe_raw_token_price_e8(
        PricingInputs { xstock_usd: to_domain_price(xstock_usd), now, xstock_policy },
    ) {
        Ok(_) => Ok(()),
        Err(e) => Err(map_core_error(e)),
    }
}

pub open spec fn same_price(a: OraclePriceAccount, b: OraclePriceAccount) -> bool {
    a.feed_id@ == b.feed_id@ && a.price_e8 == b.price_e8 && a.confidence_e8 == b.confidence_e8
        && a.publish_time == b.publish_time
}

/// For the same feed, an update may not be older than the stored one, and
/// one from the same source instant must carry the same price.
pub fn require_monotonic_oracle_update(
    oracle: &OracleSnapshot,
    xstock_usd: OraclePriceAccount,
    source_publish_time_us: i64,
) -> (r: Result<(), CoreError>)
    ensures
        r == (if xstock_usd.feed_id@ != oracle.xstock_usd.feed_id@ {
            Ok(())
        } else if source_publish_time_us < oracle.source_publish_time_us {
            Err(CoreError::OracleError)
        } else if source_publish_time_us == oracle.source_publish_time_us && !same_price(
            xstock_usd,
            oracle.xstock_usd,
        ) {
            Err(CoreError::OracleError)
        } else {
            Ok(())
        }),
{
    if !keys_eq(&xstock_usd.feed_id, &oracle.xstock_usd.feed_id) {
        return Ok(());
    }
    if source_publish_time_us < oracle.source_publish_time_us {
        return Err(CoreError::OracleError);
    }
    if source_publish_time_us == oracle.source_publish_time_us {
        let same = xstock_usd.price_e8 == oracle.xstock_usd.price_e8
            && xstock_usd.confidence_e8 == oracle.xstock_usd.confidence_e8
            && xstock_usd.publish_time == oracle.xstock_usd.publish_time;
        if !same {
            return Err(CoreError::OracleError);
        }
    }
    Ok(())
}

} // verus!
