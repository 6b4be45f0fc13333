use vstd::prelude::*;

use crate::accounts::{
    keys_eq, CollateralConfig, MarketStateAccount, NestPriceSignerConfig, OraclePriceAccount,
    OracleSnapshot, Pubkey, DEFAULT_PUBKEY,
};
use crate::bytes::{
    signed_price_message, spec_signed_price_message, SignedPricePayload, SIGNED_PRICE_MAGIC,
    SIGNED_PRICE_VERSION,
};
use crate::core_error::{core_error_of, CoreError};
use crate::feeds::{
    domain_price_of, inactive_oracle_price, is_lazer_key, is_zero_key, require_monotonic_oracle_update,
    same_price, spec_policy, validate_signed_feed_config, validate_xstock_oracle_price,
};
use crate::oracle::spec_lower_confidence_bound;
use crate::readers::{
    lazer_price_from_bytes, lemma_lazer_price_from_bytes_unique, read_lazer_price,
    spec_ed25519_instruction_ok, verify_ed25519_instruction_data,
};

verus! {

/// The ed25519 instruction a signed price refers to, as loaded from the
/// instructions sysvar.
#[derive(Debug, Clone, PartialEq, Eq)]
pub struct Ed25519Instruction {
    pub program_id: Pubkey,
    pub account_count: usize,
    pub data: Vec<u8>,
}

pub struct RefreshSignedOracle {
    pub protocol_key: Pubkey,
    pub collateral_config: CollateralConfig,
    pub collateral_config_key: Pubkey,
    pub nest_price_signer: NestPriceSignerConfig,
    pub oracle: OracleSnapshot,
    pub oracle_bump: u8,
    pub ed25519_instruction: Ed25519Instruction,
}

/// A new price passes the market's policy at `now`.
pub open spec fn price_acceptable(config: CollateralConfig, price: OraclePriceAccount, now: i64) -> Result<
    (),
    CoreError,
> {
    match spec_policy(config.xstock_usd_feed_id, config) {
        Err(e) => Err(e),
        Ok(policy) => match spec_lower_confidence_bound(domain_price_of(price), policy, now) {
            Err(e) => Err(core_error_of(e)),
            Ok(_) => Ok(()),
        },
    }
}

/// A new price for the same feed is not older than the stored one and agrees
/// with it at the same source instant.
pub open spec fn monotonic(oracle: OracleSnapshot, price: OraclePriceAccount, source_us: i64) -> bool {
    price.feed_id@ != oracle.xstock_usd.feed_id@ || (source_us >= oracle.source_publish_time_us && (
    source_us == oracle.source_publish_time_us ==> same_price(price, oracle.xstock_usd)))
}

/// The snapshot holding `price` for the market.
pub open spec fn refreshed_snapshot(
    oracle: OracleSnapshot,
    protocol_key: Pubkey,
    config_key: Pubkey,
    price: OraclePriceAccount,
    source_us: i64,
    bump: u8,
) -> OracleSnapshot {
    OracleSnapshot {
        protocol: protocol_key,
        collateral_config: config_key,
        xstock_usd: price,
        reserved_underlying_usd: OraclePriceAccount {
            feed_id: DEFAULT_PUBKEY,
            price_e8: 0,
            confidence_e8: 0,
            publish_time: 0,
        },
        reserved_redemption_rate: OraclePriceAccount {
            feed_id: DEFAULT_PUBKEY,
            price_e8: 0,
            confidence_e8: 0,
            publish_time: 0,
        },
        reserved_market_state: MarketStateAccount::Regular,
        source_publish_time_us: source_us,
        bump,
    }
}

fn store_price(
    oracle: &mut OracleSnapshot,
    protocol_key: Pubkey,
    config_key: Pubkey,
    price: OraclePriceAccount,
    source_us: i64,
    bump: u8,
)
    ensures
        *final(oracle) == refreshed_snapshot(*old(oracle), protocol_key, config_key, price, source_us, bump),
{
    oracle.protocol = protocol_key;
    oracle.collateral_config = config_key;
    oracle.xstock_usd = price;
    oracle.source_publish_time_us = source_us;
    oracle.reserved_underlying_usd = inactive_oracle_price(DEFAULT_PUBKEY);
    oracle.reserved_redemption_rate = inactive_oracle_price(DEFAULT_PUBKEY);
    oracle.reserved_market_state = MarketStateAccount::Regular;
    oracle.bump = bump;
}

/// The signed payload as a price.
pub open spec fn signed_price_of(payload: SignedPricePayload) -> OraclePriceAccount {
    OraclePriceAccount {
        feed_id: payload.feed_id,
        price_e8: payload.price_e8,
        confidence_e8: payload.confidence_e8,
        publish_time: payload.publish_time,
    }
}

/// A signed price is accepted when the configured signer signed exactly its
/// message, it is a current-version payload for the market's signed feed,
/// positive, not expired, within policy, and not older than the stored one.
pub open spec fn spec_refresh_signed_oracle(
    ctx: RefreshSignedOracle,
    payload: SignedPricePayload,
    now: i64,
) -> Result<OracleSnapshot, CoreError> {
    let config = ctx.collateral_config;
    let price = signed_price_of(payload);
    let source_us = payload.publish_time * 1_000_000;
    if config.protocol@ != ctx.protocol_key@ || ctx.nest_price_signer.protocol@ != ctx.protocol_key@ {
        Err(CoreError::InvalidParameter)
    } else if spec_ed25519_instruction_ok(
        ctx.ed25519_instruction.program_id,
        ctx.ed25519_instruction.account_count,
        ctx.ed25519_instruction.data@,
        ctx.nest_price_signer.signer,
        spec_signed_price_message(payload),
    ) is Err {
        Err(
            spec_ed25519_instruction_ok(
                ctx.ed25519_instruction.program_id,
                ctx.ed25519_instruction.account_count,
                ctx.ed25519_instruction.data@,
                ctx.nest_price_signer.signer,
                spec_signed_price_message(payload),
            )->Err_0,
        )
    } else if payload.magic@ != SIGNED_PRICE_MAGIC@ || payload.version != SIGNED_PRICE_VERSION {
        Err(CoreError::InvalidParameter)
    } else if is_zero_key(config.xstock_usd_feed_id) || is_lazer_key(config.xstock_usd_feed_id) {
        Err(CoreError::InvalidParameter)
    } else if payload.feed_id@ != config.xstock_usd_feed_id@ {
        Err(CoreError::OracleError)
    } else if payload.price_e8 == 0 || payload.expires_at < payload.publish_time
        || payload.expires_at < now {
        Err(CoreError::OracleError)
    } else if price_acceptable(config, price, now) is Err {
        Err(price_acceptable(config, price, now)->Err_0)
    } else if source_us > i64::MAX || source_us < i64::MIN {
        Err(CoreError::MathOverflow)
    } else if !monotonic(ctx.oracle, price, source_us as i64) {
        Err(CoreError::OracleError)
    } else {
        Ok(
            refreshed_snapshot(
                ctx.oracle,
                ctx.protocol_key,
                ctx.collateral_config_key,
                price,
                source_us as i64,
                ctx.oracle_bump,
            ),
        )
    }
}

fn magic_matches(magic: &[u8; 8]) -> (r: bool)
    ensures
        r == (magic@ == SIGNED_PRICE_MAGIC@),
{
    let expected: [u8; 8] = SIGNED_PRICE_MAGIC;
    let mut i: usize = 0;
    while i < 8
        invariant
            i <= 8,
            magic@.len() == 8,
            expected@ == SIGNED_PRICE_MAGIC@,
            forall|j: int| 0 <= j < i ==> magic@[j] == expected@[j],
        decreases 8 - i,
    {
        if magic[i] != expected[i] {
            return false;
        }
        i = i + 1;
    }
    assert(magic@ =~= expected@);
    true
}

pub fn refresh_signed_oracle(ctx: &mut RefreshSignedOracle, payload: SignedPricePayload, now: i64) -> (r:
    Result<(), CoreError>)
    ensures
        match spec_refresh_signed_oracle(*old(ctx), payload, now) {
            Ok(o) => r is Ok && final(ctx).oracle == o,
            Err(e) => r == Err::<(), CoreError>(e) && final(ctx).oracle == old(ctx).oracle,
        },
        final(ctx).collateral_config == old(ctx).collateral_config,
{
    if !keys_eq(&ctx.collateral_config.protocol, &ctx.protocol_key) || !keys_eq(
        &ctx.nest_price_signer.protocol,
        &ctx.protocol_key,
    ) {
        return Err(CoreError::InvalidParameter);
    }
    let message = signed_price_message(&payload)?;
    verify_ed25519_instruction_data(
        &ctx.ed25519_instruction.program_id,
        ctx.ed25519_instruction.account_count,
        ctx.ed25519_instruction.data.as_slice(),
        &ctx.nest_price_signer.signer,
        message.as_slice(),
    )?;
    if !magic_matches(&payload.magic) || payload.version != SIGNED_PRICE_VERSION {
        return Err(CoreError::InvalidParameter);
    }
    validate_signed_feed_config(&ctx.collateral_config.xstock_usd_feed_id)?;
    if !keys_eq(&payload.feed_id, &ctx.collateral_config.xstock_usd_feed_id) {
        return Err(CoreError::OracleError);
    }
    if payload.price_e8 == 0 || payload.expires_at < payload.publish_time || payload.expires_at
        < now {
        return Err(CoreError::OracleError);
    }
    let price = OraclePriceAccount {
        feed_id: payload.feed_id,
        price_e8: payload.price_e8,
        confidence_e8: payload.confidence_e8,
        publish_time: payload.publish_time,
    };
    validate_xstock_oracle_price(&ctx.collateral_config, price, now)?;
    let source_us = match payload.publish_time.checked_mul(1_000_000) {
        Some(v) => v,
        None => {
            return Err(CoreError::MathOverflow);
        },
    };
    require_monotonic_oracle_update(&ctx.oracle, price, source_us)?;
    let protocol_key = ctx.protocol_key;
    let config_key = ctx.collateral_config_key;
    let bump = ctx.oracle_bump;
    store_price(&mut ctx.oracle, protocol_key, config_key, price, source_us, bump);
    Ok(())
}

pub struct RefreshLazerOracle {
    pub protocol_key: Pubkey,
    pub collateral_config: CollateralConfig,
    pub collateral_config_key: Pubkey,
    pub oracle: OracleSnapshot,
    pub oracle_bump: u8,
}

/// Stores the market's price from a payload the Lazer verifier accepted,
/// when it passes the market's policy and is not older than the stored one.
pub fn refresh_lazer_oracle(ctx: &mut RefreshLazerOracle, payload: &[u8], now: i64) -> (r: Result<
    (),
    CoreError,
>)
    ensures
        old(ctx).collateral_config.protocol@ != old(ctx).protocol_key@ ==> r == Err::<(), CoreError>(
            CoreError::InvalidParameter,
        ),
        forall|e: CoreError|
            old(ctx).collateral_config.protocol@ == old(ctx).protocol_key@ && #[trigger] lazer_price_from_bytes(
                payload@,
                old(ctx).collateral_config,
                Err(e),
            ) ==> r == Err::<(), CoreError>(e),
        forall|price: OraclePriceAccount, source_us: i64|
            #[trigger] lazer_price_from_bytes(
                payload@,
                old(ctx).collateral_config,
                Ok((price, source_us)),
            ) && old(ctx).collateral_config.protocol@ == old(ctx).protocol_key@ ==> (if price_acceptable(
                old(ctx).collateral_config,
                price,
                now,
            ) is Err {
                r == Err::<(), CoreError>(price_acceptable(old(ctx).collateral_config, price, now)->Err_0)
            } else if !monotonic(old(ctx).oracle, price, source_us) {
                r == Err::<(), CoreError>(CoreError::OracleError)
            } else {
                r is Ok && final(ctx).oracle == refreshed_snapshot(
                    old(ctx).oracle,
                    old(ctx).protocol_key,
                    old(ctx).collateral_config_key,
                    price,
                    source_us,
                    old(ctx).oracle_bump,
                )
            }),
        r is Ok ==> exists|price: OraclePriceAccount, source_us: i64|
            lazer_price_from_bytes(payload@, old(ctx).collateral_config, Ok((price, source_us)))
                && final(ctx).oracle == refreshed_snapshot(
                old(ctx).oracle,
                old(ctx).protocol_key,
                old(ctx).collateral_config_key,
                price,
                source_us,
                old(ctx).oracle_bump,
            ),
        r is Err ==> final(ctx).oracle == old(ctx).oracle,
        final(ctx).collateral_config == old(ctx).collateral_config,
{
    if !keys_eq(&ctx.collateral_config.protocol, &ctx.protocol_key) {
        return Err(CoreError::InvalidParameter);
    }
    let read = read_lazer_price(payload, &ctx.collateral_config);
    proof {
        assert forall|any: Result<(OraclePriceAccount, i64), CoreError>|
            lazer_price_from_bytes(payload@, ctx.collateral_config, any) implies any == read by {
            lemma_lazer_price_from_bytes_unique(payload@, ctx.collateral_config, any, read);
        }
    }
    let (price, source_us) = read?;
    validate_xstock_oracle_price(&ctx.collateral_config, price, now)?;
    require_monotonic_oracle_update(&ctx.oracle, price, source_us)?;
    let ghost before = ctx.oracle;
    let protocol_key = ctx.protocol_key;
    let config_key = ctx.collateral_config_key;
    let bump = ctx.oracle_bump;
    store_price(&mut ctx.oracle, protocol_key, config_key, price, source_us, bump);
    assert(lazer_price_from_bytes(payload@, ctx.collateral_config, Ok((price, source_us)))
        && ctx.oracle == refreshed_snapshot(before, protocol_key, config_key, price, source_us, bump));
    Ok(())
}

} // verus!
