use vstd::prelude::*;

use crate::accounts::{
    keys_eq, CollateralConfig, OraclePriceAccount, Pubkey, KLEND_NULL_PUBKEY, KLEND_PROGRAM_ID,
    KLEND_STAGING_PROGRAM_ID, NEST_STAKE_PROGRAM_ID, SPL_TOKEN_PROGRAM_ID, TOKEN_2022_PROGRAM_ID,
};
use crate::lazer::{deserialize_lazer_payload, lazer_payload};
use crate::pda::{is_staking_state, is_staking_state_key};
use crate::bytes::{le_value, read_pubkey_at, read_u128_at, read_u16_le};
use crate::core_error::CoreError;
use crate::feeds::{
    is_lazer_key, lazer_feed_id_from_config, lazer_id_of, lazer_price_to_oracle_price,
    spec_lazer_price_to_oracle_price,
};

verus! {

/// Account discriminator of nest-stake's staking state.
pub const STAKING_STATE_DISCRIMINATOR: [u8; 8] = [152, 226, 234, 201, 202, 8, 155, 60];
pub const STAKING_STATE_NUSD_MINT_OFFSET: usize = 40;
pub const STAKING_STATE_STAKING_VAULT_NUSD_OFFSET: usize = 216;

pub const KLEND_RESERVE_PUBKEY_FIELD_SIZE: usize = 32;
pub const KLEND_RESERVE_LENDING_MARKET_OFFSET: usize = 32;
pub const KLEND_RESERVE_LIQUIDITY_MINT_OFFSET: usize = 128;
pub const KLEND_RESERVE_LIQUIDITY_SUPPLY_OFFSET: usize = 160;
pub const KLEND_RESERVE_LIQUIDITY_TOKEN_PROGRAM_OFFSET: usize = 408;
pub const KLEND_RESERVE_COLLATERAL_MINT_OFFSET: usize = 2560;

/// The ed25519 signature-verification program.
pub const ED25519_PROGRAM_ID: Pubkey = [
    3, 125, 70, 214, 124, 147, 251, 190, 18, 249, 66, 143, 131, 141, 64, 255, 5, 112, 116, 73,
    39, 244, 138, 100, 252, 202, 112, 68, 128, 0, 0, 0,
];

fn bytes_match(data: &[u8], offset: usize, expected: &[u8]) -> (r: bool)
    requires
        offset + expected@.len() <= data@.len(),
    ensures
        r == (data@.subrange(offset as int, offset + expected@.len()) == expected@),
{
    let total = data.len();
    let n = expected.len();
    let mut i: usize = 0;
    while i < n
        invariant
            i <= n,
            n == expected@.len(),
            total == data@.len(),
            offset + n <= total,
            forall|j: int| 0 <= j < i ==> data@[offset + j] == expected@[j],
        decreases n - i,
    {
        if data[offset + i] != expected[i] {
            assert(data@.subrange(offset as int, offset + n)[i as int] != expected@[i as int]);
            return false;
        }
        i = i + 1;
    }
    assert(data@.subrange(offset as int, offset + n) =~= expected@);
    true
}

/// Staked nUSD recorded in a nest-stake staking state account's data, after
/// checking its discriminator and nUSD mint.
pub open spec fn spec_staking_vault_nusd_from_data(data: Seq<u8>, expected_nusd_mint: Pubkey) -> Result<
    u128,
    CoreError,
> {
    if data.len() < 232 || data.subrange(0, 8) != STAKING_STATE_DISCRIMINATOR@ {
        Err(CoreError::InvalidParameter)
    } else if data.subrange(40, 72) != expected_nusd_mint@ {
        Err(CoreError::InvalidParameter)
    } else {
        Ok(le_value(data.subrange(216, 232)) as u128)
    }
}

pub fn staking_vault_nusd_from_data(data: &[u8], expected_nusd_mint: &Pubkey) -> (r: Result<
    u128,
    CoreError,
>)
    ensures
        r == spec_staking_vault_nusd_from_data(data@, *expected_nusd_mint),
{
    if data.len() < STAKING_STATE_STAKING_VAULT_NUSD_OFFSET + 16 {
        return Err(CoreError::InvalidParameter);
    }
    let discriminator: [u8; 8] = STAKING_STATE_DISCRIMINATOR;
    if !bytes_match(data, 0, discriminator.as_slice()) {
        return Err(CoreError::InvalidParameter);
    }
    let mint = read_pubkey_at(data, STAKING_STATE_NUSD_MINT_OFFSET)?;
    if !keys_eq(&mint, expected_nusd_mint) {
        return Err(CoreError::InvalidParameter);
    }
    read_u128_at(data, STAKING_STATE_STAKING_VAULT_NUSD_OFFSET)
}

/// Staked nUSD read from the staking state account: it must be the staking
/// PDA, owned by nest-stake, with matching data.
pub open spec fn spec_staking_vault_nusd_from_account(
    staking_state_key: Pubkey,
    staking_state_owner: Pubkey,
    staking_state_data: Seq<u8>,
    expected_nusd_mint: Pubkey,
) -> Result<u128, CoreError> {
    if !is_staking_state(staking_state_key) || staking_state_owner@ != NEST_STAKE_PROGRAM_ID@ {
        Err(CoreError::InvalidParameter)
    } else {
        spec_staking_vault_nusd_from_data(staking_state_data, expected_nusd_mint)
    }
}

pub fn staking_vault_nusd_from_account(
    staking_state_key: &Pubkey,
    staking_state_owner: &Pubkey,
    staking_state_data: &[u8],
    expected_nusd_mint: &Pubkey,
) -> (r: Result<u128, CoreError>)
    ensures
        r == spec_staking_vault_nusd_from_account(
            *staking_state_key,
            *staking_state_owner,
            staking_state_data@,
            *expected_nusd_mint,
        ),
{
    if !is_staking_state_key(staking_state_key) {
        return Err(CoreError::InvalidParameter);
    }
    if !keys_eq(staking_state_owner, &NEST_STAKE_PROGRAM_ID) {
        return Err(CoreError::InvalidParameter);
    }
    staking_vault_nusd_from_data(staking_state_data, expected_nusd_mint)
}

/// The address stored in a Kamino reserve account at `offset`.
pub fn read_klend_reserve_pubkey(data: &[u8], offset: usize) -> (r: Result<Pubkey, CoreError>)
    ensures
        offset + 32 > usize::MAX ==> r == Err::<Pubkey, CoreError>(CoreError::MathOverflow),
        offset + 32 <= usize::MAX && offset + 32 > data@.len() ==> r == Err::<Pubkey, CoreError>(
            CoreError::InvalidParameter,
        ),
        r is Ok ==> r->Ok_0@ == data@.subrange(offset as int, offset + 32),
        offset + 32 <= usize::MAX && offset + 32 <= data@.len() ==> r is Ok,
{
    let end = match offset.checked_add(KLEND_RESERVE_PUBKEY_FIELD_SIZE) {
        Some(e) => e,
        None => {
            return Err(CoreError::MathOverflow);
        },
    };
    if data.len() < end {
        return Err(CoreError::InvalidParameter);
    }
    read_pubkey_at(data, offset)
}

/// Kamino treats the default address, its null address and its own program
/// id as an unused optional oracle slot.
pub fn is_disabled_klend_optional_account(account: &Pubkey, kamino_program_id: &Pubkey) -> (r:
    bool)
    ensures
        r == (account@ == crate::accounts::DEFAULT_PUBKEY@ || account@ == KLEND_NULL_PUBKEY@
            || account@ == kamino_program_id@),
{
    keys_eq(account, &crate::accounts::DEFAULT_PUBKEY) || keys_eq(account, &KLEND_NULL_PUBKEY)
        || keys_eq(account, kamino_program_id)
}

/// The PSM may deploy only to Kamino's production or staging program.
pub fn valid_kamino_program_id(program_id: &Pubkey) -> (r: bool)
    ensures
        r == (program_id@ == KLEND_PROGRAM_ID@ || program_id@ == KLEND_STAGING_PROGRAM_ID@),
{
    keys_eq(program_id, &KLEND_PROGRAM_ID) || keys_eq(program_id, &KLEND_STAGING_PROGRAM_ID)
}

/// Collateral may live under the SPL token or Token-2022 program.
pub fn valid_collateral_token_program(token_program: &Pubkey) -> (r: bool)
    ensures
        r == (token_program@ == SPL_TOKEN_PROGRAM_ID@ || token_program@ == TOKEN_2022_PROGRAM_ID@),
{
    keys_eq(token_program, &SPL_TOKEN_PROGRAM_ID) || keys_eq(token_program, &TOKEN_2022_PROGRAM_ID)
}

/// The little-endian `u16` at `offset` of `data`.
pub open spec fn u16_at(data: Seq<u8>, offset: int) -> int {
    data[offset] + 256 * data[offset + 1]
}

/// The ed25519 instruction at the given index verifies one signature by
/// `signer` over exactly `message`, with all its data in this instruction.
pub open spec fn spec_ed25519_instruction_ok(
    program_id: Pubkey,
    account_count: usize,
    data: Seq<u8>,
    signer: Pubkey,
    message: Seq<u8>,
) -> Result<(), CoreError> {
    if program_id@ != ED25519_PROGRAM_ID@ {
        Err(CoreError::OracleError)
    } else if account_count != 0 || data.len() < 16 || data[0] != 1 || data[1] != 0 {
        Err(CoreError::OracleError)
    } else if u16_at(data, 4) != 65_535 || u16_at(data, 8) != 65_535 || u16_at(data, 14)
        != 65_535 {
        Err(CoreError::OracleError)
    } else {
        let signature_end = u16_at(data, 2) + 64;
        let public_key_offset = u16_at(data, 6);
        let message_offset = u16_at(data, 10);
        let message_end = message_offset + u16_at(data, 12);
        if signature_end > data.len() || public_key_offset + 32 > data.len() || message_end
            > data.len() {
            Err(CoreError::OracleError)
        } else if data.subrange(public_key_offset, public_key_offset + 32) != signer@ {
            Err(CoreError::Unauthorized)
        } else if data.subrange(message_offset, message_end) != message {
            Err(CoreError::OracleError)
        } else {
            Ok(())
        }
    }
}

pub fn verify_ed25519_instruction_data(
    program_id: &Pubkey,
    account_count: usize,
    data: &[u8],
    signer: &Pubkey,
    message: &[u8],
) -> (r: Result<(), CoreError>)
    ensures
        r == spec_ed25519_instruction_ok(*program_id, account_count, data@, *signer, message@),
{
    if !keys_eq(program_id, &ED25519_PROGRAM_ID) {
        return Err(CoreError::OracleError);
    }
    if account_count != 0 || data.len() < 16 || data[0] != 1 || data[1] != 0 {
        return Err(CoreError::OracleError);
    }
    let signature_offset = read_u16_le(data, 2)?;
    let signature_instruction_index = read_u16_le(data, 4)?;
    let public_key_offset = read_u16_le(data, 6)?;
    let public_key_instruction_index = read_u16_le(data, 8)?;
    let message_data_offset = read_u16_le(data, 10)?;
    let message_data_size = read_u16_le(data, 12)?;
    let message_instruction_index = read_u16_le(data, 14)?;
    if signature_instruction_index != 65_535 || public_key_instruction_index != 65_535
        || message_instruction_index != 65_535 {
        return Err(CoreError::OracleError);
    }
    let signature_end = signature_offset + 64;
    let public_key_end = public_key_offset + 32;
    let message_end = message_data_offset + message_data_size;
    if signature_end > data.len() || public_key_end > data.len() || message_end > data.len() {
        return Err(CoreError::OracleError);
    }
    if !bytes_match(data, public_key_offset, signer.as_slice()) {
        return Err(CoreError::Unauthorized);
    }
    if message.len() != message_data_size {
        return Err(CoreError::OracleError);
    }
    if !bytes_match(data, message_data_offset, message) {
        return Err(CoreError::OracleError);
    }
    Ok(())
}

/// One property of a Lazer feed update.
#[derive(Debug, Clone, Copy, PartialEq, Eq)]
pub enum LazerProperty {
    Price(Option<i64>),
    Exponent(i16),
    Confidence(Option<i64>),
    FeedUpdateTimestamp(Option<u64>),
    PublisherCount(u16),
    Other,
}

/// A verified Lazer payload: its timestamp in microseconds, its channel, and
/// each feed's id with its properties.
#[derive(Debug, Clone, PartialEq, Eq)]
pub struct LazerPayloadData {
    pub timestamp_us: u64,
    pub channel_id: u8,
    pub feeds: Vec<(u32, Vec<LazerProperty>)>,
}

/// Lazer channels whose prices may be used: real time and 50, 200 or
/// 1000 ms fixed rates.
pub open spec fn accepted_lazer_channel(channel_id: u8) -> bool {
    1 <= channel_id <= 4
}

/// The last price given among `props`.
pub open spec fn last_price(props: Seq<LazerProperty>) -> Option<i64>
    decreases props.len(),
{
    if props.len() == 0 {
        None
    } else {
        match props.last() {
            LazerProperty::Price(Some(v)) => Some(v),
            _ => last_price(props.drop_last()),
        }
    }
}

pub open spec fn last_exponent(props: Seq<LazerProperty>) -> Option<i16>
    decreases props.len(),
{
    if props.len() == 0 {
        None
    } else {
        match props.last() {
            LazerProperty::Exponent(v) => Some(v),
            _ => last_exponent(props.drop_last()),
        }
    }
}

pub open spec fn last_confidence(props: Seq<LazerProperty>) -> Option<i64>
    decreases props.len(),
{
    if props.len() == 0 {
        None
    } else {
        match props.last() {
            LazerProperty::Confidence(Some(v)) => Some(v),
            _ => last_confidence(props.drop_last()),
        }
    }
}

pub open spec fn last_update_timestamp(props: Seq<LazerProperty>) -> Option<u64>
    decreases props.len(),
{
    if props.len() == 0 {
        None
    } else {
        match props.last() {
            LazerProperty::FeedUpdateTimestamp(Some(v)) => Some(v),
            _ => last_update_timestamp(props.drop_last()),
        }
    }
}

pub open spec fn last_publisher_count(props: Seq<LazerProperty>) -> Option<u16>
    decreases props.len(),
{
    if props.len() == 0 {
        None
    } else {
        match props.last() {
            LazerProperty::PublisherCount(v) => Some(v),
            _ => last_publisher_count(props.drop_last()),
        }
    }
}

/// The values a feed's properties carry, the last of each kind winning.
pub struct FeedValues {
    pub price: Option<i64>,
    pub exponent: Option<i16>,
    pub confidence: Option<i64>,
    pub feed_update_timestamp: Option<u64>,
    pub publisher_count: Option<u16>,
}

fn collect_feed_values(props: &Vec<LazerProperty>) -> (r: FeedValues)
    ensures
        r.price == last_price(props@),
        r.exponent == last_exponent(props@),
        r.confidence == last_confidence(props@),
        r.feed_update_timestamp == last_update_timestamp(props@),
        r.publisher_count == last_publisher_count(props@),
{
    let mut values = FeedValues {
        price: None,
        exponent: None,
        confidence: None,
        feed_update_timestamp: None,
        publisher_count: None,
    };
    let mut i: usize = 0;
    while i < props.len()
        invariant
            i <= props@.len(),
            values.price == last_price(props@.take(i as int)),
            values.exponent == last_exponent(props@.take(i as int)),
            values.confidence == last_confidence(props@.take(i as int)),
            values.feed_update_timestamp == last_update_timestamp(props@.take(i as int)),
            values.publisher_count == last_publisher_count(props@.take(i as int)),
        decreases props@.len() - i,
    {
        proof {
            assert(props@.take(i + 1).drop_last() =~= props@.take(i as int));
            assert(props@.take(i + 1).last() == props@[i as int]);
        }
        match props[i] {
            LazerProperty::Price(Some(v)) => {
                values.price = Some(v);
            },
            LazerProperty::Exponent(v) => {
                values.exponent = Some(v);
            },
            LazerProperty::Confidence(Some(v)) => {
                values.confidence = Some(v);
            },
            LazerProperty::FeedUpdateTimestamp(Some(v)) => {
                values.feed_update_timestamp = Some(v);
            },
            LazerProperty::PublisherCount(v) => {
                values.publisher_count = Some(v);
            },
            _ => {},
        }
        i = i + 1;
    }
    proof {
        assert(props@.take(props@.len() as int) =~= props@);
    }
    values
}

/// Position of the first feed with id `feed_id`.
fn find_feed(feeds: &Vec<(u32, Vec<LazerProperty>)>, feed_id: u32) -> (r: Option<usize>)
    ensures
        match r {
            Some(i) => i < feeds@.len() && feeds@[i as int].0 == feed_id && forall|j: int|
                0 <= j < i ==> #[trigger] feeds@[j].0 != feed_id,
            None => forall|j: int| 0 <= j < feeds@.len() ==> #[trigger] feeds@[j].0 != feed_id,
        },
{
    let mut i: usize = 0;
    while i < feeds.len()
        invariant
            i <= feeds@.len(),
            forall|j: int| 0 <= j < i ==> #[trigger] feeds@[j].0 != feed_id,
        decreases feeds@.len() - i,
    {
        if feeds[i].0 == feed_id {
            return Some(i);
        }
        i = i + 1;
    }
    None
}

/// The market's price in a verified Lazer payload as price, confidence,
/// publish time in seconds and source publish time in microseconds. The
/// feed must have publishers, a price, a confidence, an exponent and an
/// update time no later than the payload's.
pub open spec fn spec_read_lazer_price_of_feed(
    props: Seq<LazerProperty>,
    payload_timestamp_us: u64,
    expected_feed_id: u32,
) -> Result<(u64, u64, i64, i64), CoreError> {
    let count = last_publisher_count(props);
    if count is None || count->0 == 0 {
        Err(CoreError::OracleError)
    } else if last_update_timestamp(props) is None {
        Err(CoreError::OracleError)
    } else if last_update_timestamp(props)->0 > payload_timestamp_us {
        Err(CoreError::OracleError)
    } else if last_price(props) is None || last_confidence(props) is None || last_exponent(
        props,
    ) is None {
        Err(CoreError::OracleError)
    } else {
        let publish_us = last_update_timestamp(props)->0;
        match spec_lazer_price_to_oracle_price(
            expected_feed_id,
            last_price(props)->0,
            last_confidence(props)->0,
            last_exponent(props)->0,
            (publish_us / 1_000_000) as i64,
        ) {
            Err(e) => Err(e),
            Ok((price, confidence)) => if publish_us > i64::MAX {
                Err(CoreError::MathOverflow)
            } else {
                Ok((price, confidence, (publish_us / 1_000_000) as i64, publish_us as i64))
            },
        }
    }
}

/// `r` is the stored form of the outcome `s` for Lazer feed `feed_id`.
pub open spec fn lazer_result_matches(
    r: Result<(OraclePriceAccount, i64), CoreError>,
    s: Result<(u64, u64, i64, i64), CoreError>,
    feed_id: u32,
) -> bool {
    match s {
        Ok((price, confidence, publish_time, source_us)) => r is Ok && r->Ok_0.0.price_e8 == price
            && r->Ok_0.0.confidence_e8 == confidence && r->Ok_0.0.publish_time == publish_time
            && is_lazer_key(r->Ok_0.0.feed_id) && lazer_id_of(r->Ok_0.0.feed_id) == feed_id
            && r->Ok_0.1 == source_us,
        Err(e) => r == Err::<(OraclePriceAccount, i64), CoreError>(e),
    }
}

/// What reading the market's price from a verified payload gives: the
/// configured Lazer feed id, an accepted channel, and the first feed with
/// that id.
pub open spec fn lazer_price_read(
    payload: LazerPayloadData,
    config: CollateralConfig,
    r: Result<(OraclePriceAccount, i64), CoreError>,
) -> bool {
    &&& r is Ok ==> is_lazer_key(r->Ok_0.0.feed_id) && lazer_id_of(r->Ok_0.0.feed_id)
        == lazer_id_of(config.xstock_usd_feed_id)
    &&& ({
        let key = config.xstock_usd_feed_id;
        let feeds = payload.feeds@;
        if !(is_lazer_key(key) && lazer_id_of(key) > 0) {
            r == Err::<(OraclePriceAccount, i64), CoreError>(CoreError::InvalidParameter)
        } else if !accepted_lazer_channel(payload.channel_id) {
            r == Err::<(OraclePriceAccount, i64), CoreError>(CoreError::OracleError)
        } else if forall|j: int| 0 <= j < feeds.len() ==> #[trigger] feeds[j].0 != lazer_id_of(key) {
            r == Err::<(OraclePriceAccount, i64), CoreError>(CoreError::OracleError)
        } else {
            exists|i: int|
                0 <= i < feeds.len() && feeds[i].0 == lazer_id_of(key) && (forall|j: int|
                    0 <= j < i ==> #[trigger] feeds[j].0 != lazer_id_of(key)) && lazer_result_matches(
                    r,
                    spec_read_lazer_price_of_feed(feeds[i].1@, payload.timestamp_us, feeds[i].0),
                    feeds[i].0,
                )
        }
    })
}

pub fn read_lazer_price_from_payload(payload: &LazerPayloadData, config: &CollateralConfig) -> (r:
    Result<(OraclePriceAccount, i64), CoreError>)
    ensures
        lazer_price_read(*payload, *config, r),
{
    let expected = lazer_feed_id_from_config(config)?;
    if !(payload.channel_id >= 1 && payload.channel_id <= 4) {
        return Err(CoreError::OracleError);
    }
    let index = match find_feed(&payload.feeds, expected) {
        Some(i) => i,
        None => {
            return Err(CoreError::OracleError);
        },
    };
    let feed = &payload.feeds[index];
    let values = collect_feed_values(&feed.1);
    let count = match values.publisher_count {
        Some(c) => c,
        None => 0,
    };
    if count == 0 {
        return Err(CoreError::OracleError);
    }
    let publish_us = match values.feed_update_timestamp {
        Some(t) => t,
        None => {
            return Err(CoreError::OracleError);
        },
    };
    if publish_us > payload.timestamp_us {
        return Err(CoreError::OracleError);
    }
    let publish_time = (publish_us / 1_000_000) as i64;
    let (price, confidence, exponent) = match (values.price, values.confidence, values.exponent) {
        (Some(p), Some(c), Some(e)) => (p, c, e),
        _ => {
            return Err(CoreError::OracleError);
        },
    };
    let account = lazer_price_to_oracle_price(expected, price, confidence, exponent, publish_time)?;
    if publish_us > i64::MAX as u64 {
        return Err(CoreError::MathOverflow);
    }
    Ok((account, publish_us as i64))
}

proof fn lemma_four_bytes_unique(a0: u8, a1: u8, a2: u8, a3: u8, b0: u8, b1: u8, b2: u8, b3: u8)
    by (bit_vector)
    requires
        a0 + 256 * a1 + 65_536 * a2 + 16_777_216 * a3 == b0 + 256 * b1 + 65_536 * b2 + 16_777_216
            * b3,
    ensures
        a0 == b0 && a1 == b1 && a2 == b2 && a3 == b3,
{
}

proof fn lemma_lazer_key_unique(a: [u8; 32], b: [u8; 32])
    requires
        is_lazer_key(a),
        is_lazer_key(b),
        lazer_id_of(a) == lazer_id_of(b),
    ensures
        a == b,
{
    lemma_four_bytes_unique(a@[0], a@[1], a@[2], a@[3], b@[0], b@[1], b@[2], b@[3]);
    assert forall|i: int| 0 <= i < 32 implies a[i] == b[i] by {
        if i >= 4 {
            assert(a@[i] == 0u8 && b@[i] == 0u8);
        }
    }
    assert(a =~= b);
}

/// Reading a payload has one outcome.
proof fn lemma_lazer_price_read_unique(
    payload: LazerPayloadData,
    config: CollateralConfig,
    r1: Result<(OraclePriceAccount, i64), CoreError>,
    r2: Result<(OraclePriceAccount, i64), CoreError>,
)
    requires
        lazer_price_read(payload, config, r1),
        lazer_price_read(payload, config, r2),
    ensures
        r1 == r2,
{
    let key = config.xstock_usd_feed_id;
    let feeds = payload.feeds@;
    if is_lazer_key(key) && lazer_id_of(key) > 0 && accepted_lazer_channel(payload.channel_id)
        && !(forall|j: int| 0 <= j < feeds.len() ==> #[trigger] feeds[j].0 != lazer_id_of(key)) {
        let i1 = choose|i: int|
            0 <= i < feeds.len() && feeds[i].0 == lazer_id_of(key) && (forall|j: int|
                0 <= j < i ==> #[trigger] feeds[j].0 != lazer_id_of(key)) && lazer_result_matches(
                r1,
                spec_read_lazer_price_of_feed(feeds[i].1@, payload.timestamp_us, feeds[i].0),
                feeds[i].0,
            );
        let i2 = choose|i: int|
            0 <= i < feeds.len() && feeds[i].0 == lazer_id_of(key) && (forall|j: int|
                0 <= j < i ==> #[trigger] feeds[j].0 != lazer_id_of(key)) && lazer_result_matches(
                r2,
                spec_read_lazer_price_of_feed(feeds[i].1@, payload.timestamp_us, feeds[i].0),
                feeds[i].0,
            );
        if i1 < i2 {
            assert(feeds[i1].0 != lazer_id_of(key));
        }
        if i2 < i1 {
            assert(feeds[i2].0 != lazer_id_of(key));
        }
        assert(i1 == i2);
        if r1 is Ok && r2 is Ok {
            lemma_lazer_key_unique(r1->Ok_0.0.feed_id, r2->Ok_0.0.feed_id);
        }
    }
}

/// Reading a payload in wire form has one outcome.
pub proof fn lemma_lazer_price_from_bytes_unique(
    payload: Seq<u8>,
    config: CollateralConfig,
    r1: Result<(OraclePriceAccount, i64), CoreError>,
    r2: Result<(OraclePriceAccount, i64), CoreError>,
)
    requires
        lazer_price_from_bytes(payload, config, r1),
        lazer_price_from_bytes(payload, config, r2),
    ensures
        r1 == r2,
{
    if let Some(fields) = lazer_payload(payload) {
        lemma_lazer_price_read_unique(
            LazerPayloadData { timestamp_us: fields.0, channel_id: fields.1, feeds: fields.2 },
            config,
            r1,
            r2,
        );
    }
}

/// What reading the market's price from a verified Lazer payload in its
/// little-endian wire form gives: the configured feed id is checked first,
/// then the bytes must decode.
pub open spec fn lazer_price_from_bytes(
    payload: Seq<u8>,
    config: CollateralConfig,
    r: Result<(OraclePriceAccount, i64), CoreError>,
) -> bool {
    match lazer_payload(payload) {
        None => r == (if is_lazer_key(config.xstock_usd_feed_id) && lazer_id_of(
            config.xstock_usd_feed_id,
        ) > 0 {
            Err::<(OraclePriceAccount, i64), CoreError>(CoreError::OracleError)
        } else {
            Err(CoreError::InvalidParameter)
        }),
        Some(fields) => lazer_price_read(
            LazerPayloadData { timestamp_us: fields.0, channel_id: fields.1, feeds: fields.2 },
            config,
            r,
        ),
    }
}

/// The market's price and source publish time in microseconds from a
/// verified Lazer payload in its little-endian wire form.
pub fn read_lazer_price(payload: &[u8], config: &CollateralConfig) -> (r: Result<
    (OraclePriceAccount, i64),
    CoreError,
>)
    ensures
        lazer_price_from_bytes(payload@, *config, r),
{
    lazer_feed_id_from_config(config)?;
    match deserialize_lazer_payload(payload) {
        None => Err(CoreError::OracleError),
        Some((timestamp_us, channel_id, feeds)) => {
            let data = LazerPayloadData { timestamp_us, channel_id, feeds };
            read_lazer_price_from_payload(&data, config)
        },
    }
}

} // verus!
