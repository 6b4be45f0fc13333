use vstd::prelude::*;

use pyth_lazer_solana_contract::protocol::payload::{PayloadData, PayloadPropertyValue};
use pyth_lazer_solana_contract::protocol::time::TimestampUs;
use pyth_lazer_solana_contract::protocol::Price;

use crate::readers::LazerProperty;

verus! {

/// The fields of a Lazer payload decoded from its little-endian wire form:
/// timestamp in microseconds, channel, and each feed's id with its
/// properties; `None` where the bytes are no payload.
pub uninterp spec fn lazer_payload(data: Seq<u8>) -> Option<
    (u64, u8, Vec<(u32, Vec<LazerProperty>)>),
>;

/// `PayloadData::deserialize_slice_le` of pyth-lazer-protocol: decodes the
/// bytes, or fails on a wrong magic, an unknown property or a short input.
/// Its result is a function of the bytes alone, named `lazer_payload`; price
/// and confidence mantissas, timestamps, exponents and publisher counts are
/// carried over as numbers, the properties this library does not read as
/// `Other`.
#[verifier::external_body]
pub(crate) fn deserialize_lazer_payload(data: &[u8]) -> (r: Option<
    (u64, u8, Vec<(u32, Vec<LazerProperty>)>),
>)
    ensures
        r == lazer_payload(data@),
{
    let p = PayloadData::deserialize_slice_le(data).ok()?;
    let feeds = p.feeds.into_iter().map(|f| (f.feed_id.0, f.properties.into_iter().map(|v| match v {
        PayloadPropertyValue::Price(x) => LazerProperty::Price(x.map(Price::mantissa_i64)),
        PayloadPropertyValue::Confidence(x) => LazerProperty::Confidence(x.map(Price::mantissa_i64)),
        PayloadPropertyValue::Exponent(e) => LazerProperty::Exponent(e),
        PayloadPropertyValue::FeedUpdateTimestamp(t) => LazerProperty::FeedUpdateTimestamp(t.map(TimestampUs::as_micros)),
        PayloadPropertyValue::PublisherCount(n) => LazerProperty::PublisherCount(n),
        _ => LazerProperty::Other,
    }).collect()));
    Some((p.timestamp_us.as_micros(), p.channel_id.0, feeds.collect()))
}

} // verus!
