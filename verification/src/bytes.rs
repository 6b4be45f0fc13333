use vstd::prelude::*;

use crate::accounts::Pubkey;
use crate::core_error::CoreError;

verus! {

/// The unsigned number whose little-endian bytes are `s`.
pub open spec fn le_value(s: Seq<u8>) -> nat
    decreases s.len(),
{
    if s.len() == 0 {
        0
    } else {
        s[0] as nat + 256 * le_value(s.drop_first())
    }
}

/// The `n` low bytes of `v`, little-endian.
pub open spec fn le_bytes(v: nat, n: nat) -> Seq<u8>
    decreases n,
{
    if n == 0 {
        Seq::empty()
    } else {
        seq![(v % 256) as u8].add(le_bytes(v / 256, (n - 1) as nat))
    }
}

pub open spec fn pow256(n: nat) -> nat
    decreases n,
{
    if n == 0 {
        1
    } else {
        256 * pow256((n - 1) as nat)
    }
}

proof fn lemma_le_value_bound(s: Seq<u8>)
    ensures
        le_value(s) < pow256(s.len()),
    decreases s.len(),
{
    if s.len() > 0 {
        lemma_le_value_bound(s.drop_first());
    }
}

proof fn lemma_pow256_values()
    ensures
        pow256(2) == 0x1_0000,
        pow256(8) == 0x1_0000_0000_0000_0000,
        pow256(16) == 0x1_0000_0000_0000_0000_0000_0000_0000_0000,
{
    reveal_with_fuel(pow256, 17);
}

/// Reads the little-endian number in `data[offset..offset + len]`, with
/// `len` at most 16 bytes.
fn read_le(data: &[u8], offset: usize, len: usize) -> (r: u128)
    requires
        len <= 16,
        offset + len <= data@.len(),
    ensures
        r == le_value(data@.subrange(offset as int, offset + len)),
{
    let total = data.len();
    let mut value: u128 = 0;
    let mut i: usize = len;
    proof {
        lemma_pow256_values();
    }
    while i > 0
        invariant
            i <= len <= 16,
            offset + len <= data@.len(),
            total == data@.len(),
            value == le_value(data@.subrange(offset + i, offset + len)),
            pow256(16) == 0x1_0000_0000_0000_0000_0000_0000_0000_0000,
        decreases i,
    {
        let ghost rest = data@.subrange(offset + i, offset + len);
        let ghost here = data@.subrange(offset + i - 1, offset + len);
        proof {
            lemma_le_value_bound(rest);
            lemma_pow256_monotone(rest.len(), 15);
            assert(here.drop_first() =~= rest);
        }
        value = value * 256 + data[offset + i - 1] as u128;
        i = i - 1;
    }
    value
}

proof fn lemma_pow256_monotone(a: nat, b: nat)
    requires
        a <= b,
    ensures
        pow256(a) <= pow256(b),
    decreases b,
{
    if a < b {
        lemma_pow256_monotone(a, (b - 1) as nat);
    }
}

/// The `u128` stored little-endian at `offset`.
pub fn read_u128_at(data: &[u8], offset: usize) -> (r: Result<u128, CoreError>)
    ensures
        r is Ok <==> offset + 16 <= data@.len(),
        r is Err ==> r == Err::<u128, CoreError>(CoreError::InvalidParameter),
        r is Ok ==> r->Ok_0 == le_value(data@.subrange(offset as int, offset + 16)),
{
    if offset > data.len() || data.len() - offset < 16 {
        return Err(CoreError::InvalidParameter);
    }
    Ok(read_le(data, offset, 16))
}

/// The `u64` stored little-endian at `offset`.
pub fn read_u64_at(data: &[u8], offset: usize) -> (r: Result<u64, CoreError>)
    ensures
        r is Ok <==> offset + 8 <= data@.len(),
        r is Err ==> r == Err::<u64, CoreError>(CoreError::InvalidParameter),
        r is Ok ==> r->Ok_0 == le_value(data@.subrange(offset as int, offset + 8)),
{
    if offset > data.len() || data.len() - offset < 8 {
        return Err(CoreError::InvalidParameter);
    }
    let v = read_le(data, offset, 8);
    proof {
        lemma_le_value_bound(data@.subrange(offset as int, offset + 8));
        lemma_pow256_values();
    }
    Ok(v as u64)
}

/// The `u16` stored little-endian at `offset`.
pub fn read_u16_at(data: &[u8], offset: usize) -> (r: Result<u16, CoreError>)
    ensures
        r is Ok <==> offset + 2 <= data@.len(),
        r is Err ==> r == Err::<u16, CoreError>(CoreError::InvalidParameter),
        r is Ok ==> r->Ok_0 == le_value(data@.subrange(offset as int, offset + 2)),
{
    if offset > data.len() || data.len() - offset < 2 {
        return Err(CoreError::InvalidParameter);
    }
    let v = read_le(data, offset, 2);
    proof {
        lemma_le_value_bound(data@.subrange(offset as int, offset + 2));
        lemma_pow256_values();
    }
    Ok(v as u16)
}

/// The `u16` stored little-endian at `offset`, as an offset or a length;
/// reading past the end is an oracle error.
pub fn read_u16_le(data: &[u8], offset: usize) -> (r: Result<usize, CoreError>)
    ensures
        r == (if offset + 2 > usize::MAX {
            Err(CoreError::MathOverflow)
        } else if offset + 2 > data@.len() {
            Err(CoreError::OracleError)
        } else {
            Ok::<usize, CoreError>((data@[offset as int] + 256 * data@[offset + 1]) as usize)
        }),
{
    let end = match offset.checked_add(2) {
        Some(e) => e,
        None => {
            return Err(CoreError::MathOverflow);
        },
    };
    if end > data.len() {
        return Err(CoreError::OracleError);
    }
    Ok(data[offset] as usize + 256 * (data[offset + 1] as usize))
}

/// The 32-byte address stored at `offset`.
pub fn read_pubkey_at(data: &[u8], offset: usize) -> (r: Result<Pubkey, CoreError>)
    ensures
        r is Err <==> offset + 32 > data@.len(),
        r is Err ==> r == Err::<Pubkey, CoreError>(CoreError::InvalidParameter),
        r is Ok ==> r->Ok_0@ == data@.subrange(offset as int, offset + 32),
{
    if offset > data.len() || data.len() - offset < 32 {
        return Err(CoreError::InvalidParameter);
    }
    let total = data.len();
    let mut key: Pubkey = [0u8; 32];
    let mut i: usize = 0;
    while i < 32
        invariant
            i <= 32,
            total == data@.len(),
            offset + 32 <= data@.len(),
            key@.len() == 32,
            forall|j: int| 0 <= j < i ==> key@[j] == data@[offset + j],
        decreases 32 - i,
    {
        key[i] = data[offset + i];
        i = i + 1;
    }
    assert(key@ =~= data@.subrange(offset as int, offset + 32));
    Ok(key)
}

/// Appends the `n` low bytes of `value`, little-endian.
fn push_le(out: &mut Vec<u8>, value: u64, n: usize)
    requires
        n <= 8,
    ensures
        final(out)@ == old(out)@ + le_bytes(value as nat, n as nat),
{
    let mut x: u64 = value;
    let mut i: usize = 0;
    while i < n
        invariant
            i <= n <= 8,
            out@ + le_bytes(x as nat, (n - i) as nat) == old(out)@ + le_bytes(value as nat, n as nat),
        decreases n - i,
    {
        let ghost before = out@;
        proof {
            assert(le_bytes(x as nat, (n - i) as nat) == seq![(x % 256) as u8].add(
                le_bytes((x / 256) as nat, (n - i - 1) as nat),
            ));
        }
        out.push((x % 256) as u8);
        proof {
            assert(before + le_bytes(x as nat, (n - i) as nat) =~= out@ + le_bytes(
                (x / 256) as nat,
                (n - i - 1) as nat,
            ));
        }
        x = x / 256;
        i = i + 1;
    }
    assert(out@ + le_bytes(x as nat, 0) =~= out@);
}

/// Magic bytes that open a signed Nest price message.
pub const SIGNED_PRICE_MAGIC: [u8; 8] = [78, 69, 83, 84, 80, 82, 67, 49];
pub const SIGNED_PRICE_VERSION: u8 = 1;

/// A price signed off-chain by the Nest price signer.
#[derive(Debug, Clone, Copy, PartialEq, Eq)]
pub struct SignedPricePayload {
    pub magic: [u8; 8],
    pub version: u8,
    pub feed_id: [u8; 32],
    pub price_e8: u64,
    pub confidence_e8: u64,
    pub publish_time: i64,
    pub expires_at: i64,
}

/// The signed bytes of a payload: its fields in order, integers
/// little-endian, 73 bytes in all.
pub open spec fn spec_signed_price_message(payload: SignedPricePayload) -> Seq<u8> {
    payload.magic@ + seq![payload.version] + payload.feed_id@ + le_bytes(payload.price_e8 as nat, 8)
        + le_bytes(payload.confidence_e8 as nat, 8) + le_bytes((payload.publish_time as u64) as nat, 8)
        + le_bytes((payload.expires_at as u64) as nat, 8)
}

pub fn signed_price_message(payload: &SignedPricePayload) -> (r: Result<Vec<u8>, CoreError>)
    ensures
        r is Ok,
        r->Ok_0@ == spec_signed_price_message(*payload),
{
    let mut out: Vec<u8> = Vec::new();
    let mut i: usize = 0;
    while i < 8
        invariant
            i <= 8,
            out@ == payload.magic@.subrange(0, i as int),
        decreases 8 - i,
    {
        out.push(payload.magic[i]);
        i = i + 1;
        assert(out@ =~= payload.magic@.subrange(0, i as int));
    }
    assert(payload.magic@.subrange(0, 8) =~= payload.magic@);
    out.push(payload.version);
    let ghost head = out@;
    let mut j: usize = 0;
    while j < 32
        invariant
            j <= 32,
            out@ == head + payload.feed_id@.subrange(0, j as int),
        decreases 32 - j,
    {
        out.push(payload.feed_id[j]);
        j = j + 1;
        assert(out@ =~= head + payload.feed_id@.subrange(0, j as int));
    }
    assert(payload.feed_id@.subrange(0, 32) =~= payload.feed_id@);
    push_le(&mut out, payload.price_e8, 8);
    push_le(&mut out, payload.confidence_e8, 8);
    push_le(&mut out, payload.publish_time as u64, 8);
    push_le(&mut out, payload.expires_at as u64, 8);
    Ok(out)
}

} // verus!
