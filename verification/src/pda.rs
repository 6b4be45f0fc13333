use vstd::prelude::*;

use crate::accounts::{keys_eq, Pubkey, NEST_CORE_PROGRAM_ID, NEST_STAKE_PROGRAM_ID};

verus! {

/// The program-derived address and bump seed that Solana assigns to `seeds`
/// under `program_id`, when one exists.
pub uninterp spec fn program_address(seeds: Seq<Seq<u8>>, program_id: Seq<u8>) -> Option<
    (Seq<u8>, u8),
>;

/// `Pubkey::try_find_program_address` of the Solana SDK (solana-address):
/// the derived address is a function of the seeds and program id alone; no
/// address exists when there are too many or too long seeds, or no bump seed
/// yields an off-curve point.
#[verifier::external_body]
pub(crate) fn try_find_program_address(seeds: &Vec<Vec<u8>>, program_id: &Pubkey) -> (r: Option<
    (Pubkey, u8),
>)
    ensures
        match r {
            Some((key, bump)) => program_address(seeds.deep_view(), program_id@) == Some(
                (key@, bump),
            ),
            None => program_address(seeds.deep_view(), program_id@) is None,
        },
{
    let refs: Vec<&[u8]> = seeds.iter().map(|seed| seed.as_slice()).collect();
    let program = anchor_lang::prelude::Pubkey::new_from_array(*program_id);
    match anchor_lang::prelude::Pubkey::try_find_program_address(&refs, &program) {
        Some((key, bump)) => Some((key.to_bytes(), bump)),
        None => None,
    }
}

/// The seed "staking".
pub open spec fn staking_seeds() -> Seq<Seq<u8>> {
    seq![seq![115u8, 116u8, 97u8, 107u8, 105u8, 110u8, 103u8]]
}

/// The seed "protocol".
pub open spec fn protocol_seeds() -> Seq<Seq<u8>> {
    seq![seq![112u8, 114u8, 111u8, 116u8, 111u8, 99u8, 111u8, 108u8]]
}

/// The seeds "lma" and the lending market's address.
pub open spec fn lending_market_authority_seeds(lending_market: Pubkey) -> Seq<Seq<u8>> {
    seq![seq![108u8, 109u8, 97u8], lending_market@]
}

/// The address a seed list derives under a program, if any.
pub open spec fn derived_key(seeds: Seq<Seq<u8>>, program_id: Pubkey) -> Option<Seq<u8>> {
    match program_address(seeds, program_id@) {
        Some((key, _)) => Some(key),
        None => None,
    }
}

fn derive(seeds: Vec<Vec<u8>>, program_id: &Pubkey) -> (r: Option<Pubkey>)
    ensures
        match r {
            Some(key) => derived_key(seeds.deep_view(), *program_id) == Some(key@),
            None => derived_key(seeds.deep_view(), *program_id) is None,
        },
{
    match try_find_program_address(&seeds, program_id) {
        Some((key, _)) => Some(key),
        None => None,
    }
}

/// nest-stake's staking state address.
pub fn staking_state_address() -> (r: Option<Pubkey>)
    ensures
        match r {
            Some(key) => derived_key(staking_seeds(), NEST_STAKE_PROGRAM_ID) == Some(key@),
            None => derived_key(staking_seeds(), NEST_STAKE_PROGRAM_ID) is None,
        },
{
    let seed: Vec<u8> = vec![115u8, 116u8, 97u8, 107u8, 105u8, 110u8, 103u8];
    let mut seeds: Vec<Vec<u8>> = Vec::new();
    seeds.push(seed);
    assert(seeds.deep_view()[0] =~= staking_seeds()[0]);
    assert(seeds.deep_view() =~= staking_seeds());
    derive(seeds, &NEST_STAKE_PROGRAM_ID)
}

/// nest-core's protocol state address.
pub fn protocol_address() -> (r: Option<Pubkey>)
    ensures
        match r {
            Some(key) => derived_key(protocol_seeds(), NEST_CORE_PROGRAM_ID) == Some(key@),
            None => derived_key(protocol_seeds(), NEST_CORE_PROGRAM_ID) is None,
        },
{
    let seed: Vec<u8> = vec![112u8, 114u8, 111u8, 116u8, 111u8, 99u8, 111u8, 108u8];
    let mut seeds: Vec<Vec<u8>> = Vec::new();
    seeds.push(seed);
    assert(seeds.deep_view()[0] =~= protocol_seeds()[0]);
    assert(seeds.deep_view() =~= protocol_seeds());
    derive(seeds, &NEST_CORE_PROGRAM_ID)
}

/// The authority Kamino derives for a lending market.
pub fn lending_market_authority_address(lending_market: &Pubkey, kamino_program_id: &Pubkey) -> (r:
    Option<Pubkey>)
    ensures
        match r {
            Some(key) => derived_key(lending_market_authority_seeds(*lending_market), *kamino_program_id)
                == Some(key@),
            None => derived_key(lending_market_authority_seeds(*lending_market), *kamino_program_id) is None,
        },
{
    let mut market: Vec<u8> = Vec::new();
    let mut i: usize = 0;
    while i < 32
        invariant
            i <= 32,
            market@ == lending_market@.subrange(0, i as int),
        decreases 32 - i,
    {
        market.push(lending_market[i]);
        i = i + 1;
        assert(market@ =~= lending_market@.subrange(0, i as int));
    }
    assert(lending_market@.subrange(0, 32) =~= lending_market@);
    let tag: Vec<u8> = vec![108u8, 109u8, 97u8];
    let mut seeds: Vec<Vec<u8>> = Vec::new();
    seeds.push(tag);
    seeds.push(market);
    assert(seeds.deep_view()[0] =~= lending_market_authority_seeds(*lending_market)[0]);
    assert(seeds.deep_view()[1] =~= lending_market_authority_seeds(*lending_market)[1]);
    assert(seeds.deep_view() =~= lending_market_authority_seeds(*lending_market));
    derive(seeds, kamino_program_id)
}

/// `key` is nest-stake's staking state address.
pub open spec fn is_staking_state(key: Pubkey) -> bool {
    derived_key(staking_seeds(), NEST_STAKE_PROGRAM_ID) == Some(key@)
}

/// `key` is nest-core's protocol state address.
pub open spec fn is_protocol_state(key: Pubkey) -> bool {
    derived_key(protocol_seeds(), NEST_CORE_PROGRAM_ID) == Some(key@)
}

/// `key` is the authority Kamino derives for `lending_market`.
pub open spec fn is_lending_market_authority(
    key: Pubkey,
    lending_market: Pubkey,
    kamino_program_id: Pubkey,
) -> bool {
    derived_key(lending_market_authority_seeds(lending_market), kamino_program_id) == Some(key@)
}

pub fn is_staking_state_key(key: &Pubkey) -> (r: bool)
    ensures
        r == is_staking_state(*key),
{
    match staking_state_address() {
        Some(expected) => keys_eq(key, &expected),
        None => false,
    }
}

pub fn is_protocol_state_key(key: &Pubkey) -> (r: bool)
    ensures
        r == is_protocol_state(*key),
{
    match protocol_address() {
        Some(expected) => keys_eq(key, &expected),
        None => false,
    }
}

pub fn is_lending_market_authority_key(
    key: &Pubkey,
    lending_market: &Pubkey,
    kamino_program_id: &Pubkey,
) -> (r: bool)
    ensures
        r == is_lending_market_authority(*key, *lending_market, *kamino_program_id),
{
    match lending_market_authority_address(lending_market, kamino_program_id) {
        Some(expected) => keys_eq(key, &expected),
        None => false,
    }
}

} // verus!
