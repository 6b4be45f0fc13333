use nest_protocol::accounts::{PendingWithdrawalAccount, Pubkey};
use nest_protocol::bytes::{read_pubkey_at, read_u128_at, read_u16_at, read_u64_at};
use nest_protocol::stake::{
    CORE_PROTOCOL_AUTHORITY_OFFSET, CORE_PROTOCOL_BAD_DEBT_NUSD_OFFSET,
    CORE_PROTOCOL_DISCRIMINATOR, CORE_PROTOCOL_INSURANCE_FEE_SHARE_BPS_OFFSET,
    CORE_PROTOCOL_INSURANCE_FUND_NUSD_OFFSET, CORE_PROTOCOL_INSURANCE_TARGET_BPS_OFFSET,
    CORE_PROTOCOL_NUSD_MINT_OFFSET, CORE_PROTOCOL_PSM_IDLE_USDC_OFFSET,
    CORE_PROTOCOL_PSM_KAMINO_DEPLOYED_USDC_OFFSET, CORE_PROTOCOL_STABILITY_FEE_APR_BPS_OFFSET,
    CORE_PROTOCOL_STAKER_CAPACITY_KAMINO_APR_BPS_OFFSET, CORE_PROTOCOL_STAKER_TARGET_APR_BPS_OFFSET,
    CORE_PROTOCOL_TOTAL_DEBT_OFFSET,
};

#[test]
fn core_protocol_reader_offsets_match_serialized_layout() {
    let authority: Pubkey = [1; 32];
    let nusd_mint: Pubkey = [3; 32];
    let total_debt = 0x0102_0304_0506_0708_1112_1314_1516_1718_u128;
    let insurance_fund_nusd = 0x2122_2324_2526_2728_3132_3334_3536_3738_u128;
    let psm_idle_usdc = 0x4142_4344_4546_4748_5152_5354_5556_5758_u128;
    let psm_kamino_deployed_usdc = 0x6162_6364_6566_6768_7172_7374_7576_7778_u128;
    let stability_fee_apr_bps = 123_u64;
    let insurance_target_bps = 456_u16;
    let insurance_fee_share_bps = 789_u16;
    let staker_target_apr_bps = 1_234_u64;
    let staker_capacity_kamino_apr_bps = 5_678_u64;

    // The protocol account's fields in their serialized order.
    let mut data = CORE_PROTOCOL_DISCRIMINATOR.to_vec();
    for k in [authority, [2; 32], nusd_mint, [4; 32], [5; 32], [6; 32], [7; 32], [8; 32]] {
        data.extend_from_slice(&k);
    }
    for v in [
        total_debt,
        9,
        10,
        insurance_fund_nusd,
        12,
        13,
        14,
        psm_idle_usdc,
        psm_kamino_deployed_usdc,
    ] {
        data.extend_from_slice(&v.to_le_bytes());
    }
    data.extend_from_slice(&[15_u8; 32]);
    data.extend_from_slice(&16_u128.to_le_bytes());
    data.extend_from_slice(&17_u128.to_le_bytes());
    data.extend_from_slice(&stability_fee_apr_bps.to_le_bytes());
    data.extend_from_slice(&18_u16.to_le_bytes());
    data.extend_from_slice(&19_u16.to_le_bytes());
    data.extend_from_slice(&[20_u8; 32]);
    data.extend_from_slice(&insurance_target_bps.to_le_bytes());
    data.extend_from_slice(&insurance_fee_share_bps.to_le_bytes());
    data.push(0);
    data.push(1);
    data.push(21);
    data.extend_from_slice(&[22_u8; 32]);
    data.extend_from_slice(&23_u128.to_le_bytes());
    data.extend_from_slice(&24_u128.to_le_bytes());
    data.extend_from_slice(&25_i64.to_le_bytes());
    data.extend_from_slice(&staker_target_apr_bps.to_le_bytes());
    data.extend_from_slice(&staker_capacity_kamino_apr_bps.to_le_bytes());

    assert_eq!(data.get(0..8), Some(&CORE_PROTOCOL_DISCRIMINATOR[..]));
    assert_eq!(read_pubkey_at(&data, CORE_PROTOCOL_AUTHORITY_OFFSET).unwrap(), authority);
    assert_eq!(read_pubkey_at(&data, CORE_PROTOCOL_NUSD_MINT_OFFSET).unwrap(), nusd_mint);
    assert_eq!(read_u128_at(&data, CORE_PROTOCOL_TOTAL_DEBT_OFFSET).unwrap(), total_debt);
    assert_eq!(
        read_u128_at(&data, CORE_PROTOCOL_INSURANCE_FUND_NUSD_OFFSET).unwrap(),
        insurance_fund_nusd
    );
    assert_eq!(read_u128_at(&data, CORE_PROTOCOL_BAD_DEBT_NUSD_OFFSET).unwrap(), 12);
    assert_eq!(read_u128_at(&data, CORE_PROTOCOL_PSM_IDLE_USDC_OFFSET).unwrap(), psm_idle_usdc);
    assert_eq!(
        read_u128_at(&data, CORE_PROTOCOL_PSM_KAMINO_DEPLOYED_USDC_OFFSET).unwrap(),
        psm_kamino_deployed_usdc
    );
    assert_eq!(
        read_u64_at(&data, CORE_PROTOCOL_STABILITY_FEE_APR_BPS_OFFSET).unwrap(),
        stability_fee_apr_bps
    );
    assert_eq!(
        read_u16_at(&data, CORE_PROTOCOL_INSURANCE_TARGET_BPS_OFFSET).unwrap(),
        insurance_target_bps
    );
    assert_eq!(
        read_u16_at(&data, CORE_PROTOCOL_INSURANCE_FEE_SHARE_BPS_OFFSET).unwrap(),
        insurance_fee_share_bps
    );
    assert_eq!(
        read_u64_at(&data, CORE_PROTOCOL_STAKER_TARGET_APR_BPS_OFFSET).unwrap(),
        staker_target_apr_bps
    );
    assert_eq!(
        read_u64_at(&data, CORE_PROTOCOL_STAKER_CAPACITY_KAMINO_APR_BPS_OFFSET).unwrap(),
        staker_capacity_kamino_apr_bps
    );
}

#[test]
fn pending_withdrawal_layout_remains_mainnet_compatible() {
    assert_eq!(PendingWithdrawalAccount::INIT_SPACE, 106);
}
