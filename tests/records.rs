use raydium_cpmm_cpi::error::CpmmError;
use raydium_cpmm_cpi::states::{
    AmmConfig, Observation, ObservationState, PoolStatusBitFlag, OBSERVATION_NUM, Q32,
};
use raydium_cpmm_cpi::ID;

fn config_record() -> Vec<u8> {
    let mut b = vec![218, 244, 33, 104, 203, 203, 43, 111];
    b.push(254);
    b.push(1);
    b.extend_from_slice(&0x0203u16.to_le_bytes());
    b.extend_from_slice(&2_500u64.to_le_bytes());
    b.extend_from_slice(&120_000u64.to_le_bytes());
    b.extend_from_slice(&40_000u64.to_le_bytes());
    b.extend_from_slice(&150_000_000u64.to_le_bytes());
    b.extend_from_slice(&[7u8; 32]);
    b.extend_from_slice(&[9u8; 32]);
    for i in 0..16u64 {
        b.extend_from_slice(&(i * 1_000 + u64::MAX / 2).to_le_bytes());
    }
    b
}

#[test]
fn config_exposes_every_field() {
    let b = config_record();
    assert_eq!(b.len(), AmmConfig::size());
    let c = AmmConfig::from_account_data(&ID, &b).unwrap();
    assert_eq!(c.bump, 254);
    assert!(c.disable_create_pool);
    assert_eq!(c.index, 0x0203);
    assert_eq!(c.trade_fee_rate, 2_500);
    assert_eq!(c.protocol_fee_rate, 120_000);
    assert_eq!(c.fund_fee_rate, 40_000);
    assert_eq!(c.create_pool_fee, 150_000_000);
    assert_eq!(c.protocol_owner, [7u8; 32]);
    assert_eq!(c.fund_owner, [9u8; 32]);
    for i in 0..16 {
        assert_eq!(c.padding[i], i as u64 * 1_000 + u64::MAX / 2);
    }
}

#[test]
fn config_short_buffer_is_rejected() {
    let b = config_record();
    assert!(matches!(
        AmmConfig::from_account_data(&ID, &b[..b.len() - 1]),
        Err(CpmmError::InvalidAccountData)
    ));
    assert!(matches!(AmmConfig::from_account_data(&ID, &b[..4]), Err(CpmmError::InvalidAccountData)));
    let mut long = b.clone();
    long.push(0);
    assert!(matches!(AmmConfig::from_account_data(&ID, &long), Err(CpmmError::InvalidAccountData)));
}

#[test]
fn config_foreign_owner_is_rejected() {
    let b = config_record();
    let mut other = ID;
    other[31] ^= 1;
    assert!(matches!(AmmConfig::from_account_data(&other, &b), Err(CpmmError::InvalidOwner)));
    assert!(matches!(AmmConfig::from_account_data(&[0u8; 32], &b[..3]), Err(CpmmError::InvalidOwner)));
}

#[test]
fn config_wrong_tag_or_flag_is_rejected() {
    let mut b = config_record();
    b[0] = 0;
    assert!(matches!(AmmConfig::from_account_data(&ID, &b), Err(CpmmError::InvalidAccountData)));
    let mut tagless: &[u8] = &b;
    assert!(AmmConfig::try_deserialize_unchecked(&mut tagless).is_ok());
    let mut b = config_record();
    b[9] = 2;
    assert!(matches!(AmmConfig::from_account_data(&ID, &b), Err(CpmmError::InvalidAccountData)));
}

#[test]
fn config_body_and_tagged_reads_agree() {
    let b = config_record();
    let mut buf: &[u8] = &b;
    let tagged = AmmConfig::try_deserialize(&mut buf).unwrap();
    assert_eq!(buf.len(), b.len());
    let body = AmmConfig::from_bytes(&b[8..]).unwrap();
    assert_eq!(tagged, body);
    assert!(matches!(AmmConfig::from_bytes(&b), Err(CpmmError::InvalidAccountData)));
}

#[test]
fn config_constants_and_default() {
    assert_eq!(AmmConfig::size(), 236);
    assert_eq!(AmmConfig::discriminator(), [218, 244, 33, 104, 203, 203, 43, 111]);
    assert_eq!(AmmConfig::owner(), ID);
    let d = AmmConfig::default();
    assert_eq!(d.bump, 0);
    assert!(!d.disable_create_pool);
    assert_eq!(d.trade_fee_rate, 0);
    assert_eq!(d.protocol_owner, [0u8; 32]);
    assert_eq!(d.padding, [0u64; 16]);
}

fn observation_record() -> Vec<u8> {
    let mut b = vec![122, 174, 197, 53, 129, 9, 165, 132];
    b.push(1);
    b.extend_from_slice(&42u16.to_le_bytes());
    b.extend_from_slice(&[3u8; 32]);
    for i in 0..OBSERVATION_NUM as u128 {
        b.extend_from_slice(&(1_700_000_000u64 + i as u64 * 15).to_le_bytes());
        b.extend_from_slice(&(i * Q32 + 1).to_le_bytes());
        b.extend_from_slice(&(u128::MAX - i).to_le_bytes());
    }
    for i in 0..4u64 {
        b.extend_from_slice(&(i + 11).to_le_bytes());
    }
    b
}

#[test]
fn observation_series_exposes_every_field() {
    let b = observation_record();
    assert_eq!(b.len(), ObservationState::size());
    assert_eq!(ObservationState::size(), 4075);
    let s = ObservationState::from_account_data(&ID, &b).unwrap();
    assert!(s.is_initialized());
    assert_eq!(s.observation_index, 42);
    assert_eq!(s.pool_id, [3u8; 32]);
    for i in 0..OBSERVATION_NUM {
        let o: Observation = s.observations[i];
        assert_eq!(o.block_timestamp, 1_700_000_000 + i as u64 * 15);
        assert_eq!(o.cumulative_token_0_price_x32, i as u128 * Q32 + 1);
        assert_eq!(o.cumulative_token_1_price_x32, u128::MAX - i as u128);
    }
    assert_eq!(s.padding, [11, 12, 13, 14]);
    assert_eq!(Observation::LEN, 40);
}

#[test]
fn observation_series_validation() {
    let b = observation_record();
    let mut other = ID;
    other[0] ^= 0xff;
    assert!(matches!(ObservationState::from_account_data(&other, &b), Err(CpmmError::InvalidOwner)));
    assert!(matches!(
        ObservationState::from_account_data(&ID, &b[..b.len() - 1]),
        Err(CpmmError::InvalidAccountData)
    ));
    let mut bad = b.clone();
    bad[8] = 3;
    assert!(matches!(ObservationState::from_account_data(&ID, &bad), Err(CpmmError::InvalidAccountData)));
    let mut untagged = b.clone();
    untagged[1] = 0;
    let mut buf: &[u8] = &untagged;
    assert!(matches!(ObservationState::try_deserialize(&mut buf), Err(CpmmError::InvalidAccountData)));
    let mut buf: &[u8] = &untagged;
    assert!(ObservationState::try_deserialize_unchecked(&mut buf).is_ok());
    let body = ObservationState::from_bytes(&b[8..]).unwrap();
    assert_eq!(body.observation_index, 42);
    assert_eq!(ObservationState::discriminator(), [122, 174, 197, 53, 129, 9, 165, 132]);
    assert_eq!(ObservationState::owner(), ID);
}

#[test]
fn pool_status_flags_compare() {
    assert!(PoolStatusBitFlag::Enable == PoolStatusBitFlag::Enable);
    assert!(PoolStatusBitFlag::Enable != PoolStatusBitFlag::Disable);
}

#[test]
fn account_parts_check_owner_then_borrow_then_record() {
    let b = config_record();
    assert!(matches!(AmmConfig::from_account_parts(false, Some(&b)), Err(CpmmError::InvalidOwner)));
    assert!(matches!(AmmConfig::from_account_parts(false, None), Err(CpmmError::InvalidOwner)));
    assert!(matches!(AmmConfig::from_account_parts(true, None), Err(CpmmError::AccountBorrowFailed)));
    assert!(matches!(
        AmmConfig::from_account_parts(true, Some(&b[..100])),
        Err(CpmmError::InvalidAccountData)
    ));
    assert_eq!(AmmConfig::from_account_parts(true, Some(&b)).unwrap().index, 0x0203);
    let o = observation_record();
    assert!(matches!(ObservationState::from_account_parts(false, Some(&o)), Err(CpmmError::InvalidOwner)));
    assert!(matches!(
        ObservationState::from_account_parts(true, None),
        Err(CpmmError::AccountBorrowFailed)
    ));
    assert_eq!(ObservationState::from_account_parts(true, Some(&o)).unwrap().observation_index, 42);
}

#[test]
fn observation_length_is_checked_before_owner() {
    let o = observation_record();
    let foreign = [0u8; 32];
    assert!(matches!(
        ObservationState::from_account_data(&foreign, &o[..100]),
        Err(CpmmError::InvalidAccountData)
    ));
    assert!(matches!(ObservationState::from_account_data(&foreign, &o), Err(CpmmError::InvalidOwner)));
}
