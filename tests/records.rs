use bond::account::Address;
use bond::error::BondError;
use bond::state::{
    BondAccount, BondAccountType, BondConfig, BondDraw, BondExclusionList, BondFee, BondProgramAccount,
    BondProgramDerivedAccount, BondSeed, BondShare, BondState,
};

fn key(b: u8) -> Address {
    Address::new([b; 32])
}

#[test]
fn share_with_zero_denominator_is_zero() {
    let s = BondShare::new(key(1), 255, 0, 0);
    assert_eq!(s.share(0), 0);
    assert_eq!(s.share(1_000), 0);
    assert_eq!(s.share(u64::MAX), 0);
    let t = BondShare::new(key(1), 255, 7, 0);
    assert_eq!(t.share(12_345), 0);
}

#[test]
fn share_is_floor_of_fraction() {
    assert_eq!(BondShare::new(key(1), 1, 10, 100).share(1_000), 100);
    assert_eq!(BondShare::new(key(1), 1, 10, 100).share(999), 99);
    assert_eq!(BondShare::new(key(1), 1, 80, 100).share(999), 799);
    assert_eq!(BondShare::new(key(1), 1, 1, 3).share(10), 3);
    assert_eq!(BondShare::new(key(1), 1, 100, 100).share(u64::MAX), u64::MAX);
    assert_eq!(BondShare::new(key(1), 1, 80, 100).share(u64::MAX), 14_757_395_258_967_641_292);
}

#[test]
fn initial_split_never_creates_value() {
    for f in [0u64, 1, 9, 10, 99, 1_000, 1_234_567, u64::MAX] {
        let e = BondShare::new(key(1), 1, 10, 100).share(f);
        let t = BondShare::new(key(1), 1, 0, 0).share(f);
        let j = BondShare::new(key(1), 1, 80, 100).share(f);
        let s = BondShare::new(key(1), 1, 10, 100).share(f);
        assert_eq!(e, f / 10);
        assert_eq!(t, 0);
        assert_eq!(j as u128, 4 * (f as u128) / 5);
        assert_eq!(s, f / 10);
        assert!((e as u128) + (t as u128) + (j as u128) + (s as u128) <= f as u128);
    }
}

#[test]
fn account_type_tags() {
    assert_eq!(BondAccountType::default(), BondAccountType::Uninitialized);
    assert_eq!(BondAccountType::Uninitialized.to_tag(), 0);
    assert_eq!(BondAccountType::ExclusionList.to_tag(), 6);
    assert_eq!(BondAccountType::from_tag(3), Some(BondAccountType::Share));
    assert_eq!(BondAccountType::from_tag(7), None);
}

#[test]
fn seed_texts() {
    assert_eq!(BondSeed::State.as_bytes(), b"state".to_vec());
    assert_eq!(BondSeed::Fee.as_bytes(), b"fee".to_vec());
    assert_eq!(BondSeed::Draw.as_bytes(), b"draw".to_vec());
    assert_eq!(BondSeed::ExclusionList.as_bytes(), b"exclusionList".to_vec());
    assert_eq!(BondSeed::Equity.as_bytes(), b"equity".to_vec());
    assert_eq!(BondSeed::Treasury.as_bytes(), b"treasury".to_vec());
    assert_eq!(BondSeed::Jackpot.as_bytes(), b"jackpot".to_vec());
    assert_eq!(BondSeed::Stake.as_bytes(), b"stake".to_vec());
}

#[test]
fn config_round_trip() {
    let c = BondConfig::new(true, 0, 3, 10, 100, key(4), key(5));
    let bytes = c.to_bytes();
    assert_eq!(bytes.len(), 76);
    assert_eq!(&bytes[0..8], &[1, 1, 0, 3, 10, 0, 0, 0]);
    assert_eq!(&bytes[8..12], &[100, 0, 0, 0]);
    assert_eq!(BondConfig::from_bytes(&bytes), Ok(c));
    assert!(c.is_initialized());
    assert!(c.is_valid());
}

#[test]
fn state_round_trip_and_fields() {
    let s = BondState::new(key(2), 254, 0x0102, 7);
    let mut bytes = s.to_bytes();
    assert_eq!(bytes.len(), 43);
    assert_eq!(bytes[0], 2);
    assert_eq!(bytes[33], 254);
    assert_eq!(&bytes[34..42], &[2, 1, 0, 0, 0, 0, 0, 0]);
    assert_eq!(bytes[42], 7);
    bytes.extend_from_slice(&[9, 9, 9]);
    let back = BondState::from_bytes(&bytes).unwrap();
    assert_eq!(back, s);
    assert_eq!(back.authority(), key(2));
    assert_eq!(back.bump(), 254);
}

#[test]
fn zeroed_bytes_decode_as_uninitialized() {
    let zeros = vec![0u8; 122];
    let d = BondDraw::from_bytes(&zeros).unwrap();
    assert!(!d.is_initialized());
    assert!(!d.is_valid());
    let s = BondShare::from_bytes(&zeros).unwrap();
    assert_eq!(s.account_type, BondAccountType::Uninitialized);
    let l = BondExclusionList::from_bytes(&zeros).unwrap();
    assert!(l.accounts.is_empty());
}

#[test]
fn short_or_mistagged_bytes_do_not_decode() {
    assert_eq!(BondState::from_bytes(&vec![0u8; 42]), Err(BondError::InvalidAccountData));
    let mut bytes = BondFee::new(key(1), 3).to_bytes();
    bytes[0] = 7;
    assert_eq!(BondFee::from_bytes(&bytes), Err(BondError::InvalidAccountData));
    let mut config = BondConfig::new(true, 0, 3, 10, 100, key(4), key(5)).to_bytes();
    config[1] = 2;
    assert_eq!(BondConfig::from_bytes(&config), Err(BondError::InvalidAccountData));
    let mut list = vec![0u8; 42 + 32];
    list[38] = 2;
    assert_eq!(BondExclusionList::from_bytes(&list), Err(BondError::InvalidAccountData));
}

#[test]
fn draw_round_trip() {
    let d = BondDraw::new(key(3), 5, 1_000, 42, key(6), 2, 77, -5, 12, 1_700_000_000);
    let bytes = d.to_bytes();
    assert_eq!(bytes.len(), 122);
    assert_eq!(BondDraw::from_bytes(&bytes), Ok(d));
}

#[test]
fn exclusion_list_round_trip() {
    let l = BondExclusionList::new(key(1), 9, 4, vec![key(7), key(8)]);
    let bytes = l.to_bytes();
    assert_eq!(bytes.len(), 42 + 64);
    assert_eq!(&bytes[34..42], &[4, 0, 0, 0, 2, 0, 0, 0]);
    assert_eq!(BondExclusionList::from_bytes(&bytes), Ok(l));
}

#[test]
fn pack_into_keeps_the_tail_and_refuses_short_accounts() {
    let fee = BondFee::new(key(1), 3);
    let mut data = vec![0xAAu8; 40];
    assert_eq!(fee.pack_into(&mut data), Ok(()));
    assert_eq!(&data[0..34], fee.to_bytes().as_slice());
    assert_eq!(&data[34..], &[0xAA; 6]);
    let mut short = vec![0u8; 33];
    assert_eq!(fee.pack_into(&mut short), Err(BondError::AccountDataTooSmall));
    assert_eq!(short, vec![0u8; 33]);
}
