use axon_log_vm::account::AccountTreeId;
use axon_log_vm::hex::{BytesToHexSerde, Prefix, ZeroxPrefix};
use axon_log_vm::queries::Address;
use axon_log_vm::word::U256;

type ZeroPrefixHexSerde = BytesToHexSerde<ZeroxPrefix>;

#[test]
fn hex_encode_with_prefix() {
    assert_eq!(ZeroxPrefix::prefix(), "0x");
    assert_eq!(ZeroPrefixHexSerde::encode(&[0x01, 0xab, 0x00, 0xff]), "0x01ab00ff");
    assert_eq!(ZeroPrefixHexSerde::encode(&[]), "0x");
}

#[test]
fn hex_decode_with_prefix() {
    assert_eq!(ZeroPrefixHexSerde::decode("0x01ab"), Ok(vec![0x01, 0xab]));
    assert_eq!(ZeroPrefixHexSerde::decode("0xABcd"), Ok(vec![0xab, 0xcd]));
    assert_eq!(ZeroPrefixHexSerde::decode("0x"), Ok(vec![]));
}

#[test]
fn hex_decode_errors() {
    assert_eq!(
        ZeroPrefixHexSerde::decode("01ab"),
        Err("string value missing prefix: \"0x\"".to_string())
    );
    assert!(ZeroPrefixHexSerde::decode("0xzz").is_err());
    assert!(ZeroPrefixHexSerde::decode("0x123").is_err());
}

#[test]
fn hex_round_trip() {
    let bytes: Vec<u8> = (0u8..=255).collect();
    let s = ZeroPrefixHexSerde::encode(&bytes);
    assert_eq!(ZeroPrefixHexSerde::decode(&s), Ok(bytes));
}

fn sample_address() -> Address {
    let mut b = [0u8; 20];
    for (i, x) in b.iter_mut().enumerate() {
        *x = 0xa0 + i as u8;
    }
    Address(b)
}

#[test]
fn account_bytes() {
    let a = AccountTreeId::new(sample_address());
    assert_eq!(*a.address(), sample_address());
    assert_eq!(a.to_fixed_bytes(), sample_address().0);
    assert_eq!(AccountTreeId::from_fixed_bytes(sample_address().0), a);
    assert_eq!(AccountTreeId::default().to_fixed_bytes(), [0u8; 20]);
}

#[test]
fn account_word_round_trip() {
    let a = AccountTreeId::new(sample_address());
    let w = a.to_u256();
    let be = w.to_be_bytes();
    assert_eq!(&be[0..12], &[0u8; 12]);
    assert_eq!(&be[12..32], &sample_address().0);
    assert_eq!(w.l0, 0xac_ad_ae_af_b0_b1_b2_b3);
    assert_eq!(w.l2 >> 32, 0);
    assert_eq!(AccountTreeId::from_u256(w), a);
    let high = U256::from_limbs([1, 2, 3, u64::MAX]);
    assert_eq!(AccountTreeId::from_u256(high).to_fixed_bytes()[0..4], [0, 0, 0, 3]);
}

#[test]
fn word_from_be_bytes() {
    let mut b = [0u8; 32];
    b[31] = 1;
    b[0] = 0x80;
    let w = U256::from_be_bytes(b);
    assert_eq!(w, U256::from_limbs([1, 0, 0, 0x8000_0000_0000_0000]));
    assert_eq!(w.to_be_bytes(), b);
}
