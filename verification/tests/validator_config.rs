use casper_types::bytesrepr::ToBytes;
use casper_types::U512;
use schultz::bytesrepr::Error;
use schultz::primitives::{Motes, ValidatorConfig};

fn motes(value: u64) -> Motes {
    let mut le = [0u8; 64];
    le[..8].copy_from_slice(&value.to_le_bytes());
    Motes(le)
}

#[test]
fn validator_config_accessors() {
    let config = ValidatorConfig::new(motes(1000), 5);
    assert_eq!(config.delegation_rate(), 5);
    assert_eq!(config.bonded_amount(), motes(1000));
}

#[test]
fn validator_config_encoding() {
    let config = ValidatorConfig::new(motes(1000), 5);
    let bytes = config.to_bytes().unwrap();
    assert_eq!(bytes, vec![2, 0xe8, 0x03, 5]);
    assert_eq!(config.serialized_length(), 4);
    let mut expected = casper_types::Motes::new(U512::from(1000u64)).to_bytes().unwrap();
    expected.push(5);
    assert_eq!(bytes, expected);
    let zero = ValidatorConfig::new(motes(0), 9);
    assert_eq!(zero.to_bytes().unwrap(), vec![0, 9]);
    let max = ValidatorConfig::new(Motes([0xff; 64]), 1);
    assert_eq!(max.serialized_length(), 66);
    assert_eq!(max.to_bytes().unwrap()[0], 64);
}

#[test]
fn validator_config_roundtrip() {
    let config = ValidatorConfig::new(motes(0x0102_0304_0506), 17);
    let mut bytes = config.to_bytes().unwrap();
    bytes.extend_from_slice(&[42, 43]);
    let (read, rest) = ValidatorConfig::from_bytes(&bytes).unwrap();
    assert_eq!(read, config);
    assert_eq!(rest, &[42, 43]);
}

#[test]
fn validator_config_read_errors() {
    assert_eq!(ValidatorConfig::from_bytes(&[]).err(), Some(Error::EarlyEndOfStream));
    assert_eq!(ValidatorConfig::from_bytes(&[65, 1, 2]).err(), Some(Error::Formatting));
    assert_eq!(ValidatorConfig::from_bytes(&[2, 1]).err(), Some(Error::EarlyEndOfStream));
    assert_eq!(ValidatorConfig::from_bytes(&[1, 7]).err(), Some(Error::EarlyEndOfStream));
}

#[test]
fn a_non_canonical_amount_is_read_too() {
    let (read, rest) = ValidatorConfig::from_bytes(&[2, 5, 0, 9]).unwrap();
    assert_eq!(read, ValidatorConfig::new(motes(5), 9));
    assert!(rest.is_empty());
}
