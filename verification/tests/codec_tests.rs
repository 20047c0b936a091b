use ecopay::contract::{bytes_to_u128, parse_u128, read_u128};
use ecopay::errors::ContractError;
use ecopay::kv::KvStore;

#[test]
fn sixteen_bytes_decode_big_endian() {
    let mut one = vec![0u8; 16];
    one[15] = 1;
    assert_eq!(1, bytes_to_u128(&one).unwrap());

    let mut two_fifty_six = vec![0u8; 16];
    two_fifty_six[14] = 1;
    assert_eq!(256, bytes_to_u128(&two_fifty_six).unwrap());

    let all_ones = vec![0xffu8; 16];
    assert_eq!(u128::MAX, bytes_to_u128(&all_ones).unwrap());
}

#[test]
fn wrong_lengths_are_corrupt() {
    assert_eq!(ContractError::CorruptedData, bytes_to_u128(&[0u8; 15]).unwrap_err());
    assert_eq!(ContractError::CorruptedData, bytes_to_u128(&[0u8; 17]).unwrap_err());
    assert_eq!(ContractError::CorruptedData, bytes_to_u128(&[]).unwrap_err());
}

#[test]
fn missing_keys_read_as_zero() {
    let store = KvStore::new();
    assert_eq!(0, read_u128(&store, &b"absent".to_vec()).unwrap());
}

#[test]
fn parse_u128_reads_decimal_strings() {
    assert_eq!(0, parse_u128("0").unwrap());
    assert_eq!(123, parse_u128("123").unwrap());
    assert_eq!(5000, parse_u128("5000").unwrap());
    assert_eq!(u128::MAX, parse_u128("340282366920938463463374607431768211455").unwrap());
}

#[test]
fn parse_u128_rejects_bad_input() {
    assert_eq!(ContractError::ParseError, parse_u128("").unwrap_err());
    assert_eq!(ContractError::ParseError, parse_u128("12a").unwrap_err());
    assert_eq!(ContractError::ParseError, parse_u128("-5").unwrap_err());
    assert_eq!(ContractError::ParseError, parse_u128(" 5").unwrap_err());
    assert_eq!(
        ContractError::ParseError,
        parse_u128("340282366920938463463374607431768211456").unwrap_err()
    );
}

#[test]
fn decimal_strings_round_trip() {
    for v in [0u128, 9, 10, 12345, 5000, u128::MAX] {
        let written = ecopay::codec::u128_to_dec_string(v);
        assert_eq!(v, parse_u128(written.as_str()).unwrap());
    }
}

#[test]
fn error_labels_describe_the_failure() {
    assert_eq!("unauthorized", ContractError::Unauthorized.label());
    assert_eq!("contract locked", ContractError::ContractLocked.label());
    assert_eq!("contract is done", ContractError::ContractDone.label());
}
