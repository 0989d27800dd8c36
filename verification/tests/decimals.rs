use t3rn_circuit::decimals::{convert_decimals_from_evm, convert_decimals_to_evm, DECIMALS_VALUE};

#[test]
fn to_evm_scales_by_a_million() {
    assert_eq!(DECIMALS_VALUE, 1_000_000);
    assert_eq!(convert_decimals_to_evm(0u128), 0);
    assert_eq!(convert_decimals_to_evm(1u128), 1_000_000);
    assert_eq!(convert_decimals_to_evm(123_456u128), 123_456_000_000);
}

#[test]
fn to_evm_saturates() {
    assert_eq!(convert_decimals_to_evm(u128::MAX), u128::MAX);
    assert_eq!(convert_decimals_to_evm(u128::MAX / 1_000_000 + 1), u128::MAX);
    assert_eq!(
        convert_decimals_to_evm(u128::MAX / 1_000_000),
        (u128::MAX / 1_000_000) * 1_000_000
    );
}

#[test]
fn from_evm_whole_units() {
    assert_eq!(convert_decimals_from_evm(0u128), Some(0));
    assert_eq!(convert_decimals_from_evm(1_000_000u128), Some(1));
    assert_eq!(convert_decimals_from_evm(7_000_000_000u128), Some(7_000));
}

#[test]
fn from_evm_refuses_fractions() {
    assert_eq!(convert_decimals_from_evm(1u128), None);
    assert_eq!(convert_decimals_from_evm(999_999u128), None);
    assert_eq!(convert_decimals_from_evm(5_000_001u128), None);
    assert_eq!(convert_decimals_from_evm(u128::MAX), None);
}

#[test]
fn round_trip_native_to_evm_and_back() {
    for b in [0u128, 1, 2, 999, 1_000_000, 340_282_366_920_938_463_463_374_607_431_768] {
        assert_eq!(convert_decimals_from_evm(convert_decimals_to_evm(b)), Some(b));
    }
}

#[test]
fn round_trip_evm_to_native_and_back() {
    for x in [0u128, 3_000_000, 42_000_000_000] {
        let native = convert_decimals_from_evm(x).unwrap();
        assert_eq!(convert_decimals_to_evm(native), x);
    }
}

#[test]
fn u64_balances() {
    assert_eq!(convert_decimals_to_evm(5u64), 5_000_000);
    assert_eq!(convert_decimals_to_evm(u64::MAX / 1_000_000 + 1), u64::MAX);
    assert_eq!(convert_decimals_to_evm(0u64), 0);
    assert_eq!(convert_decimals_from_evm(5_000_000u64), Some(5));
    assert_eq!(convert_decimals_from_evm(5_000_001u64), None);
    assert_eq!(convert_decimals_from_evm(u64::MAX), None);
    assert_eq!(convert_decimals_from_evm(convert_decimals_to_evm(18_446_744_073_709u64)), Some(18_446_744_073_709));
}
