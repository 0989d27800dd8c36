use t3rn_circuit::contracts_config::{deposit, FindAuthorTruncated, FixedGasPrice};
use t3rn_circuit::dispatch::Weight;
use t3rn_circuit::hash_types::{H160, U256};

#[test]
fn deposit_formula() {
    let unit: u128 = 1_000_000_000_000;
    let milliunit: u128 = 1_000_000_000;
    assert_eq!(deposit(1, 0, unit, milliunit), 100_000_000_000);
    assert_eq!(deposit(0, 1, unit, milliunit), 5_000_000);
    assert_eq!(deposit(2, 10, unit, milliunit), 200_050_000_000);
}

#[test]
fn author_address_is_truncated_key() {
    let key: Vec<u8> = (0u8..32).collect();
    let other: Vec<u8> = vec![0xAA; 32];
    let authorities = vec![other, key];
    let found = FindAuthorTruncated::<()>::find_author(Some(1), &authorities);
    let mut expected = [0u8; 20];
    for (k, b) in expected.iter_mut().enumerate() {
        *b = (k + 4) as u8;
    }
    assert_eq!(found, Some(H160(expected)));
    assert_eq!(FindAuthorTruncated::<()>::find_author(Some(0), &authorities), Some(H160([0xAA; 20])));
    assert_eq!(FindAuthorTruncated::<()>::find_author(None, &authorities), None);
}

#[test]
fn fixed_gas_price() {
    let (price, weight) = FixedGasPrice::min_gas_price(1 + (3u128 << 64), Weight::from_parts(7, 0));
    assert_eq!(price, U256([1, 3, 0, 0]));
    assert_eq!(weight, Weight::from_parts(7, 0));
    assert_eq!(U256::from_u128(u128::MAX), U256([u64::MAX, u64::MAX, 0, 0]));
}
