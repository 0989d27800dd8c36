//! Pieces of the parachain runtime's configuration of the 3VM contracts and
//! EVM pallets.
use vstd::prelude::*;
use crate::dispatch::Weight;
use crate::hash_types::{H160, U256};

verus! {

/// The storage deposit for `items` storage items holding `bytes` bytes, in
/// a currency whose unit and milli-unit are `unit` and `milliunit`.
pub open spec fn spec_deposit(items: u32, bytes: u32, unit: u128, milliunit: u128) -> int {
    (items * unit + bytes * ((5 * milliunit) / 100)) / 10
}

/// The storage deposit for `items` storage items holding `bytes` bytes.
pub fn deposit(items: u32, bytes: u32, unit: u128, milliunit: u128) -> (r: u128)
    requires
        5 * milliunit <= u128::MAX,
        items * unit + bytes * ((5 * milliunit) / 100) <= u128::MAX,
    ensures
        r == spec_deposit(items, bytes, unit, milliunit),
{
    let per_byte: u128 = 5 * milliunit / 100;
    assert(0 <= bytes * per_byte && 0 <= items * unit) by (nonlinear_arith)
        requires
            0 <= bytes,
            0 <= per_byte,
            0 <= items,
            0 <= unit,
    ;
    let by_items: u128 = items as u128 * unit;
    let by_bytes: u128 = bytes as u128 * per_byte;
    (by_items + by_bytes) / 10
}

/// Finds the EVM address of a block's author: the 20 bytes at offsets 4 to
/// 24 of the author's raw public key.
pub struct FindAuthorTruncated<F>(pub core::marker::PhantomData<F>);

impl<F> FindAuthorTruncated<F> {
    /// `author_index` is the author's index among the block authorities,
    /// when one was found; `authorities` holds their raw public keys.
    pub fn find_author(author_index: Option<u32>, authorities: &Vec<Vec<u8>>) -> (r: Option<H160>)
        requires
            author_index matches Some(i) ==> i < authorities@.len() && authorities@[i as int]@.len()
                >= 24,
        ensures
            match author_index {
                Some(i) => r matches Some(a) && a.0@ == authorities@[i as int]@.subrange(4, 24),
                None => r is None,
            },
    {
        if let Some(author_index) = author_index {
            let authority_id: &Vec<u8> = &authorities[author_index as usize];
            let mut address: [u8; 20] = [0u8; 20];
            let mut k: usize = 0;
            while k < 20
                invariant
                    k <= 20,
                    authority_id@.len() >= 24,
                    forall|j: int| 0 <= j < k ==> #[trigger] address@[j] == authority_id@[j + 4],
                decreases 20 - k,
            {
                address[k] = authority_id[k + 4];
                k = k + 1;
            }
            assert(address@ =~= authority_id@.subrange(4, 24));
            return Some(H160(address));
        }
        None
    }
}

/// The EVM fee calculator with a fixed gas price.
pub struct FixedGasPrice;

impl FixedGasPrice {
    /// The minimum gas price, with the weight of computing it: the runtime's
    /// fixed `gas_price` and `gas_weight`.
    pub fn min_gas_price(gas_price: u128, gas_weight: Weight) -> (r: (U256, Weight))
        ensures
            r.0.value() == gas_price,
            r.1 == gas_weight,
    {
        (U256::from_u128(gas_price), gas_weight)
    }
}

} // verus!
