//! Fixed-size EVM values: 20-byte addresses and 256-bit unsigned integers.
use vstd::prelude::*;

verus! {

/// A 20-byte EVM address.
#[derive(Clone, Copy, Debug, PartialEq, Eq)]
pub struct H160(pub [u8; 20]);

/// A 256-bit unsigned integer, as four 64-bit limbs, least significant first.
#[derive(Clone, Copy, Debug, PartialEq, Eq)]
pub struct U256(pub [u64; 4]);

impl U256 {
    /// The number this value stands for.
    pub open spec fn value(&self) -> nat {
        (self.0[0] as nat) + (self.0[1] as nat) * 0x1_0000_0000_0000_0000 + (self.0[2] as nat)
            * 0x1_0000_0000_0000_0000_0000_0000_0000_0000 + (self.0[3] as nat)
            * 0x1_0000_0000_0000_0000_0000_0000_0000_0000_0000_0000_0000_0000
    }

    /// The value zero.
    pub fn zero() -> (r: U256)
        ensures
            r.value() == 0,
    {
        U256([0u64, 0u64, 0u64, 0u64])
    }

    /// The value `v`.
    pub fn from_u128(v: u128) -> (r: U256)
        ensures
            r.value() == v,
    {
        let low: u64 = (v % 0x1_0000_0000_0000_0000) as u64;
        let high: u64 = (v / 0x1_0000_0000_0000_0000) as u64;
        U256([low, high, 0u64, 0u64])
    }

    /// Whether the value is zero.
    pub fn is_zero(&self) -> (r: bool)
        ensures
            r == (self.value() == 0),
    {
        self.0[0] == 0 && self.0[1] == 0 && self.0[2] == 0 && self.0[3] == 0
    }
}

/// A 32-byte hash.
#[derive(Clone, Copy, Debug, PartialEq, Eq)]
pub struct H256(pub [u8; 32]);

/// A 32-byte account identifier.
#[derive(Clone, Copy, Debug, PartialEq, Eq)]
pub struct AccountId32(pub [u8; 32]);

impl AccountId32 {
    /// Whether two account identifiers hold the same bytes.
    pub fn same_as(&self, other: &AccountId32) -> (r: bool)
        ensures
            r == (self.0@ == other.0@),
    {
        let mut i: usize = 0;
        while i < 32
            invariant
                i <= 32,
                forall|k: int| 0 <= k < i ==> self.0@[k] == other.0@[k],
            decreases 32 - i,
        {
            if self.0[i] != other.0[i] {
                return false;
            }
            i = i + 1;
        }
        assert(self.0@ =~= other.0@);
        true
    }
}

} // verus!
