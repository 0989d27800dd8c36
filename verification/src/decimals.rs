//! Balance conversion between the native token (12 decimals) and the EVM
//! representation (18 decimals), for any balance type with the arithmetic
//! it needs.
use vstd::prelude::*;

verus! {

/// Convert decimal between TRN(12) and EVM(18) and therefore the 1_000_000 conversion.
pub const DECIMALS_VALUE: u32 = 1_000_000u32;

/// A native amount `v` expressed with EVM decimals, saturating at `max`.
pub open spec fn spec_to_evm(v: int, max: int) -> int {
    if v * (DECIMALS_VALUE as int) > max {
        max
    } else {
        v * (DECIMALS_VALUE as int)
    }
}

/// An EVM amount `v` expressed with native decimals, when it is a whole
/// number of native units.
pub open spec fn spec_from_evm(v: int) -> Option<int> {
    if v % (DECIMALS_VALUE as int) == 0 {
        Some(v / (DECIMALS_VALUE as int))
    } else {
        None
    }
}

/// A balance type with what the decimal conversions need: a zero test,
/// saturating multiplication, checked division, equality and the
/// embedding of `u32`.
pub trait DecimalsBalance: Sized + Copy {
    /// The non-negative number this balance stands for.
    spec fn amount(&self) -> int;

    /// The largest number a balance of this type stands for.
    spec fn max_amount() -> int;

    /// Every balance lies between zero and the largest one, which is at
    /// least `u32::MAX`.
    proof fn lemma_amount_bounds(b: Self)
        ensures
            0 <= b.amount() <= Self::max_amount(),
            u32::MAX <= Self::max_amount(),
    ;

    fn balance_from_u32(v: u32) -> (r: Self)
        ensures
            r.amount() == v,
    ;

    fn balance_is_zero(&self) -> (r: bool)
        ensures
            r == (self.amount() == 0),
    ;

    fn balance_eq(&self, other: &Self) -> (r: bool)
        ensures
            r == (self.amount() == other.amount()),
    ;

    fn balance_saturating_mul(self, other: Self) -> (r: Self)
        ensures
            r.amount() == (if self.amount() * other.amount() > Self::max_amount() {
                Self::max_amount()
            } else {
                self.amount() * other.amount()
            }),
    ;

    fn balance_checked_div(self, other: Self) -> (r: Option<Self>)
        ensures
            other.amount() == 0 ==> r is None,
            other.amount() != 0 ==> (r matches Some(q) && q.amount() == self.amount()
                / other.amount()),
    ;
}

impl DecimalsBalance for u64 {
    open spec fn amount(&self) -> int {
        *self as int
    }

    open spec fn max_amount() -> int {
        u64::MAX as int
    }

    proof fn lemma_amount_bounds(b: Self) {
    }

    fn balance_from_u32(v: u32) -> (r: Self) {
        v as u64
    }

    fn balance_is_zero(&self) -> (r: bool) {
        *self == 0
    }

    fn balance_eq(&self, other: &Self) -> (r: bool) {
        *self == *other
    }

    fn balance_saturating_mul(self, other: Self) -> (r: Self) {
        match self.checked_mul(other) {
            Some(v) => v,
            None => u64::MAX,
        }
    }

    fn balance_checked_div(self, other: Self) -> (r: Option<Self>) {
        self.checked_div(other)
    }
}

impl DecimalsBalance for u128 {
    open spec fn amount(&self) -> int {
        *self as int
    }

    open spec fn max_amount() -> int {
        u128::MAX as int
    }

    proof fn lemma_amount_bounds(b: Self) {
    }

    fn balance_from_u32(v: u32) -> (r: Self) {
        v as u128
    }

    fn balance_is_zero(&self) -> (r: bool) {
        *self == 0
    }

    fn balance_eq(&self, other: &Self) -> (r: bool) {
        *self == *other
    }

    fn balance_saturating_mul(self, other: Self) -> (r: Self) {
        match self.checked_mul(other) {
            Some(v) => v,
            None => u128::MAX,
        }
    }

    fn balance_checked_div(self, other: Self) -> (r: Option<Self>) {
        self.checked_div(other)
    }
}

/// Convert decimal from native(TRN 12) to EVM(18).
pub fn convert_decimals_to_evm<B: DecimalsBalance>(b: B) -> (r: B)
    ensures
        r.amount() == spec_to_evm(b.amount(), B::max_amount()),
{
    proof {
        B::lemma_amount_bounds(b);
    }
    if b.balance_is_zero() {
        return b;
    }
    b.balance_saturating_mul(B::balance_from_u32(DECIMALS_VALUE))
}

/// Convert decimal from native EVM(18) to TRN(12).
///
/// Returns `None` when the EVM amount carries a fraction of a native unit.
pub fn convert_decimals_from_evm<B: DecimalsBalance>(b: B) -> (r: Option<B>)
    ensures
        r is Some <==> spec_from_evm(b.amount()) is Some,
        r matches Some(x) ==> spec_from_evm(b.amount()) == Some(x.amount()),
{
    proof {
        B::lemma_amount_bounds(b);
    }
    if b.balance_is_zero() {
        return Some(b);
    }
    let divisor: B = B::balance_from_u32(DECIMALS_VALUE);
    let res: B = match b.balance_checked_div(divisor) {
        Some(q) => q,
        None => {
            // the divisor is a non-zero constant
            assert(false);
            return None;
        },
    };
    proof {
        B::lemma_amount_bounds(res);
    }
    let back: B = res.balance_saturating_mul(divisor);
    if back.balance_eq(&b) {
        Some(res)
    } else {
        None
    }
}

/// Converting a native balance to EVM decimals and back gives the amount
/// back, whenever the EVM amount does not saturate.
pub proof fn lemma_from_evm_undoes_to_evm(v: int, max: int)
    requires
        0 <= v,
        v * (DECIMALS_VALUE as int) <= max,
    ensures
        spec_from_evm(spec_to_evm(v, max)) == Some(v),
{
}

/// Whenever an EVM amount converts to a native amount, converting that
/// amount back gives the EVM amount, for any bound the EVM amount lies
/// within.
pub proof fn lemma_to_evm_undoes_from_evm(x: int, max: int)
    requires
        0 <= x <= max,
    ensures
        spec_from_evm(x) matches Some(y) ==> spec_to_evm(y, max) == x,
{
}

} // verus!
