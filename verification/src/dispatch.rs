//! The error with which a runtime call or a 3VM hook is refused.
use vstd::prelude::*;

verus! {

/// Why a dispatch was refused.
#[derive(Debug, PartialEq, Eq)]
pub enum DispatchError {
    /// The origin of the call is not allowed to make it.
    BadOrigin,
    /// A refusal described by a fixed message.
    Other(&'static str),
}

/// An origin of a call: the chain itself, a signed account, or an unsigned
/// transaction.
#[derive(Debug, PartialEq, Eq)]
pub enum RawOrigin<AccountId> {
    Root,
    Signed(AccountId),
    Unsigned,
}

/// The account that signed the call, or `BadOrigin` when it is not signed.
pub fn ensure_signed<AccountId>(origin: RawOrigin<AccountId>) -> (r: Result<AccountId, DispatchError>)
    ensures
        match origin {
            RawOrigin::Signed(who) => r == Ok::<AccountId, DispatchError>(who),
            _ => r == Err::<AccountId, DispatchError>(DispatchError::BadOrigin),
        },
{
    match origin {
        RawOrigin::Signed(who) => Ok(who),
        _ => Err(DispatchError::BadOrigin),
    }
}

/// A weight: computation time and proof size.
#[derive(Copy, Clone, Debug, PartialEq, Eq, Structural)]
pub struct Weight {
    pub ref_time: u64,
    pub proof_size: u64,
}

impl Weight {
    pub fn from_parts(ref_time: u64, proof_size: u64) -> (r: Weight)
        ensures
            r == (Weight { ref_time, proof_size }),
    {
        Weight { ref_time, proof_size }
    }

    pub fn zero() -> (r: Weight)
        ensures
            r == (Weight { ref_time: 0, proof_size: 0 }),
    {
        Weight { ref_time: 0, proof_size: 0 }
    }
}

} // verus!
