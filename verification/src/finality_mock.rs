//! Chains bridged by the mock runtime of the multi-finality verifier.
use vstd::prelude::*;

verus! {

/// A chain with the circuit's own block number, hash, hasher and header.
#[derive(Debug)]
pub struct TestCircuitLikeChain;

/// A chain with the circuit's block types, used for Keccak256 headers with
/// 64-bit block numbers.
#[derive(Debug)]
pub struct TestKeccak256U64Chain;

} // verus!
