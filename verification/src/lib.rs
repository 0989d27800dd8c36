use vstd::prelude::*;

pub mod calls;
pub mod circuit;
pub mod contracts_config;
pub mod decimals;
pub mod finality_mock;
pub mod dispatch;
pub mod hash_types;
pub mod maintenance;
pub mod modifier;
pub mod portal;
pub mod threevm;

verus! {
} // verus!
