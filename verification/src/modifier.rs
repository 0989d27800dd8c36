//! Checks related to function modifiers (view/payable) of precompiled
//! Solidity functions.
use vstd::prelude::*;
use crate::hash_types::{H160, U256};
use vstd::string::StringSliceAdditionalSpecFns;
use vstd::string::StrSliceExecFns;

verus! {

/// Represents modifiers a Solidity function can be annotated with.
#[derive(Copy, Clone, Debug, PartialEq, Eq, Structural)]
pub enum FunctionModifier {
    /// Function that doesn't modify the state.
    View,
    /// Function that modifies the state but refuse receiving funds.
    /// Correspond to a Solidity function with no modifiers.
    NonPayable,
    /// Function that modifies the state and accept funds.
    Payable,
}

/// The context in which a precompile is called.
pub struct Context {
    /// Execution address.
    pub address: H160,
    /// Caller of the EVM.
    pub caller: H160,
    /// Apparent value of the EVM.
    pub apparent_value: U256,
}

/// Why an EVM execution stopped by reverting.
#[derive(Copy, Clone, Debug, PartialEq, Eq, Structural)]
pub enum ExitRevert {
    /// Machine encountered an explicit revert.
    Reverted,
}

/// How a precompile fails; the checks of this module only ever revert.
#[derive(Debug, PartialEq, Eq)]
pub enum PrecompileFailure {
    /// The precompile reverts, with a status and the revert output.
    Revert { exit_status: ExitRevert, output: Vec<u8> },
}

/// The outcome of a precompile step that produces nothing on success.
pub type EvmResult = Result<(), PrecompileFailure>;

/// `r` is a revert whose output is the bytes of `msg`.
pub open spec fn reverts_with(r: EvmResult, msg: &str) -> bool {
    match r {
        Err(PrecompileFailure::Revert { exit_status, output }) => exit_status == ExitRevert::Reverted
            && output@ == msg.spec_bytes(),
        Ok(_) => false,
    }
}

/// Check that a function call is compatible with the context it is
/// called into.
///
/// A static call may only reach a view function, and only a payable
/// function may receive a non-zero value; the first rule is checked first.
#[must_use]
pub fn check_function_modifier(context: &Context, is_static: bool, modifier: FunctionModifier) -> (r:
    EvmResult)
    ensures
        is_static && modifier != FunctionModifier::View ==> reverts_with(
            r,
            "Can't call non-static function in static context",
        ),
        !(is_static && modifier != FunctionModifier::View) && modifier != FunctionModifier::Payable
            && context.apparent_value.value() > 0 ==> reverts_with(r, "Function is not payable"),
        !(is_static && modifier != FunctionModifier::View) && (modifier == FunctionModifier::Payable
            || context.apparent_value.value() == 0) ==> r is Ok,
{
    if is_static && modifier != FunctionModifier::View {
        return Err(
            PrecompileFailure::Revert {
                exit_status: ExitRevert::Reverted,
                output: "Can't call non-static function in static context".as_bytes_vec(),
            },
        );
    }
    if modifier != FunctionModifier::Payable && !context.apparent_value.is_zero() {
        return Err(
            PrecompileFailure::Revert {
                exit_status: ExitRevert::Reverted,
                output: "Function is not payable".as_bytes_vec(),
            },
        );
    }
    Ok(())
}

} // verus!
