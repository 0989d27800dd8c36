use t3rn_circuit::hash_types::{H160, U256};
use t3rn_circuit::modifier::{check_function_modifier, Context, ExitRevert, FunctionModifier, PrecompileFailure};

fn context(value: [u64; 4]) -> Context {
    Context { address: H160([1u8; 20]), caller: H160([2u8; 20]), apparent_value: U256(value) }
}

fn revert(msg: &str) -> Result<(), PrecompileFailure> {
    Err(PrecompileFailure::Revert { exit_status: ExitRevert::Reverted, output: msg.as_bytes().to_vec() })
}

#[test]
fn static_calls_reach_only_views() {
    let ctx = context([0, 0, 0, 0]);
    assert_eq!(check_function_modifier(&ctx, true, FunctionModifier::View), Ok(()));
    assert_eq!(
        check_function_modifier(&ctx, true, FunctionModifier::NonPayable),
        revert("Can't call non-static function in static context")
    );
    assert_eq!(
        check_function_modifier(&ctx, true, FunctionModifier::Payable),
        revert("Can't call non-static function in static context")
    );
}

#[test]
fn only_payable_functions_take_value() {
    let paid = context([0, 0, 0, 1]);
    assert_eq!(check_function_modifier(&paid, false, FunctionModifier::Payable), Ok(()));
    assert_eq!(
        check_function_modifier(&paid, false, FunctionModifier::NonPayable),
        revert("Function is not payable")
    );
    assert_eq!(
        check_function_modifier(&paid, false, FunctionModifier::View),
        revert("Function is not payable")
    );
    let free = context([0, 0, 0, 0]);
    assert_eq!(check_function_modifier(&free, false, FunctionModifier::NonPayable), Ok(()));
    assert_eq!(check_function_modifier(&free, false, FunctionModifier::View), Ok(()));
}

#[test]
fn static_check_comes_first() {
    let paid = context([5, 0, 0, 0]);
    assert_eq!(
        check_function_modifier(&paid, true, FunctionModifier::NonPayable),
        revert("Can't call non-static function in static context")
    );
    assert_eq!(
        check_function_modifier(&paid, true, FunctionModifier::View),
        revert("Function is not payable")
    );
}

#[test]
fn u256_zero() {
    assert!(U256::zero().is_zero());
    assert!(!U256([0, 0, 1, 0]).is_zero());
}
