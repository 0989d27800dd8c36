use t3rn_circuit::dispatch::DispatchError;
use t3rn_circuit::hash_types::H160;
use t3rn_circuit::threevm::{
    get_tokens_precompile_address, Characteristic, GetState, LocalStateAccess, ModuleOperations,
    NoopThreeVm, Precompile, PrecompileInvocation, Remunerated, Remuneration, SignalOpcode,
    Signaller, ThreeVm, ThreeVmInfo, GET_STATE, H160_POSITION_ASSET_ID_TYPE, PORTAL, POST_SIGNAL,
    SUBMIT, VACUUM_ORDER,
};

#[test]
fn precompile_pointers() {
    assert_eq!(GET_STATE, 55);
    assert_eq!(SUBMIT, 56);
    assert_eq!(POST_SIGNAL, 57);
    assert_eq!(PORTAL, 70);
    assert_eq!(VACUUM_ORDER, 90);
}

#[test]
fn invocation_accessors() {
    let state: PrecompileInvocation<u32, ()> = PrecompileInvocation::GetState(7);
    assert_eq!(state.get_state(), Some(&7));
    assert_eq!(state.get_submit(), None);
    let submit: PrecompileInvocation<u32, ()> = PrecompileInvocation::Submit(9);
    assert_eq!(submit.get_state(), None);
    assert_eq!(submit.get_submit(), Some(&9));
    let signal: PrecompileInvocation<u32, ()> = PrecompileInvocation::Signal;
    assert_eq!(signal.get_state(), None);
    assert_eq!(signal.get_submit(), None);
    let order: PrecompileInvocation<u32, ()> = PrecompileInvocation::VacuumOrder(true);
    assert_eq!(order.get_state(), None);
}

#[test]
fn remunerated_constructors() {
    let none: Remunerated<u64> = Remunerated::default();
    assert_eq!(none.remuneration_id, None);
    assert_eq!(Remunerated::new(Some(3u64)).remuneration_id, Some(3));
    assert_eq!(Remunerated::<u64>::new(None), Remunerated::default());
}

#[test]
fn get_state_args() {
    let args = GetState { xtx_id: Some(5u8) };
    assert_eq!(args, GetState { xtx_id: Some(5u8) });
}

#[test]
fn tokens_precompile_address_layout() {
    let H160(bytes) = get_tokens_precompile_address(0x0102_0304);
    let mut expected = [9u8; 20];
    expected[16..20].copy_from_slice(&[1, 2, 3, 4]);
    assert_eq!(bytes, expected);
    assert_eq!(H160_POSITION_ASSET_ID_TYPE, 16);
}

#[test]
fn tokens_precompile_address_edges() {
    let H160(zero) = get_tokens_precompile_address(0);
    let mut expected = [9u8; 20];
    expected[16..20].copy_from_slice(&[0, 0, 0, 0]);
    assert_eq!(zero, expected);
    let H160(max) = get_tokens_precompile_address(u32::MAX);
    expected[16..20].copy_from_slice(&[255, 255, 255, 255]);
    assert_eq!(max, expected);
    assert_ne!(get_tokens_precompile_address(1), get_tokens_precompile_address(256));
}

#[test]
fn noop_three_vm_refuses_and_accepts() {
    assert_eq!(<NoopThreeVm as Precompile>::lookup(&[0u8; 32]), None);
    assert_eq!(
        <NoopThreeVm as Precompile>::invoke::<u8, PrecompileInvocation<u8, ()>>(1),
        Err(DispatchError::Other("Precompile Invocation Not implemented"))
    );
    let mut output = vec![1u8, 2];
    <NoopThreeVm as Precompile>::invoke_raw(&GET_STATE, &[3, 4], &mut output);
    assert_eq!(output, vec![1, 2]);
    assert_eq!(
        <NoopThreeVm as LocalStateAccess>::load_local_state::<u8, u64, u32>(&0, Some(&1)),
        Err(DispatchError::Other("Local State Not implemented"))
    );
    assert_eq!(
        <NoopThreeVm as Signaller>::signal(&5u8),
        Err(DispatchError::Other("Signalling is not enabled"))
    );
    assert_eq!(
        <NoopThreeVm as ThreeVm>::peek_registry::<u64, u8>(&1),
        Err(DispatchError::Other("Registry Peek Not implemented"))
    );
    let from_registry = <NoopThreeVm as ThreeVm>::from_registry::<u64, u8, u8, ThreeVmInfo<u8, u8>, _>(
        &1,
        |_code: Vec<u8>| ThreeVmInfo::default(),
    );
    assert!(matches!(
        from_registry,
        Err(DispatchError::Other("From Registry Not implemented"))
    ));
    assert_eq!(<NoopThreeVm as ThreeVm>::instantiate_check(&1u8), Ok(()));
    assert_eq!(<NoopThreeVm as ThreeVm>::storage_check(&1u8), Ok(()));
    assert_eq!(<NoopThreeVm as ThreeVm>::volatile_check(&1u8), Ok(()));
    assert_eq!(<NoopThreeVm as ThreeVm>::remunerable_check(&1u8), Ok(()));
    assert_eq!(<NoopThreeVm as ThreeVm>::try_persist_author(&1u64, Some(&2u8)), Ok(()));
    assert_eq!(<NoopThreeVm as ThreeVm>::try_remove_author(&1u64), Ok(()));
}

#[test]
fn noop_three_vm_remunerates_nothing() {
    let module: ThreeVmInfo<u8, u8> = ThreeVmInfo::default();
    let r = <NoopThreeVm as Remuneration>::try_remunerate::<u64, u64, u8, u8, _>(&1, &module);
    assert_eq!(r, Ok(Remunerated { remuneration_id: None }));
    let r = <NoopThreeVm as Remuneration>::try_remunerate_exact::<u64, u64, u128, u8, u8, _>(
        &1, 10, &module,
    );
    assert_eq!(r, Ok(Remunerated { remuneration_id: None }));
    assert_eq!(<NoopThreeVm as Remuneration>::try_finalize(1u64, ()), Ok(()));
}

#[test]
fn module_setters_and_getters() {
    let mut module: ThreeVmInfo<u64, u8> = ThreeVmInfo::default();
    assert!(module.get_bytecode().is_empty());
    assert_eq!(module.get_author(), Some(&0));
    module.set_author(42);
    assert_eq!(module.get_author(), Some(&42));
    assert_eq!(*module.get_type(), 0);
    module.set_type(3);
    assert_eq!(*module.get_type(), 3);
    assert_eq!(module.get_author(), Some(&42));
    assert!(module.get_bytecode().is_empty());
}

#[test]
fn enums_compare() {
    assert_eq!(SignalOpcode::Initiated, SignalOpcode::Initiated);
    assert_ne!(SignalOpcode::Initiated, SignalOpcode::Bounced);
    assert_ne!(Characteristic::Storage, Characteristic::Volatile);
}

#[test]
fn module_from_parts() {
    let module: ThreeVmInfo<u64, u8> = ThreeVmInfo::from_parts(7, 2, vec![0x60, 0x80]);
    assert_eq!(module.get_author(), Some(&7));
    assert_eq!(*module.get_type(), 2);
    assert_eq!(module.get_bytecode(), &vec![0x60, 0x80]);
}
