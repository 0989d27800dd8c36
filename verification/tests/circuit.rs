use t3rn_circuit::circuit::{
    expected_root, select_bridge, CallError, EnsureExecDelivery, Error, Event, FullSideEffect,
    GatewayBridge, HasherAlgo, Pallet, Payload, ProofTriePointer, Xtx,
};
use t3rn_circuit::calls::{
    ConfirmSideEffectAction, ConfirmSideEffectAnswer, ConfirmSideEffectState, RegisterGatewayAction,
    RegisterGatewayAnswer, RegisterGatewayState, SubmitSideEffectsAction, SubmitSideEffectsAnswer,
    SubmitSideEffectsState,
};
use t3rn_circuit::dispatch::RawOrigin;
use t3rn_circuit::hash_types::{AccountId32, H256};

type Ev = Event<u32, &'static str, u8, u8>;

fn alice() -> AccountId32 {
    AccountId32([1u8; 32])
}

fn xtx_id() -> H256 {
    H256([7u8; 32])
}

fn unconfirmed(input: u32) -> FullSideEffect<u32, &'static str> {
    FullSideEffect { input, confirmed: None }
}

#[test]
fn bridge_selection() {
    assert_eq!(select_bridge(HasherAlgo::Blake2, 32), GatewayBridge::DefaultPolkadotLike);
    assert_eq!(select_bridge(HasherAlgo::Blake2, 64), GatewayBridge::PolkadotLikeValU64);
    assert_eq!(select_bridge(HasherAlgo::Keccak256, 32), GatewayBridge::EthLikeKeccak256ValU32);
    assert_eq!(select_bridge(HasherAlgo::Keccak256, 64), GatewayBridge::EthLikeKeccak256ValU64);
    assert_eq!(select_bridge(HasherAlgo::Keccak256, 16), GatewayBridge::DefaultPolkadotLike);
    assert_eq!(select_bridge(HasherAlgo::Blake2, 128), GatewayBridge::DefaultPolkadotLike);
}

#[test]
fn expected_root_by_trie() {
    assert_eq!(expected_root(ProofTriePointer::State, "ext", "storage"), "storage");
    assert_eq!(expected_root(ProofTriePointer::Transaction, "ext", "storage"), "ext");
    assert_eq!(expected_root(ProofTriePointer::Receipts, "ext", "storage"), "storage");
}

#[test]
fn blind_confirmation_completes_the_transaction() {
    let r: Result<Vec<Ev>, CallError<()>> =
        Pallet::confirm_side_effect_blind(RawOrigin::Signed(alice()), xtx_id(), "done", None, true);
    assert_eq!(
        r,
        Ok(vec![
            Event::SideEffectConfirmed(alice(), xtx_id(), "done", 0),
            Event::XTransactionSuccessfullyCompleted(xtx_id()),
        ])
    );
    let r: Result<Vec<Ev>, CallError<()>> =
        Pallet::confirm_side_effect_blind(RawOrigin::Root, xtx_id(), "done", None, false);
    assert_eq!(r, Err(CallError::BadOrigin));
}

#[test]
fn update_gateway_announces() {
    let event: Ev = Pallet::update_gateway::<(), u32, &'static str, u8, u8>(
        RawOrigin::Root,
        *b"gate",
        None,
        None,
        None,
        Some(vec![vec![1u8, 2]]),
    );
    assert_eq!(event, Event::GatewayUpdated(*b"gate", Some(vec![vec![1, 2]])));
}

#[test]
fn ensure_exec_delivery_accepts_only_the_pallet() {
    let pallet_id = *b"pal/circ";
    let pallet = Pallet::account_id(pallet_id);
    let mut expected = [0u8; 32];
    expected[..4].copy_from_slice(b"modl");
    expected[4..12].copy_from_slice(&pallet_id);
    assert_eq!(pallet, AccountId32(expected));
    assert_eq!(
        EnsureExecDelivery::<()>::try_origin::<u8>(Ok(RawOrigin::Signed(pallet)), pallet_id),
        Ok(pallet)
    );
    assert_eq!(
        EnsureExecDelivery::<()>::try_origin::<u8>(Ok(RawOrigin::Signed(alice())), pallet_id),
        Err(Ok(RawOrigin::Signed(alice())))
    );
    assert_eq!(
        EnsureExecDelivery::<()>::try_origin::<u8>(Ok(RawOrigin::Root), pallet_id),
        Err(Ok(RawOrigin::Root))
    );
    assert_eq!(EnsureExecDelivery::<()>::try_origin::<u8>(Err(3), pallet_id), Err(Err(3)));
    let origin = EnsureExecDelivery::<()>::successful_origin(pallet_id);
    assert_eq!(origin, RawOrigin::Signed(pallet));
    assert_eq!(EnsureExecDelivery::<()>::try_origin::<u8>(Ok(origin), pallet_id), Ok(pallet));
}

#[test]
fn payload_public_key() {
    let payload = Payload { block_number: 3u32, public: vec![1u8, 2] };
    assert_eq!(payload.public(), vec![1, 2]);
}

#[test]
fn no_work_at_block_start() {
    assert_eq!(Pallet::on_initialize(5), 0);
}

type SubmitAction = SubmitSideEffectsAction<u32, &'static str, (), u8, u8, ()>;

fn submit_start(origin: RawOrigin<AccountId32>, reward: u128, sequential: bool) -> SubmitSideEffectsState<u32, ()> {
    SubmitSideEffectsState::Start {
        origin,
        side_effects: vec![10, 20, 30],
        input: vec![1, 2],
        value: 77,
        reward,
        sequential,
        local_state: (),
    }
}

fn submit_until_store(reward: u128, balance: u128, sequential: bool) -> (SubmitSideEffectsState<u32, ()>, SubmitAction) {
    let (state, action): (_, SubmitAction) =
        Pallet::submit_side_effects_temp(submit_start(RawOrigin::Signed(alice()), reward, sequential), None);
    assert_eq!(action, SubmitSideEffectsAction::ReadFreeBalance(alice()));
    Pallet::submit_side_effects_temp(state, Some(SubmitSideEffectsAnswer::FreeBalance(balance)))
}

#[test]
fn submit_parallel_side_effects() {
    let (state, action) = submit_until_store(100, 100, false);
    assert_eq!(
        action,
        SubmitSideEffectsAction::StoreXtx(Xtx {
            requester: alice(),
            input: vec![1, 2],
            timeouts_at: None,
            delay_steps_at: None,
            total_reward: Some(100),
            local_state: (),
            full_side_effects: vec![vec![unconfirmed(10), unconfirmed(20), unconfirmed(30)]],
        })
    );
    let (state, action): (_, SubmitAction) =
        Pallet::submit_side_effects_temp(state, Some(SubmitSideEffectsAnswer::XtxStored(xtx_id())));
    assert_eq!(state, SubmitSideEffectsState::Done);
    assert_eq!(
        action,
        SubmitSideEffectsAction::Finish(Ok((
            Event::XTransactionReceivedForExec(xtx_id(), vec![]),
            Event::NewSideEffectsAvailable(alice(), xtx_id(), vec![10, 20, 30]),
        )))
    );
}

#[test]
fn submit_sequential_side_effects() {
    let (_, action) = submit_until_store(0, 1_000, true);
    match action {
        SubmitSideEffectsAction::StoreXtx(xtx) => assert_eq!(
            xtx.full_side_effects,
            vec![vec![unconfirmed(10)], vec![unconfirmed(20)], vec![unconfirmed(30)]]
        ),
        other => panic!("unexpected action {:?}", other),
    }
}

#[test]
fn submit_refuses_a_reward_above_the_balance() {
    let (state, action) = submit_until_store(101, 100, false);
    assert_eq!(state, SubmitSideEffectsState::Done);
    assert_eq!(action, SubmitSideEffectsAction::Finish(Err(CallError::Circuit(Error::RequesterNotEnoughBalance))));
    let (_, action) = submit_until_store(u128::MAX, 1, true);
    assert_eq!(action, SubmitSideEffectsAction::Finish(Err(CallError::Circuit(Error::RequesterNotEnoughBalance))));
}

#[test]
fn submit_without_side_effects() {
    let start = |sequential| SubmitSideEffectsState::<u32, ()>::AwaitFreeBalance {
        requester: alice(),
        side_effects: vec![],
        input: vec![],
        reward: 0,
        sequential,
        local_state: (),
    };
    let (_, parallel): (_, SubmitAction) =
        Pallet::submit_side_effects_temp(start(false), Some(SubmitSideEffectsAnswer::FreeBalance(0)));
    assert!(matches!(parallel, SubmitSideEffectsAction::StoreXtx(ref xtx) if xtx.full_side_effects == vec![vec![]]));
    let (_, sequential): (_, SubmitAction) =
        Pallet::submit_side_effects_temp(start(true), Some(SubmitSideEffectsAnswer::FreeBalance(0)));
    assert!(matches!(sequential, SubmitSideEffectsAction::StoreXtx(ref xtx) if xtx.full_side_effects.is_empty()));
}

#[test]
fn submit_needs_a_signed_origin() {
    for origin in [RawOrigin::Root, RawOrigin::Unsigned] {
        let (state, action): (_, SubmitAction) =
            Pallet::submit_side_effects_temp(submit_start(origin, 0, false), None);
        assert_eq!(state, SubmitSideEffectsState::Done);
        assert_eq!(action, SubmitSideEffectsAction::Finish(Err(CallError::BadOrigin)));
    }
}

type RegisterAction = RegisterGatewayAction<u64, u32, &'static str, &'static str, u8, u8, &'static str, &'static str>;
type RegisterState = RegisterGatewayState<&'static str, u8, u8, &'static str>;

fn register_start(hasher: HasherAlgo, size: u16) -> RegisterState {
    RegisterGatewayState::Start {
        origin: RawOrigin::Signed(alice()),
        url: b"wss://gate".to_vec(),
        gateway_id: *b"gate",
        gateway_abi: "abi",
        hasher,
        block_number_type_size: size,
        gateway_vendor: 2,
        gateway_type: 1,
        gateway_genesis: "genesis",
        first_header: vec![9, 9],
        authorities: Some(vec![alice()]),
        allowed_side_effects: vec![vec![3u8]],
    }
}

#[test]
fn register_gateway_runs() {
    let (state, action): (RegisterState, RegisterAction) =
        Pallet::register_gateway(register_start(HasherAlgo::Keccak256, 64), None);
    assert_eq!(
        action,
        RegisterGatewayAction::AddXdnsRecord {
            origin: RawOrigin::Signed(alice()),
            url: b"wss://gate".to_vec(),
            gateway_id: *b"gate",
            gateway_abi: "abi",
            gateway_vendor: 2,
            gateway_type: 1,
            gateway_genesis: "genesis",
            allowed_side_effects: vec![vec![3u8]],
        }
    );
    let (state, action): (RegisterState, RegisterAction) =
        Pallet::register_gateway(state, Some(RegisterGatewayAnswer::XdnsRecordAdded(Ok(()))));
    assert_eq!(
        action,
        RegisterGatewayAction::InitBridge {
            bridge: GatewayBridge::EthLikeKeccak256ValU64,
            origin: RawOrigin::Signed(alice()),
            first_header: vec![9, 9],
            authorities: Some(vec![alice()]),
            gateway_id: *b"gate",
        }
    );
    let (state, action): (RegisterState, RegisterAction) =
        Pallet::register_gateway(state, Some(RegisterGatewayAnswer::BridgeInitialized(Ok(11))));
    assert_eq!(state, RegisterGatewayState::Done);
    assert_eq!(
        action,
        RegisterGatewayAction::Finish(Ok((11, Event::NewGatewayRegistered(*b"gate", 1, 2, vec![vec![3]]))))
    );
}

#[test]
fn register_gateway_stops_on_errors() {
    let (state, _): (RegisterState, RegisterAction) = Pallet::register_gateway(register_start(HasherAlgo::Blake2, 64), None);
    let (state, action): (RegisterState, RegisterAction) =
        Pallet::register_gateway(state, Some(RegisterGatewayAnswer::XdnsRecordAdded(Err("xdns"))));
    assert_eq!(state, RegisterGatewayState::Done);
    assert_eq!(action, RegisterGatewayAction::Finish(Err(CallError::Outside("xdns"))));

    let (state, _): (RegisterState, RegisterAction) = Pallet::register_gateway(register_start(HasherAlgo::Blake2, 16), None);
    let (state, action): (RegisterState, RegisterAction) =
        Pallet::register_gateway(state, Some(RegisterGatewayAnswer::XdnsRecordAdded(Ok(()))));
    assert!(matches!(action, RegisterGatewayAction::InitBridge { bridge: GatewayBridge::DefaultPolkadotLike, .. }));
    let (_, action): (RegisterState, RegisterAction) =
        Pallet::register_gateway(state, Some(RegisterGatewayAnswer::BridgeInitialized(Err("bridge"))));
    assert_eq!(action, RegisterGatewayAction::Finish(Err(CallError::Outside("bridge"))));
}

type ConfirmAction = ConfirmSideEffectAction<u32, &'static str, u8, u8, &'static str>;

fn confirm_start(origin: RawOrigin<AccountId32>, pointer: ProofTriePointer) -> ConfirmSideEffectState<&'static str> {
    ConfirmSideEffectState::Start {
        origin,
        xtx_id: xtx_id(),
        confirmed_side_effect: "c",
        block_hash: H256([5u8; 32]),
        proof_trie_pointer: pointer,
        proof_data: vec![vec![4u8, 2]],
    }
}

fn confirm_until_roots(pointer: ProofTriePointer) -> ConfirmSideEffectState<&'static str> {
    let (state, action): (_, ConfirmAction) = Pallet::confirm_side_effect(confirm_start(RawOrigin::Signed(alice()), pointer), None);
    assert_eq!(action, ConfirmSideEffectAction::LookUpXtx(xtx_id()));
    let (state, action): (_, ConfirmAction) =
        Pallet::confirm_side_effect(state, Some(ConfirmSideEffectAnswer::XtxLookedUp(true)));
    assert_eq!(action, ConfirmSideEffectAction::FetchGatewayRecord([0u8; 4]));
    let (state, action): (_, ConfirmAction) = Pallet::confirm_side_effect(
        state,
        Some(ConfirmSideEffectAnswer::GatewayRecord(Ok((HasherAlgo::Blake2, 64)))),
    );
    assert_eq!(
        action,
        ConfirmSideEffectAction::FetchRoots {
            bridge: GatewayBridge::PolkadotLikeValU64,
            block_hash: H256([5u8; 32]),
            gateway_id: [0u8; 4],
        }
    );
    state
}

#[test]
fn confirm_side_effect_runs() {
    let state = confirm_until_roots(ProofTriePointer::Transaction);
    let (state, action): (_, ConfirmAction) = Pallet::confirm_side_effect(
        state,
        Some(ConfirmSideEffectAnswer::Roots(Ok((H256([1u8; 32]), H256([2u8; 32]))))),
    );
    assert_eq!(
        action,
        ConfirmSideEffectAction::CheckInclusion {
            expected_root: H256([1u8; 32]),
            proof_data: vec![vec![4u8, 2]],
            hasher: HasherAlgo::Blake2,
        }
    );
    let (state, action): (_, ConfirmAction) =
        Pallet::confirm_side_effect(state, Some(ConfirmSideEffectAnswer::Inclusion(Ok(()))));
    assert_eq!(state, ConfirmSideEffectState::Done);
    assert_eq!(
        action,
        ConfirmSideEffectAction::Finish(Ok((
            Event::SideEffectConfirmed(alice(), xtx_id(), "c", 0),
            Event::XTransactionSuccessfullyCompleted(xtx_id()),
        )))
    );
}

#[test]
fn confirm_side_effect_checks_the_storage_root_of_state_proofs() {
    let state = confirm_until_roots(ProofTriePointer::Receipts);
    let (state, action): (_, ConfirmAction) = Pallet::confirm_side_effect(
        state,
        Some(ConfirmSideEffectAnswer::Roots(Ok((H256([1u8; 32]), H256([2u8; 32]))))),
    );
    assert_eq!(
        action,
        ConfirmSideEffectAction::CheckInclusion {
            expected_root: H256([2u8; 32]),
            proof_data: vec![vec![4u8, 2]],
            hasher: HasherAlgo::Blake2,
        }
    );
    let (_, action): (_, ConfirmAction) =
        Pallet::confirm_side_effect(state, Some(ConfirmSideEffectAnswer::Inclusion(Err(H256([3u8; 32])))));
    assert_eq!(
        action,
        ConfirmSideEffectAction::Finish(Err(CallError::Circuit(Error::SideEffectConfirmationInvalidInclusionProof)))
    );
}

#[test]
fn confirm_side_effect_stops_on_errors() {
    for origin in [RawOrigin::Root, RawOrigin::Unsigned] {
        let (state, action): (_, ConfirmAction) =
            Pallet::confirm_side_effect(confirm_start(origin, ProofTriePointer::State), None);
        assert_eq!(state, ConfirmSideEffectState::Done);
        assert_eq!(action, ConfirmSideEffectAction::Finish(Err(CallError::BadOrigin)));
    }
    let (state, _): (_, ConfirmAction) =
        Pallet::confirm_side_effect(confirm_start(RawOrigin::Signed(alice()), ProofTriePointer::State), None);
    let (state, _): (_, ConfirmAction) =
        Pallet::confirm_side_effect(state, Some(ConfirmSideEffectAnswer::XtxLookedUp(true)));
    let (state, action): (_, ConfirmAction) =
        Pallet::confirm_side_effect(state, Some(ConfirmSideEffectAnswer::GatewayRecord(Err("no record"))));
    assert_eq!(state, ConfirmSideEffectState::Done);
    assert_eq!(action, ConfirmSideEffectAction::Finish(Err(CallError::Outside("no record"))));

    let state = confirm_until_roots(ProofTriePointer::State);
    let (_, action): (_, ConfirmAction) =
        Pallet::confirm_side_effect(state, Some(ConfirmSideEffectAnswer::Roots(Err("no header"))));
    assert_eq!(action, ConfirmSideEffectAction::Finish(Err(CallError::Outside("no header"))));
}
