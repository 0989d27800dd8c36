use t3rn_circuit::dispatch::Weight;
use t3rn_circuit::maintenance::mock_pallet_maintenance_hooks::Event as HookEvent;
use t3rn_circuit::maintenance::{
    events, mock_events, ExtBuilder, MaintenanceCallFilter, MaintenanceDmpHandler, MaintenanceHooks,
    NormalDmpHandler, NormalHooks, RuntimeEvent,
};

#[test]
fn maintenance_filter_blocks_every_call() {
    assert!(!MaintenanceCallFilter::contains(&1u8));
    assert!(!MaintenanceCallFilter::contains(&"transfer"));
}

#[test]
fn dmp_handlers() {
    assert_eq!(MaintenanceDmpHandler::handle_dmp_messages((), Weight::zero()), Weight::from_parts(1, 0));
    assert_eq!(NormalDmpHandler::handle_dmp_messages((), Weight::from_parts(5, 5)), Weight::zero());
}

#[test]
fn maintenance_hooks() {
    assert_eq!(MaintenanceHooks::on_initialize(1), (HookEvent::MaintenanceOnInitialize, Weight::from_parts(1, 0)));
    assert_eq!(MaintenanceHooks::on_idle(1, Weight::zero()), (HookEvent::MaintenanceOnIdle, Weight::from_parts(1, 0)));
    assert_eq!(MaintenanceHooks::on_runtime_upgrade(), (HookEvent::MaintenanceOnRuntimeUpgrade, Weight::from_parts(1, 0)));
    assert_eq!(MaintenanceHooks::on_finalize(1), HookEvent::MaintenanceOnFinalize);
    assert_eq!(MaintenanceHooks::offchain_worker(1), HookEvent::MaintenanceOffchainWorker);
}

#[test]
fn normal_hooks() {
    assert_eq!(NormalHooks::on_initialize(1), (HookEvent::NormalOnInitialize, Weight::zero()));
    assert_eq!(NormalHooks::on_idle(1, Weight::zero()), (HookEvent::NormalOnIdle, Weight::zero()));
    assert_eq!(NormalHooks::on_runtime_upgrade(), (HookEvent::NormalOnRuntimeUpgrade, Weight::zero()));
    assert_eq!(NormalHooks::on_finalize(1), HookEvent::NormalOnFinalize);
    assert_eq!(NormalHooks::offchain_worker(1), HookEvent::NormalOffchainWorker);
}

#[test]
fn builder_sets_mode() {
    let builder = ExtBuilder::default();
    assert!(!builder.maintenance_mode);
    assert!(ExtBuilder::default().with_maintenance_mode(true).maintenance_mode);
    assert!(!ExtBuilder::default().with_maintenance_mode(true).with_maintenance_mode(false).maintenance_mode);
}

#[test]
fn event_filters_keep_order() {
    let records: Vec<RuntimeEvent<&str, u8>> = vec![
        RuntimeEvent::System("a"),
        RuntimeEvent::MaintenanceMode(1),
        RuntimeEvent::MockPalletMaintenanceHooks(HookEvent::NormalOnIdle),
        RuntimeEvent::MaintenanceMode(2),
        RuntimeEvent::MockPalletMaintenanceHooks(HookEvent::MaintenanceOnFinalize),
    ];
    assert_eq!(events(records), vec![1, 2]);
    let records: Vec<RuntimeEvent<&str, u8>> = vec![
        RuntimeEvent::MockPalletMaintenanceHooks(HookEvent::NormalOnIdle),
        RuntimeEvent::MaintenanceMode(2),
        RuntimeEvent::MockPalletMaintenanceHooks(HookEvent::MaintenanceOnFinalize),
    ];
    assert_eq!(mock_events(records), vec![HookEvent::NormalOnIdle, HookEvent::MaintenanceOnFinalize]);
    assert_eq!(events(Vec::<RuntimeEvent<&str, u8>>::new()), Vec::<u8>::new());
}
