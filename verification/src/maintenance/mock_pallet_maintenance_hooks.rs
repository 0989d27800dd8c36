//! A pallet that only records which hook ran, used to test the maintenance
//! mode's hooks.
use vstd::prelude::*;

verus! {

/// The hook that ran, and in which mode.
#[derive(Copy, Clone, Debug, PartialEq, Eq, Structural)]
pub enum Event {
    MaintenanceOnIdle,
    MaintenanceOnInitialize,
    MaintenanceOffchainWorker,
    MaintenanceOnFinalize,
    MaintenanceOnRuntimeUpgrade,
    NormalOnIdle,
    NormalOnInitialize,
    NormalOffchainWorker,
    NormalOnFinalize,
    NormalOnRuntimeUpgrade,
}

/// The hooks-recording pallet.
pub struct Pallet;

} // verus!
