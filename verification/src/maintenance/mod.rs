//! The mock runtime of the maintenance-mode pallet: call filters, message
//! handlers and executive hooks for both modes, and the event filters its
//! tests read.
use vstd::prelude::*;
use self::mock_pallet_maintenance_hooks::Event as HookEvent;
use crate::dispatch::Weight;

pub mod mock_pallet_maintenance_hooks;

verus! {

/// During maintenance mode we will not allow any calls.
pub struct MaintenanceCallFilter;

impl MaintenanceCallFilter {
    pub fn contains<Call>(_call: &Call) -> (r: bool)
        ensures
            !r,
    {
        false
    }
}

/// Downward messages during maintenance: charged one unit of time, so that
/// they stay queued.
pub struct MaintenanceDmpHandler;

impl MaintenanceDmpHandler {
    pub fn handle_dmp_messages<Messages>(_iter: Messages, _limit: Weight) -> (r: Weight)
        ensures
            r == (Weight { ref_time: 1, proof_size: 0 }),
    {
        Weight::from_parts(1, 0)
    }
}

/// Downward messages in normal operation.
pub struct NormalDmpHandler;

impl NormalDmpHandler {
    pub fn handle_dmp_messages<Messages>(_iter: Messages, _limit: Weight) -> (r: Weight)
        ensures
            r == (Weight { ref_time: 0, proof_size: 0 }),
    {
        Weight::zero()
    }
}

/// The executive hooks that run during maintenance: each records its event;
/// those that return a weight charge one unit of time.
pub struct MaintenanceHooks;

impl MaintenanceHooks {
    pub fn on_initialize(_n: u32) -> (r: (HookEvent, Weight))
        ensures
            r == (HookEvent::MaintenanceOnInitialize, Weight { ref_time: 1, proof_size: 0 }),
    {
        (HookEvent::MaintenanceOnInitialize, Weight::from_parts(1, 0))
    }

    pub fn on_idle(_n: u32, _max_weight: Weight) -> (r: (HookEvent, Weight))
        ensures
            r == (HookEvent::MaintenanceOnIdle, Weight { ref_time: 1, proof_size: 0 }),
    {
        (HookEvent::MaintenanceOnIdle, Weight::from_parts(1, 0))
    }

    pub fn on_runtime_upgrade() -> (r: (HookEvent, Weight))
        ensures
            r == (HookEvent::MaintenanceOnRuntimeUpgrade, Weight { ref_time: 1, proof_size: 0 }),
    {
        (HookEvent::MaintenanceOnRuntimeUpgrade, Weight::from_parts(1, 0))
    }

    pub fn on_finalize(_n: u32) -> (r: HookEvent)
        ensures
            r == HookEvent::MaintenanceOnFinalize,
    {
        HookEvent::MaintenanceOnFinalize
    }

    pub fn offchain_worker(_n: u32) -> (r: HookEvent)
        ensures
            r == HookEvent::MaintenanceOffchainWorker,
    {
        HookEvent::MaintenanceOffchainWorker
    }
}

/// The executive hooks of normal operation: each records its event; those
/// that return a weight charge nothing.
pub struct NormalHooks;

impl NormalHooks {
    pub fn on_initialize(_n: u32) -> (r: (HookEvent, Weight))
        ensures
            r == (HookEvent::NormalOnInitialize, Weight { ref_time: 0, proof_size: 0 }),
    {
        (HookEvent::NormalOnInitialize, Weight::zero())
    }

    pub fn on_idle(_n: u32, _max_weight: Weight) -> (r: (HookEvent, Weight))
        ensures
            r == (HookEvent::NormalOnIdle, Weight { ref_time: 0, proof_size: 0 }),
    {
        (HookEvent::NormalOnIdle, Weight::zero())
    }

    pub fn on_runtime_upgrade() -> (r: (HookEvent, Weight))
        ensures
            r == (HookEvent::NormalOnRuntimeUpgrade, Weight { ref_time: 0, proof_size: 0 }),
    {
        (HookEvent::NormalOnRuntimeUpgrade, Weight::zero())
    }

    pub fn on_finalize(_n: u32) -> (r: HookEvent)
        ensures
            r == HookEvent::NormalOnFinalize,
    {
        HookEvent::NormalOnFinalize
    }

    pub fn offchain_worker(_n: u32) -> (r: HookEvent)
        ensures
            r == HookEvent::NormalOffchainWorker,
    {
        HookEvent::NormalOffchainWorker
    }
}

/// Genesis settings of the mock runtime.
#[derive(Debug, Default)]
pub struct ExtBuilder {
    pub maintenance_mode: bool,
}

impl ExtBuilder {
    pub fn with_maintenance_mode(self, m: bool) -> (r: Self)
        ensures
            r.maintenance_mode == m,
    {
        let mut builder = self;
        builder.maintenance_mode = m;
        builder
    }
}

/// An event of the mock runtime, tagged with the pallet that deposited it.
#[derive(Debug, PartialEq, Eq)]
pub enum RuntimeEvent<SystemEvent, MaintenanceEvent> {
    System(SystemEvent),
    MaintenanceMode(MaintenanceEvent),
    MockPalletMaintenanceHooks(HookEvent),
}

/// The events of the maintenance-mode pallet among `records`, in order.
pub open spec fn spec_events<SystemEvent, MaintenanceEvent>(
    records: Seq<RuntimeEvent<SystemEvent, MaintenanceEvent>>,
) -> Seq<MaintenanceEvent>
    decreases records.len(),
{
    if records.len() == 0 {
        Seq::empty()
    } else {
        let earlier = spec_events(records.drop_last());
        match records.last() {
            RuntimeEvent::MaintenanceMode(inner) => earlier.push(inner),
            _ => earlier,
        }
    }
}

/// The events of the hooks-recording pallet among `records`, in order.
pub open spec fn spec_mock_events<SystemEvent, MaintenanceEvent>(
    records: Seq<RuntimeEvent<SystemEvent, MaintenanceEvent>>,
) -> Seq<HookEvent>
    decreases records.len(),
{
    if records.len() == 0 {
        Seq::empty()
    } else {
        let earlier = spec_mock_events(records.drop_last());
        match records.last() {
            RuntimeEvent::MockPalletMaintenanceHooks(inner) => earlier.push(inner),
            _ => earlier,
        }
    }
}

/// Reading the maintenance-mode events of two runs of records one after
/// the other gives the events of the first run, then those of the second.
pub proof fn lemma_events_concat<SystemEvent, MaintenanceEvent>(
    a: Seq<RuntimeEvent<SystemEvent, MaintenanceEvent>>,
    b: Seq<RuntimeEvent<SystemEvent, MaintenanceEvent>>,
)
    ensures
        spec_events(a + b) == spec_events(a) + spec_events(b),
    decreases b.len(),
{
    if b.len() == 0 {
        assert(a + b =~= a);
        assert(spec_events(b) =~= Seq::<MaintenanceEvent>::empty());
        assert(spec_events(a) + spec_events(b) =~= spec_events(a));
    } else {
        lemma_events_concat(a, b.drop_last());
        assert((a + b).drop_last() =~= a + b.drop_last());
        assert((a + b).last() == b.last());
        match b.last() {
            RuntimeEvent::MaintenanceMode(inner) => {
                assert(spec_events(a + b) =~= spec_events(a) + spec_events(b));
            },
            _ => {
                assert(spec_events(a + b) =~= spec_events(a) + spec_events(b));
            },
        }
    }
}

/// A single record yields its event when it is a maintenance-mode event,
/// and nothing when it is any other.
pub proof fn lemma_events_single<SystemEvent, MaintenanceEvent>(
    record: RuntimeEvent<SystemEvent, MaintenanceEvent>,
)
    ensures
        record matches RuntimeEvent::MaintenanceMode(e) ==> spec_events(seq![record]) == seq![e],
        !(record is MaintenanceMode) ==> spec_events(seq![record]) == Seq::<MaintenanceEvent>::empty(),
{
    assert(seq![record].drop_last() =~= Seq::<RuntimeEvent<SystemEvent, MaintenanceEvent>>::empty());
    assert(spec_events(Seq::<RuntimeEvent<SystemEvent, MaintenanceEvent>>::empty()) =~= Seq::<
        MaintenanceEvent,
    >::empty());
    if let RuntimeEvent::MaintenanceMode(e) = record {
        assert(Seq::<MaintenanceEvent>::empty().push(e) =~= seq![e]);
    }
}

/// Appending a record to the deposited ones appends its event when it is a
/// maintenance-mode event, and leaves the maintenance-mode events unchanged
/// when it is any other.
pub proof fn lemma_events_push<SystemEvent, MaintenanceEvent>(
    records: Seq<RuntimeEvent<SystemEvent, MaintenanceEvent>>,
    record: RuntimeEvent<SystemEvent, MaintenanceEvent>,
)
    ensures
        record matches RuntimeEvent::MaintenanceMode(e) ==> spec_events(records.push(record))
            == spec_events(records).push(e),
        !(record is MaintenanceMode) ==> spec_events(records.push(record)) == spec_events(records),
{
    lemma_events_concat(records, seq![record]);
    assert(records + seq![record] =~= records.push(record));
    lemma_events_single(record);
    if let RuntimeEvent::MaintenanceMode(e) = record {
        assert(spec_events(records) + seq![e] =~= spec_events(records).push(e));
    } else {
        assert(spec_events(records) + Seq::<MaintenanceEvent>::empty() =~= spec_events(records));
    }
}

/// Reading the hook events of two runs of records one after the other
/// gives the hook events of the first run, then those of the second.
pub proof fn lemma_mock_events_concat<SystemEvent, MaintenanceEvent>(
    a: Seq<RuntimeEvent<SystemEvent, MaintenanceEvent>>,
    b: Seq<RuntimeEvent<SystemEvent, MaintenanceEvent>>,
)
    ensures
        spec_mock_events(a + b) == spec_mock_events(a) + spec_mock_events(b),
    decreases b.len(),
{
    if b.len() == 0 {
        assert(a + b =~= a);
        assert(spec_mock_events(b) =~= Seq::<HookEvent>::empty());
        assert(spec_mock_events(a) + spec_mock_events(b) =~= spec_mock_events(a));
    } else {
        lemma_mock_events_concat(a, b.drop_last());
        assert((a + b).drop_last() =~= a + b.drop_last());
        assert((a + b).last() == b.last());
        match b.last() {
            RuntimeEvent::MockPalletMaintenanceHooks(inner) => {
                assert(spec_mock_events(a + b) =~= spec_mock_events(a) + spec_mock_events(b));
            },
            _ => {
                assert(spec_mock_events(a + b) =~= spec_mock_events(a) + spec_mock_events(b));
            },
        }
    }
}

/// A single record yields its event when it is a hook event, and nothing
/// when it is any other.
pub proof fn lemma_mock_events_single<SystemEvent, MaintenanceEvent>(
    record: RuntimeEvent<SystemEvent, MaintenanceEvent>,
)
    ensures
        record matches RuntimeEvent::MockPalletMaintenanceHooks(h) ==> spec_mock_events(
            seq![record],
        ) == seq![h],
        !(record is MockPalletMaintenanceHooks) ==> spec_mock_events(seq![record]) == Seq::<
            HookEvent,
        >::empty(),
{
    assert(seq![record].drop_last() =~= Seq::<RuntimeEvent<SystemEvent, MaintenanceEvent>>::empty());
    assert(spec_mock_events(Seq::<RuntimeEvent<SystemEvent, MaintenanceEvent>>::empty()) =~= Seq::<
        HookEvent,
    >::empty());
    if let RuntimeEvent::MockPalletMaintenanceHooks(h) = record {
        assert(Seq::<HookEvent>::empty().push(h) =~= seq![h]);
    }
}

/// Appending a record to the deposited ones appends its event when it is a
/// hook event, and leaves the hook events unchanged when it is any other.
pub proof fn lemma_mock_events_push<SystemEvent, MaintenanceEvent>(
    records: Seq<RuntimeEvent<SystemEvent, MaintenanceEvent>>,
    record: RuntimeEvent<SystemEvent, MaintenanceEvent>,
)
    ensures
        record matches RuntimeEvent::MockPalletMaintenanceHooks(h) ==> spec_mock_events(
            records.push(record),
        ) == spec_mock_events(records).push(h),
        !(record is MockPalletMaintenanceHooks) ==> spec_mock_events(records.push(record))
            == spec_mock_events(records),
{
    lemma_mock_events_concat(records, seq![record]);
    assert(records + seq![record] =~= records.push(record));
    lemma_mock_events_single(record);
    if let RuntimeEvent::MockPalletMaintenanceHooks(h) = record {
        assert(spec_mock_events(records) + seq![h] =~= spec_mock_events(records).push(h));
    } else {
        assert(spec_mock_events(records) + Seq::<HookEvent>::empty() =~= spec_mock_events(records));
    }
}

/// The events of the maintenance-mode pallet among the deposited `records`.
pub fn events<SystemEvent, MaintenanceEvent>(
    records: Vec<RuntimeEvent<SystemEvent, MaintenanceEvent>>,
) -> (r: Vec<MaintenanceEvent>)
    ensures
        r@ == spec_events(records@),
{
    let ghost all = records@;
    let mut rest = records;
    let mut found: Vec<MaintenanceEvent> = Vec::new();
    let ghost mut taken: int = 0;
    while rest.len() > 0
        invariant
            0 <= taken <= all.len(),
            rest@ == all.skip(taken),
            found@ == spec_events(all.take(taken)),
        decreases rest@.len(),
    {
        let record = rest.remove(0);
        proof {
            assert(all.take(taken + 1).drop_last() =~= all.take(taken));
            assert(all.take(taken + 1).last() == record);
        }
        match record {
            RuntimeEvent::MaintenanceMode(inner) => found.push(inner),
            _ => {},
        }
        proof {
            taken = taken + 1;
            assert(rest@ =~= all.skip(taken));
        }
    }
    assert(all.take(taken) =~= all);
    found
}

/// The events of the hooks-recording pallet among the deposited `records`.
pub fn mock_events<SystemEvent, MaintenanceEvent>(
    records: Vec<RuntimeEvent<SystemEvent, MaintenanceEvent>>,
) -> (r: Vec<HookEvent>)
    ensures
        r@ == spec_mock_events(records@),
{
    let ghost all = records@;
    let mut rest = records;
    let mut found: Vec<HookEvent> = Vec::new();
    let ghost mut taken: int = 0;
    while rest.len() > 0
        invariant
            0 <= taken <= all.len(),
            rest@ == all.skip(taken),
            found@ == spec_mock_events(all.take(taken)),
        decreases rest@.len(),
    {
        let record = rest.remove(0);
        proof {
            assert(all.take(taken + 1).drop_last() =~= all.take(taken));
            assert(all.take(taken + 1).last() == record);
        }
        match record {
            RuntimeEvent::MockPalletMaintenanceHooks(inner) => found.push(inner),
            _ => {},
        }
        proof {
            taken = taken + 1;
            assert(rest@ =~= all.skip(taken));
        }
    }
    assert(all.take(taken) =~= all);
    found
}

} // verus!
