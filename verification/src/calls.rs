//! The circuit's calls that consult other pallets, as state machines.
//!
//! Each call starts in its `Start` state. A step takes the call's state and
//! the runtime's answer to the previous action, and gives the next state and
//! the next action: a read or a call the runtime performs and answers, or
//! `Finish` with the call's result. The runtime only performs the actions;
//! every decision is taken here. Whole runs are stated by the `*_trace`
//! spec functions and the lemmas that tie them to the steps.
use vstd::prelude::*;
use crate::circuit::{
    Pallet, CallError, Balance, Xtx, steps_hold, ChainId, Error, Event, GatewayBridge, HasherAlgo, ProofTriePointer, XtxId,
    spec_select_bridge, select_bridge, expected_root,
};
use crate::dispatch::RawOrigin;
use crate::hash_types::{AccountId32, H256};

verus! {

/// Where a side-effect confirmation stands.
#[derive(Debug, PartialEq, Eq)]
pub enum ConfirmSideEffectState<C> {
    /// The call as submitted.
    Start {
        origin: RawOrigin<AccountId32>,
        xtx_id: XtxId,
        confirmed_side_effect: C,
        block_hash: H256,
        proof_trie_pointer: ProofTriePointer,
        proof_data: Vec<Vec<u8>>,
    },
    /// Waiting for the transaction to be looked up.
    AwaitXtx {
        relayer: AccountId32,
        xtx_id: XtxId,
        confirmed_side_effect: C,
        block_hash: H256,
        proof_trie_pointer: ProofTriePointer,
        proof_data: Vec<Vec<u8>>,
    },
    /// Waiting for the XDNS record of the gateway.
    AwaitGatewayRecord {
        relayer: AccountId32,
        xtx_id: XtxId,
        confirmed_side_effect: C,
        block_hash: H256,
        proof_trie_pointer: ProofTriePointer,
        proof_data: Vec<Vec<u8>>,
        gateway_id: ChainId,
    },
    /// Waiting for the roots of the declared block.
    AwaitRoots {
        relayer: AccountId32,
        xtx_id: XtxId,
        confirmed_side_effect: C,
        proof_trie_pointer: ProofTriePointer,
        proof_data: Vec<Vec<u8>>,
        hasher: HasherAlgo,
    },
    /// Waiting for the inclusion proof to be checked.
    AwaitInclusion { relayer: AccountId32, xtx_id: XtxId, confirmed_side_effect: C },
    /// The call has finished.
    Done,
}

/// The runtime's answer to an action of a confirmation.
#[derive(Debug, PartialEq, Eq)]
pub enum ConfirmSideEffectAnswer<E> {
    /// Whether a transaction is stored under the looked-up id.
    XtxLookedUp(bool),
    /// The (hasher, block number size) of the gateway's XDNS record.
    GatewayRecord(Result<(HasherAlgo, u16), E>),
    /// The (extrinsics, storage) roots of the declared block.
    Roots(Result<(H256, H256), E>),
    /// Whether the inclusion proof reaches the expected root, or the root it
    /// reaches instead.
    Inclusion(Result<(), H256>),
}

/// What a confirmation asks of the runtime next. None of these writes
/// storage; a failed call deposits no event.
#[derive(Debug, PartialEq, Eq)]
pub enum ConfirmSideEffectAction<S, C, GatewayType, GatewayVendor, E> {
    /// Look up the transaction with this id.
    LookUpXtx(XtxId),
    /// Fetch the best available XDNS record of this gateway.
    FetchGatewayRecord(ChainId),
    /// Fetch the roots of a block from a bridge instance.
    FetchRoots { bridge: GatewayBridge, block_hash: H256, gateway_id: ChainId },
    /// Check the call's inclusion proof against a root with a hasher.
    CheckInclusion { expected_root: H256, proof_data: Vec<Vec<u8>>, hasher: HasherAlgo },
    /// The call ends: the two events to deposit, or the error.
    Finish(
        Result<
            (Event<S, C, GatewayType, GatewayVendor>, Event<S, C, GatewayType, GatewayVendor>),
            CallError<E>,
        >,
    ),
}

/// `answer` is what the runtime gives back in state `state`: nothing at the
/// start, and a found transaction when one is looked up (confirming a step
/// of an unknown transaction is not allowed).
pub open spec fn confirm_side_effect_answer_fits<C, E>(
    state: ConfirmSideEffectState<C>,
    answer: Option<ConfirmSideEffectAnswer<E>>,
) -> bool {
    match state {
        ConfirmSideEffectState::Start { .. } => answer is None,
        ConfirmSideEffectState::AwaitXtx { .. } => answer == Some(
            ConfirmSideEffectAnswer::<E>::XtxLookedUp(true),
        ),
        ConfirmSideEffectState::AwaitGatewayRecord { .. } => answer matches Some(
            ConfirmSideEffectAnswer::GatewayRecord(_),
        ),
        ConfirmSideEffectState::AwaitRoots { .. } => answer matches Some(
            ConfirmSideEffectAnswer::Roots(_),
        ),
        ConfirmSideEffectState::AwaitInclusion { .. } => answer matches Some(
            ConfirmSideEffectAnswer::Inclusion(_),
        ),
        ConfirmSideEffectState::Done => false,
    }
}

/// One step of a confirmation.
pub open spec fn spec_confirm_side_effect<S, C, GatewayType, GatewayVendor, E>(
    state: ConfirmSideEffectState<C>,
    answer: Option<ConfirmSideEffectAnswer<E>>,
) -> (ConfirmSideEffectState<C>, ConfirmSideEffectAction<S, C, GatewayType, GatewayVendor, E>) {
    match state {
        ConfirmSideEffectState::Start {
            origin,
            xtx_id,
            confirmed_side_effect,
            block_hash,
            proof_trie_pointer,
            proof_data,
        } => match origin {
            RawOrigin::Signed(relayer) => (
                ConfirmSideEffectState::AwaitXtx {
                    relayer,
                    xtx_id,
                    confirmed_side_effect,
                    block_hash,
                    proof_trie_pointer,
                    proof_data,
                },
                ConfirmSideEffectAction::LookUpXtx(xtx_id),
            ),
            _ => (
                ConfirmSideEffectState::Done,
                ConfirmSideEffectAction::Finish(Err(CallError::BadOrigin)),
            ),
        },
        ConfirmSideEffectState::AwaitXtx {
            relayer,
            xtx_id,
            confirmed_side_effect,
            block_hash,
            proof_trie_pointer,
            proof_data,
        } => (
            ConfirmSideEffectState::AwaitGatewayRecord {
                relayer,
                xtx_id,
                confirmed_side_effect,
                block_hash,
                proof_trie_pointer,
                proof_data,
                gateway_id: [0u8, 0u8, 0u8, 0u8],
            },
            ConfirmSideEffectAction::FetchGatewayRecord([0u8, 0u8, 0u8, 0u8]),
        ),
        ConfirmSideEffectState::AwaitGatewayRecord {
            relayer,
            xtx_id,
            confirmed_side_effect,
            block_hash,
            proof_trie_pointer,
            proof_data,
            gateway_id,
        } => match answer {
            Some(ConfirmSideEffectAnswer::GatewayRecord(Ok((hasher, size)))) => (
                ConfirmSideEffectState::AwaitRoots {
                    relayer,
                    xtx_id,
                    confirmed_side_effect,
                    proof_trie_pointer,
                    proof_data,
                    hasher,
                },
                ConfirmSideEffectAction::FetchRoots {
                    bridge: spec_select_bridge(hasher, size),
                    block_hash,
                    gateway_id,
                },
            ),
            Some(ConfirmSideEffectAnswer::GatewayRecord(Err(e))) => (
                ConfirmSideEffectState::Done,
                ConfirmSideEffectAction::Finish(Err(CallError::Outside(e))),
            ),
            _ => (ConfirmSideEffectState::Done, ConfirmSideEffectAction::LookUpXtx(xtx_id)),
        },
        ConfirmSideEffectState::AwaitRoots {
            relayer,
            xtx_id,
            confirmed_side_effect,
            proof_trie_pointer,
            proof_data,
            hasher,
        } => match answer {
            Some(ConfirmSideEffectAnswer::Roots(Ok((extrinsics_root, storage_root)))) => (
                ConfirmSideEffectState::AwaitInclusion { relayer, xtx_id, confirmed_side_effect },
                ConfirmSideEffectAction::CheckInclusion {
                    expected_root: if proof_trie_pointer == ProofTriePointer::Transaction {
                        extrinsics_root
                    } else {
                        storage_root
                    },
                    proof_data,
                    hasher,
                },
            ),
            Some(ConfirmSideEffectAnswer::Roots(Err(e))) => (
                ConfirmSideEffectState::Done,
                ConfirmSideEffectAction::Finish(Err(CallError::Outside(e))),
            ),
            _ => (ConfirmSideEffectState::Done, ConfirmSideEffectAction::LookUpXtx(xtx_id)),
        },
        ConfirmSideEffectState::AwaitInclusion { relayer, xtx_id, confirmed_side_effect } => match answer {
            Some(ConfirmSideEffectAnswer::Inclusion(Ok(_))) => (
                ConfirmSideEffectState::Done,
                ConfirmSideEffectAction::Finish(
                    Ok(
                        (
                            Event::SideEffectConfirmed(relayer, xtx_id, confirmed_side_effect, 0),
                            Event::XTransactionSuccessfullyCompleted(xtx_id),
                        ),
                    ),
                ),
            ),
            Some(ConfirmSideEffectAnswer::Inclusion(Err(_))) => (
                ConfirmSideEffectState::Done,
                ConfirmSideEffectAction::Finish(
                    Err(CallError::Circuit(Error::SideEffectConfirmationInvalidInclusionProof)),
                ),
            ),
            _ => (ConfirmSideEffectState::Done, ConfirmSideEffectAction::LookUpXtx(xtx_id)),
        },
        ConfirmSideEffectState::Done => (
            ConfirmSideEffectState::Done,
            ConfirmSideEffectAction::FetchGatewayRecord([0u8, 0u8, 0u8, 0u8]),
        ),
    }
}

impl Pallet {
    /// One step of a side-effect confirmation, checked against the roots
    /// the bridge holds for the declared block.
    pub fn confirm_side_effect<S, C, GatewayType, GatewayVendor, E>(
        state: ConfirmSideEffectState<C>,
        answer: Option<ConfirmSideEffectAnswer<E>>,
    ) -> (r: (ConfirmSideEffectState<C>, ConfirmSideEffectAction<S, C, GatewayType, GatewayVendor, E>))
        requires
            confirm_side_effect_answer_fits(state, answer),
        ensures
            r == spec_confirm_side_effect::<S, C, GatewayType, GatewayVendor, E>(state, answer),
    {
        match state {
            ConfirmSideEffectState::Start {
                origin,
                xtx_id,
                confirmed_side_effect,
                block_hash,
                proof_trie_pointer,
                proof_data,
            } => match origin {
                RawOrigin::Signed(relayer) => (
                    ConfirmSideEffectState::AwaitXtx {
                        relayer,
                        xtx_id,
                        confirmed_side_effect,
                        block_hash,
                        proof_trie_pointer,
                        proof_data,
                    },
                    ConfirmSideEffectAction::LookUpXtx(xtx_id),
                ),
                _ => (
                    ConfirmSideEffectState::Done,
                    ConfirmSideEffectAction::Finish(Err(CallError::BadOrigin)),
                ),
            },
            ConfirmSideEffectState::AwaitXtx {
                relayer,
                xtx_id,
                confirmed_side_effect,
                block_hash,
                proof_trie_pointer,
                proof_data,
            } => {
                // the gateway of the transaction is not recorded yet: the
                // default gateway is asked
                let gateway_id: ChainId = [0u8, 0u8, 0u8, 0u8];
                (
                    ConfirmSideEffectState::AwaitGatewayRecord {
                        relayer,
                        xtx_id,
                        confirmed_side_effect,
                        block_hash,
                        proof_trie_pointer,
                        proof_data,
                        gateway_id,
                    },
                    ConfirmSideEffectAction::FetchGatewayRecord(gateway_id),
                )
            },
            ConfirmSideEffectState::AwaitGatewayRecord {
                relayer,
                xtx_id,
                confirmed_side_effect,
                block_hash,
                proof_trie_pointer,
                proof_data,
                gateway_id,
            } => match answer {
                Some(ConfirmSideEffectAnswer::GatewayRecord(Ok((hasher, size)))) => (
                    ConfirmSideEffectState::AwaitRoots {
                        relayer,
                        xtx_id,
                        confirmed_side_effect,
                        proof_trie_pointer,
                        proof_data,
                        hasher,
                    },
                    ConfirmSideEffectAction::FetchRoots {
                        bridge: select_bridge(hasher, size),
                        block_hash,
                        gateway_id,
                    },
                ),
                Some(ConfirmSideEffectAnswer::GatewayRecord(Err(e))) => (
                    ConfirmSideEffectState::Done,
                    ConfirmSideEffectAction::Finish(Err(CallError::Outside(e))),
                ),
                _ => {
                    assert(false);
                    (ConfirmSideEffectState::Done, ConfirmSideEffectAction::LookUpXtx(xtx_id))
                },
            },
            ConfirmSideEffectState::AwaitRoots {
                relayer,
                xtx_id,
                confirmed_side_effect,
                proof_trie_pointer,
                proof_data,
                hasher,
            } => match answer {
                Some(ConfirmSideEffectAnswer::Roots(Ok((extrinsics_root, storage_root)))) => (
                    ConfirmSideEffectState::AwaitInclusion { relayer, xtx_id, confirmed_side_effect },
                    ConfirmSideEffectAction::CheckInclusion {
                        expected_root: expected_root(
                            proof_trie_pointer,
                            extrinsics_root,
                            storage_root,
                        ),
                        proof_data,
                        hasher,
                    },
                ),
                Some(ConfirmSideEffectAnswer::Roots(Err(e))) => (
                    ConfirmSideEffectState::Done,
                    ConfirmSideEffectAction::Finish(Err(CallError::Outside(e))),
                ),
                _ => {
                    assert(false);
                    (ConfirmSideEffectState::Done, ConfirmSideEffectAction::LookUpXtx(xtx_id))
                },
            },
            ConfirmSideEffectState::AwaitInclusion { relayer, xtx_id, confirmed_side_effect } => match answer {
                Some(ConfirmSideEffectAnswer::Inclusion(Ok(_))) => (
                    ConfirmSideEffectState::Done,
                    ConfirmSideEffectAction::Finish(
                        Ok(
                            (
                                Event::SideEffectConfirmed(relayer, xtx_id, confirmed_side_effect, 0),
                                Event::XTransactionSuccessfullyCompleted(xtx_id),
                            ),
                        ),
                    ),
                ),
                Some(ConfirmSideEffectAnswer::Inclusion(Err(_computed_root))) => (
                    ConfirmSideEffectState::Done,
                    ConfirmSideEffectAction::Finish(
                        Err(CallError::Circuit(Error::SideEffectConfirmationInvalidInclusionProof)),
                    ),
                ),
                _ => {
                    assert(false);
                    (ConfirmSideEffectState::Done, ConfirmSideEffectAction::LookUpXtx(xtx_id))
                },
            },
            ConfirmSideEffectState::Done => {
                assert(false);
                (
                    ConfirmSideEffectState::Done,
                    ConfirmSideEffectAction::FetchGatewayRecord([0u8, 0u8, 0u8, 0u8]),
                )
            },
        }
    }
}

/// The actions of a whole confirmation in which the transaction is found,
/// given what the runtime answers: `gateway_record` for the XDNS lookup,
/// `roots` for the bridge lookup, `inclusion` for the check of the call's
/// own proof data.
///
/// A signed call looks up the transaction and the record of the default
/// gateway, then the roots of the declared block from the bridge instance
/// the record's hasher and block number size select, then checks the proof
/// against the extrinsics root (transactions) or the storage root; any
/// error ends the call with that error, and a proof that does not reach the
/// root ends it with `SideEffectConfirmationInvalidInclusionProof`.
pub open spec fn spec_confirm_side_effect_trace<S, C, GatewayType, GatewayVendor, E>(
    origin: RawOrigin<AccountId32>,
    xtx_id: XtxId,
    confirmed_side_effect: C,
    block_hash: H256,
    proof_trie_pointer: ProofTriePointer,
    proof_data: Vec<Vec<u8>>,
    gateway_record: spec_fn(ChainId) -> Result<(HasherAlgo, u16), E>,
    roots: spec_fn(GatewayBridge, H256, ChainId) -> Result<(H256, H256), E>,
    inclusion: spec_fn(H256, Vec<Vec<u8>>, HasherAlgo) -> Result<(), H256>,
) -> Seq<ConfirmSideEffectAction<S, C, GatewayType, GatewayVendor, E>> {
    match origin {
        RawOrigin::Signed(relayer) => {
            let gateway_id: ChainId = [0u8, 0u8, 0u8, 0u8];
            seq![
                ConfirmSideEffectAction::LookUpXtx(xtx_id),
                ConfirmSideEffectAction::FetchGatewayRecord(gateway_id),
            ] + match gateway_record(gateway_id) {
                Err(e) => seq![ConfirmSideEffectAction::Finish(Err(CallError::Outside(e)))],
                Ok((hasher, size)) => {
                    let bridge = spec_select_bridge(hasher, size);
                    seq![ConfirmSideEffectAction::FetchRoots { bridge, block_hash, gateway_id }]
                        + match roots(bridge, block_hash, gateway_id) {
                        Err(e) => seq![
                            ConfirmSideEffectAction::Finish(Err(CallError::Outside(e))),
                        ],
                        Ok((extrinsics_root, storage_root)) => {
                            let expected_root = if proof_trie_pointer
                                == ProofTriePointer::Transaction {
                                extrinsics_root
                            } else {
                                storage_root
                            };
                            seq![
                                ConfirmSideEffectAction::CheckInclusion {
                                    expected_root,
                                    proof_data,
                                    hasher,
                                },
                            ] + match inclusion(expected_root, proof_data, hasher) {
                                Err(_) => seq![
                                    ConfirmSideEffectAction::Finish(
                                        Err(
                                            CallError::Circuit(
                                                Error::SideEffectConfirmationInvalidInclusionProof,
                                            ),
                                        ),
                                    ),
                                ],
                                Ok(_) => seq![
                                    ConfirmSideEffectAction::Finish(
                                        Ok(
                                            (
                                                Event::SideEffectConfirmed(
                                                    relayer,
                                                    xtx_id,
                                                    confirmed_side_effect,
                                                    0,
                                                ),
                                                Event::XTransactionSuccessfullyCompleted(xtx_id),
                                            ),
                                        ),
                                    ),
                                ],
                            }
                        },
                    }
                },
            }
        },
        _ => seq![ConfirmSideEffectAction::Finish(Err(CallError::BadOrigin))],
    }
}

/// The actions of at most `fuel` steps from `state`, answering each action
/// as `gateway_record`, `roots` and `inclusion` say, and a looked-up
/// transaction as found.
pub open spec fn spec_confirm_side_effect_run<S, C, GatewayType, GatewayVendor, E>(
    state: ConfirmSideEffectState<C>,
    answer: Option<ConfirmSideEffectAnswer<E>>,
    gateway_record: spec_fn(ChainId) -> Result<(HasherAlgo, u16), E>,
    roots: spec_fn(GatewayBridge, H256, ChainId) -> Result<(H256, H256), E>,
    inclusion: spec_fn(H256, Vec<Vec<u8>>, HasherAlgo) -> Result<(), H256>,
    fuel: nat,
) -> Seq<ConfirmSideEffectAction<S, C, GatewayType, GatewayVendor, E>>
    decreases fuel,
{
    if fuel == 0 {
        Seq::empty()
    } else {
        let (next, action) = spec_confirm_side_effect::<S, C, GatewayType, GatewayVendor, E>(
            state,
            answer,
        );
        let next_answer = match action {
            ConfirmSideEffectAction::LookUpXtx(_) => ConfirmSideEffectAnswer::XtxLookedUp(true),
            ConfirmSideEffectAction::FetchGatewayRecord(gateway_id) =>
                ConfirmSideEffectAnswer::GatewayRecord(gateway_record(gateway_id)),
            ConfirmSideEffectAction::FetchRoots { bridge, block_hash, gateway_id } =>
                ConfirmSideEffectAnswer::Roots(roots(bridge, block_hash, gateway_id)),
            ConfirmSideEffectAction::CheckInclusion { expected_root, proof_data, hasher } =>
                ConfirmSideEffectAnswer::Inclusion(inclusion(expected_root, proof_data, hasher)),
            ConfirmSideEffectAction::Finish(_) => ConfirmSideEffectAnswer::XtxLookedUp(true),
        };
        if action is Finish {
            seq![action]
        } else {
            seq![action] + spec_confirm_side_effect_run(
                next,
                Some(next_answer),
                gateway_record,
                roots,
                inclusion,
                (fuel - 1) as nat,
            )
        }
    }
}

/// Stepping a confirmation from its start, with the runtime's answers,
/// performs exactly the actions of [`spec_confirm_side_effect_trace`] and
/// then stops: only its last action finishes the call, and none of the
/// actions before it writes storage or deposits an event.
pub proof fn lemma_confirm_side_effect_run<S, C, GatewayType, GatewayVendor, E>(
    origin: RawOrigin<AccountId32>,
    xtx_id: XtxId,
    confirmed_side_effect: C,
    block_hash: H256,
    proof_trie_pointer: ProofTriePointer,
    proof_data: Vec<Vec<u8>>,
    gateway_record: spec_fn(ChainId) -> Result<(HasherAlgo, u16), E>,
    roots: spec_fn(GatewayBridge, H256, ChainId) -> Result<(H256, H256), E>,
    inclusion: spec_fn(H256, Vec<Vec<u8>>, HasherAlgo) -> Result<(), H256>,
)
    ensures
        spec_confirm_side_effect_run::<S, C, GatewayType, GatewayVendor, E>(
            ConfirmSideEffectState::Start {
                origin,
                xtx_id,
                confirmed_side_effect,
                block_hash,
                proof_trie_pointer,
                proof_data,
            },
            None,
            gateway_record,
            roots,
            inclusion,
            5,
        ) == spec_confirm_side_effect_trace::<S, C, GatewayType, GatewayVendor, E>(
            origin,
            xtx_id,
            confirmed_side_effect,
            block_hash,
            proof_trie_pointer,
            proof_data,
            gateway_record,
            roots,
            inclusion,
        ),
        ({
            let trace = spec_confirm_side_effect_trace::<S, C, GatewayType, GatewayVendor, E>(
                origin,
                xtx_id,
                confirmed_side_effect,
                block_hash,
                proof_trie_pointer,
                proof_data,
                gateway_record,
                roots,
                inclusion,
            );
            &&& trace.len() >= 1
            &&& trace.last() is Finish
            &&& forall|i: int| 0 <= i < trace.len() - 1 ==> !(#[trigger] trace[i] is Finish)
        }),
{
    reveal_with_fuel(spec_confirm_side_effect_run, 6);
    assert(spec_confirm_side_effect_run::<S, C, GatewayType, GatewayVendor, E>(
        ConfirmSideEffectState::Start {
            origin,
            xtx_id,
            confirmed_side_effect,
            block_hash,
            proof_trie_pointer,
            proof_data,
        },
        None,
        gateway_record,
        roots,
        inclusion,
        5,
    ) =~= spec_confirm_side_effect_trace::<S, C, GatewayType, GatewayVendor, E>(
        origin,
        xtx_id,
        confirmed_side_effect,
        block_hash,
        proof_trie_pointer,
        proof_data,
        gateway_record,
        roots,
        inclusion,
    ));
}

/// Where a gateway registration stands.
#[derive(Debug, PartialEq, Eq)]
pub enum RegisterGatewayState<GatewayAbi, GatewayType, GatewayVendor, GatewayGenesis> {
    /// The call as submitted, with the hasher and block number size of the
    /// gateway's ABI.
    Start {
        origin: RawOrigin<AccountId32>,
        url: Vec<u8>,
        gateway_id: ChainId,
        gateway_abi: GatewayAbi,
        hasher: HasherAlgo,
        block_number_type_size: u16,
        gateway_vendor: GatewayVendor,
        gateway_type: GatewayType,
        gateway_genesis: GatewayGenesis,
        first_header: Vec<u8>,
        authorities: Option<Vec<AccountId32>>,
        allowed_side_effects: Vec<Vec<u8>>,
    },
    /// Waiting for the XDNS record to be added.
    AwaitXdnsRecord {
        origin: RawOrigin<AccountId32>,
        gateway_id: ChainId,
        hasher: HasherAlgo,
        block_number_type_size: u16,
        gateway_vendor: GatewayVendor,
        gateway_type: GatewayType,
        first_header: Vec<u8>,
        authorities: Option<Vec<AccountId32>>,
        allowed_side_effects: Vec<Vec<u8>>,
    },
    /// Waiting for the bridge instance to be initialised.
    AwaitBridge {
        gateway_id: ChainId,
        gateway_vendor: GatewayVendor,
        gateway_type: GatewayType,
        allowed_side_effects: Vec<Vec<u8>>,
    },
    /// The call has finished.
    Done,
}

/// The runtime's answer to an action of a registration; `W` is what an
/// initialised bridge reports.
#[derive(Debug, PartialEq, Eq)]
pub enum RegisterGatewayAnswer<W, E> {
    XdnsRecordAdded(Result<(), E>),
    BridgeInitialized(Result<W, E>),
}

/// What a registration asks of the runtime next.
#[derive(Debug, PartialEq, Eq)]
pub enum RegisterGatewayAction<
    W,
    S,
    C,
    GatewayAbi,
    GatewayType,
    GatewayVendor,
    GatewayGenesis,
    E,
> {
    /// Add the gateway's XDNS record with these arguments.
    AddXdnsRecord {
        origin: RawOrigin<AccountId32>,
        url: Vec<u8>,
        gateway_id: ChainId,
        gateway_abi: GatewayAbi,
        gateway_vendor: GatewayVendor,
        gateway_type: GatewayType,
        gateway_genesis: GatewayGenesis,
        allowed_side_effects: Vec<Vec<u8>>,
    },
    /// Initialise this bridge instance with these arguments.
    InitBridge {
        bridge: GatewayBridge,
        origin: RawOrigin<AccountId32>,
        first_header: Vec<u8>,
        authorities: Option<Vec<AccountId32>>,
        gateway_id: ChainId,
    },
    /// The call ends: the bridge's report and the event to deposit, or the
    /// error.
    Finish(Result<(W, Event<S, C, GatewayType, GatewayVendor>), CallError<E>>),
}

/// `answer` is what the runtime gives back in state `state`.
pub open spec fn register_gateway_answer_fits<GatewayAbi, GatewayType, GatewayVendor, GatewayGenesis, W, E>(
    state: RegisterGatewayState<GatewayAbi, GatewayType, GatewayVendor, GatewayGenesis>,
    answer: Option<RegisterGatewayAnswer<W, E>>,
) -> bool {
    match state {
        RegisterGatewayState::Start { .. } => answer is None,
        RegisterGatewayState::AwaitXdnsRecord { .. } => answer matches Some(
            RegisterGatewayAnswer::XdnsRecordAdded(_),
        ),
        RegisterGatewayState::AwaitBridge { .. } => answer matches Some(
            RegisterGatewayAnswer::BridgeInitialized(_),
        ),
        RegisterGatewayState::Done => false,
    }
}

/// `(next, action)` is a step of a registration from `state` on `answer`:
///
/// - at the start, the XDNS record is added with the call's origin, url,
///   gateway, ABI, genesis, and clones of its vendor, type and allowed side
///   effects;
/// - an XDNS error ends the call with that error; otherwise the bridge
///   instance the hasher and block number size select is initialised with
///   the call's origin, first header, authorities and gateway;
/// - a bridge error ends the call with that error; otherwise the call ends
///   with the bridge's report and the announcement of the gateway with its
///   type, vendor and allowed side effects.
pub open spec fn register_gateway_step<
    W,
    S,
    C,
    GatewayAbi,
    GatewayType: Clone,
    GatewayVendor: Clone,
    GatewayGenesis,
    E,
>(
    state: RegisterGatewayState<GatewayAbi, GatewayType, GatewayVendor, GatewayGenesis>,
    answer: Option<RegisterGatewayAnswer<W, E>>,
    next: RegisterGatewayState<GatewayAbi, GatewayType, GatewayVendor, GatewayGenesis>,
    action: RegisterGatewayAction<
        W,
        S,
        C,
        GatewayAbi,
        GatewayType,
        GatewayVendor,
        GatewayGenesis,
        E,
    >,
) -> bool {
    match state {
        RegisterGatewayState::Start {
            origin,
            url,
            gateway_id,
            gateway_abi,
            hasher,
            block_number_type_size,
            gateway_vendor,
            gateway_type,
            gateway_genesis,
            first_header,
            authorities,
            allowed_side_effects,
        } => {
            &&& next == RegisterGatewayState::<
                GatewayAbi,
                GatewayType,
                GatewayVendor,
                GatewayGenesis,
            >::AwaitXdnsRecord {
                origin,
                gateway_id,
                hasher,
                block_number_type_size,
                gateway_vendor,
                gateway_type,
                first_header,
                authorities,
                allowed_side_effects,
            }
            &&& action matches RegisterGatewayAction::AddXdnsRecord {
                origin: o,
                url: u,
                gateway_id: g,
                gateway_abi: abi,
                gateway_vendor: v,
                gateway_type: t,
                gateway_genesis: gen,
                allowed_side_effects: a,
            } && {
                &&& o == origin
                &&& u == url
                &&& g == gateway_id
                &&& abi == gateway_abi
                &&& cloned(gateway_vendor, v)
                &&& cloned(gateway_type, t)
                &&& gen == gateway_genesis
                &&& a.deep_view() == allowed_side_effects.deep_view()
            }
        },
        RegisterGatewayState::AwaitXdnsRecord {
            origin,
            gateway_id,
            hasher,
            block_number_type_size,
            gateway_vendor,
            gateway_type,
            first_header,
            authorities,
            allowed_side_effects,
        } => match answer {
            Some(RegisterGatewayAnswer::XdnsRecordAdded(Ok(_))) => {
                &&& next == RegisterGatewayState::<
                    GatewayAbi,
                    GatewayType,
                    GatewayVendor,
                    GatewayGenesis,
                >::AwaitBridge { gateway_id, gateway_vendor, gateway_type, allowed_side_effects }
                &&& action == RegisterGatewayAction::<
                    W,
                    S,
                    C,
                    GatewayAbi,
                    GatewayType,
                    GatewayVendor,
                    GatewayGenesis,
                    E,
                >::InitBridge {
                    bridge: spec_select_bridge(hasher, block_number_type_size),
                    origin,
                    first_header,
                    authorities,
                    gateway_id,
                }
            },
            Some(RegisterGatewayAnswer::XdnsRecordAdded(Err(e))) => {
                &&& next is Done
                &&& action == RegisterGatewayAction::<
                    W,
                    S,
                    C,
                    GatewayAbi,
                    GatewayType,
                    GatewayVendor,
                    GatewayGenesis,
                    E,
                >::Finish(Err(CallError::Outside(e)))
            },
            _ => false,
        },
        RegisterGatewayState::AwaitBridge {
            gateway_id,
            gateway_vendor,
            gateway_type,
            allowed_side_effects,
        } => match answer {
            Some(RegisterGatewayAnswer::BridgeInitialized(Ok(w))) => {
                &&& next is Done
                &&& action == RegisterGatewayAction::<
                    W,
                    S,
                    C,
                    GatewayAbi,
                    GatewayType,
                    GatewayVendor,
                    GatewayGenesis,
                    E,
                >::Finish(
                    Ok(
                        (
                            w,
                            Event::NewGatewayRegistered(
                                gateway_id,
                                gateway_type,
                                gateway_vendor,
                                allowed_side_effects,
                            ),
                        ),
                    ),
                )
            },
            Some(RegisterGatewayAnswer::BridgeInitialized(Err(e))) => {
                &&& next is Done
                &&& action == RegisterGatewayAction::<
                    W,
                    S,
                    C,
                    GatewayAbi,
                    GatewayType,
                    GatewayVendor,
                    GatewayGenesis,
                    E,
                >::Finish(Err(CallError::Outside(e)))
            },
            _ => false,
        },
        RegisterGatewayState::Done => false,
    }
}

/// A copy of the origin `o`.
fn copy_origin(o: &RawOrigin<AccountId32>) -> (r: RawOrigin<AccountId32>)
    ensures
        r == *o,
{
    match o {
        RawOrigin::Root => RawOrigin::Root,
        RawOrigin::Signed(who) => RawOrigin::Signed(*who),
        RawOrigin::Unsigned => RawOrigin::Unsigned,
    }
}

impl Pallet {
    /// One step of a gateway registration: the XDNS record is added, then
    /// the bridge instance that the ABI's hasher and block number size
    /// select is initialised, then the registration is announced.
    pub fn register_gateway<
        W,
        S,
        C,
        GatewayAbi,
        GatewayType: Clone,
        GatewayVendor: Clone,
        GatewayGenesis,
        E,
    >(
        state: RegisterGatewayState<GatewayAbi, GatewayType, GatewayVendor, GatewayGenesis>,
        answer: Option<RegisterGatewayAnswer<W, E>>,
    ) -> (r: (
        RegisterGatewayState<GatewayAbi, GatewayType, GatewayVendor, GatewayGenesis>,
        RegisterGatewayAction<
            W,
            S,
            C,
            GatewayAbi,
            GatewayType,
            GatewayVendor,
            GatewayGenesis,
            E,
        >,
    ))
        requires
            register_gateway_answer_fits(state, answer),
        ensures
            register_gateway_step(state, answer, r.0, r.1),
    {
        match state {
            RegisterGatewayState::Start {
                origin,
                url,
                gateway_id,
                gateway_abi,
                hasher,
                block_number_type_size,
                gateway_vendor,
                gateway_type,
                gateway_genesis,
                first_header,
                authorities,
                allowed_side_effects,
            } => {
                let record_vendor = gateway_vendor.clone();
                let record_type = gateway_type.clone();
                let record_allowed = allowed_side_effects.clone();
                proof {
                    assert(record_allowed.deep_view() =~= allowed_side_effects.deep_view());
                }
                let action = RegisterGatewayAction::AddXdnsRecord {
                    origin: copy_origin(&origin),
                    url,
                    gateway_id,
                    gateway_abi,
                    gateway_vendor: record_vendor,
                    gateway_type: record_type,
                    gateway_genesis,
                    allowed_side_effects: record_allowed,
                };
                (
                    RegisterGatewayState::AwaitXdnsRecord {
                        origin,
                        gateway_id,
                        hasher,
                        block_number_type_size,
                        gateway_vendor,
                        gateway_type,
                        first_header,
                        authorities,
                        allowed_side_effects,
                    },
                    action,
                )
            },
            RegisterGatewayState::AwaitXdnsRecord {
                origin,
                gateway_id,
                hasher,
                block_number_type_size,
                gateway_vendor,
                gateway_type,
                first_header,
                authorities,
                allowed_side_effects,
            } => match answer {
                Some(RegisterGatewayAnswer::XdnsRecordAdded(Ok(_))) => (
                    RegisterGatewayState::AwaitBridge {
                        gateway_id,
                        gateway_vendor,
                        gateway_type,
                        allowed_side_effects,
                    },
                    RegisterGatewayAction::InitBridge {
                        bridge: select_bridge(hasher, block_number_type_size),
                        origin,
                        first_header,
                        authorities,
                        gateway_id,
                    },
                ),
                Some(RegisterGatewayAnswer::XdnsRecordAdded(Err(e))) => (
                    RegisterGatewayState::Done,
                    RegisterGatewayAction::Finish(Err(CallError::Outside(e))),
                ),
                _ => {
                    assert(false);
                    (RegisterGatewayState::Done, RegisterGatewayAction::Finish(Err(CallError::BadOrigin)))
                },
            },
            RegisterGatewayState::AwaitBridge {
                gateway_id,
                gateway_vendor,
                gateway_type,
                allowed_side_effects,
            } => match answer {
                Some(RegisterGatewayAnswer::BridgeInitialized(Ok(w))) => (
                    RegisterGatewayState::Done,
                    RegisterGatewayAction::Finish(
                        Ok(
                            (
                                w,
                                Event::NewGatewayRegistered(
                                    gateway_id,
                                    gateway_type,
                                    gateway_vendor,
                                    allowed_side_effects,
                                ),
                            ),
                        ),
                    ),
                ),
                Some(RegisterGatewayAnswer::BridgeInitialized(Err(e))) => (
                    RegisterGatewayState::Done,
                    RegisterGatewayAction::Finish(Err(CallError::Outside(e))),
                ),
                _ => {
                    assert(false);
                    (RegisterGatewayState::Done, RegisterGatewayAction::Finish(Err(CallError::BadOrigin)))
                },
            },
            RegisterGatewayState::Done => {
                assert(false);
                (RegisterGatewayState::Done, RegisterGatewayAction::Finish(Err(CallError::BadOrigin)))
            },
        }
    }
}

/// The runtime's answer to the `i`-th action of `actions` of a
/// registration: nothing before the first action, then the result of the
/// previous action as `xdns` and `init` give it.
pub open spec fn register_gateway_answer<W, S, C, GatewayAbi, GatewayType, GatewayVendor, GatewayGenesis, E>(
    actions: Seq<RegisterGatewayAction<W, S, C, GatewayAbi, GatewayType, GatewayVendor, GatewayGenesis, E>>,
    i: int,
    xdns: Result<(), E>,
    init: spec_fn(GatewayBridge) -> Result<W, E>,
) -> Option<RegisterGatewayAnswer<W, E>> {
    if i == 0 {
        None
    } else {
        match actions[i - 1] {
            RegisterGatewayAction::AddXdnsRecord { .. } => Some(
                RegisterGatewayAnswer::XdnsRecordAdded(xdns),
            ),
            RegisterGatewayAction::InitBridge { bridge, .. } => Some(
                RegisterGatewayAnswer::BridgeInitialized(init(bridge)),
            ),
            RegisterGatewayAction::Finish(_) => None,
        }
    }
}

/// `actions` are the actions of a whole registration from `start`, with
/// `states` the states before and after each of them, when the runtime
/// answers as `xdns` and `init` say: each is a step of
/// [`register_gateway_step`], and only the last one finishes the call.
pub open spec fn register_gateway_run<W, S, C, GatewayAbi, GatewayType: Clone, GatewayVendor: Clone, GatewayGenesis, E>(
    start: RegisterGatewayState<GatewayAbi, GatewayType, GatewayVendor, GatewayGenesis>,
    xdns: Result<(), E>,
    init: spec_fn(GatewayBridge) -> Result<W, E>,
    states: Seq<RegisterGatewayState<GatewayAbi, GatewayType, GatewayVendor, GatewayGenesis>>,
    actions: Seq<RegisterGatewayAction<W, S, C, GatewayAbi, GatewayType, GatewayVendor, GatewayGenesis, E>>,
) -> bool {
    &&& actions.len() >= 1
    &&& states.len() == actions.len() + 1
    &&& states[0] == start
    &&& actions.last() is Finish
    &&& forall|i: int| 0 <= i < actions.len() - 1 ==> !(#[trigger] actions[i] is Finish)
    &&& forall|i: int|
        0 <= i < actions.len() ==> register_gateway_step(
            #[trigger] states[i],
            register_gateway_answer(actions, i, xdns, init),
            states[i + 1],
            actions[i],
        )
}

/// The actions of a whole registration of the call described by the
/// arguments, when the runtime answers as `xdns` and `init` say.
///
/// The XDNS record is added first, with the call's origin, url, gateway,
/// ABI and genesis and with clones of its vendor, type and allowed side
/// effects. An XDNS error ends the call with that error, and no bridge
/// instance is initialised; otherwise exactly one is, the one the hasher and
/// block number size select, with the call's origin, first header,
/// authorities and gateway, and its error or its report ends the call, the
/// report with the registration's event.
pub open spec fn register_gateway_trace<W, S, C, GatewayAbi, GatewayType: Clone, GatewayVendor: Clone, GatewayGenesis, E>(
    origin: RawOrigin<AccountId32>,
    url: Vec<u8>,
    gateway_id: ChainId,
    gateway_abi: GatewayAbi,
    hasher: HasherAlgo,
    block_number_type_size: u16,
    gateway_vendor: GatewayVendor,
    gateway_type: GatewayType,
    gateway_genesis: GatewayGenesis,
    first_header: Vec<u8>,
    authorities: Option<Vec<AccountId32>>,
    allowed_side_effects: Vec<Vec<u8>>,
    xdns: Result<(), E>,
    init: spec_fn(GatewayBridge) -> Result<W, E>,
    actions: Seq<RegisterGatewayAction<W, S, C, GatewayAbi, GatewayType, GatewayVendor, GatewayGenesis, E>>,
) -> bool {
    let bridge = spec_select_bridge(hasher, block_number_type_size);
    &&& actions.len() >= 1
    &&& actions[0] matches RegisterGatewayAction::AddXdnsRecord {
        origin: o,
        url: u,
        gateway_id: g,
        gateway_abi: abi,
        gateway_vendor: v,
        gateway_type: t,
        gateway_genesis: gen,
        allowed_side_effects: a,
    } && {
        &&& o == origin
        &&& u == url
        &&& g == gateway_id
        &&& abi == gateway_abi
        &&& cloned(gateway_vendor, v)
        &&& cloned(gateway_type, t)
        &&& gen == gateway_genesis
        &&& a.deep_view() == allowed_side_effects.deep_view()
    }
    &&& match xdns {
        Err(e) => actions.len() == 2 && actions[1] == RegisterGatewayAction::<
            W,
            S,
            C,
            GatewayAbi,
            GatewayType,
            GatewayVendor,
            GatewayGenesis,
            E,
        >::Finish(Err(CallError::Outside(e))),
        Ok(_) => {
            &&& actions.len() == 3
            &&& actions[1] == RegisterGatewayAction::<
                W,
                S,
                C,
                GatewayAbi,
                GatewayType,
                GatewayVendor,
                GatewayGenesis,
                E,
            >::InitBridge { bridge, origin, first_header, authorities, gateway_id }
            &&& actions[2] == RegisterGatewayAction::<
                W,
                S,
                C,
                GatewayAbi,
                GatewayType,
                GatewayVendor,
                GatewayGenesis,
                E,
            >::Finish(
                match init(bridge) {
                    Ok(w) => Ok(
                        (
                            w,
                            Event::NewGatewayRegistered(
                                gateway_id,
                                gateway_type,
                                gateway_vendor,
                                allowed_side_effects,
                            ),
                        ),
                    ),
                    Err(e) => Err(CallError::Outside(e)),
                },
            )
        },
    }
}

/// Every whole registration from a call's start performs the actions of
/// [`register_gateway_trace`].
pub proof fn lemma_register_gateway_run<W, S, C, GatewayAbi, GatewayType: Clone, GatewayVendor: Clone, GatewayGenesis, E>(
    origin: RawOrigin<AccountId32>,
    url: Vec<u8>,
    gateway_id: ChainId,
    gateway_abi: GatewayAbi,
    hasher: HasherAlgo,
    block_number_type_size: u16,
    gateway_vendor: GatewayVendor,
    gateway_type: GatewayType,
    gateway_genesis: GatewayGenesis,
    first_header: Vec<u8>,
    authorities: Option<Vec<AccountId32>>,
    allowed_side_effects: Vec<Vec<u8>>,
    xdns: Result<(), E>,
    init: spec_fn(GatewayBridge) -> Result<W, E>,
    states: Seq<RegisterGatewayState<GatewayAbi, GatewayType, GatewayVendor, GatewayGenesis>>,
    actions: Seq<RegisterGatewayAction<W, S, C, GatewayAbi, GatewayType, GatewayVendor, GatewayGenesis, E>>,
)
    requires
        register_gateway_run(
            RegisterGatewayState::Start {
                origin,
                url,
                gateway_id,
                gateway_abi,
                hasher,
                block_number_type_size,
                gateway_vendor,
                gateway_type,
                gateway_genesis,
                first_header,
                authorities,
                allowed_side_effects,
            },
            xdns,
            init,
            states,
            actions,
        ),
    ensures
        register_gateway_trace(
            origin,
            url,
            gateway_id,
            gateway_abi,
            hasher,
            block_number_type_size,
            gateway_vendor,
            gateway_type,
            gateway_genesis,
            first_header,
            authorities,
            allowed_side_effects,
            xdns,
            init,
            actions,
        ),
{
    assert(register_gateway_step(
        states[0],
        register_gateway_answer(actions, 0, xdns, init),
        states[1],
        actions[0],
    ));
    assert(!(actions[0] is Finish));
    assert(actions.len() >= 2);
    assert(register_gateway_step(
        states[1],
        register_gateway_answer(actions, 1, xdns, init),
        states[2],
        actions[1],
    ));
    if xdns is Ok {
        assert(!(actions[1] is Finish));
        assert(actions.len() >= 3);
        assert(register_gateway_step(
            states[2],
            register_gateway_answer(actions, 2, xdns, init),
            states[3],
            actions[2],
        ));
        if actions.len() > 3 {
            assert(!(actions[2] is Finish));
        }
    } else {
        if actions.len() > 2 {
            assert(!(actions[1] is Finish));
        }
    }
}

/// Where a submission of side effects stands.
#[derive(Debug, PartialEq, Eq)]
pub enum SubmitSideEffectsState<S, LocalState> {
    /// The call as submitted, with the local state the runtime creates for
    /// a new transaction.
    Start {
        origin: RawOrigin<AccountId32>,
        side_effects: Vec<S>,
        input: Vec<u8>,
        value: Balance,
        reward: Balance,
        sequential: bool,
        local_state: LocalState,
    },
    /// Waiting for the requester's free balance.
    AwaitFreeBalance {
        requester: AccountId32,
        side_effects: Vec<S>,
        input: Vec<u8>,
        reward: Balance,
        sequential: bool,
        local_state: LocalState,
    },
    /// Waiting for the new transaction to be stored.
    AwaitXtxStored { requester: AccountId32, side_effects: Vec<S> },
    /// The call has finished.
    Done,
}

/// The runtime's answer to an action of a submission.
#[derive(Debug, PartialEq, Eq)]
pub enum SubmitSideEffectsAnswer {
    /// The requester's free balance.
    FreeBalance(Balance),
    /// The id under which the new transaction was stored.
    XtxStored(XtxId),
}

/// What a submission asks of the runtime next. No balance is moved: the
/// only write is the storage of the new transaction.
#[derive(Debug, PartialEq, Eq)]
pub enum SubmitSideEffectsAction<S, C, LocalState, GatewayType, GatewayVendor, E> {
    /// Read the free balance of this account.
    ReadFreeBalance(AccountId32),
    /// Store this new transaction under the id the runtime derives from it.
    StoreXtx(Xtx<S, C, LocalState>),
    /// The call ends: the two events to deposit, or the error.
    Finish(
        Result<
            (Event<S, C, GatewayType, GatewayVendor>, Event<S, C, GatewayType, GatewayVendor>),
            CallError<E>,
        >,
    ),
}

/// `answer` is what the runtime gives back in state `state`.
pub open spec fn submit_side_effects_answer_fits<S, LocalState>(
    state: SubmitSideEffectsState<S, LocalState>,
    answer: Option<SubmitSideEffectsAnswer>,
) -> bool {
    match state {
        SubmitSideEffectsState::Start { .. } => answer is None,
        SubmitSideEffectsState::AwaitFreeBalance { .. } => answer matches Some(
            SubmitSideEffectsAnswer::FreeBalance(_),
        ),
        SubmitSideEffectsState::AwaitXtxStored { .. } => answer matches Some(
            SubmitSideEffectsAnswer::XtxStored(_),
        ),
        SubmitSideEffectsState::Done => false,
    }
}

/// `(next, action)` is a step of a submission from `state` on `answer`:
///
/// - a signed call reads the requester's free balance; any other origin
///   ends with `BadOrigin`;
/// - a requester whose free balance is below the reward is refused with
///   `RequesterNotEnoughBalance`; otherwise the new transaction is stored:
///   made by the requester, with the call's input, no timeout or delay, the
///   reward as its total reward, the given local state, and the side
///   effects laid out in steps as [`steps_hold`] says;
/// - once stored under an id, the call ends with the events that the
///   transaction was received (with no dependencies) and that its side
///   effects are available.
pub open spec fn submit_side_effects_step<S: Clone, C, LocalState, GatewayType, GatewayVendor, E>(
    state: SubmitSideEffectsState<S, LocalState>,
    answer: Option<SubmitSideEffectsAnswer>,
    next: SubmitSideEffectsState<S, LocalState>,
    action: SubmitSideEffectsAction<S, C, LocalState, GatewayType, GatewayVendor, E>,
) -> bool {
    match state {
        SubmitSideEffectsState::Start {
            origin,
            side_effects,
            input,
            value: _,
            reward,
            sequential,
            local_state,
        } => match origin {
            RawOrigin::Signed(requester) => {
                &&& next == SubmitSideEffectsState::AwaitFreeBalance {
                    requester,
                    side_effects,
                    input,
                    reward,
                    sequential,
                    local_state,
                }
                &&& action == SubmitSideEffectsAction::<
                    S,
                    C,
                    LocalState,
                    GatewayType,
                    GatewayVendor,
                    E,
                >::ReadFreeBalance(requester)
            },
            _ => {
                &&& next == SubmitSideEffectsState::<S, LocalState>::Done
                &&& action == SubmitSideEffectsAction::<
                    S,
                    C,
                    LocalState,
                    GatewayType,
                    GatewayVendor,
                    E,
                >::Finish(Err(CallError::BadOrigin))
            },
        },
        SubmitSideEffectsState::AwaitFreeBalance {
            requester,
            side_effects,
            input,
            reward,
            sequential,
            local_state,
        } => match answer {
            Some(SubmitSideEffectsAnswer::FreeBalance(free_balance)) => if free_balance < reward {
                &&& next == SubmitSideEffectsState::<S, LocalState>::Done
                &&& action == SubmitSideEffectsAction::<
                    S,
                    C,
                    LocalState,
                    GatewayType,
                    GatewayVendor,
                    E,
                >::Finish(Err(CallError::Circuit(Error::RequesterNotEnoughBalance)))
            } else {
                &&& next == SubmitSideEffectsState::<S, LocalState>::AwaitXtxStored {
                    requester,
                    side_effects,
                }
                &&& action matches SubmitSideEffectsAction::StoreXtx(xtx) && {
                    &&& xtx.requester == requester
                    &&& xtx.input == input
                    &&& xtx.timeouts_at is None
                    &&& xtx.delay_steps_at is None
                    &&& xtx.total_reward == Some(reward)
                    &&& xtx.local_state == local_state
                    &&& steps_hold(side_effects@, xtx.full_side_effects@, sequential)
                }
            },
            _ => false,
        },
        SubmitSideEffectsState::AwaitXtxStored { requester, side_effects } => match answer {
            Some(SubmitSideEffectsAnswer::XtxStored(xtx_id)) => {
                &&& next == SubmitSideEffectsState::<S, LocalState>::Done
                &&& action matches SubmitSideEffectsAction::Finish(Ok((received, available))) && {
                    &&& received matches Event::XTransactionReceivedForExec(id, dfd) && id == xtx_id
                        && dfd@.len() == 0
                    &&& available == Event::<
                        S,
                        C,
                        GatewayType,
                        GatewayVendor,
                    >::NewSideEffectsAvailable(requester, xtx_id, side_effects)
                }
            },
            _ => false,
        },
        SubmitSideEffectsState::Done => false,
    }
}

impl Pallet {
    /// One step of a submission of side effects for execution.
    pub fn submit_side_effects_temp<S: Clone, C, LocalState, GatewayType, GatewayVendor, E>(
        state: SubmitSideEffectsState<S, LocalState>,
        answer: Option<SubmitSideEffectsAnswer>,
    ) -> (r: (
        SubmitSideEffectsState<S, LocalState>,
        SubmitSideEffectsAction<S, C, LocalState, GatewayType, GatewayVendor, E>,
    ))
        requires
            submit_side_effects_answer_fits(state, answer),
        ensures
            submit_side_effects_step(state, answer, r.0, r.1),
    {
        match state {
            SubmitSideEffectsState::Start {
                origin,
                side_effects,
                input,
                value: _,
                reward,
                sequential,
                local_state,
            } => match origin {
                RawOrigin::Signed(requester) => (
                    SubmitSideEffectsState::AwaitFreeBalance {
                        requester,
                        side_effects,
                        input,
                        reward,
                        sequential,
                        local_state,
                    },
                    SubmitSideEffectsAction::ReadFreeBalance(requester),
                ),
                _ => (
                    SubmitSideEffectsState::Done,
                    SubmitSideEffectsAction::Finish(Err(CallError::BadOrigin)),
                ),
            },
            SubmitSideEffectsState::AwaitFreeBalance {
                requester,
                side_effects,
                input,
                reward,
                sequential,
                local_state,
            } => match answer {
                Some(SubmitSideEffectsAnswer::FreeBalance(free_balance)) => {
                    // Ensure can afford
                    if free_balance < reward {
                        return (
                            SubmitSideEffectsState::Done,
                            SubmitSideEffectsAction::Finish(
                                Err(CallError::Circuit(Error::RequesterNotEnoughBalance)),
                            ),
                        );
                    }
                    let full_side_effects = Self::build_steps(&side_effects, sequential);
                    let (timeouts_at, delay_steps_at) = (None, None);
                    let xtx = Xtx {
                        requester,
                        input,
                        timeouts_at,
                        delay_steps_at,
                        total_reward: Some(reward),
                        local_state,
                        full_side_effects,
                    };
                    (
                        SubmitSideEffectsState::AwaitXtxStored { requester, side_effects },
                        SubmitSideEffectsAction::StoreXtx(xtx),
                    )
                },
                _ => {
                    assert(false);
                    (
                        SubmitSideEffectsState::Done,
                        SubmitSideEffectsAction::ReadFreeBalance(requester),
                    )
                },
            },
            SubmitSideEffectsState::AwaitXtxStored { requester, side_effects } => match answer {
                Some(SubmitSideEffectsAnswer::XtxStored(xtx_id)) => (
                    SubmitSideEffectsState::Done,
                    SubmitSideEffectsAction::Finish(
                        Ok(
                            (
                                Event::XTransactionReceivedForExec(xtx_id, Vec::new()),
                                Event::NewSideEffectsAvailable(requester, xtx_id, side_effects),
                            ),
                        ),
                    ),
                ),
                _ => {
                    assert(false);
                    (
                        SubmitSideEffectsState::Done,
                        SubmitSideEffectsAction::ReadFreeBalance(requester),
                    )
                },
            },
            SubmitSideEffectsState::Done => {
                assert(false);
                (
                    SubmitSideEffectsState::Done,
                    SubmitSideEffectsAction::Finish(Err(CallError::BadOrigin)),
                )
            },
        }
    }
}

/// The runtime's answer to the `i`-th action of `actions` of a submission:
/// nothing before the first action, then the requester's free balance
/// `balance`, then the id `xtx_id_of` gives the stored transaction.
pub open spec fn submit_side_effects_answer<S, C, LocalState, GatewayType, GatewayVendor, E>(
    actions: Seq<SubmitSideEffectsAction<S, C, LocalState, GatewayType, GatewayVendor, E>>,
    i: int,
    balance: Balance,
    xtx_id_of: spec_fn(Xtx<S, C, LocalState>) -> XtxId,
) -> Option<SubmitSideEffectsAnswer> {
    if i == 0 {
        None
    } else {
        match actions[i - 1] {
            SubmitSideEffectsAction::ReadFreeBalance(_) => Some(
                SubmitSideEffectsAnswer::FreeBalance(balance),
            ),
            SubmitSideEffectsAction::StoreXtx(xtx) => Some(
                SubmitSideEffectsAnswer::XtxStored(xtx_id_of(xtx)),
            ),
            SubmitSideEffectsAction::Finish(_) => None,
        }
    }
}

/// `actions` are the actions of a whole submission from `start`, with
/// `states` the states before and after each of them, when the requester's
/// free balance is `balance` and a stored transaction gets the id
/// `xtx_id_of` gives it: each is a step of [`submit_side_effects_step`],
/// and only the last one finishes the call.
pub open spec fn submit_side_effects_run<S: Clone, C, LocalState, GatewayType, GatewayVendor, E>(
    start: SubmitSideEffectsState<S, LocalState>,
    balance: Balance,
    xtx_id_of: spec_fn(Xtx<S, C, LocalState>) -> XtxId,
    states: Seq<SubmitSideEffectsState<S, LocalState>>,
    actions: Seq<SubmitSideEffectsAction<S, C, LocalState, GatewayType, GatewayVendor, E>>,
) -> bool {
    &&& actions.len() >= 1
    &&& states.len() == actions.len() + 1
    &&& states[0] == start
    &&& actions.last() is Finish
    &&& forall|i: int| 0 <= i < actions.len() - 1 ==> !(#[trigger] actions[i] is Finish)
    &&& forall|i: int|
        0 <= i < actions.len() ==> submit_side_effects_step(
            #[trigger] states[i],
            submit_side_effects_answer(actions, i, balance, xtx_id_of),
            states[i + 1],
            actions[i],
        )
}

/// The actions of a whole submission of the call described by the
/// arguments, when the requester's free balance is `balance` and a stored
/// transaction gets the id `xtx_id_of` gives it.
///
/// A call that is not signed ends with `BadOrigin`. A signed one reads the
/// requester's free balance; a balance below the reward ends the call with
/// `RequesterNotEnoughBalance`. Otherwise the new transaction is stored and
/// the call ends with the events that it was received and that its side
/// effects are available, under the id it was stored with. No other action
/// is taken: no balance is moved, and nothing else is written.
pub open spec fn submit_side_effects_trace<S: Clone, C, LocalState, GatewayType, GatewayVendor, E>(
    origin: RawOrigin<AccountId32>,
    side_effects: Vec<S>,
    input: Vec<u8>,
    reward: Balance,
    sequential: bool,
    local_state: LocalState,
    balance: Balance,
    xtx_id_of: spec_fn(Xtx<S, C, LocalState>) -> XtxId,
    actions: Seq<SubmitSideEffectsAction<S, C, LocalState, GatewayType, GatewayVendor, E>>,
) -> bool {
    match origin {
        RawOrigin::Signed(requester) => {
            &&& actions.len() >= 2
            &&& actions[0] == SubmitSideEffectsAction::<
                S,
                C,
                LocalState,
                GatewayType,
                GatewayVendor,
                E,
            >::ReadFreeBalance(requester)
            &&& if balance < reward {
                &&& actions.len() == 2
                &&& actions[1] == SubmitSideEffectsAction::<
                    S,
                    C,
                    LocalState,
                    GatewayType,
                    GatewayVendor,
                    E,
                >::Finish(Err(CallError::Circuit(Error::RequesterNotEnoughBalance)))
            } else {
                &&& actions.len() == 3
                &&& actions[1] matches SubmitSideEffectsAction::StoreXtx(xtx) && {
                    &&& xtx.requester == requester
                    &&& xtx.input == input
                    &&& xtx.timeouts_at is None
                    &&& xtx.delay_steps_at is None
                    &&& xtx.total_reward == Some(reward)
                    &&& xtx.local_state == local_state
                    &&& steps_hold(side_effects@, xtx.full_side_effects@, sequential)
                    &&& actions[2] matches SubmitSideEffectsAction::Finish(Ok((received, available)))
                        && {
                        &&& received matches Event::XTransactionReceivedForExec(id, dfd) && id
                            == xtx_id_of(xtx) && dfd@.len() == 0
                        &&& available == Event::<
                            S,
                            C,
                            GatewayType,
                            GatewayVendor,
                        >::NewSideEffectsAvailable(requester, xtx_id_of(xtx), side_effects)
                    }
                }
            }
        },
        _ => actions.len() == 1 && actions[0] == SubmitSideEffectsAction::<
            S,
            C,
            LocalState,
            GatewayType,
            GatewayVendor,
            E,
        >::Finish(Err(CallError::BadOrigin)),
    }
}

/// Every whole submission from a call's start performs the actions of
/// [`submit_side_effects_trace`].
pub proof fn lemma_submit_side_effects_run<S: Clone, C, LocalState, GatewayType, GatewayVendor, E>(
    origin: RawOrigin<AccountId32>,
    side_effects: Vec<S>,
    input: Vec<u8>,
    value: Balance,
    reward: Balance,
    sequential: bool,
    local_state: LocalState,
    balance: Balance,
    xtx_id_of: spec_fn(Xtx<S, C, LocalState>) -> XtxId,
    states: Seq<SubmitSideEffectsState<S, LocalState>>,
    actions: Seq<SubmitSideEffectsAction<S, C, LocalState, GatewayType, GatewayVendor, E>>,
)
    requires
        submit_side_effects_run(
            SubmitSideEffectsState::Start {
                origin,
                side_effects,
                input,
                value,
                reward,
                sequential,
                local_state,
            },
            balance,
            xtx_id_of,
            states,
            actions,
        ),
    ensures
        submit_side_effects_trace(
            origin,
            side_effects,
            input,
            reward,
            sequential,
            local_state,
            balance,
            xtx_id_of,
            actions,
        ),
{
    assert(submit_side_effects_step(
        states[0],
        submit_side_effects_answer(actions, 0, balance, xtx_id_of),
        states[1],
        actions[0],
    ));
    if origin is Signed {
        assert(!(actions[0] is Finish));
        assert(actions.len() >= 2);
        assert(submit_side_effects_step(
            states[1],
            submit_side_effects_answer(actions, 1, balance, xtx_id_of),
            states[2],
            actions[1],
        ));
        if balance < reward {
            if actions.len() > 2 {
                assert(!(actions[1] is Finish));
            }
        } else {
            assert(!(actions[1] is Finish));
            assert(actions.len() >= 3);
            assert(submit_side_effects_step(
                states[2],
                submit_side_effects_answer(actions, 2, balance, xtx_id_of),
                states[3],
                actions[2],
            ));
            if actions.len() > 3 {
                assert(!(actions[2] is Finish));
            }
        }
    } else {
        if actions.len() > 1 {
            assert(!(actions[0] is Finish));
        }
    }
}

/// The value passed with a submission has no effect: two whole submissions
/// that differ only in it perform the actions of the same
/// [`submit_side_effects_trace`].
pub proof fn lemma_submit_side_effects_ignores_value<S: Clone, C, LocalState, GatewayType, GatewayVendor, E>(
    origin: RawOrigin<AccountId32>,
    side_effects: Vec<S>,
    input: Vec<u8>,
    value1: Balance,
    value2: Balance,
    reward: Balance,
    sequential: bool,
    local_state: LocalState,
    balance: Balance,
    xtx_id_of: spec_fn(Xtx<S, C, LocalState>) -> XtxId,
    states1: Seq<SubmitSideEffectsState<S, LocalState>>,
    actions1: Seq<SubmitSideEffectsAction<S, C, LocalState, GatewayType, GatewayVendor, E>>,
    states2: Seq<SubmitSideEffectsState<S, LocalState>>,
    actions2: Seq<SubmitSideEffectsAction<S, C, LocalState, GatewayType, GatewayVendor, E>>,
)
    requires
        submit_side_effects_run(
            SubmitSideEffectsState::Start {
                origin,
                side_effects,
                input,
                value: value1,
                reward,
                sequential,
                local_state,
            },
            balance,
            xtx_id_of,
            states1,
            actions1,
        ),
        submit_side_effects_run(
            SubmitSideEffectsState::Start {
                origin,
                side_effects,
                input,
                value: value2,
                reward,
                sequential,
                local_state,
            },
            balance,
            xtx_id_of,
            states2,
            actions2,
        ),
    ensures
        submit_side_effects_trace(
            origin,
            side_effects,
            input,
            reward,
            sequential,
            local_state,
            balance,
            xtx_id_of,
            actions1,
        ),
        submit_side_effects_trace(
            origin,
            side_effects,
            input,
            reward,
            sequential,
            local_state,
            balance,
            xtx_id_of,
            actions2,
        ),
        actions1.len() == actions2.len(),
        actions1[0] == actions2[0],
        actions1.len() == 2 ==> actions1[1] == actions2[1],
{
    lemma_submit_side_effects_run(
        origin,
        side_effects,
        input,
        value1,
        reward,
        sequential,
        local_state,
        balance,
        xtx_id_of,
        states1,
        actions1,
    );
    lemma_submit_side_effects_run(
        origin,
        side_effects,
        input,
        value2,
        reward,
        sequential,
        local_state,
        balance,
        xtx_id_of,
        states2,
        actions2,
    );
}

} // verus!
