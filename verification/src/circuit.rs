//! The execution-delivery pallet of the circuit: submission of side effects,
//! their confirmation, and the registration of gateways.
//!
//! Calls that need no other pallet are functions here; those that read
//! storage or call other pallets are state machines in `crate::calls`. The
//! runtime performs the reads, the calls, the storage writes and the event
//! deposits that these ask for.
use vstd::prelude::*;
use crate::dispatch::{RawOrigin, ensure_signed};
use crate::hash_types::{AccountId32, H256};
use sp_runtime::traits::AccountIdConversion;

verus! {

/// The identifier of a gateway (a connected chain).
pub type ChainId = [u8; 4];

/// An encoded side effect that a gateway allows.
pub type AllowedSideEffect = Vec<u8>;

/// Encoded dependencies between side effects.
pub type SideEffectsDFD = Vec<u8>;

/// The identifier of a composable transaction.
pub type XtxId = H256;

/// A balance of the native token.
pub type Balance = u128;

/// A block number of the circuit.
pub type BlockNumber = u32;

/// The hashing algorithm of a gateway.
#[derive(Copy, Clone, Debug, PartialEq, Eq, Structural)]
pub enum HasherAlgo {
    Blake2,
    Keccak256,
}

/// Which trie of a block an inclusion proof speaks of.
#[derive(Copy, Clone, Debug, PartialEq, Eq, Structural)]
pub enum ProofTriePointer {
    State,
    Transaction,
    Receipts,
}

/// The light-client instance that follows a gateway's headers.
#[derive(Copy, Clone, Debug, PartialEq, Eq, Structural)]
pub enum GatewayBridge {
    /// Blake2 hashing, 32-bit block numbers.
    DefaultPolkadotLike,
    /// Blake2 hashing, 64-bit block numbers.
    PolkadotLikeValU64,
    /// Keccak256 hashing, 32-bit block numbers.
    EthLikeKeccak256ValU32,
    /// Keccak256 hashing, 64-bit block numbers.
    EthLikeKeccak256ValU64,
}

/// The bridge instance for a gateway with the given hasher and block number
/// size (in bits); any other size falls back to the default instance.
pub open spec fn spec_select_bridge(hasher: HasherAlgo, block_number_type_size: u16) -> GatewayBridge {
    match (hasher, block_number_type_size) {
        (HasherAlgo::Blake2, 32) => GatewayBridge::DefaultPolkadotLike,
        (HasherAlgo::Blake2, 64) => GatewayBridge::PolkadotLikeValU64,
        (HasherAlgo::Keccak256, 32) => GatewayBridge::EthLikeKeccak256ValU32,
        (HasherAlgo::Keccak256, 64) => GatewayBridge::EthLikeKeccak256ValU64,
        _ => GatewayBridge::DefaultPolkadotLike,
    }
}

/// The bridge instance for a gateway with the given hasher and block number size.
pub fn select_bridge(hasher: HasherAlgo, block_number_type_size: u16) -> (r: GatewayBridge)
    ensures
        r == spec_select_bridge(hasher, block_number_type_size),
{
    match (hasher, block_number_type_size) {
        (HasherAlgo::Blake2, 32) => GatewayBridge::DefaultPolkadotLike,
        (HasherAlgo::Blake2, 64) => GatewayBridge::PolkadotLikeValU64,
        (HasherAlgo::Keccak256, 32) => GatewayBridge::EthLikeKeccak256ValU32,
        (HasherAlgo::Keccak256, 64) => GatewayBridge::EthLikeKeccak256ValU64,
        (_, _) => GatewayBridge::DefaultPolkadotLike,
    }
}

/// The root against which an inclusion proof into the given trie is checked:
/// the extrinsics root for transactions, the storage root otherwise.
pub fn expected_root<R>(pointer: ProofTriePointer, extrinsics_root: R, storage_root: R) -> (r: R)
    ensures
        r == (match pointer {
            ProofTriePointer::Transaction => extrinsics_root,
            _ => storage_root,
        }),
{
    match pointer {
        ProofTriePointer::State => storage_root,
        ProofTriePointer::Transaction => extrinsics_root,
        ProofTriePointer::Receipts => storage_root,
    }
}

/// A side effect together with its confirmation, once there is one.
#[derive(Debug, PartialEq, Eq)]
pub struct FullSideEffect<S, C> {
    pub input: S,
    pub confirmed: Option<C>,
}

/// What a new composable transaction is made of.
#[derive(Debug, PartialEq, Eq)]
pub struct Xtx<S, C, LocalState> {
    pub requester: AccountId32,
    pub input: Vec<u8>,
    pub timeouts_at: Option<BlockNumber>,
    pub delay_steps_at: Option<Vec<BlockNumber>>,
    pub total_reward: Option<Balance>,
    /// The transaction's local state, as the runtime creates it for a new
    /// transaction.
    pub local_state: LocalState,
    /// The side effects, step by step: the side effects of a step may run
    /// in parallel, the steps run one after another.
    pub full_side_effects: Vec<Vec<FullSideEffect<S, C>>>,
}

/// Events for the pallet.
#[derive(Debug, PartialEq, Eq)]
pub enum Event<S, C, GatewayType, GatewayVendor> {
    /// Listeners - users + SDK + UI to know whether their request has ended
    XTransactionSuccessfullyCompleted(XtxId),
    /// Listeners - users + SDK + UI to know whether their request is accepted for exec and pending
    XTransactionReceivedForExec(XtxId, SideEffectsDFD),
    /// Listeners - executioners/relayers to know new challenges and perform offline risk/reward calc
    /// of whether side effect is worth picking up
    NewSideEffectsAvailable(AccountId32, XtxId, Vec<S>),
    /// Listeners - executioners/relayers to know that certain SideEffects are no longer valid
    CancelledSideEffects(AccountId32, XtxId, Vec<S>),
    /// Listeners - executioners/relayers to know whether they won the confirmation challenge
    SideEffectConfirmed(AccountId32, XtxId, C, u64),
    /// Listeners - remote targets integrators/registrants
    NewGatewayRegistered(ChainId, GatewayType, GatewayVendor, Vec<AllowedSideEffect>),
    GatewayUpdated(ChainId, Option<Vec<Vec<u8>>>),
}

/// Errors of the pallet.
#[derive(Copy, Clone, Debug, PartialEq, Eq, Structural)]
pub enum Error {
    /// Non existent public key.
    InvalidKey,
    IOScheduleNoEndingSemicolon,
    IOScheduleEmpty,
    IOScheduleUnknownCompose,
    ProcessStepGatewayNotRecognised,
    StepConfirmationBlockUnrecognised,
    StepConfirmationGatewayNotRecognised,
    SideEffectConfirmationInvalidInclusionProof,
    StepConfirmationDecodingError,
    ContractDoesNotExists,
    RequesterNotEnoughBalance,
}

/// Why a call of the pallet failed: a bad origin, an error of the pallet, or
/// an error `E` of a pallet it called.
#[derive(Debug, PartialEq, Eq)]
pub enum CallError<E> {
    BadOrigin,
    Circuit(Error),
    Outside(E),
}

/// `steps` holds the side effects `ses`, unconfirmed and in order: one step
/// per side effect when `sequential`, else all of them in a single step.
pub open spec fn steps_hold<S: Clone, C>(
    ses: Seq<S>,
    steps: Seq<Vec<FullSideEffect<S, C>>>,
    sequential: bool,
) -> bool {
    if sequential {
        &&& steps.len() == ses.len()
        &&& forall|i: int|
            0 <= i < ses.len() ==> {
                &&& #[trigger] steps[i]@.len() == 1
                &&& cloned(ses[i], steps[i]@[0].input)
                &&& steps[i]@[0].confirmed is None
            }
    } else {
        &&& steps.len() == 1
        &&& steps[0]@.len() == ses.len()
        &&& forall|i: int|
            0 <= i < ses.len() ==> {
                &&& cloned(ses[i], #[trigger] steps[0]@[i].input)
                &&& steps[0]@[i].confirmed is None
            }
    }
}

/// What a blind confirmation of `confirmed_side_effect` for `xtx_id` gives:
/// for a signed call, the events that the side effect is confirmed by the
/// signer and the transaction completed; otherwise `BadOrigin`. No
/// inclusion proof takes part.
pub open spec fn spec_confirm_side_effect_blind<S, C, GatewayType, GatewayVendor, E>(
    origin: RawOrigin<AccountId32>,
    xtx_id: XtxId,
    confirmed_side_effect: C,
) -> Result<Seq<Event<S, C, GatewayType, GatewayVendor>>, CallError<E>> {
    match origin {
        RawOrigin::Signed(relayer) => Ok(
            seq![
                Event::SideEffectConfirmed(relayer, xtx_id, confirmed_side_effect, 0),
                Event::XTransactionSuccessfullyCompleted(xtx_id),
            ],
        ),
        _ => Err(CallError::BadOrigin),
    }
}

/// Only a signed call confirms blindly: every other origin is refused with
/// `BadOrigin`, and a confirmation names its signer as the relayer, confirms
/// the given side effect with no reward, and completes that transaction.
pub proof fn lemma_confirm_side_effect_blind_needs_signer<S, C, GatewayType, GatewayVendor, E>(
    origin: RawOrigin<AccountId32>,
    xtx_id: XtxId,
    confirmed_side_effect: C,
)
    ensures
        !(origin is Signed) ==> spec_confirm_side_effect_blind::<S, C, GatewayType, GatewayVendor, E>(
            origin,
            xtx_id,
            confirmed_side_effect,
        ) == Err::<Seq<Event<S, C, GatewayType, GatewayVendor>>, CallError<E>>(CallError::BadOrigin),
        spec_confirm_side_effect_blind::<S, C, GatewayType, GatewayVendor, E>(
            origin,
            xtx_id,
            confirmed_side_effect,
        ) is Ok ==> origin is Signed,
        origin matches RawOrigin::Signed(relayer) ==> spec_confirm_side_effect_blind::<
            S,
            C,
            GatewayType,
            GatewayVendor,
            E,
        >(origin, xtx_id, confirmed_side_effect) matches Ok(events) && events.len() == 2
            && events[0] == Event::<S, C, GatewayType, GatewayVendor>::SideEffectConfirmed(
            relayer,
            xtx_id,
            confirmed_side_effect,
            0,
        ) && events[1] == Event::<
            S,
            C,
            GatewayType,
            GatewayVendor,
        >::XTransactionSuccessfullyCompleted(xtx_id),
{
}

/// A blind confirmation succeeds or fails alike whatever side effect it
/// confirms (its proof takes no part at all): the confirmed side effect
/// only appears in the event.
pub proof fn lemma_confirm_side_effect_blind_ignores_contents<S, C, GatewayType, GatewayVendor, E>(
    origin: RawOrigin<AccountId32>,
    xtx_id: XtxId,
    confirmed1: C,
    confirmed2: C,
)
    ensures
        spec_confirm_side_effect_blind::<S, C, GatewayType, GatewayVendor, E>(
            origin,
            xtx_id,
            confirmed1,
        ) is Ok <==> spec_confirm_side_effect_blind::<S, C, GatewayType, GatewayVendor, E>(
            origin,
            xtx_id,
            confirmed2,
        ) is Ok,
        spec_confirm_side_effect_blind::<S, C, GatewayType, GatewayVendor, E>(
            origin,
            xtx_id,
            confirmed1,
        ) is Err ==> spec_confirm_side_effect_blind::<S, C, GatewayType, GatewayVendor, E>(
            origin,
            xtx_id,
            confirmed1,
        ) == spec_confirm_side_effect_blind::<S, C, GatewayType, GatewayVendor, E>(
            origin,
            xtx_id,
            confirmed2,
        ),
{
}

/// The circuit's execution-delivery pallet.
pub struct Pallet;

impl Pallet {
    /// Weight of the work done at the start of each block: none.
    pub fn on_initialize(_n: BlockNumber) -> (r: u64)
        ensures
            r == 0,
    {
        0
    }

    /// The steps of a new transaction: each side effect, unconfirmed, in
    /// one step of its own when `sequential`, else all in a single step.
    pub(crate) fn build_steps<S: Clone, C>(side_effects: &Vec<S>, sequential: bool) -> (r: Vec<
        Vec<FullSideEffect<S, C>>,
    >)
        ensures
            steps_hold(side_effects@, r@, sequential),
    {
        let n: usize = side_effects.len();
        let mut steps: Vec<Vec<FullSideEffect<S, C>>> = Vec::new();
        if sequential {
            let mut i: usize = 0;
            while i < n
                invariant
                    n == side_effects@.len(),
                    i <= n,
                    steps@.len() == i,
                    forall|k: int|
                        0 <= k < i ==> {
                            &&& #[trigger] steps@[k]@.len() == 1
                            &&& cloned(side_effects@[k], steps@[k]@[0].input)
                            &&& steps@[k]@[0].confirmed is None
                        },
                decreases n - i,
            {
                let input: S = side_effects[i].clone();
                let mut step: Vec<FullSideEffect<S, C>> = Vec::new();
                step.push(FullSideEffect { input, confirmed: None });
                steps.push(step);
                i = i + 1;
            }
        } else {
            let mut full_side_effects: Vec<FullSideEffect<S, C>> = Vec::new();
            let mut i: usize = 0;
            while i < n
                invariant
                    n == side_effects@.len(),
                    i <= n,
                    full_side_effects@.len() == i,
                    forall|k: int|
                        0 <= k < i ==> {
                            &&& cloned(side_effects@[k], #[trigger] full_side_effects@[k].input)
                            &&& full_side_effects@[k].confirmed is None
                        },
                decreases n - i,
            {
                let input: S = side_effects[i].clone();
                full_side_effects.push(FullSideEffect { input, confirmed: None });
                i = i + 1;
            }
            steps.push(full_side_effects);
        }
        steps
    }

    /// The events of a confirmed side effect that completes its transaction.
    fn confirmation_events<S, C, GatewayType, GatewayVendor>(
        relayer_id: AccountId32,
        xtx_id: XtxId,
        confirmed_side_effect: C,
    ) -> (r: Vec<Event<S, C, GatewayType, GatewayVendor>>)
        ensures
            r@ == seq![
                Event::<S, C, GatewayType, GatewayVendor>::SideEffectConfirmed(
                    relayer_id,
                    xtx_id,
                    confirmed_side_effect,
                    0,
                ),
                Event::<S, C, GatewayType, GatewayVendor>::XTransactionSuccessfullyCompleted(xtx_id),
            ],
    {
        let mut events: Vec<Event<S, C, GatewayType, GatewayVendor>> = Vec::new();
        events.push(Event::SideEffectConfirmed(relayer_id, xtx_id, confirmed_side_effect, 0));
        events.push(Event::XTransactionSuccessfullyCompleted(xtx_id));
        events
    }

    /// Blind version should only be used for testing - unsafe since skips
    /// inclusion proof check.
    ///
    /// `xtx_is_active` tells whether a transaction is stored under `xtx_id`;
    /// confirming a step of an unknown transaction is not allowed.
    pub fn confirm_side_effect_blind<S, C, GatewayType, GatewayVendor, E>(
        origin: RawOrigin<AccountId32>,
        xtx_id: XtxId,
        confirmed_side_effect: C,
        _inclusion_proof: Option<Vec<u8>>,
        xtx_is_active: bool,
    ) -> (r: Result<Vec<Event<S, C, GatewayType, GatewayVendor>>, CallError<E>>)
        requires
            origin is Signed ==> xtx_is_active,
        ensures
            match r {
                Ok(events) => spec_confirm_side_effect_blind::<S, C, GatewayType, GatewayVendor, E>(origin, xtx_id, confirmed_side_effect)
                    == Ok::<Seq<Event<S, C, GatewayType, GatewayVendor>>, CallError<E>>(events@),
                Err(e) => spec_confirm_side_effect_blind::<S, C, GatewayType, GatewayVendor, E>(
                    origin,
                    xtx_id,
                    confirmed_side_effect,
                ) == Err::<Seq<Event<S, C, GatewayType, GatewayVendor>>, CallError<E>>(e),
            },
            match origin {
                RawOrigin::Signed(relayer) => r matches Ok(events) && events@ == seq![
                    Event::<S, C, GatewayType, GatewayVendor>::SideEffectConfirmed(
                        relayer,
                        xtx_id,
                        confirmed_side_effect,
                        0,
                    ),
                    Event::<S, C, GatewayType, GatewayVendor>::XTransactionSuccessfullyCompleted(
                        xtx_id,
                    ),
                ],
                _ => r matches Err(CallError::BadOrigin),
            },
    {
        let relayer_id: AccountId32 = match ensure_signed(origin) {
            Ok(who) => who,
            Err(_) => return Err(CallError::BadOrigin),
        };
        Ok(Self::confirmation_events(relayer_id, xtx_id, confirmed_side_effect))
    }

    /// Update of a gateway: for now only announces the new allowed side
    /// effects.
    pub fn update_gateway<GatewayABIConfig, S, C, GatewayType, GatewayVendor>(
        _origin: RawOrigin<AccountId32>,
        gateway_id: ChainId,
        _url: Option<Vec<u8>>,
        _gateway_abi: Option<GatewayABIConfig>,
        _authorities: Option<Vec<AccountId32>>,
        allowed_side_effects: Option<Vec<AllowedSideEffect>>,
    ) -> (r: Event<S, C, GatewayType, GatewayVendor>)
        ensures
            r == Event::<S, C, GatewayType, GatewayVendor>::GatewayUpdated(
                gateway_id,
                allowed_side_effects,
            ),
    {
        Event::GatewayUpdated(gateway_id, allowed_side_effects)
    }

}

/// The account of the pallet with identifier `pallet_id`: the bytes
/// `modl`, then the identifier, then zeros.
pub open spec fn spec_pallet_account(pallet_id: Seq<u8>) -> Seq<u8> {
    seq![0x6du8, 0x6fu8, 0x64u8, 0x6cu8] + pallet_id + Seq::new(20, |i: int| 0u8)
}

/// The account that `frame_support`'s `PalletId(pallet_id)` converts into
/// with `AccountIdConversion::into_account_truncating`. That conversion
/// encodes the type identifier `modl` and the eight identifier bytes, and
/// fills the rest of the 32-byte account with zeros.
#[verifier::external_body]
fn pallet_account_of(pallet_id: [u8; 8]) -> (r: AccountId32)
    ensures
        r.0@ == spec_pallet_account(pallet_id@),
{
    let account: [u8; 32] = frame_support::PalletId(pallet_id).into_account_truncating();
    AccountId32(account)
}

impl Pallet {
    /// The account of the pallet whose identifier is `pallet_id`.
    pub fn account_id(pallet_id: [u8; 8]) -> (r: AccountId32)
        ensures
            r.0@ == spec_pallet_account(pallet_id@),
    {
        pallet_account_of(pallet_id)
    }
}

/// What [`EnsureExecDelivery::try_origin`] decides for the origin `o`
/// (given as a system origin when it is one) and the pallet's account.
pub open spec fn spec_try_origin<O>(o: Result<RawOrigin<AccountId32>, O>, pallet_account: AccountId32) -> Result<
    AccountId32,
    Result<RawOrigin<AccountId32>, O>,
> {
    match o {
        Ok(RawOrigin::Signed(who)) => if who.0@ == pallet_account.0@ {
            Ok(pallet_account)
        } else {
            Err(Ok(RawOrigin::Signed(who)))
        },
        Ok(raw) => Err(Ok(raw)),
        Err(other) => Err(Err(other)),
    }
}

/// Simple ensure origin from the exec delivery: only the pallet's own
/// account passes.
pub struct EnsureExecDelivery<T>(pub core::marker::PhantomData<T>);

impl<T> EnsureExecDelivery<T> {
    /// The account of the pallet with identifier `pallet_id` when `o` is
    /// signed by it; otherwise `o` back, as a system origin when it was one.
    pub fn try_origin<O>(o: Result<RawOrigin<AccountId32>, O>, pallet_id: [u8; 8]) -> (r: Result<
        AccountId32,
        Result<RawOrigin<AccountId32>, O>,
    >)
        ensures
            exists|pallet_account: AccountId32|
                #![trigger spec_try_origin(o, pallet_account)]
                pallet_account.0@ == spec_pallet_account(pallet_id@) && r == spec_try_origin(
                    o,
                    pallet_account,
                ),
    {
        let loan_id = Pallet::account_id(pallet_id);
        let r = match o {
            Ok(RawOrigin::Signed(who)) => {
                if who.same_as(&loan_id) {
                    Ok(loan_id)
                } else {
                    Err(Ok(RawOrigin::Signed(who)))
                }
            },
            Ok(raw) => Err(Ok(raw)),
            Err(other) => Err(Err(other)),
        };
        assert(r == spec_try_origin(o, loan_id));
        r
    }

    /// An origin that passes: signed by the account of the pallet with
    /// identifier `pallet_id`.
    pub fn successful_origin(pallet_id: [u8; 8]) -> (r: RawOrigin<AccountId32>)
        ensures
            r matches RawOrigin::Signed(a) && a.0@ == spec_pallet_account(pallet_id@),
    {
        let loan_id = Pallet::account_id(pallet_id);
        RawOrigin::Signed(loan_id)
    }
}

/// The origin made by [`EnsureExecDelivery::successful_origin`] passes
/// [`EnsureExecDelivery::try_origin`] and yields the pallet's account.
pub proof fn lemma_successful_origin_passes<O>(pallet_account: AccountId32)
    ensures
        spec_try_origin::<O>(Ok(RawOrigin::Signed(pallet_account)), pallet_account) == Ok::<
            AccountId32,
            Result<RawOrigin<AccountId32>, O>,
        >(pallet_account),
{
}

/// Payload used by this example crate to hold price
/// data required to submit a transaction.
#[derive(Debug, PartialEq, Eq)]
pub struct Payload<Public, BlockNumber> {
    pub block_number: BlockNumber,
    pub public: Public,
}

impl<Public: Clone, BlockNumber> Payload<Public, BlockNumber> {
    /// The public key that signs the payload.
    pub fn public(&self) -> (r: Public)
        ensures
            cloned(self.public, r),
    {
        self.public.clone()
    }
}

} // verus!
