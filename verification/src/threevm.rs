//! Primitives shared by the 3VM: precompile pointers, invocation results,
//! remuneration records, the no-op 3VM and balance/address helpers.
use vstd::prelude::*;
use crate::dispatch::DispatchError;
use crate::hash_types::{H160, H256, U256};

verus! {

// Precompile pointers baked into the binary.
// Genesis exists only to map hashes to pointers.
pub const GET_STATE: u8 = 55;
pub const VACUUM_ORDER: u8 = 90;
pub const VACUUM_3D_ORDER: u8 = 91;
pub const VACUUM_CONFIRM: u8 = 92;
pub const VACUUM_SUBMIT_CORRECTNESS_PROOF: u8 = 93;
pub const VACUUM_SUBMIT_FAULT_PROOF: u8 = 94;
pub const VACUUM_TELEPORT_ORDER: u8 = 95;
pub const SUBMIT: u8 = 56;
pub const POST_SIGNAL: u8 = 57;
pub const PORTAL: u8 = 70;

/// The index from which the endoded AssetId bytes will be encoded into an EVM address
pub const H160_POSITION_ASSET_ID_TYPE: usize = 16;

/// Byte `k` (0 = most significant) of the big-endian encoding of `index`.
pub open spec fn be_byte(index: u32, k: int) -> u8 {
    if k == 0 {
        (index / 0x100_0000) as u8
    } else if k == 1 {
        ((index / 0x1_0000) % 0x100) as u8
    } else if k == 2 {
        ((index / 0x100) % 0x100) as u8
    } else {
        (index % 0x100) as u8
    }
}

/// The bytes of the precompile address of the token with the given index:
/// sixteen bytes `9`, then the index in big-endian order.
pub open spec fn spec_tokens_precompile_address(index: u32) -> Seq<u8> {
    Seq::new(
        20,
        |i: int|
            if i < H160_POSITION_ASSET_ID_TYPE as int {
                9u8
            } else {
                be_byte(index, i - H160_POSITION_ASSET_ID_TYPE as int)
            },
    )
}

/// Distinct tokens have distinct precompile addresses.
pub proof fn lemma_tokens_precompile_address_injective(a: u32, b: u32)
    requires
        a != b,
    ensures
        spec_tokens_precompile_address(a) != spec_tokens_precompile_address(b),
{
    if spec_tokens_precompile_address(a) == spec_tokens_precompile_address(b) {
        assert(spec_tokens_precompile_address(a)[16] == spec_tokens_precompile_address(b)[16]);
        assert(spec_tokens_precompile_address(a)[17] == spec_tokens_precompile_address(b)[17]);
        assert(spec_tokens_precompile_address(a)[18] == spec_tokens_precompile_address(b)[18]);
        assert(spec_tokens_precompile_address(a)[19] == spec_tokens_precompile_address(b)[19]);
        assert(a / 0x100_0000 == b / 0x100_0000);
        assert((a / 0x1_0000) % 0x100 == (b / 0x1_0000) % 0x100);
        assert((a / 0x100) % 0x100 == (b / 0x100) % 0x100);
        assert(a % 0x100 == b % 0x100);
        assert(a == b) by (bit_vector)
            requires
                a / 0x100_0000 == b / 0x100_0000,
                (a / 0x1_0000) % 0x100 == (b / 0x1_0000) % 0x100,
                (a / 0x100) % 0x100 == (b / 0x100) % 0x100,
                a % 0x100 == b % 0x100,
        ;
    }
}

/// The big-endian bytes of `index`.
fn be_bytes(index: u32) -> (r: [u8; 4])
    ensures
        forall|k: int| 0 <= k < 4 ==> r@[k] == be_byte(index, k),
{
    let b0: u8 = (index / 0x100_0000) as u8;
    let b1: u8 = ((index / 0x1_0000) % 0x100) as u8;
    let b2: u8 = ((index / 0x100) % 0x100) as u8;
    let b3: u8 = (index % 0x100) as u8;
    [b0, b1, b2, b3]
}

/// The EVM address under which the precompile of the token `index` is reached.
pub fn get_tokens_precompile_address(index: u32) -> (r: H160)
    ensures
        r.0@ == spec_tokens_precompile_address(index),
{
    let mut address: [u8; 20] = [9u8; 20];
    let index_bytes: [u8; 4] = be_bytes(index);
    let mut byte_index: usize = H160_POSITION_ASSET_ID_TYPE;
    while byte_index < 20
        invariant
            H160_POSITION_ASSET_ID_TYPE <= byte_index <= 20,
            forall|k: int| 0 <= k < 4 ==> index_bytes@[k] == be_byte(index, k),
            forall|i: int|
                0 <= i < byte_index ==> #[trigger] address@[i] == spec_tokens_precompile_address(
                    index,
                )[i],
            forall|i: int| byte_index <= i < 20 ==> #[trigger] address@[i] == 9u8,
        decreases 20 - byte_index,
    {
        address[byte_index] = index_bytes[byte_index - H160_POSITION_ASSET_ID_TYPE];
        byte_index = byte_index + 1;
    }
    assert(address@ =~= spec_tokens_precompile_address(index));
    H160(address)
}

/// Arguments of the state-query precompile.
#[derive(Debug, PartialEq, Eq)]
pub struct GetState<Hash> {
    pub xtx_id: Option<Hash>,
}

/// The arguments with which a precompile is invoked, one variant per
/// precompile, each carrying the calling origin.
pub enum PrecompileArgs<
    Origin,
    Hash,
    SideEffects,
    SpeedMode,
    Order,
    Order3D,
    Proof,
    TeleportOrder,
    Signal,
    PortalArgs,
> {
    GetState(Origin, GetState<Hash>),
    SubmitSideEffects(Origin, SideEffects, SpeedMode),
    VacuumOrder(Origin, Order),
    Vacuum3DOrder(Origin, Order3D),
    VacuumConfirm(Origin, Order),
    VacuumSubmitCorrectnessProof(Origin, Proof),
    VacuumSubmitFaultProof(Origin, Proof),
    VacuumTeleportOrder(Origin, TeleportOrder),
    Signal(Origin, Signal),
    Portal(PortalArgs),
}

/// The happy return type of an invocation
#[derive(Debug, PartialEq, Eq)]
pub enum PrecompileInvocation<State, PortalExecution> {
    GetState(State),
    Submit(State),
    Signal,
    Portal(PortalExecution),
    VacuumOrder(bool),
    VacuumConfirm(bool),
    Vacuum3DOrder(bool),
    VacuumSubmitFaultProof(bool),
    VacuumSubmitCorrectnessProof(bool),
    VacuumTeleportOrder(bool),
}

impl<State, PortalExecution> PrecompileInvocation<State, PortalExecution> {
    /// The local state carried by a state query, if this is one.
    pub fn get_state(&self) -> (r: Option<&State>)
        ensures
            match self {
                PrecompileInvocation::GetState(state) => r == Some(state),
                _ => r is None,
            },
    {
        match self {
            PrecompileInvocation::GetState(state) => Some(state),
            _ => None,
        }
    }

    /// The local state carried by a submission, if this is one.
    pub fn get_submit(&self) -> (r: Option<&State>)
        ensures
            match self {
                PrecompileInvocation::Submit(state) => r == Some(state),
                _ => r is None,
            },
    {
        match self {
            PrecompileInvocation::Submit(state) => Some(state),
            _ => None,
        }
    }
}

/// The ledger entry created by a remuneration, if any.
#[derive(Debug, PartialEq, Eq)]
pub struct Remunerated<Hash> {
    pub remuneration_id: Option<Hash>,
}

impl<Hash> Default for Remunerated<Hash> {
    fn default() -> (r: Self)
        ensures
            r.remuneration_id is None,
    {
        Remunerated { remuneration_id: None }
    }
}

impl<Hash> Remunerated<Hash> {
    pub fn new(id: Option<Hash>) -> (r: Self)
        ensures
            r.remuneration_id == id,
    {
        Remunerated { remuneration_id: id }
    }
}

/// A property of a contract that the 3VM can be asked to validate.
#[derive(Copy, Clone, Debug, PartialEq, Eq, Structural)]
pub enum Characteristic {
    Storage,
    Instantiate,
    Remuneration,
    Volatile,
}

/// Passthrough to validator
pub trait CharacteristicValidator {
    fn validate(characteristic: &Characteristic) -> Result<(), ()>;
}

/// How a signal to an execution was handled.
#[derive(Debug, PartialEq, Eq, Structural)]
pub enum SignalOpcode {
    Initiated,
    Bounced,
}

/// Operations on a module: a contract blob with its author and kind.
pub trait ModuleOperations<Author, Kind> {
    fn get_bytecode(&self) -> &Vec<u8>;

    fn get_author(&self) -> Option<&Author>;

    fn set_author(&mut self, author: Author);

    fn get_type(&self) -> &Kind;

    fn set_type(&mut self, kind: Kind);
}

/// Precompiles reachable from contracts.
pub trait Precompile {
    /// Looks up a precompile function pointer
    fn lookup<Hash>(dest: &Hash) -> Option<u8>;

    /// Invoke a precompile, providing raw bytes and a pointer
    fn invoke_raw(precompile: &u8, args: &[u8], output: &mut Vec<u8>);

    /// Invoke a precompile
    fn invoke<Args, Invocation>(args: Args) -> Result<Invocation, DispatchError>;
}

/// Read access to the local state of an execution.
pub trait LocalStateAccess {
    fn load_local_state<Origin, Hash, State>(origin: &Origin, xtx_id: Option<&Hash>) -> Result<
        State,
        DispatchError,
    >;
}

/// Sending signals to running executions.
pub trait Signaller {
    fn signal<Signal>(signal: &Signal) -> Result<SignalOpcode, DispatchError>;
}

/// Fee remuneration of module authors.
pub trait Remuneration {
    /// Try to remunerate the fees from the given module
    fn try_remunerate<AccountId, Hash, Author, Kind, Module: ModuleOperations<Author, Kind>>(
        payee: &AccountId,
        module: &Module,
    ) -> Result<Remunerated<Hash>, DispatchError>;

    /// Try to remunerate the fees from the given module with a custom balance
    fn try_remunerate_exact<
        AccountId,
        Hash,
        Balance,
        Author,
        Kind,
        Module: ModuleOperations<Author, Kind>,
    >(payee: &AccountId, amount: Balance, module: &Module) -> Result<
        Remunerated<Hash>,
        DispatchError,
    >;

    /// Try to finalize a ledger item with an reason
    fn try_finalize<Hash, Outcome>(ledger_id: Hash, outcome: Outcome) -> Result<(), DispatchError>;
}

/// The registry and policy side of the 3VM.
pub trait ThreeVm {
    fn peek_registry<Hash, RegistryContract>(id: &Hash) -> Result<RegistryContract, DispatchError>;

    /// Allows creating a `Module` from a binary blob from the contracts registry
    fn from_registry<Hash, Author, Kind, Module, ModuleGen>(
        id: &Hash,
        module_generator: ModuleGen,
    ) -> Result<Module, DispatchError> where
        Module: ModuleOperations<Author, Kind>,
        ModuleGen: Fn(Vec<u8>) -> Module,
    ;

    fn instantiate_check<Kind>(kind: &Kind) -> Result<(), DispatchError>;

    fn storage_check<Kind>(kind: &Kind) -> Result<(), DispatchError>;

    fn volatile_check<Kind>(kind: &Kind) -> Result<(), DispatchError>;

    fn remunerable_check<Kind>(kind: &Kind) -> Result<(), DispatchError>;

    fn try_persist_author<AccountId, Author>(contract: &AccountId, author: Option<&Author>) -> Result<
        (),
        DispatchError,
    >;

    fn try_remove_author<AccountId>(contract: &AccountId) -> Result<(), DispatchError>;
}

/// `r` is a refusal with the message `msg`.
pub open spec fn refused_with<T>(r: Result<T, DispatchError>, msg: &str) -> bool {
    match r {
        Err(DispatchError::Other(m)) => m@ == msg@,
        _ => false,
    }
}

/// A 3VM that supports nothing: lookups find nothing, invocations and
/// signals are refused, and every check passes.
pub struct NoopThreeVm;

impl LocalStateAccess for NoopThreeVm {
    fn load_local_state<Origin, Hash, State>(_origin: &Origin, _xtx_id: Option<&Hash>) -> (r:
        Result<State, DispatchError>)
        ensures
            refused_with::<State>(r, "Local State Not implemented"),
    {
        Err(DispatchError::Other("Local State Not implemented"))
    }
}

impl Remuneration for NoopThreeVm {
    fn try_remunerate<AccountId, Hash, Author, Kind, Module: ModuleOperations<Author, Kind>>(
        _payee: &AccountId,
        _module: &Module,
    ) -> (r: Result<Remunerated<Hash>, DispatchError>)
        ensures
            r matches Ok(rem) && rem.remuneration_id is None,
    {
        Ok(Remunerated { remuneration_id: None })
    }

    fn try_remunerate_exact<
        AccountId,
        Hash,
        Balance,
        Author,
        Kind,
        Module: ModuleOperations<Author, Kind>,
    >(_payee: &AccountId, _amount: Balance, _module: &Module) -> (r: Result<
        Remunerated<Hash>,
        DispatchError,
    >)
        ensures
            r matches Ok(rem) && rem.remuneration_id is None,
    {
        Ok(Remunerated { remuneration_id: None })
    }

    fn try_finalize<Hash, Outcome>(_ledger_id: Hash, _outcome: Outcome) -> (r: Result<
        (),
        DispatchError,
    >)
        ensures
            r is Ok,
    {
        Ok(())
    }
}

impl Signaller for NoopThreeVm {
    fn signal<Signal>(_signal: &Signal) -> (r: Result<SignalOpcode, DispatchError>)
        ensures
            refused_with::<SignalOpcode>(r, "Signalling is not enabled"),
    {
        Err(DispatchError::Other("Signalling is not enabled"))
    }
}

impl Precompile for NoopThreeVm {
    fn lookup<Hash>(_dest: &Hash) -> (r: Option<u8>)
        ensures
            r is None,
    {
        None
    }

    fn invoke_raw(_precompile: &u8, _args: &[u8], _output: &mut Vec<u8>)
        ensures
            final(_output)@ == old(_output)@,
    {
    }

    fn invoke<Args, Invocation>(_args: Args) -> (r: Result<Invocation, DispatchError>)
        ensures
            refused_with::<Invocation>(r, "Precompile Invocation Not implemented"),
    {
        Err(DispatchError::Other("Precompile Invocation Not implemented"))
    }
}

impl ThreeVm for NoopThreeVm {
    fn peek_registry<Hash, RegistryContract>(_id: &Hash) -> (r: Result<
        RegistryContract,
        DispatchError,
    >)
        ensures
            refused_with::<RegistryContract>(r, "Registry Peek Not implemented"),
    {
        Err(DispatchError::Other("Registry Peek Not implemented"))
    }

    fn from_registry<Hash, Author, Kind, Module, ModuleGen>(
        _id: &Hash,
        _module_generator: ModuleGen,
    ) -> (r: Result<Module, DispatchError>) where
        Module: ModuleOperations<Author, Kind>,
        ModuleGen: Fn(Vec<u8>) -> Module,

        ensures
            refused_with::<Module>(r, "From Registry Not implemented"),
    {
        Err(DispatchError::Other("From Registry Not implemented"))
    }

    fn instantiate_check<Kind>(_kind: &Kind) -> (r: Result<(), DispatchError>)
        ensures
            r is Ok,
    {
        Ok(())
    }

    fn storage_check<Kind>(_kind: &Kind) -> (r: Result<(), DispatchError>)
        ensures
            r is Ok,
    {
        Ok(())
    }

    fn volatile_check<Kind>(_kind: &Kind) -> (r: Result<(), DispatchError>)
        ensures
            r is Ok,
    {
        Ok(())
    }

    fn remunerable_check<Kind>(_kind: &Kind) -> (r: Result<(), DispatchError>)
        ensures
            r is Ok,
    {
        Ok(())
    }

    fn try_persist_author<AccountId, Author>(
        _contract: &AccountId,
        _author: Option<&Author>,
    ) -> (r: Result<(), DispatchError>)
        ensures
            r is Ok,
    {
        Ok(())
    }

    fn try_remove_author<AccountId>(_contract: &AccountId) -> (r: Result<(), DispatchError>)
        ensures
            r is Ok,
    {
        Ok(())
    }
}

/// A contract module held by the 3VM: its author, its kind and its bytecode.
pub struct ThreeVmInfo<Author, Kind> {
    author: Author,
    kind: Kind,
    bytecode: Vec<u8>,
}

impl<Author, Kind> ThreeVmInfo<Author, Kind> {
    /// The author of the module.
    pub closed spec fn author(&self) -> Author {
        self.author
    }

    /// The kind of the module.
    pub closed spec fn kind(&self) -> Kind {
        self.kind
    }

    /// The bytecode of the module.
    pub closed spec fn bytecode(&self) -> Seq<u8> {
        self.bytecode@
    }
}

impl<Author, Kind> ThreeVmInfo<Author, Kind> {
    /// A module with the given author, kind and bytecode, as decoding one
    /// gives it.
    pub fn from_parts(author: Author, kind: Kind, bytecode: Vec<u8>) -> (r: Self)
        ensures
            r.author() == author,
            r.kind() == kind,
            r.bytecode() == bytecode@,
    {
        ThreeVmInfo { author, kind, bytecode }
    }
}

impl<Author: Default, Kind: Default> Default for ThreeVmInfo<Author, Kind> {
    fn default() -> (r: Self)
        ensures
            call_ensures(Author::default, (), r.author()),
            call_ensures(Kind::default, (), r.kind()),
            r.bytecode() == Seq::<u8>::empty(),
    {
        ThreeVmInfo { author: Author::default(), kind: Kind::default(), bytecode: Vec::new() }
    }
}

impl<Author, Kind> ModuleOperations<Author, Kind> for ThreeVmInfo<Author, Kind> {
    fn get_bytecode(&self) -> (r: &Vec<u8>)
        ensures
            r@ == self.bytecode(),
    {
        &self.bytecode
    }

    fn get_author(&self) -> (r: Option<&Author>)
        ensures
            r == Some(&self.author()),
    {
        Some(&self.author)
    }

    fn set_author(&mut self, author: Author)
        ensures
            final(self).author() == author,
            final(self).kind() == old(self).kind(),
            final(self).bytecode() == old(self).bytecode(),
    {
        self.author = author;
    }

    fn get_type(&self) -> (r: &Kind)
        ensures
            *r == self.kind(),
    {
        &self.kind
    }

    fn set_type(&mut self, kind: Kind)
        ensures
            final(self).kind() == kind,
            final(self).author() == old(self).author(),
            final(self).bytecode() == old(self).bytecode(),
    {
        self.kind = kind;
    }
}

/// Calls into contracts of the WASM VM.
pub trait Contracts<AccountId, Balance, EventRecord> {
    type Outcome;

    fn call(
        origin: AccountId,
        dest: AccountId,
        value: Balance,
        gas_limit: crate::dispatch::Weight,
        storage_deposit_limit: Option<Balance>,
        data: Vec<u8>,
        debug: bool,
    ) -> Self::Outcome;
}

/// Calls into contracts of the EVM.
pub trait Evm<Origin> {
    type Outcome;

    fn call(
        origin: Origin,
        target: H160,
        input: Vec<u8>,
        value: U256,
        gas_limit: u64,
        max_fee_per_gas: U256,
        max_priority_fee_per_gas: Option<U256>,
        nonce: Option<U256>,
        access_list: Vec<(H160, Vec<H256>)>,
    ) -> Self::Outcome;
}

/// Orders and proofs submitted to the vacuum from the EVM.
pub trait VacuumAccess<Origin, Order, TeleportOrder, Proof, Order3D> {
    fn evm_order(origin: &Origin, vacuum_evm_order: Order) -> Result<bool, DispatchError>;

    fn evm_teleport_order(origin: &Origin, vacuum_evm_order: TeleportOrder) -> Result<
        bool,
        DispatchError,
    >;

    fn evm_confirm(origin: &Origin, vacuum_evm_order: Order) -> Result<bool, DispatchError>;

    fn evm_submit_fault_proof(origin: &Origin, vacuum_evm_proof: Proof) -> Result<
        bool,
        DispatchError,
    >;

    fn evm_3d_order(origin: &Origin, vacuum_evm_order: Order3D) -> Result<bool, DispatchError>;
}

/// A mapping between asset ids and EVM addresses.
pub trait Erc20Mapping<TokenId> {
    /// Encode the AssetId to EvmAddress.
    fn encode_evm_address(v: TokenId) -> Option<H160>;

    /// Decode the AssetId from EvmAddress.
    fn decode_evm_address(v: H160) -> Option<TokenId>;
}

/// A mapping between `AccountId` and `EvmAddress`.
pub trait AddressMapping<AccountId> {
    /// Returns the AccountId used go generate the given EvmAddress.
    fn into_account_id(evm: &H160) -> AccountId;

    /// Returns the EvmAddress associated with a given AccountId or the
    /// underlying EvmAddress of the AccountId.
    /// Returns None if there is no EvmAddress associated with the AccountId
    /// and there is no underlying EvmAddress in the AccountId.
    fn get_evm_address(account_id: &AccountId) -> Option<H160>;

    /// Returns the EVM address associated with an account ID and generates an
    /// account mapping if no association exists.
    fn get_or_create_evm_address(account_id: &AccountId) -> H160;

    /// Returns the default EVM address associated with an account ID.
    fn get_default_evm_address(account_id: &AccountId) -> H160;

    /// Returns true if a given AccountId is associated with a given EvmAddress
    /// and false if is not.
    fn is_linked(account_id: &AccountId, evm: &H160) -> bool;
}

} // verus!
