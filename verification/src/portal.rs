//! Interfaces towards other chains: the circuit portal, and the assembly of
//! calls for a gateway.
use vstd::prelude::*;

verus! {

/// Confirms headers and event inclusion on connected chains.
pub trait CircuitPortal<StorageProof> {
    fn confirm_parachain_header(
        gateway_id: [u8; 4],
        block_hash: Vec<u8>,
        proof: StorageProof,
    ) -> Result<Vec<u8>, &'static str>;

    fn confirm_event_inclusion(
        gateway_id: [u8; 4],
        encoded_event: Vec<u8>,
        maybe_proof: Option<Vec<Vec<u8>>>,
        maybe_block_hash: Option<Vec<u8>>,
    ) -> Result<(), &'static str>;
}

/// Builds calls and signed extrinsics for a gateway.
pub trait GatewayInboundAssembly<Call, Extrinsic> {
    fn assemble_signed_call(
        &self,
        module_name: &'static str,
        fn_name: &'static str,
        args: Vec<u8>,
        nonce: u32,
    ) -> Result<Extrinsic, &'static str>;

    fn assemble_call(&self, module_name: &'static str, fn_name: &'static str, args: Vec<u8>) -> Result<
        Call,
        &'static str,
    >;

    fn assemble_signed_tx_offline(&self, call: Call, nonce: u32) -> Result<Extrinsic, &'static str>;

    fn assemble_signed_batch_call(&self, calls: Vec<Call>, nonce: u32) -> Result<
        Extrinsic,
        &'static str,
    >;
}

} // verus!
