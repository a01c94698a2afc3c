//! Registration of a trusted-execution node: its signer, key and attestation.
use vstd::prelude::*;

use crate::error::ErrorCode;
use crate::key::Pubkey;

verus! {

/// A trusted-execution node's registration, made once.
#[derive(Clone, Debug)]
pub struct TEEState {
    pub signer: Pubkey,
    pub pubkey: Vec<u8>,
    pub attestation: Vec<u8>,
    pub is_initialized: bool,
}

/// Records `signer`'s node key and attestation; a node registers only once.
pub fn register_tee_node(state: &mut TEEState, signer: &Pubkey, pubkey: Vec<u8>, attestation: Vec<u8>) -> (r:
    Result<(), ErrorCode>)
    ensures
        r is Ok <==> !old(state).is_initialized,
        match r {
            Ok(()) => {
                &&& final(state).signer == *signer
                &&& final(state).pubkey@ == pubkey@
                &&& final(state).attestation@ == attestation@
                &&& final(state).is_initialized
            },
            Err(e) => e == ErrorCode::NodeAlreadyRegistered && *final(state) == *old(state),
        },
{
    if state.is_initialized {
        return Err(ErrorCode::NodeAlreadyRegistered);
    }
    state.signer = *signer;
    state.pubkey = pubkey;
    state.attestation = attestation;
    state.is_initialized = true;
    Ok(())
}

} // verus!
