use vstd::prelude::*;
use crate::models::ids::Bytes32;

verus! {

/// The id of a deployed contract.
pub type ContractAddress = Bytes32;

/// A deployed contract: its id, the UTXO that holds it, and the roots of its
/// balances and of its state.
#[derive(Debug, Clone, Copy)]
pub struct Contract {
    contract_id: ContractAddress,
    utxo_id: Bytes32,
    balance_root: Bytes32,
    state_root: Bytes32,
}

} // verus!
