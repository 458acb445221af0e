use vstd::prelude::*;
use fuel_tx::Transaction;
use crate::models::ids::Bytes32;

verus! {

/// A machine word.
pub type Word = u64;

/// The height of a block in the chain.
pub type BlockHeight = Word;

/// A block: its id, its height and the transactions it holds.
#[derive(Debug, Clone)]
pub struct Block {
    pub id: Bytes32,
    pub height: BlockHeight,
    pub transactions: Vec<Transaction>,
}

} // verus!
