use vstd::prelude::*;
use crate::models::block::{BlockHeight, Word};
use crate::models::ids::{Bytes32, UtxoId};

verus! {

/// A coin is found by the UTXO that holds it.
pub type CoinId = UtxoId;

/// The owner of a coin.
pub type Address = Bytes32;

/// The asset of a coin.
pub type Color = Bytes32;

/// A coin: an amount of an asset owned by an address, spendable once it has matured.
#[derive(Debug, Clone, Copy)]
pub struct Coin {
    pub id: CoinId,
    pub owner: Address,
    pub amount: Word,
    pub color: Color,
    pub maturity: BlockHeight,
    pub status: CoinStatus,
    pub block_created: BlockHeight,
}

/// Whether a coin has been spent.
#[derive(Debug, Clone, Copy, PartialEq, Eq, Structural)]
pub enum CoinStatus {
    Unspent,
    Spent,
}

} // verus!
