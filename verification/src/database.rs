//! Storage of the chain's coins and contracts.

use vstd::prelude::*;
use crate::models::coin::{Coin, CoinId};

pub mod fakes;

verus! {

/// A store that holds coins and contracts.
pub trait Database: CoinStore + ContractStore {}

/// A store of coins, found by their id.
pub trait CoinStore {
    /// The coins that the store holds, by id.
    spec fn coins(&self) -> Map<CoinId, Coin>;

    /// Looks a coin up; fails with `CoinNotFound` exactly when the store does
    /// not hold it.
    fn get(&self, id: &CoinId) -> (r: Result<Coin, CoinStoreError>)
        ensures
            r matches Ok(c) ==> self.coins().contains_key(*id) && self.coins()[*id] == c,
            r is Err ==> !self.coins().contains_key(*id),
    ;

    /// Stores a coin under its id, in place of any coin stored there before.
    fn store(&mut self, coin: Coin) -> (r: Result<(), CoinStoreError>)
        ensures
            r is Ok ==> final(self).coins() == old(self).coins().insert(coin.id, coin),
            r is Err ==> final(self).coins() == old(self).coins(),
    ;

    /// Removes the coin with the given id, if the store holds one.
    fn remove(&mut self, id: &CoinId) -> (r: Result<(), CoinStoreError>)
        ensures
            r is Ok ==> final(self).coins() == old(self).coins().remove(*id),
            r is Err ==> final(self).coins() == old(self).coins(),
    ;
}

/// Why a coin store could not serve a request.
#[derive(Debug, Clone, Copy, PartialEq, Eq, Structural)]
pub enum CoinStoreError {
    CoinNotFound,
}

/// Once a store has stored a coin, looking up its id gives that coin back.
pub proof fn lemma_get_after_store<S: CoinStore>(before: S, after: S, coin: Coin)
    requires
        after.coins() == before.coins().insert(coin.id, coin),
    ensures
        after.coins().contains_key(coin.id),
        after.coins()[coin.id] == coin,
{
}

/// Once a store has removed an id, looking it up finds nothing, and the coins
/// under other ids are as they were.
pub proof fn lemma_get_after_remove<S: CoinStore>(before: S, after: S, id: CoinId, other: CoinId)
    requires
        after.coins() == before.coins().remove(id),
        other != id,
    ensures
        !after.coins().contains_key(id),
        after.coins().contains_key(other) == before.coins().contains_key(other),
        before.coins().contains_key(other) ==> after.coins()[other] == before.coins()[other],
{
}

/// A store of contracts.
pub trait ContractStore {}

} // verus!
