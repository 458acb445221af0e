//! An in-memory coin store.

use vstd::prelude::*;
use crate::database::{CoinStore, CoinStoreError, ContractStore, Database};
use crate::models::coin::{Coin, CoinId};
use crate::models::ids::utxo_id_eq;

verus! {

/// The map that a sequence of coins with distinct ids stands for.
pub open spec fn coin_map(s: Seq<Coin>) -> Map<CoinId, Coin> {
    Map::new(
        |id: CoinId| exists|i: int| 0 <= i < s.len() && #[trigger] s[i].id == id,
        |id: CoinId| s[choose|i: int| 0 <= i < s.len() && #[trigger] s[i].id == id],
    )
}

/// No two coins in `s` share an id.
pub open spec fn distinct_ids(s: Seq<Coin>) -> bool {
    forall|i: int, j: int| 0 <= i < s.len() && 0 <= j < s.len() && i != j ==> #[trigger] s[i].id != #[trigger] s[j].id
}

proof fn lemma_coin_map_at(s: Seq<Coin>, i: int)
    requires
        distinct_ids(s),
        0 <= i < s.len(),
    ensures
        coin_map(s).contains_key(s[i].id),
        coin_map(s)[s[i].id] == s[i],
{
    let id = s[i].id;
    assert(exists|k: int| 0 <= k < s.len() && #[trigger] s[k].id == id);
    let j = choose|k: int| 0 <= k < s.len() && #[trigger] s[k].id == id;
    assert(j == i);
}

/// A coin store held in memory: a vector of coins with distinct ids. A coin
/// id is a pair of a digest and an index, and vstd specifies `HashMap` lookups
/// only for integer and boolean keys, so the store keeps a vector and finds a
/// coin by comparing ids.
pub struct FakeCoinStore(Vec<Coin>);

impl FakeCoinStore {
    #[verifier::type_invariant]
    spec fn inv(self) -> bool {
        distinct_ids(self.0@)
    }

    /// An empty store.
    pub fn new() -> (s: Self)
        ensures
            s.coins() == Map::<CoinId, Coin>::empty(),
    {
        let s = FakeCoinStore(Vec::new());
        assert(coin_map(s.0@) =~= Map::<CoinId, Coin>::empty());
        s
    }

    /// The position of the coin with the given id, if the store holds one.
    fn position(&self, id: &CoinId) -> (r: Option<usize>)
        ensures
            r matches Some(i) ==> i < self.0@.len() && self.0@[i as int].id == *id,
            r is None ==> forall|i: int| 0 <= i < self.0@.len() ==> self.0@[i].id != *id,
    {
        let mut i: usize = 0;
        while i < self.0.len()
            invariant
                0 <= i <= self.0@.len(),
                forall|j: int| 0 <= j < i ==> self.0@[j].id != *id,
            decreases self.0@.len() - i,
        {
            if utxo_id_eq(&self.0[i].id, id) {
                return Some(i);
            }
            i = i + 1;
        }
        None
    }
}

impl CoinStore for FakeCoinStore {
    closed spec fn coins(&self) -> Map<CoinId, Coin> {
        coin_map(self.0@)
    }

    fn get(&self, id: &CoinId) -> (r: Result<Coin, CoinStoreError>) {
        proof { use_type_invariant(self); }
        match self.position(id) {
            Some(i) => {
                proof { lemma_coin_map_at(self.0@, i as int); }
                Ok(self.0[i])
            },
            None => Err(CoinStoreError::CoinNotFound),
        }
    }

    fn store(&mut self, coin: Coin) -> (r: Result<(), CoinStoreError>)
        ensures
            r is Ok,
    {
        proof { use_type_invariant(&*self); }
        let ghost before = self.0@;
        let pos = self.position(&coin.id);
        let mut coins: Vec<Coin> = Vec::new();
        std::mem::swap(&mut coins, &mut self.0);
        match pos {
            Some(i) => {
                coins.set(i, coin);
            },
            None => {
                coins.push(coin);
            },
        }
        let ghost after = coins@;
        assert(distinct_ids(after));
        proof {
            assert forall|id: CoinId| #![trigger coin_map(after).contains_key(id)]
                coin_map(after).contains_key(id) == coin_map(before).insert(coin.id, coin).contains_key(id)
            by {
                if id != coin.id {
                    if coin_map(before).contains_key(id) {
                        let k = choose|k: int| 0 <= k < before.len() && #[trigger] before[k].id == id;
                        assert(after[k] == before[k]);
                    }
                    if coin_map(after).contains_key(id) {
                        let k = choose|k: int| 0 <= k < after.len() && #[trigger] after[k].id == id;
                        assert(k < before.len() && after[k] == before[k]);
                    }
                } else {
                    match pos {
                        Some(i) => { lemma_coin_map_at(after, i as int); },
                        None => { lemma_coin_map_at(after, before.len() as int); },
                    }
                }
            }
            assert forall|id: CoinId| #[trigger] coin_map(after).contains_key(id)
                implies coin_map(after)[id] == coin_map(before).insert(coin.id, coin)[id]
            by {
                let k = choose|k: int| 0 <= k < after.len() && #[trigger] after[k].id == id;
                lemma_coin_map_at(after, k);
                if id != coin.id {
                    assert(k < before.len() && after[k] == before[k]);
                    lemma_coin_map_at(before, k);
                } else {
                    match pos {
                        Some(i) => { lemma_coin_map_at(after, i as int); },
                        None => { lemma_coin_map_at(after, before.len() as int); },
                    }
                }
            }
            assert(coin_map(after) =~= coin_map(before).insert(coin.id, coin));
        }
        self.0 = coins;
        Ok(())
    }

    fn remove(&mut self, id: &CoinId) -> (r: Result<(), CoinStoreError>)
        ensures
            r is Ok,
    {
        proof { use_type_invariant(&*self); }
        let ghost before = self.0@;
        match self.position(id) {
            Some(i) => {
                let mut coins: Vec<Coin> = Vec::new();
                std::mem::swap(&mut coins, &mut self.0);
                coins.remove(i);
                let ghost after = coins@;
                assert forall|a: int, b: int| 0 <= a < after.len() && 0 <= b < after.len() && a != b
                    implies #[trigger] after[a].id != #[trigger] after[b].id
                by {
                    let a0 = if a < i { a } else { a + 1 };
                    let b0 = if b < i { b } else { b + 1 };
                    assert(after[a] == before[a0] && after[b] == before[b0]);
                }
                proof {
                    assert forall|k: CoinId| #![trigger coin_map(after).contains_key(k)]
                        coin_map(after).contains_key(k) == coin_map(before).remove(*id).contains_key(k)
                    by {
                        if coin_map(after).contains_key(k) {
                            let a = choose|a: int| 0 <= a < after.len() && #[trigger] after[a].id == k;
                            let a0 = if a < i { a } else { a + 1 };
                            assert(after[a] == before[a0]);
                            assert(a0 != i);
                        }
                        if k != *id && coin_map(before).contains_key(k) {
                            let b = choose|b: int| 0 <= b < before.len() && #[trigger] before[b].id == k;
                            assert(b != i);
                            let a = if b < i { b } else { b - 1 };
                            assert(after[a] == before[b]);
                        }
                    }
                    assert forall|k: CoinId| #[trigger] coin_map(after).contains_key(k)
                        implies coin_map(after)[k] == coin_map(before).remove(*id)[k]
                    by {
                        let a = choose|a: int| 0 <= a < after.len() && #[trigger] after[a].id == k;
                        let a0 = if a < i { a } else { a + 1 };
                        assert(after[a] == before[a0]);
                        lemma_coin_map_at(after, a);
                        lemma_coin_map_at(before, a0);
                    }
                    assert(coin_map(after) =~= coin_map(before).remove(*id));
                }
                self.0 = coins;
            },
            None => {
                assert(coin_map(before) =~= coin_map(before).remove(*id));
            },
        }
        Ok(())
    }
}

impl ContractStore for FakeCoinStore {}

impl Database for FakeCoinStore {}

} // verus!
