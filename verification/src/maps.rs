//! The hash maps of the bundle transactor.
//!
//! Each map is a `hashbrown::HashMap` held in a private field of a struct of
//! this module; its entries are named, and its methods are the calls into
//! hashbrown.

use vstd::prelude::*;
use hashbrown::HashMap;
use crate::bundle_transactor::UtxoStatus;
use crate::models::ids::{TxId, UtxoId};

verus! {

/// Statuses of outputs, by the UTXO id of the output.
#[verifier::external_body]
pub struct UtxoStatusMap {
    map: HashMap<UtxoId, UtxoStatus>,
}

/// The entries of a status map.
pub uninterp spec fn utxo_statuses(m: UtxoStatusMap) -> Map<UtxoId, UtxoStatus>;

impl View for UtxoStatusMap {
    type V = Map<UtxoId, UtxoStatus>;

    open spec fn view(&self) -> Map<UtxoId, UtxoStatus> {
        utxo_statuses(*self)
    }
}

impl UtxoStatusMap {
    /// `hashbrown::HashMap::new`: a map with no entries.
    #[verifier::external_body]
    pub(crate) fn empty() -> (m: Self)
        ensures
            utxo_statuses(m) == (Map::<UtxoId, UtxoStatus>::empty()),
    {
        UtxoStatusMap { map: HashMap::new() }
    }

    /// `hashbrown::HashMap::insert`: the entry for `k` becomes `v`, the others stay.
    #[verifier::external_body]
    pub(crate) fn insert_entry(&mut self, k: UtxoId, v: UtxoStatus)
        ensures
            utxo_statuses(*final(self)) == utxo_statuses(*old(self)).insert(k, v),
    {
        self.map.insert(k, v);
    }

    /// `hashbrown::HashMap::get`: the value of the entry for `k`, if there is one.
    #[verifier::external_body]
    pub(crate) fn lookup(&self, k: &UtxoId) -> (r: Option<UtxoStatus>)
        ensures
            r == (if utxo_statuses(*self).contains_key(*k) { Some(utxo_statuses(*self)[*k]) } else { None }),
    {
        self.map.get(k).copied()
    }

    /// `hashbrown::HashMap::drain`, collected: the map is left empty and the
    /// result holds, in some order, each entry that it had.
    #[verifier::external_body]
    pub(crate) fn drain_entries(&mut self) -> (r: Vec<(UtxoId, UtxoStatus)>)
        ensures
            utxo_statuses(*final(self)) == (Map::<UtxoId, UtxoStatus>::empty()),
            forall|i: int| 0 <= i < r@.len() ==>
                utxo_statuses(*old(self)).contains_key(#[trigger] r@[i].0) && utxo_statuses(*old(self))[r@[i].0] == r@[i].1,
            forall|k: UtxoId| #[trigger] utxo_statuses(*old(self)).contains_key(k) ==>
                exists|i: int| 0 <= i < r@.len() && r@[i].0 == k,
    {
        self.map.drain().collect()
    }

    /// The status of the output with the given id, if the map holds one.
    pub fn status(&self, id: &UtxoId) -> (r: Option<UtxoStatus>)
        ensures
            r == (if self@.contains_key(*id) { Some(self@[*id]) } else { None }),
    {
        self.lookup(id)
    }
}

/// For the UTXOs that were checked before a transaction comes to the bundle:
/// whether each was found in the database.
#[verifier::external_body]
pub struct PrecheckedInputs {
    map: HashMap<UtxoId, bool>,
}

/// The entries of a map of checked inputs.
pub uninterp spec fn prechecked_entries(m: PrecheckedInputs) -> Map<UtxoId, bool>;

impl View for PrecheckedInputs {
    type V = Map<UtxoId, bool>;

    open spec fn view(&self) -> Map<UtxoId, bool> {
        prechecked_entries(*self)
    }
}

impl PrecheckedInputs {
    /// `hashbrown::HashMap::new`: a map with no entries.
    #[verifier::external_body]
    fn empty() -> (m: Self)
        ensures
            prechecked_entries(m) == (Map::<UtxoId, bool>::empty()),
    {
        PrecheckedInputs { map: HashMap::new() }
    }

    /// `hashbrown::HashMap::insert`: the entry for `k` becomes `v`, the others stay.
    #[verifier::external_body]
    fn insert_entry(&mut self, k: UtxoId, v: bool)
        ensures
            prechecked_entries(*final(self)) == prechecked_entries(*old(self)).insert(k, v),
    {
        self.map.insert(k, v);
    }

    /// `hashbrown::HashMap::get`: the value of the entry for `k`, if there is one.
    #[verifier::external_body]
    pub(crate) fn lookup(&self, k: &UtxoId) -> (r: Option<bool>)
        ensures
            r == (if prechecked_entries(*self).contains_key(*k) { Some(prechecked_entries(*self)[*k]) } else { None }),
    {
        self.map.get(k).copied()
    }

    /// No input checked.
    pub fn new() -> (m: Self)
        ensures
            m@ == (Map::<UtxoId, bool>::empty()),
    {
        Self::empty()
    }

    /// Records that the UTXO `id` was checked, and whether it came from the database.
    pub fn insert(&mut self, id: UtxoId, from_db: bool)
        ensures
            final(self)@ == old(self)@.insert(id, from_db),
    {
        self.insert_entry(id, from_db)
    }
}

/// The position of each committed transaction in the bundle, by transaction id.
#[verifier::external_body]
pub struct TxOrderMap {
    map: HashMap<TxId, usize>,
}

/// The entries of an order map.
pub uninterp spec fn tx_positions(m: TxOrderMap) -> Map<TxId, usize>;

impl View for TxOrderMap {
    type V = Map<TxId, usize>;

    open spec fn view(&self) -> Map<TxId, usize> {
        tx_positions(*self)
    }
}

impl TxOrderMap {
    /// `hashbrown::HashMap::new`: a map with no entries.
    #[verifier::external_body]
    pub(crate) fn empty() -> (m: Self)
        ensures
            tx_positions(m) == (Map::<TxId, usize>::empty()),
    {
        TxOrderMap { map: HashMap::new() }
    }

    /// `hashbrown::HashMap::insert`: the entry for `k` becomes `v`, the others stay.
    #[verifier::external_body]
    pub(crate) fn insert_entry(&mut self, k: TxId, v: usize)
        ensures
            tx_positions(*final(self)) == tx_positions(*old(self)).insert(k, v),
    {
        self.map.insert(k, v);
    }

    /// `hashbrown::HashMap::get`: the value of the entry for `k`, if there is one.
    #[verifier::external_body]
    pub(crate) fn lookup(&self, k: &TxId) -> (r: Option<usize>)
        ensures
            r == (if tx_positions(*self).contains_key(*k) { Some(tx_positions(*self)[*k]) } else { None }),
    {
        self.map.get(k).copied()
    }
}

} // verus!
