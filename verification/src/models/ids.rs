use vstd::prelude::*;

verus! {

broadcast use vstd::array::group_array_axioms;

/// A 32-byte digest: transaction ids, coin owners, asset colors, roots.
pub type Bytes32 = [u8; 32];

/// The id of a transaction.
pub type TxId = Bytes32;

/// The id of a UTXO: the transaction that created it and the index of the
/// output in that transaction.
pub type UtxoId = (TxId, u16);

/// Compares two digests byte by byte.
pub fn bytes32_eq(a: &Bytes32, b: &Bytes32) -> (r: bool)
    ensures
        r == (*a == *b),
{
    let mut i: usize = 0;
    while i < 32
        invariant
            0 <= i <= 32,
            forall|j: int| 0 <= j < i ==> a[j] == b[j],
        decreases 32 - i,
    {
        if a[i] != b[i] {
            return false;
        }
        i = i + 1;
    }
    assert(*a =~= *b);
    true
}

/// Compares two UTXO ids.
pub fn utxo_id_eq(a: &UtxoId, b: &UtxoId) -> (r: bool)
    ensures
        r == (*a == *b),
{
    bytes32_eq(&a.0, &b.0) && a.1 == b.1
}

} // verus!
