use vstd::prelude::*;
use fuel_tx::{Input, Transaction};
use crate::fuel::{input_kind, input_kind_of, transaction_inputs, tx_inputs};
use crate::models::ids::UtxoId;

verus! {

/// What the library reads of a transaction input: the UTXO that a coin or
/// contract input spends; messages spend no UTXO.
#[derive(Debug, Clone, Copy, PartialEq, Eq)]
pub enum InputKind {
    Coin { utxo_id: UtxoId },
    Contract { utxo_id: UtxoId },
    Message,
}

impl InputKind {
    /// The UTXO that the input spends, if it spends one.
    pub open spec fn spent_utxo(self) -> Option<UtxoId> {
        match self {
            InputKind::Coin { utxo_id } => Some(utxo_id),
            InputKind::Contract { utxo_id } => Some(utxo_id),
            InputKind::Message => None,
        }
    }

    /// The UTXO that the input spends, if it spends one.
    pub fn utxo_id(&self) -> (r: Option<UtxoId>)
        ensures
            r == self.spent_utxo(),
    {
        match self {
            InputKind::Coin { utxo_id } => Some(*utxo_id),
            InputKind::Contract { utxo_id } => Some(*utxo_id),
            InputKind::Message => None,
        }
    }
}

/// What the library reads of each input of a sequence, in order.
pub open spec fn kinds_spec(inputs: Seq<Input>) -> Seq<InputKind> {
    inputs.map_values(|i: Input| input_kind_of(i))
}

/// What the library reads of the inputs of a transaction, in order.
pub open spec fn tx_input_kinds(tx: Transaction) -> Seq<InputKind> {
    kinds_spec(tx_inputs(tx))
}

/// What the library reads of each input, in order.
pub fn kinds_of(inputs: &[Input]) -> (r: Vec<InputKind>)
    ensures
        r@ == kinds_spec(inputs@),
{
    let mut r: Vec<InputKind> = Vec::new();
    let mut i: usize = 0;
    while i < inputs.len()
        invariant
            0 <= i <= inputs@.len(),
            r@.len() == i,
            forall|j: int| 0 <= j < i ==> r@[j] == input_kind_of(#[trigger] inputs@[j]),
        decreases inputs@.len() - i,
    {
        r.push(input_kind(&inputs[i]));
        i = i + 1;
    }
    assert(r@ =~= kinds_spec(inputs@));
    r
}

/// The inputs of a transaction, in order, as the library reads them.
pub fn input_kinds(tx: &Transaction) -> (r: Vec<InputKind>)
    ensures
        r@ == tx_input_kinds(*tx),
{
    kinds_of(transaction_inputs(tx))
}

} // verus!
