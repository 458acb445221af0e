//! The parts of the Fuel crates that the library hands around: their types,
//! and the calls through which the library reads them.

use vstd::prelude::*;
use fuel_tx::field::Inputs;
use fuel_tx::{ConsensusParameters, FormatValidityChecks, Input, Receipt, Transaction, ValidityError};
use fuel_vm::checked_transaction::CheckedTransaction;
use fuel_vm::interpreter::InterpreterParams;
use fuel_vm::storage::MemoryStorage;
use crate::models::input::InputKind;

verus! {

#[verifier::external_type_specification]
#[verifier::external_body]
pub struct ExTransaction(Transaction);

#[verifier::external_type_specification]
#[verifier::external_body]
pub struct ExInput(Input);

#[verifier::external_type_specification]
#[verifier::external_body]
pub struct ExReceipt(Receipt);

#[verifier::external_type_specification]
#[verifier::external_body]
pub struct ExCheckedTransaction(CheckedTransaction);

#[verifier::external_type_specification]
#[verifier::external_body]
pub struct ExMemoryStorage(MemoryStorage);

#[verifier::external_type_specification]
#[verifier::external_body]
pub struct ExInterpreterParams(InterpreterParams);

#[verifier::external_type_specification]
#[verifier::external_body]
pub struct ExConsensusParameters(ConsensusParameters);

#[verifier::external_type_specification]
#[verifier::external_body]
pub struct ExValidityError(ValidityError);

/// The inputs of a transaction, in order.
pub uninterp spec fn tx_inputs(tx: Transaction) -> Seq<Input>;

/// What the library reads of an input.
pub uninterp spec fn input_kind_of(input: Input) -> InputKind;

/// Whether a transaction passes the stateless validity checks at a block
/// height under the given consensus parameters.
pub uninterp spec fn tx_validity(tx: Transaction, height: u32, params: ConsensusParameters) -> bool;

/// `fuel_tx::field::Inputs::inputs` of the transaction that `tx` holds; a
/// mint transaction has no inputs. The result is named `tx_inputs`: it depends
/// on the transaction alone.
#[verifier::external_body]
pub(crate) fn transaction_inputs(tx: &Transaction) -> (r: &[Input])
    ensures
        r@ == tx_inputs(*tx),
{
    match tx {
        Transaction::Script(t) => t.inputs(),
        Transaction::Create(t) => t.inputs(),
        Transaction::Mint(_) => &[],
        Transaction::Upgrade(t) => t.inputs(),
        Transaction::Upload(t) => t.inputs(),
        Transaction::Blob(t) => t.inputs(),
    }
}

/// Tells the variants of `fuel_tx::Input` apart: coins and contracts with the
/// UTXO they spend (its transaction id and output index), messages without.
/// The result is named `input_kind_of`: it depends on the input alone.
#[verifier::external_body]
pub(crate) fn input_kind(input: &Input) -> (r: InputKind)
    ensures
        r == input_kind_of(*input),
{
    match input {
        Input::CoinSigned(c) => InputKind::Coin { utxo_id: (**c.utxo_id.tx_id(), c.utxo_id.output_index()) },
        Input::CoinPredicate(c) => InputKind::Coin { utxo_id: (**c.utxo_id.tx_id(), c.utxo_id.output_index()) },
        Input::Contract(c) => InputKind::Contract { utxo_id: (**c.utxo_id.tx_id(), c.utxo_id.output_index()) },
        Input::MessageCoinSigned(_) => InputKind::Message,
        Input::MessageCoinPredicate(_) => InputKind::Message,
        Input::MessageDataSigned(_) => InputKind::Message,
        Input::MessageDataPredicate(_) => InputKind::Message,
    }
}

/// `fuel_tx::FormatValidityChecks::check`: the stateless validity checks of a
/// transaction at a block height, signatures included. Whether they pass is
/// named `tx_validity`: the checks are stateless and depend on the
/// transaction, the height and the parameters alone. Which error comes back
/// is not stated.
#[verifier::external_body]
pub(crate) fn check_validity(
    tx: &Transaction,
    height: u32,
    params: &ConsensusParameters,
) -> (r: Result<(), ValidityError>)
    ensures
        r is Ok <==> tx_validity(*tx, height, *params),
{
    tx.check(height.into(), params)
}

} // verus!
