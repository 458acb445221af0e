//! The Fuel virtual machine, as the bundle transactor drives it.
//!
//! Checked scripts and deployments, and the transactor that runs them, are
//! held in private fields of structs of this module; the functions here are
//! the calls into fuel-vm. A run of the machine is a function of the machine
//! and the transaction, and each call's outcome is named after what it
//! computes. A run writes only the pending state of the storage: what it
//! leaves once reverted is what was there before.

use vstd::prelude::*;
use fuel_tx::field::{Inputs, Outputs};
use fuel_tx::{Create, Input, Receipt, Script, Transaction};
use fuel_vm::checked_transaction::{Checked, CheckedTransaction};
use fuel_vm::interpreter::{InterpreterParams, MemoryInstance};
use fuel_vm::storage::MemoryStorage;
use fuel_vm::transactor::Transactor;
use crate::models::ids::TxId;

verus! {

/// A checked script transaction.
#[verifier::external_body]
pub struct CheckedScript(Checked<Script>);

/// A checked transaction that deploys a contract.
#[verifier::external_body]
pub struct CheckedCreate(Checked<Create>);

/// A checked transaction, by the way the bundle executes it.
pub enum ExecutableTx {
    /// Run by the virtual machine.
    Script(CheckedScript),
    /// Deployed by the virtual machine.
    Create(CheckedCreate),
    /// A kind that the bundle does not execute (mint, upgrade, upload, blob).
    Unsupported,
}

/// A checked transaction, by kind.
pub uninterp spec fn checked_kind(tx: CheckedTransaction) -> ExecutableTx;

/// The id of a checked script.
pub uninterp spec fn script_tx_id(tx: CheckedScript) -> TxId;

/// The inputs of a checked script, in order.
pub uninterp spec fn script_input_list(tx: CheckedScript) -> Seq<Input>;

/// The number of outputs of a checked script.
pub uninterp spec fn script_outputs_len(tx: CheckedScript) -> usize;

/// The id of a checked deployment.
pub uninterp spec fn create_tx_id(tx: CheckedCreate) -> TxId;

/// The inputs of a checked deployment, in order.
pub uninterp spec fn create_input_list(tx: CheckedCreate) -> Seq<Input>;

/// The number of outputs of a checked deployment.
pub uninterp spec fn create_outputs_len(tx: CheckedCreate) -> usize;

/// The storage that a machine runs against.
pub uninterp spec fn vm_storage(vm: Vm) -> MemoryStorage;

/// The machine once it has run a checked script.
pub uninterp spec fn vm_transacted(vm: Vm, tx: CheckedScript) -> Vm;

/// The outcome of the last run of a machine: on success, the executed script
/// and its receipts.
pub uninterp spec fn vm_result(vm: Vm) -> Option<(Transaction, Vec<Receipt>)>;

/// The machine once it has deployed a checked deployment, and on success the
/// deployed transaction.
pub uninterp spec fn vm_deployed(vm: Vm, tx: CheckedCreate) -> (Vm, Option<Transaction>);

/// The machine once its storage's pending changes are committed.
pub uninterp spec fn vm_committed(vm: Vm) -> Vm;

/// The machine once its storage's pending changes are dropped.
pub uninterp spec fn vm_reverted(vm: Vm) -> Vm;

/// The storage once `MemoryStorage::commit` has run on it.
pub uninterp spec fn committed_storage(s: MemoryStorage) -> MemoryStorage;

/// The storage once `MemoryStorage::revert` has run on it.
pub uninterp spec fn reverted_storage(s: MemoryStorage) -> MemoryStorage;

/// Tells the variants of `fuel_vm::checked_transaction::CheckedTransaction`
/// apart; the result is named `checked_kind`.
#[verifier::external_body]
pub(crate) fn split_checked(tx: CheckedTransaction) -> (r: ExecutableTx)
    ensures
        r == checked_kind(tx),
{
    match tx {
        CheckedTransaction::Script(t) => ExecutableTx::Script(CheckedScript(t)),
        CheckedTransaction::Create(t) => ExecutableTx::Create(CheckedCreate(t)),
        CheckedTransaction::Mint(_) => ExecutableTx::Unsupported,
        CheckedTransaction::Upgrade(_) => ExecutableTx::Unsupported,
        CheckedTransaction::Upload(_) => ExecutableTx::Unsupported,
        CheckedTransaction::Blob(_) => ExecutableTx::Unsupported,
    }
}

/// `Checked::id`: the id computed when the script was checked, named
/// `script_tx_id`.
#[verifier::external_body]
pub(crate) fn script_id(tx: &CheckedScript) -> (r: TxId)
    ensures
        r == script_tx_id(*tx),
{
    tx.0.id().into()
}

/// `fuel_tx::field::Inputs::inputs` of the checked script, named
/// `script_input_list`.
#[verifier::external_body]
pub(crate) fn script_inputs(tx: &CheckedScript) -> (r: &Vec<Input>)
    ensures
        r@ == script_input_list(*tx),
{
    tx.0.transaction().inputs()
}

/// The number of outputs (`fuel_tx::field::Outputs::outputs`) of the checked
/// script. The checks that made it refuse more outputs than the consensus
/// parameters allow, and that limit is a `u16`.
#[verifier::external_body]
pub(crate) fn script_output_count(tx: &CheckedScript) -> (r: usize)
    ensures
        r == script_outputs_len(*tx),
        r <= u16::MAX,
{
    tx.0.transaction().outputs().len()
}

/// `Checked::id`: the id computed when the deployment was checked, named
/// `create_tx_id`.
#[verifier::external_body]
pub(crate) fn create_id(tx: &CheckedCreate) -> (r: TxId)
    ensures
        r == create_tx_id(*tx),
{
    tx.0.id().into()
}

/// `fuel_tx::field::Inputs::inputs` of the checked deployment, named
/// `create_input_list`.
#[verifier::external_body]
pub(crate) fn create_inputs(tx: &CheckedCreate) -> (r: &Vec<Input>)
    ensures
        r@ == create_input_list(*tx),
{
    tx.0.transaction().inputs()
}

/// The number of outputs (`fuel_tx::field::Outputs::outputs`) of the checked
/// deployment. The checks that made it refuse more outputs than the consensus
/// parameters allow, and that limit is a `u16`.
#[verifier::external_body]
pub(crate) fn create_output_count(tx: &CheckedCreate) -> (r: usize)
    ensures
        r == create_outputs_len(*tx),
        r <= u16::MAX,
{
    tx.0.transaction().outputs().len()
}

/// The virtual machine, `fuel_vm::transactor::Transactor`, running scripts
/// against an in-memory storage.
#[verifier::external_body]
pub struct Vm(Transactor<MemoryInstance, MemoryStorage, Script>);

impl Vm {
    /// `Transactor::new`, with fresh VM memory: the machine runs against the
    /// given storage. What else the machine holds is not stated.
    #[verifier::external_body]
    pub(crate) fn new(storage: MemoryStorage, params: InterpreterParams) -> (r: Vm)
        ensures
            vm_storage(r) == storage,
    {
        Vm(Transactor::new(MemoryInstance::new(), storage, params))
    }

    /// `Transactor::transact`: runs the script (named `vm_transacted`). Its
    /// writes go to the pending state of the storage only, so reverting the
    /// storage gives the same as before the run.
    #[verifier::external_body]
    pub(crate) fn transact(&mut self, tx: CheckedScript)
        ensures
            *final(self) == vm_transacted(*old(self), tx),
            reverted_storage(vm_storage(*final(self))) == reverted_storage(vm_storage(*old(self))),
    {
        self.0.transact(tx.0);
    }

    /// `Transactor::result`: on success, the executed script and its receipts
    /// (named `vm_result`).
    #[verifier::external_body]
    pub(crate) fn result(&self) -> (r: Option<(Transaction, Vec<Receipt>)>)
        ensures
            r == vm_result(*self),
    {
        self.0.result().ok().map(|t| (Transaction::Script(t.tx().clone()), t.receipts().to_vec()))
    }

    /// `Transactor::deploy`: on success, the deployed transaction (machine and
    /// outcome named `vm_deployed`). Its writes go to the pending state of the
    /// storage only, so reverting the storage gives the same as before.
    #[verifier::external_body]
    pub(crate) fn deploy(&mut self, tx: CheckedCreate) -> (r: Option<Transaction>)
        ensures
            (*final(self), r) == vm_deployed(*old(self), tx),
            reverted_storage(vm_storage(*final(self))) == reverted_storage(vm_storage(*old(self))),
    {
        self.0.deploy(tx.0).ok().map(Transaction::Create)
    }

    /// `MemoryStorage::commit` on the machine's storage: the pending changes
    /// become committed. Afterwards the pending and committed states are the
    /// same, so a revert would change nothing.
    #[verifier::external_body]
    pub(crate) fn commit_storage(&mut self)
        ensures
            *final(self) == vm_committed(*old(self)),
            vm_storage(*final(self)) == committed_storage(vm_storage(*old(self))),
            reverted_storage(vm_storage(*final(self))) == vm_storage(*final(self)),
            vm_reverted(*final(self)) == *final(self),
    {
        self.0.as_mut().commit()
    }

    /// `MemoryStorage::revert` on the machine's storage: the pending changes
    /// are dropped. Afterwards the pending and committed states are the same,
    /// so another revert would change nothing.
    #[verifier::external_body]
    pub(crate) fn revert_storage(&mut self)
        ensures
            *final(self) == vm_reverted(*old(self)),
            vm_storage(*final(self)) == reverted_storage(vm_storage(*old(self))),
            reverted_storage(vm_storage(*final(self))) == vm_storage(*final(self)),
            vm_reverted(*final(self)) == *final(self),
    {
        self.0.as_mut().revert()
    }

    /// The storage of the transactor (`AsRef<MemoryStorage>`).
    #[verifier::external_body]
    pub(crate) fn storage(&self) -> (r: &MemoryStorage)
        ensures
            *r == vm_storage(*self),
    {
        self.0.as_ref()
    }

    /// The storage of the transactor (`AsMut<MemoryStorage>`); the machine
    /// runs against what is left in it.
    #[verifier::external_body]
    pub(crate) fn storage_mut(&mut self) -> (r: &mut MemoryStorage)
        ensures
            *r == vm_storage(*old(self)),
            vm_storage(*final(self)) == *final(r),
    {
        self.0.as_mut()
    }
}

} // verus!
