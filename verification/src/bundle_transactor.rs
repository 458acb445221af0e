//! Bundled execution of transactions.
//!
//! A bundle runs transactions one after another in the virtual machine. Each
//! executed transaction is either committed to the bundle, with the outputs it
//! spent and created, or rejected, with its changes to storage dropped.

use vstd::prelude::*;
use fuel_tx::{Receipt, Transaction};
use fuel_vm::checked_transaction::CheckedTransaction;
use fuel_vm::interpreter::InterpreterParams;
use fuel_vm::storage::MemoryStorage;
use crate::maps::{PrecheckedInputs, TxOrderMap, UtxoStatusMap};
use crate::models::ids::{TxId, UtxoId};
use crate::models::input::{kinds_of, kinds_spec, InputKind};
use crate::vm::{
    checked_kind, committed_storage, create_id, create_input_list, create_inputs,
    create_output_count, create_outputs_len, create_tx_id, reverted_storage, script_id,
    script_input_list, script_inputs, script_output_count, script_outputs_len, script_tx_id,
    split_checked, vm_committed, vm_deployed, vm_result, vm_reverted, vm_storage, vm_transacted,
    CheckedCreate, CheckedScript, ExecutableTx, Vm,
};

verus! {

/// What became of an output that the bundle has seen.
#[derive(Debug, Clone, Copy, PartialEq, Eq, Structural)]
pub enum UtxoStatus {
    /// Spent by a transaction of the bundle.
    Spend,
    /// Created by a transaction of the bundle, and not spent.
    Unspend,
    /// Taken from the database.
    FromDB,
}

/// Errors of the bundle transactor. No operation of the bundle fails with one
/// at present.
#[derive(Debug, Clone, Copy, PartialEq, Eq, Structural)]
pub enum TransactorError {
    NoneError,
    SomeError,
    HelloError,
}

/// What the bundle reads of a transaction: its id, its inputs and how many
/// outputs it has.
pub struct TxSummary {
    pub id: TxId,
    pub inputs: Vec<InputKind>,
    pub outputs: usize,
}

/// Some input of `inputs` spends the UTXO `k`.
pub open spec fn spends(inputs: Seq<InputKind>, k: UtxoId) -> bool {
    exists|i: int| 0 <= i < inputs.len() && #[trigger] inputs[i].spent_utxo() == Some(k)
}

/// `k` is one of the `outputs` outputs of the transaction `id`.
pub open spec fn creates(id: TxId, outputs: nat, k: UtxoId) -> bool {
    k.0 == id && (k.1 as nat) < outputs
}

/// The mark of a UTXO that an input spends: taken from the database when it
/// was checked before and found there, spent otherwise.
pub open spec fn spent_mark(pre_checked: Map<UtxoId, bool>, k: UtxoId) -> UtxoStatus {
    if pre_checked.contains_key(k) && pre_checked[k] {
        UtxoStatus::FromDB
    } else {
        UtxoStatus::Spend
    }
}

/// The pending outputs once a transaction with the given id, inputs and
/// number of outputs has been taken in: every UTXO that an input spends gets
/// its `spent_mark`, then every output that the transaction creates is marked
/// unspent; the other entries stay.
pub open spec fn with_dependencies(
    pending: Map<UtxoId, UtxoStatus>,
    pre_checked: Map<UtxoId, bool>,
    id: TxId,
    inputs: Seq<InputKind>,
    outputs: nat,
) -> Map<UtxoId, UtxoStatus> {
    Map::new(
        |k: UtxoId| pending.contains_key(k) || spends(inputs, k) || creates(id, outputs, k),
        |k: UtxoId|
            if creates(id, outputs, k) {
                UtxoStatus::Unspend
            } else if spends(inputs, k) {
                spent_mark(pre_checked, k)
            } else {
                pending[k]
            },
    )
}

/// The order map finds every committed transaction, by id, at the last
/// position where it was committed, and holds nothing else.
pub open spec fn order_consistent(ids: Seq<TxId>, order: Map<TxId, usize>) -> bool {
    &&& forall|id: TxId| #[trigger] order.contains_key(id) ==> {
        &&& order[id] < ids.len()
        &&& ids[order[id] as int] == id
        &&& forall|j: int| order[id] < j < ids.len() ==> ids[j] != id
    }
    &&& forall|i: int| 0 <= i < ids.len() ==> #[trigger] order.contains_key(ids[i])
}

/// The bundle once the executed transaction `id`, with its receipts, is
/// committed: it is appended and found by its id at the new last position,
/// the pending outputs join the outputs (a pending entry wins over an older
/// one), nothing is pending or awaits a commit, and the machine's pending
/// changes to storage are committed.
pub open spec fn after_commit(v: BundleView, id: TxId, tx: Transaction, receipts: Vec<Receipt>) -> BundleView {
    BundleView {
        transactions: v.transactions.push((tx, receipts)),
        tx_ids: v.tx_ids.push(id),
        order: v.order.insert(id, v.tx_ids.len() as usize),
        outputs: v.outputs.union_prefer_right(v.pending),
        pending: Map::empty(),
        executed: None,
        machine: vm_committed(v.machine),
    }
}

/// The bundle once a commit finds no executed transaction: the pending
/// outputs and the machine's pending changes to storage are dropped; the rest
/// stays.
pub open spec fn after_reject(v: BundleView) -> BundleView {
    BundleView { pending: Map::empty(), machine: vm_reverted(v.machine), ..v }
}

/// The bundle once the checked transaction `tx` is executed. A script is
/// taken into the pending outputs, by its id, inputs and number of outputs,
/// and run by the machine; when the run succeeded, the executed script and
/// its receipts await their commit under the script's id. A deployment is
/// taken in the same way and deployed by the machine; when that succeeded,
/// the deployed transaction awaits its commit under its id, with no
/// receipts. Another kind is not executed: the machine stays, and nothing
/// awaits a commit. The committed transactions and outputs stay, and so does
/// the committed state of the storage.
pub open spec fn transacted(v: BundleView, w: BundleView, tx: CheckedTransaction, pre_checked: Map<UtxoId, bool>) -> bool {
    &&& w.transactions == v.transactions
    &&& w.tx_ids == v.tx_ids
    &&& w.order == v.order
    &&& w.outputs == v.outputs
    &&& reverted_storage(w.storage()) == reverted_storage(v.storage())
    &&& match checked_kind(tx) {
        ExecutableTx::Script(s) => {
            &&& w.pending == with_dependencies(
                v.pending,
                pre_checked,
                script_tx_id(s),
                kinds_spec(script_input_list(s)),
                script_outputs_len(s) as nat,
            )
            &&& w.machine == vm_transacted(v.machine, s)
            &&& w.executed == match vm_result(w.machine) {
                Some(out) => Some((script_tx_id(s), out.0, out.1)),
                None => None,
            }
        },
        ExecutableTx::Create(c) => {
            &&& w.pending == with_dependencies(
                v.pending,
                pre_checked,
                create_tx_id(c),
                kinds_spec(create_input_list(c)),
                create_outputs_len(c) as nat,
            )
            &&& w.machine == vm_deployed(v.machine, c).0
            &&& match vm_deployed(v.machine, c).1 {
                Some(t) => w.executed matches Some(e) && e.0 == create_tx_id(c) && e.1 == t && e.2@.len() == 0,
                None => w.executed is None,
            }
        },
        ExecutableTx::Unsupported => {
            &&& w.pending == v.pending
            &&& w.machine == v.machine
            &&& w.executed is None
        },
    }
}

/// Taking a transaction into the pending outputs marks each of its `n`
/// outputs unspent; marks the UTXO that each input spends, unless it is one
/// of those outputs, as taken from the database when it was checked before
/// and found there, and as spent otherwise; keeps every other pending entry;
/// and adds nothing else.
pub proof fn lemma_dependencies_entries(
    pending: Map<UtxoId, UtxoStatus>,
    pre_checked: Map<UtxoId, bool>,
    id: TxId,
    inputs: Seq<InputKind>,
    n: nat,
)
    ensures
        ({
            let p = with_dependencies(pending, pre_checked, id, inputs, n);
            &&& forall|j: u16| (j as nat) < n ==>
                #[trigger] p.contains_key((id, j)) && p[(id, j)] == UtxoStatus::Unspend
            &&& forall|i: int| 0 <= i < inputs.len() && (#[trigger] inputs[i]).spent_utxo() is Some
                && !creates(id, n, inputs[i].spent_utxo()->0) ==> {
                let u = inputs[i].spent_utxo()->0;
                &&& p.contains_key(u)
                &&& p[u] == (if pre_checked.contains_key(u) && pre_checked[u] {
                    UtxoStatus::FromDB
                } else {
                    UtxoStatus::Spend
                })
            }
            &&& forall|k: UtxoId| #[trigger] pending.contains_key(k) && !(k.0 == id && (k.1 as nat) < n)
                && (forall|i: int| 0 <= i < inputs.len() ==> inputs[i].spent_utxo() != Some(k))
                ==> p.contains_key(k) && p[k] == pending[k]
            &&& forall|k: UtxoId| #[trigger] p.contains_key(k) ==> pending.contains_key(k)
                || (k.0 == id && (k.1 as nat) < n)
                || exists|i: int| 0 <= i < inputs.len() && inputs[i].spent_utxo() == Some(k)
        }),
{
    let p = with_dependencies(pending, pre_checked, id, inputs, n);
    assert forall|i: int| 0 <= i < inputs.len() && (#[trigger] inputs[i]).spent_utxo() is Some
        && !creates(id, n, inputs[i].spent_utxo()->0) implies {
        let u = inputs[i].spent_utxo()->0;
        &&& p.contains_key(u)
        &&& p[u] == (if pre_checked.contains_key(u) && pre_checked[u] {
            UtxoStatus::FromDB
        } else {
            UtxoStatus::Spend
        })
    } by {
        let u = inputs[i].spent_utxo()->0;
        assert(inputs[i].spent_utxo() == Some(u));
        assert(spends(inputs, u));
    }
    assert forall|k: UtxoId| #[trigger] pending.contains_key(k) && !(k.0 == id && (k.1 as nat) < n)
        && (forall|i: int| 0 <= i < inputs.len() ==> inputs[i].spent_utxo() != Some(k))
        implies p.contains_key(k) && p[k] == pending[k] by {
        if spends(inputs, k) {
            let i = choose|i: int| 0 <= i < inputs.len() && #[trigger] inputs[i].spent_utxo() == Some(k);
            assert(inputs[i].spent_utxo() != Some(k));
        }
    }
}

/// Executing a checked script marks each of its outputs unspent, marks the
/// UTXO that each of its inputs spends, unless it is one of its outputs, as
/// taken from the database when it was checked before and found there and as
/// spent otherwise, keeps every other pending entry, and adds nothing else.
/// The machine runs the script; when the run succeeded, the script awaits its
/// commit under its id with exactly the transaction and receipts of the run.
pub proof fn lemma_transact_script(
    v: BundleView,
    w: BundleView,
    tx: CheckedTransaction,
    pre_checked: Map<UtxoId, bool>,
    s: CheckedScript,
)
    requires
        transacted(v, w, tx, pre_checked),
        checked_kind(tx) == ExecutableTx::Script(s),
    ensures
        ({
            let id = script_tx_id(s);
            let n = script_outputs_len(s) as nat;
            let inputs = kinds_spec(script_input_list(s));
            &&& forall|j: u16| (j as nat) < n ==>
                #[trigger] w.pending.contains_key((id, j)) && w.pending[(id, j)] == UtxoStatus::Unspend
            &&& forall|i: int| 0 <= i < inputs.len() && (#[trigger] inputs[i]).spent_utxo() is Some
                && !creates(id, n, inputs[i].spent_utxo()->0) ==> {
                let u = inputs[i].spent_utxo()->0;
                &&& w.pending.contains_key(u)
                &&& w.pending[u] == (if pre_checked.contains_key(u) && pre_checked[u] {
                    UtxoStatus::FromDB
                } else {
                    UtxoStatus::Spend
                })
            }
            &&& forall|k: UtxoId| #[trigger] v.pending.contains_key(k) && !(k.0 == id && (k.1 as nat) < n)
                && (forall|i: int| 0 <= i < inputs.len() ==> inputs[i].spent_utxo() != Some(k))
                ==> w.pending.contains_key(k) && w.pending[k] == v.pending[k]
            &&& forall|k: UtxoId| #[trigger] w.pending.contains_key(k) ==> v.pending.contains_key(k)
                || (k.0 == id && (k.1 as nat) < n)
                || exists|i: int| 0 <= i < inputs.len() && inputs[i].spent_utxo() == Some(k)
            &&& w.machine == vm_transacted(v.machine, s)
            &&& match vm_result(w.machine) {
                Some(out) => w.executed == Some((id, out.0, out.1)),
                None => w.executed is None,
            }
            &&& w.transactions == v.transactions
            &&& w.outputs == v.outputs
        }),
{
    lemma_dependencies_entries(
        v.pending,
        pre_checked,
        script_tx_id(s),
        kinds_spec(script_input_list(s)),
        script_outputs_len(s) as nat,
    );
}

/// Executing a checked deployment takes it into the pending outputs as a
/// script is taken in. When the machine deployed it, the deployed transaction
/// awaits its commit under its id, with no receipts; otherwise nothing does.
pub proof fn lemma_transact_create(
    v: BundleView,
    w: BundleView,
    tx: CheckedTransaction,
    pre_checked: Map<UtxoId, bool>,
    c: CheckedCreate,
)
    requires
        transacted(v, w, tx, pre_checked),
        checked_kind(tx) == ExecutableTx::Create(c),
    ensures
        ({
            let id = create_tx_id(c);
            let n = create_outputs_len(c) as nat;
            let inputs = kinds_spec(create_input_list(c));
            &&& forall|j: u16| (j as nat) < n ==>
                #[trigger] w.pending.contains_key((id, j)) && w.pending[(id, j)] == UtxoStatus::Unspend
            &&& forall|i: int| 0 <= i < inputs.len() && (#[trigger] inputs[i]).spent_utxo() is Some
                && !creates(id, n, inputs[i].spent_utxo()->0) ==> {
                let u = inputs[i].spent_utxo()->0;
                &&& w.pending.contains_key(u)
                &&& w.pending[u] == (if pre_checked.contains_key(u) && pre_checked[u] {
                    UtxoStatus::FromDB
                } else {
                    UtxoStatus::Spend
                })
            }
            &&& forall|k: UtxoId| #[trigger] v.pending.contains_key(k) && !(k.0 == id && (k.1 as nat) < n)
                && (forall|i: int| 0 <= i < inputs.len() ==> inputs[i].spent_utxo() != Some(k))
                ==> w.pending.contains_key(k) && w.pending[k] == v.pending[k]
            &&& forall|k: UtxoId| #[trigger] w.pending.contains_key(k) ==> v.pending.contains_key(k)
                || (k.0 == id && (k.1 as nat) < n)
                || exists|i: int| 0 <= i < inputs.len() && inputs[i].spent_utxo() == Some(k)
            &&& w.machine == vm_deployed(v.machine, c).0
            &&& match vm_deployed(v.machine, c).1 {
                Some(t) => w.executed matches Some(e) && e.0 == id && e.1 == t && e.2@.len() == 0,
                None => w.executed is None,
            }
            &&& w.transactions == v.transactions
            &&& w.outputs == v.outputs
        }),
{
    lemma_dependencies_entries(
        v.pending,
        pre_checked,
        create_tx_id(c),
        kinds_spec(create_input_list(c)),
        create_outputs_len(c) as nat,
    );
}

/// A transaction of another kind is not executed: nothing changes in the
/// bundle but that nothing awaits a commit.
pub proof fn lemma_transact_unsupported(
    v: BundleView,
    w: BundleView,
    tx: CheckedTransaction,
    pre_checked: Map<UtxoId, bool>,
)
    requires
        transacted(v, w, tx, pre_checked),
        checked_kind(tx) is Unsupported,
    ensures
        w == (BundleView { executed: None, ..v }),
{
}

/// A commit of an executed transaction appends it, with its receipts and its
/// id, after the committed ones, which keep their places; finds it by its id
/// at the new last position and every other transaction where it was; adds
/// the pending outputs to the outputs, a pending entry replacing an older
/// one and every other older entry kept as it was; and leaves nothing
/// pending or awaiting a commit.
pub proof fn lemma_commit_appends(v: BundleView, id: TxId, tx: Transaction, receipts: Vec<Receipt>)
    requires
        v.tx_ids.len() <= usize::MAX,
    ensures
        ({
            let c = after_commit(v, id, tx, receipts);
            &&& c.transactions.len() == v.transactions.len() + 1
            &&& forall|i: int| 0 <= i < v.transactions.len() ==> c.transactions[i] == v.transactions[i]
            &&& c.transactions[v.transactions.len() as int] == (tx, receipts)
            &&& c.tx_ids.len() == v.tx_ids.len() + 1
            &&& forall|i: int| 0 <= i < v.tx_ids.len() ==> c.tx_ids[i] == v.tx_ids[i]
            &&& c.tx_ids[v.tx_ids.len() as int] == id
            &&& c.order.contains_key(id) && c.order[id] == v.tx_ids.len()
            &&& forall|k: TxId| k != id ==> (#[trigger] c.order.contains_key(k) == v.order.contains_key(k))
            &&& forall|k: TxId| k != id && v.order.contains_key(k) ==> #[trigger] c.order[k] == v.order[k]
            &&& forall|k: UtxoId| #[trigger] c.outputs.contains_key(k)
                == (v.outputs.contains_key(k) || v.pending.contains_key(k))
            &&& forall|k: UtxoId| #[trigger] v.pending.contains_key(k) ==> c.outputs[k] == v.pending[k]
            &&& forall|k: UtxoId| v.outputs.contains_key(k) && !v.pending.contains_key(k)
                ==> #[trigger] c.outputs[k] == v.outputs[k]
            &&& c.pending.len() == 0
            &&& c.executed is None
        }),
{
    let c = after_commit(v, id, tx, receipts);
    assert(c.pending =~= Map::<UtxoId, UtxoStatus>::empty());
}

/// A commit with nothing awaiting it keeps the committed transactions, their
/// order and the outputs, and drops the pending outputs.
pub proof fn lemma_reject_keeps_bundle(v: BundleView)
    ensures
        after_reject(v).transactions == v.transactions,
        after_reject(v).tx_ids == v.tx_ids,
        after_reject(v).order == v.order,
        after_reject(v).outputs == v.outputs,
        after_reject(v).pending.len() == 0,
        after_reject(v).executed == v.executed,
{
    assert(after_reject(v).pending =~= Map::<UtxoId, UtxoStatus>::empty());
}

/// A transaction executed on a bundle with no pending change to storage, and
/// whose changes are then dropped, leaves the storage as it was before the
/// transaction: its writes are discarded.
pub proof fn lemma_rejected_writes_discarded(
    v: BundleView,
    w: BundleView,
    tx: CheckedTransaction,
    pre_checked: Map<UtxoId, bool>,
    x: BundleView,
)
    requires
        reverted_storage(v.storage()) == v.storage(),
        transacted(v, w, tx, pre_checked),
        x.storage() == reverted_storage(w.storage()),
    ensures
        x.storage() == v.storage(),
{
}

/// Once a commit has left nothing pending, nothing awaiting a commit and a
/// machine with no pending change to storage, another commit changes nothing.
pub proof fn lemma_repeated_commit(v: BundleView)
    requires
        v.pending == Map::<UtxoId, UtxoStatus>::empty(),
        v.executed is None,
        vm_reverted(v.machine) == v.machine,
    ensures
        after_reject(v) == v,
{
    assert(after_reject(v) =~= v);
}

/// Committing a transaction keeps the order map consistent, and finds the
/// transaction by its id at the last position.
pub proof fn lemma_commit_keeps_order(ids: Seq<TxId>, order: Map<TxId, usize>, id: TxId)
    requires
        order_consistent(ids, order),
        ids.len() <= usize::MAX,
    ensures
        order_consistent(ids.push(id), order.insert(id, ids.len() as usize)),
        order.insert(id, ids.len() as usize)[id] == ids.len(),
{
    let ids2 = ids.push(id);
    let order2 = order.insert(id, ids.len() as usize);
    assert forall|k: TxId| #[trigger] order2.contains_key(k) implies {
        &&& order2[k] < ids2.len()
        &&& ids2[order2[k] as int] == k
        &&& forall|j: int| order2[k] < j < ids2.len() ==> ids2[j] != k
    } by {
        if k != id {
            assert(order.contains_key(k));
        }
    }
    assert forall|i: int| 0 <= i < ids2.len() implies #[trigger] order2.contains_key(ids2[i]) by {
        if i < ids.len() {
            assert(ids2[i] == ids[i]);
            assert(order.contains_key(ids[i]));
        }
    }
}

/// A transaction taken into the pending outputs and then committed leaves its
/// outputs unspent in the bundle's outputs, and the UTXOs that its inputs
/// spend, other than its own outputs, with their spent mark.
pub proof fn lemma_committed_outputs(
    v: BundleView,
    pre_checked: Map<UtxoId, bool>,
    id: TxId,
    inputs: Seq<InputKind>,
    n: nat,
    tx: Transaction,
    receipts: Vec<Receipt>,
    k: UtxoId,
)
    ensures
        creates(id, n, k) ==> after_commit(
            BundleView { pending: with_dependencies(v.pending, pre_checked, id, inputs, n), ..v },
            id,
            tx,
            receipts,
        ).outputs[k] == UtxoStatus::Unspend,
        spends(inputs, k) && !creates(id, n, k) ==> after_commit(
            BundleView { pending: with_dependencies(v.pending, pre_checked, id, inputs, n), ..v },
            id,
            tx,
            receipts,
        ).outputs[k] == spent_mark(pre_checked, k),
{
}

/// The state of a bundle: the committed transactions with their receipts and
/// their ids, in order; the position of each by id; the outputs of the
/// committed transactions; the outputs of the transactions not yet committed;
/// the last executed transaction, with its id and receipts, if it awaits its
/// commit; and the virtual machine, with the storage that it runs against.
pub struct BundleView {
    pub transactions: Seq<(Transaction, Vec<Receipt>)>,
    pub tx_ids: Seq<TxId>,
    pub order: Map<TxId, usize>,
    pub outputs: Map<UtxoId, UtxoStatus>,
    pub pending: Map<UtxoId, UtxoStatus>,
    pub executed: Option<(TxId, Transaction, Vec<Receipt>)>,
    pub machine: Vm,
}

impl BundleView {
    /// The storage that the machine runs against.
    pub open spec fn storage(self) -> MemoryStorage {
        vm_storage(self.machine)
    }
}

/// A transaction that the virtual machine executed and that awaits its commit.
struct Executed {
    id: TxId,
    tx: Transaction,
    receipts: Vec<Receipt>,
}

/// Executes transactions one after another and keeps those it commits.
pub struct BundleTransactor {
    /// Committed transactions with their receipts.
    transactions: Vec<(Transaction, Vec<Receipt>)>,
    /// Ids of the committed transactions.
    transaction_ids: Ghost<Seq<TxId>>,
    /// Position of each committed transaction, by id.
    transaction_order: TxOrderMap,
    /// Outputs spent or created by committed transactions.
    outputs: UtxoStatusMap,
    /// Outputs spent or created by transactions not yet committed.
    pending_outputs: UtxoStatusMap,
    /// The last executed transaction, while it awaits its commit.
    executed: Option<Executed>,
    /// The virtual machine.
    transactor: Vm,
}

impl View for BundleTransactor {
    type V = BundleView;

    closed spec fn view(&self) -> BundleView {
        BundleView {
            transactions: self.transactions@,
            tx_ids: self.transaction_ids@,
            order: self.transaction_order@,
            outputs: self.outputs@,
            pending: self.pending_outputs@,
            executed: match self.executed {
                Some(e) => Some((e.id, e.tx, e.receipts)),
                None => None,
            },
            machine: self.transactor,
        }
    }
}

proof fn lemma_spends_extend(inputs: Seq<InputKind>, i: int, k: UtxoId)
    requires
        0 <= i < inputs.len(),
    ensures
        spends(inputs.take(i + 1), k) == (spends(inputs.take(i), k) || inputs[i].spent_utxo() == Some(k)),
{
    if spends(inputs.take(i + 1), k) {
        let j = choose|j: int| 0 <= j < i + 1 && #[trigger] inputs.take(i + 1)[j].spent_utxo() == Some(k);
        if j < i {
            assert(inputs.take(i)[j] == inputs[j]);
        }
    }
    if spends(inputs.take(i), k) {
        let j = choose|j: int| 0 <= j < i && #[trigger] inputs.take(i)[j].spent_utxo() == Some(k);
        assert(inputs.take(i + 1)[j] == inputs[j]);
    }
    if inputs[i].spent_utxo() == Some(k) {
        assert(inputs.take(i + 1)[i] == inputs[i]);
    }
}

proof fn lemma_take_step(
    start: Map<UtxoId, UtxoStatus>,
    pre: Map<UtxoId, bool>,
    id: TxId,
    inputs: Seq<InputKind>,
    i: int,
)
    requires
        0 <= i < inputs.len(),
    ensures
        with_dependencies(start, pre, id, inputs.take(i + 1), 0) == (match inputs[i].spent_utxo() {
            Some(u) => with_dependencies(start, pre, id, inputs.take(i), 0).insert(u, spent_mark(pre, u)),
            None => with_dependencies(start, pre, id, inputs.take(i), 0),
        }),
{
    assert forall|k: UtxoId| #[trigger] spends(inputs.take(i + 1), k)
        == (spends(inputs.take(i), k) || inputs[i].spent_utxo() == Some(k)) by {
        lemma_spends_extend(inputs, i, k);
    }
    match inputs[i].spent_utxo() {
        Some(u) => {
            assert(with_dependencies(start, pre, id, inputs.take(i + 1), 0)
                =~= with_dependencies(start, pre, id, inputs.take(i), 0).insert(u, spent_mark(pre, u)));
        },
        None => {
            assert(with_dependencies(start, pre, id, inputs.take(i + 1), 0)
                =~= with_dependencies(start, pre, id, inputs.take(i), 0));
        },
    }
}

/// Takes a transaction into the pending outputs (see `with_dependencies`).
fn add_dependencies(pending: &mut UtxoStatusMap, tx: &TxSummary, pre_checked_inputs: &PrecheckedInputs)
    requires
        tx.outputs <= u16::MAX + 1,
    ensures
        final(pending)@ == with_dependencies(old(pending)@, pre_checked_inputs@, tx.id, tx.inputs@, tx.outputs as nat),
{
    let ghost start = pending@;
    let ghost pre = pre_checked_inputs@;
    assert(with_dependencies(start, pre, tx.id, tx.inputs@.take(0), 0) =~= start) by {
        assert forall|k: UtxoId| !spends(tx.inputs@.take(0), k) by {}
    }
    let mut i: usize = 0;
    while i < tx.inputs.len()
        invariant
            0 <= i <= tx.inputs@.len(),
            pre == pre_checked_inputs@,
            pending@ == with_dependencies(start, pre, tx.id, tx.inputs@.take(i as int), 0),
        decreases tx.inputs@.len() - i,
    {
        match tx.inputs[i].utxo_id() {
            Some(utxo_id) => {
                // an input checked before is marked by where it was found
                match pre_checked_inputs.lookup(&utxo_id) {
                    Some(is_db) => {
                        pending.insert_entry(utxo_id, if is_db { UtxoStatus::FromDB } else { UtxoStatus::Spend });
                    },
                    None => {
                        pending.insert_entry(utxo_id, UtxoStatus::Spend);
                    },
                }
                proof { lemma_take_step(start, pre, tx.id, tx.inputs@, i as int); }
            },
            None => {
                proof { lemma_take_step(start, pre, tx.id, tx.inputs@, i as int); }
            },
        }
        i = i + 1;
    }
    assert(tx.inputs@.take(tx.inputs@.len() as int) =~= tx.inputs@);
    let mut j: usize = 0;
    while j < tx.outputs
        invariant
            0 <= j <= tx.outputs <= u16::MAX + 1,
            pending@ == with_dependencies(start, pre, tx.id, tx.inputs@, j as nat),
        decreases tx.outputs - j,
    {
        let index: u16 = j as u16;
        pending.insert_entry((tx.id, index), UtxoStatus::Unspend);
        assert(pending@ =~= with_dependencies(start, pre, tx.id, tx.inputs@, (j + 1) as nat));
        j = j + 1;
    }
}

/// The entries among the first `n` of `entries` hold a value for `k`.
spec fn in_prefix(entries: Seq<(UtxoId, UtxoStatus)>, n: int, k: UtxoId) -> bool {
    exists|j: int| 0 <= j < n && #[trigger] entries[j].0 == k
}

/// Inserts the entries, which are the entries of `src`, into `outputs`.
fn merge_entries(
    outputs: &mut UtxoStatusMap,
    entries: &Vec<(UtxoId, UtxoStatus)>,
    Ghost(src): Ghost<Map<UtxoId, UtxoStatus>>,
)
    requires
        forall|i: int| 0 <= i < entries@.len() ==>
            src.contains_key(#[trigger] entries@[i].0) && src[entries@[i].0] == entries@[i].1,
        forall|k: UtxoId| #[trigger] src.contains_key(k) ==> exists|i: int| 0 <= i < entries@.len() && entries@[i].0 == k,
    ensures
        final(outputs)@ == old(outputs)@.union_prefer_right(src),
{
    let ghost base = outputs@;
    let mut i: usize = 0;
    while i < entries.len()
        invariant
            0 <= i <= entries@.len(),
            forall|i: int| 0 <= i < entries@.len() ==>
                src.contains_key(#[trigger] entries@[i].0) && src[entries@[i].0] == entries@[i].1,
            forall|k: UtxoId| #[trigger] outputs@.contains_key(k) == (base.contains_key(k) || in_prefix(entries@, i as int, k)),
            forall|k: UtxoId| #[trigger] outputs@.contains_key(k) ==>
                outputs@[k] == (if in_prefix(entries@, i as int, k) { src[k] } else { base[k] }),
        decreases entries@.len() - i,
    {
        let (k, v) = entries[i];
        let ghost before = outputs@;
        outputs.insert_entry(k, v);
        assert(outputs@ == before.insert(k, v));
        assert forall|k2: UtxoId| #![auto] in_prefix(entries@, i + 1, k2) == (in_prefix(entries@, i as int, k2) || k2 == k) by {
            if in_prefix(entries@, i + 1, k2) {
                let j = choose|j: int| 0 <= j < i + 1 && #[trigger] entries@[j].0 == k2;
            }
            if k2 == k {
                assert(entries@[i as int].0 == k2);
            }
        }
        assert(entries@[i as int].0 == k && entries@[i as int].1 == v);
        i = i + 1;
    }
    assert forall|k: UtxoId| #![auto] in_prefix(entries@, entries@.len() as int, k) == src.contains_key(k) by {
        if src.contains_key(k) {
            let j = choose|j: int| 0 <= j < entries@.len() && entries@[j].0 == k;
            assert(entries@[j].0 == k);
        }
        if in_prefix(entries@, entries@.len() as int, k) {
            let j = choose|j: int| 0 <= j < entries@.len() && #[trigger] entries@[j].0 == k;
            assert(src.contains_key(entries@[j].0));
        }
    }
    assert(outputs@ =~= base.union_prefer_right(src));
}

/// What the bundle reads of a checked script.
fn summarize_script(tx: &CheckedScript) -> (s: TxSummary)
    ensures
        s.id == script_tx_id(*tx),
        s.inputs@ == kinds_spec(script_input_list(*tx)),
        s.outputs == script_outputs_len(*tx),
        s.outputs <= u16::MAX,
{
    TxSummary { id: script_id(tx), inputs: kinds_of(script_inputs(tx).as_slice()), outputs: script_output_count(tx) }
}

/// What the bundle reads of a checked deployment.
fn summarize_create(tx: &CheckedCreate) -> (s: TxSummary)
    ensures
        s.id == create_tx_id(*tx),
        s.inputs@ == kinds_spec(create_input_list(*tx)),
        s.outputs == create_outputs_len(*tx),
        s.outputs <= u16::MAX,
{
    TxSummary { id: create_id(tx), inputs: kinds_of(create_inputs(tx).as_slice()), outputs: create_output_count(tx) }
}

impl BundleTransactor {
    /// The invariant of a bundle: one id per committed transaction, and an
    /// order map consistent with them.
    pub closed spec fn wf(&self) -> bool {
        &&& self.transactions@.len() == self.transaction_ids@.len()
        &&& order_consistent(self.transaction_ids@, self.transaction_order@)
    }

    /// A bundle holds one id per committed transaction, and its order map
    /// finds each committed transaction, by id, at the last position where it
    /// was committed.
    pub proof fn lemma_order_consistent(&self)
        requires
            self.wf(),
        ensures
            self@.transactions.len() == self@.tx_ids.len(),
            order_consistent(self@.tx_ids, self@.order),
    {
    }

    /// An empty bundle over the given storage.
    pub fn new(storage: MemoryStorage, params: InterpreterParams) -> (b: Self)
        ensures
            b.wf(),
            b@.transactions == Seq::<(Transaction, Vec<Receipt>)>::empty(),
            b@.tx_ids == Seq::<TxId>::empty(),
            b@.order == Map::<TxId, usize>::empty(),
            b@.outputs == Map::<UtxoId, UtxoStatus>::empty(),
            b@.pending == Map::<UtxoId, UtxoStatus>::empty(),
            b@.executed is None,
            b@.storage() == storage,
    {
        let b = BundleTransactor {
            transactions: Vec::new(),
            transaction_ids: Ghost(Seq::empty()),
            transaction_order: TxOrderMap::empty(),
            outputs: UtxoStatusMap::empty(),
            pending_outputs: UtxoStatusMap::empty(),
            executed: None,
            transactor: Vm::new(storage, params),
        };
        b
    }

    /// The storage that the virtual machine runs against.
    pub fn storage(&self) -> (r: &MemoryStorage)
        ensures
            *r == self@.storage(),
    {
        self.transactor.storage()
    }

    /// The storage that the virtual machine runs against, to change.
    pub fn storage_mut(&mut self) -> (r: &mut MemoryStorage)
        ensures
            *r == old(self)@.storage(),
            final(self)@.storage() == *final(r),
            final(self)@.transactions == old(self)@.transactions,
            final(self)@.tx_ids == old(self)@.tx_ids,
            final(self)@.order == old(self)@.order,
            final(self)@.outputs == old(self)@.outputs,
            final(self)@.pending == old(self)@.pending,
            final(self)@.executed == old(self)@.executed,
            final(self).wf() == old(self).wf(),
    {
        self.transactor.storage_mut()
    }

    /// Takes a transaction into the pending outputs: every UTXO that one of its
    /// inputs spends is marked as taken from the database when it was checked
    /// before and found there, and spent otherwise; then every output it
    /// creates is marked unspent.
    pub fn check_dependent_outputs(&mut self, tx: &TxSummary, pre_checked_inputs: &PrecheckedInputs) -> (r: Result<(), TransactorError>)
        requires
            old(self).wf(),
            tx.outputs <= u16::MAX + 1,
        ensures
            final(self).wf(),
            r is Ok,
            final(self)@ == (BundleView {
                pending: with_dependencies(old(self)@.pending, pre_checked_inputs@, tx.id, tx.inputs@, tx.outputs as nat),
                ..old(self)@
            }),
    {
        add_dependencies(&mut self.pending_outputs, tx, pre_checked_inputs);
        Ok(())
    }

    /// See `transact`.
    fn transact_state(&mut self, tx: CheckedTransaction, pre_checked_inputs: &PrecheckedInputs) -> (r: Result<(), TransactorError>)
        requires
            old(self).wf(),
        ensures
            final(self).wf(),
            r is Ok,
            transacted(old(self)@, final(self)@, tx, pre_checked_inputs@),
    {
        match split_checked(tx) {
            ExecutableTx::Script(script) => {
                let summary = summarize_script(&script);
                self.check_dependent_outputs(&summary, pre_checked_inputs)?;
                self.transactor.transact(script);
                self.executed = match self.transactor.result() {
                    Some((executed_tx, receipts)) => Some(Executed { id: summary.id, tx: executed_tx, receipts }),
                    None => None,
                };
                Ok(())
            },
            ExecutableTx::Create(create) => {
                let summary = summarize_create(&create);
                self.check_dependent_outputs(&summary, pre_checked_inputs)?;
                self.executed = match self.transactor.deploy(create) {
                    Some(deployed) => Some(Executed { id: summary.id, tx: deployed, receipts: Vec::new() }),
                    None => None,
                };
                Ok(())
            },
            ExecutableTx::Unsupported => {
                self.executed = None;
                Ok(())
            },
        }
    }

    /// See `commit`.
    fn commit_state(&mut self)
        requires
            old(self).wf(),
        ensures
            final(self).wf(),
            match old(self)@.executed {
                Some(e) => final(self)@ == after_commit(old(self)@, e.0, e.1, e.2),
                None => final(self)@ == after_reject(old(self)@),
            },
            old(self)@.executed is Some ==> final(self)@.storage() == committed_storage(old(self)@.storage()),
            old(self)@.executed is None ==> final(self)@.storage() == reverted_storage(old(self)@.storage()),
            reverted_storage(final(self)@.storage()) == final(self)@.storage(),
            vm_reverted(final(self)@.machine) == final(self)@.machine,
    {
        let executed = self.executed.take();
        match executed {
            Some(e) => {
                let ghost pending = self.pending_outputs@;
                let ghost ids = self.transaction_ids@;
                let entries = self.pending_outputs.drain_entries();
                merge_entries(&mut self.outputs, &entries, Ghost(pending));
                let index = self.transactions.len();
                self.transactions.push((e.tx, e.receipts));
                self.transaction_order.insert_entry(e.id, index);
                self.transaction_ids = Ghost(ids.push(e.id));
                proof { lemma_commit_keeps_order(ids, old(self).transaction_order@, e.id); }
                self.transactor.commit_storage();
            },
            None => {
                self.pending_outputs = UtxoStatusMap::empty();
                self.transactor.revert_storage();
            },
        }
    }

    /// Executes a transaction: takes it into the pending outputs, then runs a
    /// script or deploys a contract in the virtual machine. The transaction
    /// awaits its commit when the machine accepted it. Other kinds of
    /// transactions are not executed.
    pub fn transact(&mut self, tx: CheckedTransaction, pre_checked_inputs: &PrecheckedInputs) -> (r: Result<&mut Self, TransactorError>)
        requires
            old(self).wf(),
        ensures
            r matches Ok(b) && {
                &&& b.wf()
                &&& transacted(old(self)@, b@, tx, pre_checked_inputs@)
                &&& *final(self) == *final(b)
            },
    {
        match self.transact_state(tx, pre_checked_inputs) {
            Ok(()) => Ok(self),
            Err(e) => Err(e),
        }
    }

    /// Commits the executed transaction: the pending outputs join the bundle's
    /// outputs, the transaction and its receipts are appended, and its changes
    /// to storage are committed. With no executed transaction awaiting its
    /// commit, the pending outputs and the pending changes to storage are
    /// dropped.
    pub fn commit(&mut self) -> (r: &mut Self)
        requires
            old(self).wf(),
        ensures
            r.wf(),
            match old(self)@.executed {
                Some(e) => r@ == after_commit(old(self)@, e.0, e.1, e.2),
                None => r@ == after_reject(old(self)@),
            },
            old(self)@.executed is Some ==> r@.storage() == committed_storage(old(self)@.storage()),
            old(self)@.executed is None ==> r@.storage() == reverted_storage(old(self)@.storage()),
            reverted_storage(r@.storage()) == r@.storage(),
            vm_reverted(r@.machine) == r@.machine,
            *final(self) == *final(r),
    {
        self.commit_state();
        self
    }

    /// The committed transactions with their receipts, in order.
    pub fn transactions(&self) -> (r: &[(Transaction, Vec<Receipt>)])
        ensures
            r@ == self@.transactions,
    {
        self.transactions.as_slice()
    }

    /// The outputs spent or created by committed transactions.
    pub fn outputs(&self) -> (r: &UtxoStatusMap)
        ensures
            r@ == self@.outputs,
    {
        &self.outputs
    }

    /// The position of the committed transaction with the given id, if the
    /// bundle holds one: the last position where it was committed.
    pub fn transaction_position(&self, id: &TxId) -> (r: Option<usize>)
        requires
            self.wf(),
        ensures
            r == (if self@.order.contains_key(*id) { Some(self@.order[*id]) } else { None }),
            r matches Some(i) ==> i < self@.tx_ids.len() && self@.tx_ids[i as int] == *id,
            r is None ==> forall|i: int| 0 <= i < self@.tx_ids.len() ==> self@.tx_ids[i] != *id,
    {
        self.transaction_order.lookup(id)
    }

    /// The id of the last executed transaction, while it awaits its commit.
    pub fn executed_id(&self) -> (r: Option<TxId>)
        ensures
            r == (match self@.executed {
                Some(e) => Some(e.0),
                None => None,
            }),
    {
        match &self.executed {
            Some(e) => Some(e.id),
            None => None,
        }
    }

    /// Ends the bundle: hands out the committed transactions with their
    /// receipts, and the outputs they spent and created, and clears them from
    /// the bundle.
    pub fn finalize(&mut self) -> (r: (Vec<(Transaction, Vec<Receipt>)>, UtxoStatusMap))
        requires
            old(self).wf(),
        ensures
            final(self).wf(),
            r.0@ == old(self)@.transactions,
            r.1@ == old(self)@.outputs,
            final(self)@ == (BundleView {
                transactions: Seq::empty(),
                tx_ids: Seq::empty(),
                order: Map::empty(),
                outputs: Map::empty(),
                ..old(self)@
            }),
    {
        let mut transactions: Vec<(Transaction, Vec<Receipt>)> = Vec::new();
        std::mem::swap(&mut transactions, &mut self.transactions);
        let mut outputs = UtxoStatusMap::empty();
        std::mem::swap(&mut outputs, &mut self.outputs);
        self.transaction_order = TxOrderMap::empty();
        self.transaction_ids = Ghost(Seq::empty());
        (transactions, outputs)
    }
}

} // verus!
