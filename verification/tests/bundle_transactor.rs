use fuel_asm::{op, Instruction, RegId};
use fuel_core::bundle_transactor::{BundleTransactor, TxSummary, UtxoStatus};
use fuel_core::maps::PrecheckedInputs;
use fuel_core::models::input::InputKind;
use fuel_tx::field::Script as ScriptField;
use fuel_tx::{
    ConsensusParameters, Contract, Finalizable, Input, Output, Script, StorageSlot,
    TransactionBuilder, Witness,
};
use fuel_types::bytes::padded_len;
use fuel_types::{BlockHeight, ContractId, Immediate12, Immediate18, Salt, Word};
use fuel_vm::checked_transaction::{CheckedTransaction, IntoChecked};
use fuel_vm::fuel_crypto::Hasher;
use fuel_vm::interpreter::InterpreterParams;
use fuel_vm::prelude::CallFrame;
use fuel_vm::storage::{InterpreterStorage, MemoryStorage};
use rand::rngs::StdRng;
use rand::{Rng, SeedableRng};

const WORD_SIZE: usize = core::mem::size_of::<Word>();
const SET_STATUS_REG: u8 = 0x39;

fn params() -> ConsensusParameters {
    ConsensusParameters::standard()
}

fn height() -> BlockHeight {
    BlockHeight::from(1u32)
}

fn bundler() -> BundleTransactor {
    BundleTransactor::new(MemoryStorage::default(), InterpreterParams::new(0, &params()))
}

/// A contract with two routines: add a word to a state slot, or xor limbs into it.
fn contract() -> (Contract, Witness) {
    let function_selector: Vec<Instruction> = vec![
        op::move_(0x30, RegId::ZERO),
        op::move_(0x31, RegId::ONE),
    ];

    let call_arguments_parser: Vec<Instruction> = vec![
        op::addi(0x10, RegId::FP, CallFrame::a_offset() as Immediate12),
        op::lw(0x10, 0x10, 0),
        op::addi(0x11, RegId::FP, CallFrame::b_offset() as Immediate12),
        op::lw(0x11, 0x11, 0),
    ];

    let routine_add_word_to_state: Vec<Instruction> = vec![
        op::jnei(0x10, 0x30, 13),
        op::lw(0x20, 0x11, 4),
        op::srw(0x21, SET_STATUS_REG, 0x11),
        op::add(0x20, 0x20, 0x21),
        op::sww(0x11, SET_STATUS_REG, 0x20),
        op::log(0x20, 0x21, 0x00, 0x00),
        op::ret(RegId::ONE),
    ];

    let routine_unpack_and_xor_limbs_into_state: Vec<Instruction> = vec![
        op::jnei(0x10, 0x31, 45),
        op::movi(0x20, 32),
        op::aloc(0x20),
        op::move_(0x20, RegId::HP),
        op::srwq(0x20, SET_STATUS_REG, 0x11, RegId::ONE),
        op::lw(0x21, 0x11, 4),
        op::log(0x21, 0x00, 0x00, 0x00),
        op::srli(0x22, 0x21, 48),
        op::srli(0x23, 0x21, 32),
        op::andi(0x23, 0x23, 0xff),
        op::srli(0x24, 0x21, 16),
        op::andi(0x24, 0x24, 0xff),
        op::andi(0x25, 0x21, 0xff),
        op::log(0x22, 0x23, 0x24, 0x25),
        op::lw(0x26, 0x20, 0),
        op::xor(0x26, 0x26, 0x22),
        op::log(0x26, 0x00, 0x00, 0x00),
        op::sw(0x20, 0x26, 0),
        op::lw(0x26, 0x20, 1),
        op::xor(0x26, 0x26, 0x22),
        op::log(0x26, 0x00, 0x00, 0x00),
        op::sw(0x20, 0x26, 1),
        op::lw(0x26, 0x20, 2),
        op::xor(0x26, 0x26, 0x22),
        op::log(0x26, 0x00, 0x00, 0x00),
        op::sw(0x20, 0x26, 2),
        op::lw(0x26, 0x20, 3),
        op::xor(0x26, 0x26, 0x22),
        op::log(0x26, 0x00, 0x00, 0x00),
        op::sw(0x20, 0x26, 3),
        op::swwq(0x11, SET_STATUS_REG, 0x20, RegId::ONE),
        op::ret(RegId::ONE),
    ];

    let invalid_call: Vec<Instruction> = vec![
        op::ret(RegId::ZERO),
    ];

    let program: Witness = function_selector
        .into_iter()
        .chain(call_arguments_parser)
        .chain(routine_add_word_to_state)
        .chain(routine_unpack_and_xor_limbs_into_state)
        .chain(invalid_call)
        .collect::<Vec<u8>>()
        .into();

    (Contract::from(program.as_ref()), program)
}

fn contract_id(salt: Salt) -> ContractId {
    let (contract, _) = contract();
    let contract_root = contract.root();
    let state_root = Contract::initial_state_root(core::iter::empty::<&StorageSlot>());
    contract.id(&salt, &contract_root, &state_root)
}

/// Deploys the contract.
fn tx1(salt: Salt) -> CheckedTransaction {
    let (_, program) = contract();
    TransactionBuilder::create(program, salt, vec![])
        .maturity(Default::default())
        .add_fee_input()
        .add_contract_created()
        .finalize()
        .into_checked(height(), &params())
        .expect("checked deployment")
        .into()
}

/// Calls the contract: adds 150 to the state slot of "some key".
fn tx2(rng: &mut StdRng, salt: Salt) -> CheckedTransaction {
    let gas_limit = 1_000_000;
    let contract = contract_id(salt);

    let script_len = 12;
    let script_data_offset = params().tx_params().tx_offset()
        + <Script as ScriptField>::script_offset_static()
        + padded_len(&vec![0u8; script_len]).unwrap();

    let script: Vec<u8> = vec![
        op::movi(0x10, script_data_offset as Immediate18),
        op::call(0x10, RegId::ZERO, RegId::ZERO, RegId::CGAS),
        op::ret(RegId::ONE),
    ]
    .into_iter()
    .collect();
    assert_eq!(script.len(), script_len);

    let mut script_data = vec![];
    let routine: Word = 0;
    let call_data_offset = (script_data_offset + ContractId::LEN + 2 * WORD_SIZE) as Word;
    let key = Hasher::hash(b"some key");
    let val: Word = 150;
    script_data.extend(contract.as_ref());
    script_data.extend(routine.to_be_bytes());
    script_data.extend(call_data_offset.to_be_bytes());
    script_data.extend(key.as_ref());
    script_data.extend(val.to_be_bytes());

    TransactionBuilder::script(script, script_data)
        .script_gas_limit(gas_limit)
        .add_input(Input::contract(rng.gen(), rng.gen(), rng.gen(), rng.gen(), contract))
        .add_fee_input()
        .add_output(Output::contract(0, rng.gen(), rng.gen()))
        .finalize()
        .into_checked(height(), &params())
        .expect("checked script")
        .into()
}

#[test]
fn initial_test() {
    let bundler = bundler();
    assert_eq!(bundler.transactions().len(), 0);
    assert_eq!(bundler.executed_id(), None);
}

#[test]
fn simple_execution() {
    let rng = &mut StdRng::seed_from_u64(2322u64);
    let salt: Salt = rng.gen();

    let tx1 = tx1(salt);
    let tx2 = tx2(rng, salt);

    let mut bundler = bundler();
    let pco = PrecheckedInputs::new();

    assert!(bundler
        .transact(tx1, &pco)
        .ok()
        .unwrap()
        .executed_id()
        .is_some());
    bundler.commit();

    println!("STATE:{:?}", bundler.storage().all_contract_state().collect::<Vec<_>>());

    assert!(bundler
        .transact(tx2, &pco)
        .ok()
        .unwrap()
        .executed_id()
        .is_some());
    bundler.commit();

    println!("STATE2:{:?}", bundler.storage().all_contract_state().collect::<Vec<_>>());

    assert_eq!(bundler.transactions().len(), 2);
    let key = Hasher::hash(b"some key");
    let state = bundler.storage().contract_state(&contract_id(salt), &key);
    assert_eq!(&state.as_ref().as_ref()[..WORD_SIZE], &150u64.to_be_bytes()[..]);
}

#[test]
fn committed_transactions_are_found_by_id() {
    let rng = &mut StdRng::seed_from_u64(7);
    let salt: Salt = rng.gen();
    let mut bundler = bundler();
    let pco = PrecheckedInputs::new();

    assert!(bundler.transact(tx1(salt), &pco).is_ok());
    let id1 = bundler.executed_id().unwrap();
    bundler.commit();
    assert_eq!(bundler.executed_id(), None);

    assert!(bundler.transact(tx2(rng, salt), &pco).is_ok());
    let id2 = bundler.executed_id().unwrap();
    bundler.commit();

    assert_ne!(id1, id2);
    assert_eq!(bundler.transaction_position(&id1), Some(0));
    assert_eq!(bundler.transaction_position(&id2), Some(1));
    assert_eq!(bundler.transaction_position(&[0u8; 32]), None);

    // the outputs of the committed deployment are unspent, its fee input spent
    assert_eq!(bundler.outputs().status(&(id1, 0)), Some(UtxoStatus::Unspend));
}

#[test]
fn rejected_deployment_leaves_the_bundle() {
    let rng = &mut StdRng::seed_from_u64(11);
    let salt: Salt = rng.gen();
    let mut bundler = bundler();
    let pco = PrecheckedInputs::new();

    assert!(bundler.transact(tx1(salt), &pco).is_ok());
    bundler.commit();
    assert_eq!(bundler.transactions().len(), 1);

    // the same contract cannot be deployed twice
    assert!(bundler.transact(tx1(salt), &pco).is_ok());
    assert_eq!(bundler.executed_id(), None);
    bundler.commit();
    assert_eq!(bundler.transactions().len(), 1);
}

#[test]
fn rejected_writes_are_discarded() {
    let rng = &mut StdRng::seed_from_u64(13);
    let salt: Salt = rng.gen();
    let mut bundler = bundler();
    let pco = PrecheckedInputs::new();

    assert!(bundler.transact(tx1(salt), &pco).is_ok());
    bundler.commit();
    let committed = bundler.storage().all_contract_state().count();

    // a write that is still pending
    let key = Hasher::hash(b"pending key");
    bundler
        .storage_mut()
        .contract_state_insert(&contract_id(salt), &key, &[7u8; 32])
        .unwrap();
    assert_eq!(bundler.storage().all_contract_state().count(), committed + 1);

    // nothing awaits a commit, so the commit drops the write
    bundler.commit();
    assert_eq!(bundler.storage().all_contract_state().count(), committed);
    assert_eq!(bundler.transactions().len(), 1);

    // a second commit changes nothing
    bundler.commit();
    assert_eq!(bundler.storage().all_contract_state().count(), committed);
    assert_eq!(bundler.transactions().len(), 1);
}

#[test]
fn commit_without_execution_changes_nothing() {
    let mut bundler = bundler();
    bundler.commit();
    bundler.finalize();
    assert_eq!(bundler.transactions().len(), 0);
    assert_eq!(bundler.executed_id(), None);
}

#[test]
fn dependent_outputs_are_marked() {
    let mut bundler = bundler();
    let mut pco = PrecheckedInputs::new();
    pco.insert(([1u8; 32], 0), true);
    pco.insert(([2u8; 32], 0), false);
    let summary = TxSummary {
        id: [9u8; 32],
        inputs: vec![
            InputKind::Coin { utxo_id: ([1u8; 32], 0) },
            InputKind::Coin { utxo_id: ([2u8; 32], 0) },
            InputKind::Contract { utxo_id: ([3u8; 32], 1) },
            InputKind::Message,
        ],
        outputs: 2,
    };
    assert!(bundler.check_dependent_outputs(&summary, &pco).is_ok());

    // the outputs join the bundle once a deployment commits
    let rng = &mut StdRng::seed_from_u64(5);
    let salt: Salt = rng.gen();
    assert!(bundler.transact(tx1(salt), &pco).is_ok());
    bundler.commit();
    let outputs = bundler.outputs();
    // an input checked against the database is marked as taken from it
    assert_eq!(outputs.status(&([1u8; 32], 0)), Some(UtxoStatus::FromDB));
    assert_eq!(outputs.status(&([2u8; 32], 0)), Some(UtxoStatus::Spend));
    assert_eq!(outputs.status(&([3u8; 32], 1)), Some(UtxoStatus::Spend));
    assert_eq!(outputs.status(&([9u8; 32], 0)), Some(UtxoStatus::Unspend));
    assert_eq!(outputs.status(&([9u8; 32], 1)), Some(UtxoStatus::Unspend));
    assert_eq!(outputs.status(&([9u8; 32], 2)), None);
}

#[test]
fn outputs_of_a_transaction_win_over_its_inputs() {
    let mut bundler = bundler();
    let pco = PrecheckedInputs::new();
    let summary = TxSummary {
        id: [4u8; 32],
        inputs: vec![InputKind::Coin { utxo_id: ([4u8; 32], 0) }],
        outputs: 1,
    };
    assert!(bundler.check_dependent_outputs(&summary, &pco).is_ok());
    let rng = &mut StdRng::seed_from_u64(6);
    let salt: Salt = rng.gen();
    assert!(bundler.transact(tx1(salt), &pco).is_ok());
    bundler.commit();
    assert_eq!(bundler.outputs().status(&([4u8; 32], 0)), Some(UtxoStatus::Unspend));
}

#[test]
fn rejected_commit_drops_pending_outputs() {
    let mut bundler = bundler();
    let pco = PrecheckedInputs::new();
    let summary = TxSummary {
        id: [8u8; 32],
        inputs: vec![InputKind::Coin { utxo_id: ([6u8; 32], 2) }],
        outputs: 1,
    };
    assert!(bundler.check_dependent_outputs(&summary, &pco).is_ok());
    // nothing was executed: the pending outputs are dropped
    bundler.commit();
    let rng = &mut StdRng::seed_from_u64(12);
    let salt: Salt = rng.gen();
    assert!(bundler.transact(tx1(salt), &pco).is_ok());
    let id = bundler.executed_id().unwrap();
    bundler.commit().commit();
    assert_eq!(bundler.outputs().status(&([6u8; 32], 2)), None);
    assert_eq!(bundler.outputs().status(&([8u8; 32], 0)), None);
    assert_eq!(bundler.outputs().status(&(id, 0)), Some(UtxoStatus::Unspend));
    assert_eq!(bundler.transactions().len(), 1);
}

#[test]
fn finalize_hands_out_the_bundle() {
    let rng = &mut StdRng::seed_from_u64(13);
    let salt: Salt = rng.gen();
    let mut bundler = bundler();
    let pco = PrecheckedInputs::new();
    assert!(bundler.transact(tx1(salt), &pco).is_ok());
    let id = bundler.executed_id().unwrap();
    bundler.commit();
    let (transactions, outputs) = bundler.finalize();
    assert_eq!(transactions.len(), 1);
    assert!(transactions[0].0.is_create());
    assert_eq!(outputs.status(&(id, 0)), Some(UtxoStatus::Unspend));
    assert_eq!(bundler.transactions().len(), 0);
    assert_eq!(bundler.outputs().status(&(id, 0)), None);
    assert_eq!(bundler.transaction_position(&id), None);
}
