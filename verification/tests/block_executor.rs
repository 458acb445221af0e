use fuel_core::block_executor::{
    BlockExecutionError, BlockExecutor, BlockExecutorConfig, BlockExecutorImpl,
    TransactionValidityError,
};
use fuel_core::database::fakes::FakeCoinStore;
use fuel_core::database::{CoinStore, CoinStoreError};
use fuel_core::models::block::Block;
use fuel_core::models::coin::{Coin, CoinStatus};
use fuel_core::models::input::InputKind;
use fuel_tx::{ConsensusParameters, Input, Transaction, TransactionBuilder, TxPointer, UtxoId};
use fuel_types::{Address, AssetId, Bytes32, ContractId};
use fuel_vm::fuel_crypto::SecretKey;
use rand::rngs::StdRng;
use rand::SeedableRng;

struct TestConfig;

impl BlockExecutorConfig for TestConfig {
    type Database = FakeCoinStore;
}

fn coin(tx: u8, index: u16, status: CoinStatus, block_created: u64, maturity: u64) -> Coin {
    Coin {
        id: ([tx; 32], index),
        owner: [7u8; 32],
        amount: 100,
        color: [0u8; 32],
        maturity,
        status,
        block_created,
    }
}

fn block(height: u64) -> Block {
    Block { id: [9u8; 32], height, transactions: vec![] }
}

fn executor(coins: Vec<Coin>) -> BlockExecutorImpl<TestConfig> {
    let mut store = FakeCoinStore::new();
    for c in coins {
        store.store(c).unwrap();
    }
    BlockExecutorImpl::new(store, ConsensusParameters::standard())
}

/// A script with one signed coin input spending the UTXO (`[tx; 32]`, `index`).
fn spending_tx(tx: u8, index: u16) -> Transaction {
    let mut rng = StdRng::seed_from_u64(2322);
    let mut builder = TransactionBuilder::script(vec![], vec![]);
    builder.add_unsigned_coin_input(
        SecretKey::random(&mut rng),
        UtxoId::new(Bytes32::from([tx; 32]), index),
        100,
        AssetId::default(),
        TxPointer::default(),
    );
    builder.finalize_as_transaction()
}

/// A script with a contract input only.
fn contract_tx() -> Transaction {
    let mut builder = TransactionBuilder::script(vec![], vec![]);
    builder.add_input(Input::contract(
        UtxoId::new(Bytes32::from([3u8; 32]), 0),
        Bytes32::zeroed(),
        Bytes32::zeroed(),
        TxPointer::default(),
        ContractId::zeroed(),
    ));
    builder.finalize_as_transaction()
}

#[test]
fn cannot_spend_non_existent_coins() {
    let executor = executor(vec![coin(2, 0, CoinStatus::Unspent, 0, 0)]);
    assert_eq!(
        executor.verify_input_state(spending_tx(1, 0), block(10)),
        Err(TransactionValidityError::CoinDoesNotExist)
    );
    assert_eq!(
        executor.verify_input_state(spending_tx(2, 1), block(10)),
        Err(TransactionValidityError::CoinDoesNotExist)
    );
}

#[test]
fn cannot_spend_coins_already_spent() {
    let executor = executor(vec![coin(1, 0, CoinStatus::Spent, 0, 0)]);
    assert_eq!(
        executor.verify_input_state(spending_tx(1, 0), block(10)),
        Err(TransactionValidityError::CoinAlreadySpent)
    );
}

#[test]
fn cannot_spend_immature_coins() {
    let executor = executor(vec![coin(1, 0, CoinStatus::Unspent, 5, 10)]);
    assert_eq!(
        executor.verify_input_state(spending_tx(1, 0), block(14)),
        Err(TransactionValidityError::CoinHasNotMatured)
    );
    assert_eq!(executor.verify_input_state(spending_tx(1, 0), block(15)), Ok(()));
}

#[test]
fn spends_unspent_mature_coins() {
    let executor = executor(vec![coin(1, 0, CoinStatus::Unspent, 0, 0)]);
    assert_eq!(executor.verify_input_state(spending_tx(1, 0), block(0)), Ok(()));
}

#[test]
fn contract_inputs_need_no_coin() {
    let executor = executor(vec![]);
    assert_eq!(executor.verify_input_state(contract_tx(), block(1)), Ok(()));
}

#[test]
fn maturity_sum_does_not_overflow() {
    let executor = executor(vec![coin(1, 0, CoinStatus::Unspent, u64::MAX, u64::MAX)]);
    assert_eq!(
        executor.verify_input_state(spending_tx(1, 0), block(u64::MAX)),
        Err(TransactionValidityError::CoinHasNotMatured)
    );
}

#[test]
fn heights_past_32_bits_are_compared_in_full() {
    let executor = executor(vec![coin(1, 0, CoinStatus::Unspent, 5_000_000_000, 10)]);
    assert_eq!(
        executor.verify_input_state(spending_tx(1, 0), block(5_000_000_009)),
        Err(TransactionValidityError::CoinHasNotMatured)
    );
    assert_eq!(executor.verify_input_state(spending_tx(1, 0), block(5_000_000_010)), Ok(()));
}

#[test]
fn first_refused_input_decides() {
    let executor = executor(vec![
        coin(1, 0, CoinStatus::Spent, 0, 0),
        coin(2, 0, CoinStatus::Unspent, 0, 100),
    ]);
    let inputs = vec![
        InputKind::Message,
        InputKind::Contract { utxo_id: ([5u8; 32], 0) },
        InputKind::Coin { utxo_id: ([2u8; 32], 0) },
        InputKind::Coin { utxo_id: ([1u8; 32], 0) },
    ];
    assert_eq!(
        executor.check_inputs(&inputs, 50),
        Err(TransactionValidityError::CoinHasNotMatured)
    );
    assert_eq!(
        executor.check_inputs(&inputs[2..].iter().rev().copied().collect::<Vec<_>>(), 50),
        Err(TransactionValidityError::CoinAlreadySpent)
    );
    assert_eq!(executor.check_inputs(&vec![], 0), Ok(()));
}

#[test]
fn unsigned_transactions_are_invalid() {
    let executor = executor(vec![]);
    let mut builder = TransactionBuilder::script(vec![], vec![]);
    builder.add_input(Input::coin_signed(
        UtxoId::new(Bytes32::from([1u8; 32]), 0),
        Address::zeroed(),
        100,
        AssetId::default(),
        TxPointer::default(),
        0,
    ));
    let tx = builder.finalize_as_transaction();
    assert_eq!(
        executor.process_transaction(tx, block(1)),
        Err(BlockExecutionError::InvalidTransaction)
    );
}

#[test]
fn signed_transactions_are_valid() {
    let executor = executor(vec![]);
    assert_eq!(executor.process_transaction(spending_tx(1, 0), block(1)), Ok(()));
}

#[test]
fn fake_store_reads_back_what_it_stores() {
    let mut store = FakeCoinStore::new();
    let c = coin(1, 0, CoinStatus::Unspent, 3, 4);
    assert_eq!(store.get(&c.id).err(), Some(CoinStoreError::CoinNotFound));
    assert!(store.store(c).is_ok());
    let got = store.get(&c.id).unwrap();
    assert_eq!((got.id, got.block_created, got.maturity, got.status), (c.id, 3, 4, CoinStatus::Unspent));
    let spent = coin(1, 0, CoinStatus::Spent, 3, 4);
    assert!(store.store(spent).is_ok());
    assert_eq!(store.get(&c.id).unwrap().status, CoinStatus::Spent);
    let other = coin(1, 1, CoinStatus::Unspent, 0, 0);
    assert!(store.store(other).is_ok());
    assert!(store.remove(&c.id).is_ok());
    assert_eq!(store.get(&c.id).err(), Some(CoinStoreError::CoinNotFound));
    assert_eq!(store.get(&other.id).unwrap().id, ([1u8; 32], 1));
    assert!(store.remove(&c.id).is_ok());
}
