//! Execution of blocks: validity of transactions and of the coins they spend.

use vstd::prelude::*;
use fuel_tx::{ConsensusParameters, Transaction, ValidityError};
use crate::database::{CoinStore, CoinStoreError, Database};
use crate::fuel::{check_validity, tx_validity};
use crate::models::block::{Block, BlockHeight};
use crate::models::coin::{Coin, CoinId, CoinStatus};
use crate::models::input::{input_kinds, tx_input_kinds, InputKind};

verus! {

/// Executes blocks and the transactions they hold.
pub trait BlockExecutor {
    /// Processes one transaction of a block. The stateless checks of fuel-tx
    /// take a 32-bit block height, so the block's height must fit in one.
    fn process_transaction(&self, transaction: Transaction, block: Block) -> (r: Result<(), BlockExecutionError>)
        requires
            block.height <= u32::MAX,
    ;
}

/// Why a block or a transaction in it could not be executed.
#[derive(Debug, Clone, Copy, PartialEq, Eq, Structural)]
pub enum BlockExecutionError {
    /// The transaction failed the stateless validity checks.
    InvalidTransaction,
}

/// Why the inputs of a transaction cannot be spent.
#[derive(Debug, Clone, Copy, PartialEq, Eq, Structural)]
pub enum TransactionValidityError {
    /// A coin input names a coin that the database does not hold.
    CoinDoesNotExist,
    /// A coin input names a coin that was already spent.
    CoinAlreadySpent,
    /// A coin input names a coin that has not yet reached maturity.
    CoinHasNotMatured,
}

/// The types that a block executor works with.
pub trait BlockExecutorConfig {
    type Database: Database + Send + Sync;
}

/// The verdict on one input at a block height, against the coins of the database:
/// `None` when it may be spent.
pub open spec fn input_verdict(
    coins: Map<CoinId, Coin>,
    input: InputKind,
    height: BlockHeight,
) -> Option<TransactionValidityError> {
    match input {
        InputKind::Coin { utxo_id } => {
            if !coins.contains_key(utxo_id) {
                Some(TransactionValidityError::CoinDoesNotExist)
            } else if coins[utxo_id].status == CoinStatus::Spent {
                Some(TransactionValidityError::CoinAlreadySpent)
            } else if height < coins[utxo_id].block_created + coins[utxo_id].maturity {
                Some(TransactionValidityError::CoinHasNotMatured)
            } else {
                None
            }
        },
        _ => None,
    }
}

/// The verdict on a list of inputs: the verdict on the first input that may
/// not be spent, or `Ok` when all may.
pub open spec fn inputs_verdict(
    coins: Map<CoinId, Coin>,
    inputs: Seq<InputKind>,
    height: BlockHeight,
) -> Result<(), TransactionValidityError>
    decreases inputs.len(),
{
    if inputs.len() == 0 {
        Ok(())
    } else {
        match input_verdict(coins, inputs[0], height) {
            Some(e) => Err(e),
            None => inputs_verdict(coins, inputs.drop_first(), height),
        }
    }
}

/// The verdict is `Ok` exactly when every input may be spent.
pub proof fn lemma_inputs_verdict_ok(coins: Map<CoinId, Coin>, inputs: Seq<InputKind>, height: BlockHeight)
    ensures
        inputs_verdict(coins, inputs, height) is Ok
            <==> forall|i: int| 0 <= i < inputs.len() ==> #[trigger] input_verdict(coins, inputs[i], height) is None,
    decreases inputs.len(),
{
    if inputs.len() > 0 {
        lemma_inputs_verdict_ok(coins, inputs.drop_first(), height);
        if inputs_verdict(coins, inputs, height) is Ok {
            assert forall|i: int| 0 <= i < inputs.len() implies #[trigger] input_verdict(coins, inputs[i], height) is None by {
                if i > 0 {
                    assert(inputs[i] == inputs.drop_first()[i - 1]);
                }
            }
        }
        if forall|i: int| 0 <= i < inputs.len() ==> #[trigger] input_verdict(coins, inputs[i], height) is None {
            assert forall|i: int| 0 <= i < inputs.drop_first().len() implies #[trigger] input_verdict(coins, inputs.drop_first()[i], height) is None by {
                assert(inputs.drop_first()[i] == inputs[i + 1]);
            }
            assert(input_verdict(coins, inputs[0], height) is None);
        }
    }
}

/// Contract and message inputs spend no coin: adding one at any position of
/// the inputs, or removing one, leaves the verdict unchanged.
pub proof fn lemma_coinless_input_irrelevant(
    coins: Map<CoinId, Coin>,
    inputs: Seq<InputKind>,
    height: BlockHeight,
    i: int,
    extra: InputKind,
)
    requires
        0 <= i <= inputs.len(),
        !(extra is Coin),
    ensures
        inputs_verdict(coins, inputs.insert(i, extra), height) == inputs_verdict(coins, inputs, height),
    decreases i,
{
    let longer = inputs.insert(i, extra);
    if i == 0 {
        assert(longer[0] == extra);
        assert(longer.drop_first() =~= inputs);
    } else {
        lemma_coinless_input_irrelevant(coins, inputs.drop_first(), height, i - 1, extra);
        assert(longer[0] == inputs[0]);
        assert(longer.drop_first() =~= inputs.drop_first().insert(i - 1, extra));
    }
}

/// A transaction with a coin input that names a coin the database does not
/// hold is refused.
pub proof fn lemma_missing_coin_refused(coins: Map<CoinId, Coin>, inputs: Seq<InputKind>, height: BlockHeight, i: int)
    requires
        0 <= i < inputs.len(),
        inputs[i] matches InputKind::Coin { utxo_id } && !coins.contains_key(utxo_id),
    ensures
        inputs_verdict(coins, inputs, height) is Err,
{
    lemma_inputs_verdict_ok(coins, inputs, height);
    assert(input_verdict(coins, inputs[i], height) is Some);
}

/// A transaction with a coin input that names a spent coin is refused.
pub proof fn lemma_spent_coin_refused(coins: Map<CoinId, Coin>, inputs: Seq<InputKind>, height: BlockHeight, i: int)
    requires
        0 <= i < inputs.len(),
        inputs[i] matches InputKind::Coin { utxo_id } && coins.contains_key(utxo_id)
            && coins[utxo_id].status == CoinStatus::Spent,
    ensures
        inputs_verdict(coins, inputs, height) is Err,
{
    lemma_inputs_verdict_ok(coins, inputs, height);
    assert(input_verdict(coins, inputs[i], height) is Some);
}

/// A transaction with a coin input that names a coin created less than its
/// maturity before the block is refused.
pub proof fn lemma_immature_coin_refused(coins: Map<CoinId, Coin>, inputs: Seq<InputKind>, height: BlockHeight, i: int)
    requires
        0 <= i < inputs.len(),
        inputs[i] matches InputKind::Coin { utxo_id } && coins.contains_key(utxo_id)
            && height < coins[utxo_id].block_created + coins[utxo_id].maturity,
    ensures
        inputs_verdict(coins, inputs, height) is Err,
{
    lemma_inputs_verdict_ok(coins, inputs, height);
    assert(input_verdict(coins, inputs[i], height) is Some);
}

/// When every input before position `i` may be spent, the verdict is the one
/// on the rest of the inputs, starting at position `i`.
proof fn lemma_accepted_prefix(coins: Map<CoinId, Coin>, inputs: Seq<InputKind>, height: BlockHeight, i: int)
    requires
        0 <= i <= inputs.len(),
        forall|j: int| 0 <= j < i ==> #[trigger] input_verdict(coins, inputs[j], height) is None,
    ensures
        inputs_verdict(coins, inputs, height) == inputs_verdict(coins, inputs.skip(i), height),
    decreases i,
{
    if i == 0 {
        assert(inputs.skip(0) =~= inputs);
    } else {
        assert(input_verdict(coins, inputs[0], height) is None);
        assert forall|j: int| 0 <= j < i - 1 implies #[trigger] input_verdict(coins, inputs.drop_first()[j], height) is None by {
            assert(inputs.drop_first()[j] == inputs[j + 1]);
        }
        lemma_accepted_prefix(coins, inputs.drop_first(), height, i - 1);
        assert(inputs.drop_first().skip(i - 1) =~= inputs.skip(i));
    }
}

/// A transaction whose every coin input names a coin of the database that is
/// unspent and whose `block_created + maturity` is at most the block height
/// may be spent, whatever its other inputs.
pub proof fn lemma_mature_coins_accepted(coins: Map<CoinId, Coin>, inputs: Seq<InputKind>, height: BlockHeight)
    requires
        forall|i: int| 0 <= i < inputs.len() && #[trigger] inputs[i] is Coin ==> {
            let u = inputs[i]->Coin_utxo_id;
            &&& coins.contains_key(u)
            &&& coins[u].status == CoinStatus::Unspent
            &&& coins[u].block_created + coins[u].maturity <= height
        },
    ensures
        inputs_verdict(coins, inputs, height) == Ok::<(), TransactionValidityError>(()),
{
    lemma_inputs_verdict_ok(coins, inputs, height);
    assert forall|i: int| 0 <= i < inputs.len() implies #[trigger] input_verdict(coins, inputs[i], height) is None by {
        if inputs[i] is Coin {
            let u = inputs[i]->Coin_utxo_id;
            assert(coins.contains_key(u) && coins[u].status == CoinStatus::Unspent);
        }
    }
    let r = inputs_verdict(coins, inputs, height);
    assert(r is Ok);
    assert(r->Ok_0 == ());
}

/// A transaction whose inputs may be spent at a block height may be spent at
/// every later height too.
pub proof fn lemma_later_height_keeps_acceptance(
    coins: Map<CoinId, Coin>,
    inputs: Seq<InputKind>,
    height: BlockHeight,
    later: BlockHeight,
)
    requires
        height <= later,
        inputs_verdict(coins, inputs, height) is Ok,
    ensures
        inputs_verdict(coins, inputs, later) is Ok,
{
    lemma_inputs_verdict_ok(coins, inputs, height);
    lemma_inputs_verdict_ok(coins, inputs, later);
    assert forall|i: int| 0 <= i < inputs.len() implies #[trigger] input_verdict(coins, inputs[i], later) is None by {
        assert(input_verdict(coins, inputs[i], height) is None);
    }
}

/// The first coin input that may not be spent decides the error: a missing
/// coin, then a spent one, then one that has not matured at the block height.
pub proof fn lemma_first_refused_input_decides(
    coins: Map<CoinId, Coin>,
    inputs: Seq<InputKind>,
    height: BlockHeight,
    i: int,
)
    requires
        0 <= i < inputs.len(),
        forall|j: int| 0 <= j < i && #[trigger] inputs[j] is Coin ==> {
            let u = inputs[j]->Coin_utxo_id;
            &&& coins.contains_key(u)
            &&& coins[u].status == CoinStatus::Unspent
            &&& coins[u].block_created + coins[u].maturity <= height
        },
        inputs[i] is Coin,
    ensures
        ({
            let u = inputs[i]->Coin_utxo_id;
            let r = inputs_verdict(coins, inputs, height);
            &&& !coins.contains_key(u) ==> r == Err::<(), TransactionValidityError>(TransactionValidityError::CoinDoesNotExist)
            &&& coins.contains_key(u) && coins[u].status == CoinStatus::Spent
                ==> r == Err::<(), TransactionValidityError>(TransactionValidityError::CoinAlreadySpent)
            &&& coins.contains_key(u) && coins[u].status == CoinStatus::Unspent
                && height < coins[u].block_created + coins[u].maturity
                ==> r == Err::<(), TransactionValidityError>(TransactionValidityError::CoinHasNotMatured)
        }),
{
    assert forall|j: int| 0 <= j < i implies #[trigger] input_verdict(coins, inputs[j], height) is None by {
        if inputs[j] is Coin {
            let u = inputs[j]->Coin_utxo_id;
            assert(coins.contains_key(u) && coins[u].status == CoinStatus::Unspent);
        }
    }
    lemma_accepted_prefix(coins, inputs, height, i);
    assert(inputs.skip(i)[0] == inputs[i]);
}

/// Maps the outcome of the stateless validity checks to the executor's result.
pub fn validity_outcome(checked: Result<(), ValidityError>) -> (r: Result<(), BlockExecutionError>)
    ensures
        checked is Ok ==> r == Ok::<(), BlockExecutionError>(()),
        checked is Err ==> r == Err::<(), BlockExecutionError>(BlockExecutionError::InvalidTransaction),
{
    match checked {
        Ok(()) => Ok(()),
        Err(_) => Err(BlockExecutionError::InvalidTransaction),
    }
}

/// A block executor over a database.
pub struct BlockExecutorImpl<T: BlockExecutorConfig> {
    database: T::Database,
    consensus_params: ConsensusParameters,
}

impl<T: BlockExecutorConfig> BlockExecutorImpl<T> {
    /// The coins of the executor's database.
    pub closed spec fn coins(&self) -> Map<CoinId, Coin> {
        self.database.coins()
    }

    /// The consensus parameters that transactions are checked against.
    pub closed spec fn params(&self) -> ConsensusParameters {
        self.consensus_params
    }

    /// An executor over a database, checking transactions against the given
    /// consensus parameters.
    pub fn new(database: T::Database, consensus_params: ConsensusParameters) -> (r: Self)
        ensures
            r.coins() == database.coins(),
            r.params() == consensus_params,
    {
        BlockExecutorImpl { database, consensus_params }
    }

    /// The executor's database.
    pub fn database(&self) -> (r: &T::Database)
        ensures
            r.coins() == self.coins(),
    {
        &self.database
    }

    /// Checks, in order, that each coin input names a coin of the database that
    /// is unspent and mature at `height`; stops at the first that is not.
    pub fn check_inputs(&self, inputs: &Vec<InputKind>, height: BlockHeight) -> (r: Result<(), TransactionValidityError>)
        ensures
            r == inputs_verdict(self.coins(), inputs@, height),
    {
        let ghost coins = self.coins();
        assert(inputs@.skip(0) =~= inputs@);
        let mut i: usize = 0;
        while i < inputs.len()
            invariant
                0 <= i <= inputs@.len(),
                coins == self.coins(),
                inputs_verdict(coins, inputs@, height) == inputs_verdict(coins, inputs@.skip(i as int), height),
            decreases inputs@.len() - i,
        {
            let ghost rest = inputs@.skip(i as int);
            assert(rest[0] == inputs@[i as int]);
            assert(rest.drop_first() =~= inputs@.skip(i + 1));
            match &inputs[i] {
                InputKind::Coin { utxo_id } => {
                    let coin = match self.database.get(utxo_id) {
                        Ok(coin) => coin,
                        Err(CoinStoreError::CoinNotFound) => {
                            return Err(TransactionValidityError::CoinDoesNotExist);
                        },
                    };
                    if coin.status == CoinStatus::Spent {
                        return Err(TransactionValidityError::CoinAlreadySpent);
                    }
                    // a sum past the largest height is a maturity no block reaches
                    match coin.block_created.checked_add(coin.maturity) {
                        Some(matured_at) => {
                            if height < matured_at {
                                return Err(TransactionValidityError::CoinHasNotMatured);
                            }
                        },
                        None => {
                            return Err(TransactionValidityError::CoinHasNotMatured);
                        },
                    }
                },
                InputKind::Contract { .. } => {},
                InputKind::Message => {},
            }
            i = i + 1;
        }
        assert(inputs@.skip(i as int) =~= Seq::<InputKind>::empty());
        Ok(())
    }

    /// Checks the coin inputs of a transaction against the database at the
    /// height of the block (see `check_inputs`).
    pub fn verify_input_state(&self, transaction: Transaction, block: Block) -> (r: Result<(), TransactionValidityError>)
        ensures
            r == inputs_verdict(self.coins(), tx_input_kinds(transaction), block.height),
    {
        let inputs = input_kinds(&transaction);
        self.check_inputs(&inputs, block.height)
    }
}

impl<T: BlockExecutorConfig> BlockExecutor for BlockExecutorImpl<T> {
    fn process_transaction(&self, transaction: Transaction, block: Block) -> (r: Result<(), BlockExecutionError>)
        ensures
            r is Ok <==> tx_validity(transaction, block.height as u32, self.params()),
            r is Err ==> r == Err::<(), BlockExecutionError>(BlockExecutionError::InvalidTransaction),
    {
        validity_outcome(check_validity(&transaction, block.height as u32, &self.consensus_params))
    }
}

} // verus!
