# fuel_core

Block execution and transaction bundling for a Fuel node, written in Verus.

- `src/models`: blocks, coins, contracts, UTXO ids, and what the library reads
  of transaction inputs.
- `src/database`: the coin store interface and an in-memory store.
- `src/block_executor.rs`: validity of transactions and of the coins they spend.
- `src/bundle_transactor.rs`: runs transactions one after another in the Fuel
  virtual machine, and keeps the outputs they spend and create.
- `src/maps.rs`, `src/vm.rs`, `src/fuel.rs`: the trusted calls into hashbrown,
  fuel-vm and fuel-tx.
- `app/main.rs`: a relayer that watches an Ethereum node for new blocks.
