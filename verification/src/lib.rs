//! Block execution and transaction bundling for a Fuel node.

pub mod block_executor;
pub mod bundle_transactor;
pub mod database;
pub mod fuel;
pub mod maps;
pub mod models;
pub mod vm;
