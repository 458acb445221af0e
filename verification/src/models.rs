pub mod block;
pub mod coin;
pub mod contract;
pub mod ids;
pub mod input;
