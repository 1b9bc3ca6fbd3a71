//! The prover of a blockchain node: the pool of unconfirmed transactions,
//! the rules by which requests change it, and the decisions of the mining
//! scheduler, each with a machine-checked contract.

pub mod memory_pool;
pub mod prover;
pub mod status;
pub mod transaction;
pub mod workers;
