//! Verified logic of an NFT-gated token staking pool: the byte layout of the
//! reward-rate ledger, the reward and fee arithmetic, and the state changes and
//! token transfers of each instruction of the pool.

pub mod types;
pub mod digest;
pub mod ledger;
pub mod reward;
pub mod transfer;
pub mod staking;
pub mod admin;
pub mod properties;
pub mod outcomes;
