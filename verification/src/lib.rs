//! A verified record of one regtest exchange between a miner and a trader,
//! and the decisions that fill it in while a node is queried.

pub mod address;
pub mod mining;
pub mod node;
pub mod text;
pub mod transaction_data;
pub mod transfer;
pub mod wallet;
