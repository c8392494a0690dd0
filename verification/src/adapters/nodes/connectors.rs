//! Connectors to the outside: contracts on chain and services off chain.

pub mod on_chain;
pub mod off_chain;
