//! A workflow engine for on-chain and off-chain agents: adapters (conditions,
//! listeners, evaluations, FHE gates, connectors, agents) are registered in a
//! `Nibble`, wired into workflows of nodes and links, and executed step by step.
//! The decisions of the engine live here, with their contracts; the network,
//! chain and clock work is performed by the caller, which feeds the outcomes back.

pub mod text;
pub mod ethereum;
pub mod function_ref;
pub mod assoc;
pub mod json;
pub mod string_map;
pub mod ipfs;
pub mod execution;
pub mod tools;
pub mod adapters;
pub mod workflow;
pub mod nibble;
pub mod batch;
pub mod stored;
pub mod utils;
pub mod encrypt;
pub mod copies;
