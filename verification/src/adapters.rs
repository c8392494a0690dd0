//! The adapters a workflow is built from: links (conditions, evaluations,
//! FHE gates, listeners) decide whether and where a run goes on; nodes
//! (agents, connectors, listeners) do the work.

pub mod links;
pub mod nodes;
