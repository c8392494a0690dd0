//! The adapters that do a workflow's work.

pub mod agents;
pub mod listeners;
pub mod connectors;
pub mod objectives;
