//! The adapters that decide how a run goes on.

pub mod conditions;
pub mod condition_check;
pub mod listeners;
pub mod evaluations;
pub mod fhe_gates;
