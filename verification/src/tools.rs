//! Tools that reshape data between the steps of a workflow.

pub mod context;
pub mod history;
