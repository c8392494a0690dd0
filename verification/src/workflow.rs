//! Workflows: nodes that do work and links that decide how a run goes on,
//! executed in an order where every link comes after the element it hangs from.

pub mod order;
pub mod run;
pub mod node_step;
pub mod link_step;
pub mod compose;


use vstd::prelude::*;
use crate::execution::ExecutionHistory;
use crate::json::JsonValue;
use crate::tools::context::ContextParse;
use crate::tools::history::HistoryParse;

verus! {

/// What a node runs: a connector, an agent, or a whole workflow of its own.
pub enum NodeAdapter {
    OffChainConnector,
    OnChainConnector,
    Agent,
    SubFlow { subflow: Box<Workflow>, blocking: bool, repetitions: Option<u32>, count_successes: bool },
}

/// What a link checks before the run goes on.
#[derive(PartialEq, Eq, Structural, Clone, Copy, Debug)]
pub enum LinkAdapter {
    Condition,
    FHEGate,
    Listener,
    Evaluation,
}

/// Where a deciding link sends the run: one node when the answer is yes, one
/// when it is no, and optionally one that an evaluation may pick otherwise.
pub struct LinkTarget {
    pub true_target_id: Vec<u8>,
    pub false_target_id: Vec<u8>,
    pub generated_target_id: Option<Vec<u8>>,
}

pub struct WorkflowNode {
    pub id: Vec<u8>,
    pub adapter_id: Vec<u8>,
    pub adapter_type: NodeAdapter,
    pub context: Option<JsonValue>,
    pub repetitions: Option<u32>,
    pub description: Option<String>,
    pub context_tool: Option<ContextParse>,
    pub history_tool: Option<HistoryParse>,
}

/// A link hangs from the element whose id is its `adapter_id` and runs after it.
pub struct WorkflowLink {
    pub id: Vec<u8>,
    pub adapter_id: Vec<u8>,
    pub adapter_type: LinkAdapter,
    pub repetitions: Option<u32>,
    pub context: Option<JsonValue>,
    pub target: Option<LinkTarget>,
    pub description: Option<String>,
    pub context_tool: Option<ContextParse>,
    pub history_tool: Option<HistoryParse>,
}

pub struct Workflow {
    pub id: Vec<u8>,
    pub name: String,
    pub nodes: Vec<WorkflowNode>,
    pub links: Vec<WorkflowLink>,
    pub encrypted: bool,
    pub execution_history: Vec<ExecutionHistory>,
}

/// The ids of the nodes, in order.
pub open spec fn node_ids(nodes: Seq<WorkflowNode>) -> Seq<Seq<u8>> {
    Seq::new(nodes.len(), |i: int| nodes[i].id@)
}

/// Each link as (its id, the id of the element it hangs from), in order.
pub open spec fn link_edges(links: Seq<WorkflowLink>) -> Seq<(Seq<u8>, Seq<u8>)> {
    Seq::new(links.len(), |j: int| (links[j].id@, links[j].adapter_id@))
}

/// The contents of a list of byte strings.
pub open spec fn byte_seqs(v: Seq<Vec<u8>>) -> Seq<Seq<u8>> {
    Seq::new(v.len(), |k: int| v[k]@)
}

impl Workflow {
    pub open spec fn node_id_seq(&self) -> Seq<Seq<u8>> {
        node_ids(self.nodes@)
    }

    pub open spec fn link_edge_seq(&self) -> Seq<(Seq<u8>, Seq<u8>)> {
        link_edges(self.links@)
    }
}

} // verus!
