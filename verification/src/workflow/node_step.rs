//! Running a node: what to run before the outside work, and what to record
//! and pass on after it.

use vstd::prelude::*;
use vstd::utf8::encode_utf8;
use crate::ethereum::{wallet_key_accepted, wallet_key_valid};
use crate::execution::{history_view, ExecutionHistory, HistoryView, Timestamp};
use crate::json::{clone_opt, clone_values, opt_data, values_data, JsonData, JsonValue};
use crate::nibble::{adapter_name, contains_id, Adapter, Registry};
use crate::text::{bytes_eq, owned};
use crate::workflow::run::{entry, run_step_kept, same_but_history};
use crate::workflow::{byte_seqs, NodeAdapter, Workflow, WorkflowNode};

verus! {

broadcast use {crate::workflow::run::lemma_appended_history_starts_alike, crate::workflow::run::lemma_pushed_history_starts_alike};

/// The wallet an on-chain call is signed with.
pub enum WalletChoice {
    Owner,
    Agent(Vec<u8>),
    Custom(String),
}

pub ghost enum WalletPick {
    Owner,
    Agent(Seq<u8>),
    Custom(Seq<char>),
}

impl WalletChoice {
    pub open spec fn pick(self) -> WalletPick {
        match self {
            WalletChoice::Owner => WalletPick::Owner,
            WalletChoice::Agent(id) => WalletPick::Agent(id@),
            WalletChoice::Custom(s) => WalletPick::Custom(s@),
        }
    }
}

/// The outside work a node asks for, if any.
pub enum NodePlan {
    /// Nothing to run: the step is over and yields nothing.
    Stop,
    RunAgent { input: String },
    RunOnChain { wallet: WalletChoice, method_name: Option<String>, params: Option<Vec<JsonValue>> },
    RunOffChain { context: Option<JsonValue> },
    RunSubflow { blocking: bool, repetitions: Option<u32>, count_successes: bool },
}

pub ghost enum NodeTask {
    Stop,
    Agent(Seq<char>),
    OnChain(WalletPick, Option<Seq<char>>, Option<Seq<JsonData>>),
    OffChain(Option<JsonData>),
    Subflow(bool, Option<u32>, bool),
}

impl NodePlan {
    pub open spec fn task(self) -> NodeTask {
        match self {
            NodePlan::Stop => NodeTask::Stop,
            NodePlan::RunAgent { input } => NodeTask::Agent(input@),
            NodePlan::RunOnChain { wallet, method_name, params } => NodeTask::OnChain(
                wallet.pick(),
                match method_name {
                    Some(m) => Some(m@),
                    None => None,
                },
                match params {
                    Some(p) => Some(values_data(p@)),
                    None => None,
                },
            ),
            NodePlan::RunOffChain { context } => NodeTask::OffChain(opt_data(context)),
            NodePlan::RunSubflow { blocking, repetitions, count_successes } => NodeTask::Subflow(
                blocking,
                repetitions,
                count_successes,
            ),
        }
    }
}

/// Looking for an agent node with the given adapter id, front to back: whether
/// one is found whose agent the nibble holds, and the ids of the nodes passed
/// over on the way (nodes of another kind or another agent). An agent node
/// whose agent the nibble lacks is passed over without being counted.
pub open spec fn agent_wallet_scan(
    nodes: Seq<WorkflowNode>,
    i: int,
    agent_id: Seq<u8>,
    agents: Seq<Seq<u8>>,
) -> (bool, Seq<Seq<u8>>)
    decreases nodes.len() - i,
{
    if i < 0 || i >= nodes.len() {
        (false, Seq::empty())
    } else {
        let nd = nodes[i];
        if nd.adapter_type is Agent && nd.adapter_id@ == agent_id {
            if agents.contains(agent_id) {
                (true, Seq::empty())
            } else {
                agent_wallet_scan(nodes, i + 1, agent_id, agents)
            }
        } else {
            let rest = agent_wallet_scan(nodes, i + 1, agent_id, agents);
            (rest.0, seq![nd.id@] + rest.1)
        }
    }
}

/// The wallet an on-chain node's context asks for, and the nodes passed over
/// while looking for an agent's: `agent_wallet` names an agent by id (its
/// wallet when a node runs that agent), `custom_wallet` holds a key; the
/// owner's wallet otherwise.
pub open spec fn wallet_pick(ctx: JsonData, nodes: Seq<WorkflowNode>, agents: Seq<Seq<u8>>) -> (WalletPick, Seq<Seq<u8>>) {
    match ctx.get("agent_wallet"@) {
        Some(w) => match w.as_str() {
            Some(aid) => {
                let scan = agent_wallet_scan(nodes, 0, encode_utf8(aid), agents);
                (if scan.0 { WalletPick::Agent(encode_utf8(aid)) } else { WalletPick::Owner }, scan.1)
            },
            None => (WalletPick::Owner, Seq::empty()),
        },
        None => match ctx.get("custom_wallet"@) {
            Some(c) => match c.as_str() {
                Some(k) => (if wallet_key_accepted(k) { WalletPick::Custom(k) } else { WalletPick::Owner }, Seq::empty()),
                None => (WalletPick::Owner, Seq::empty()),
            },
            None => (WalletPick::Owner, Seq::empty()),
        },
    }
}

/// One failure entry per id.
pub open spec fn failures(ids: Seq<Seq<u8>>, kind: Seq<char>, at: Timestamp) -> Seq<HistoryView> {
    Seq::new(ids.len(), |k: int| entry(ids[k], kind, None, at))
}

/// What a node asks for, and what it records first: an adapter the nibble
/// lacks, or a subflow with nobody to run it, records a failure and stops the
/// step; an agent gets the node's context text; an on-chain call gets a
/// wallet, a method name and parameters from the node's context; an off-chain
/// call gets the incoming context.
pub open spec fn node_plan(
    node: WorkflowNode,
    nodes: Seq<WorkflowNode>,
    registry: Registry,
    context: Option<JsonData>,
    has_manager: bool,
    at: Timestamp,
) -> (NodeTask, Seq<HistoryView>) {
    let id = node.id@;
    match node.adapter_type {
        NodeAdapter::Agent => if byte_seqs(registry.agents@).contains(node.adapter_id@) {
            (
                NodeTask::Agent(
                    match opt_data(node.context) {
                        Some(v) => match v.as_str() {
                            Some(s) => s,
                            None => ""@,
                        },
                        None => ""@,
                    },
                ),
                Seq::empty(),
            )
        } else {
            (NodeTask::Stop, seq![entry(id, "Agent"@, None, at)])
        },
        NodeAdapter::OnChainConnector => if byte_seqs(registry.onchain_connectors@).contains(node.adapter_id@) {
            match opt_data(node.context) {
                Some(ctx) => {
                    let (w, passed) = wallet_pick(ctx, nodes, byte_seqs(registry.agents@));
                    (
                        NodeTask::OnChain(w, ctx.str_at("method_name"@), ctx.array_at("params"@)),
                        failures(passed, "OnChainConnector"@, at),
                    )
                },
                None => (NodeTask::OnChain(WalletPick::Owner, None, None), Seq::empty()),
            }
        } else {
            (NodeTask::Stop, seq![entry(id, "OnChainConnector"@, None, at)])
        },
        NodeAdapter::OffChainConnector => if byte_seqs(registry.offchain_connectors@).contains(node.adapter_id@) {
            (NodeTask::OffChain(context), Seq::empty())
        } else {
            (NodeTask::Stop, seq![entry(id, "OffChainConnector"@, None, at)])
        },
        NodeAdapter::SubFlow { subflow, blocking, repetitions, count_successes } => if has_manager {
            (NodeTask::Subflow(blocking, repetitions, count_successes), Seq::empty())
        } else {
            (NodeTask::Stop, seq![entry(id, "Subflow"@, None, at)])
        },
    }
}

/// What the outside work of a node gave.
pub enum NodeOutcome {
    Produced(JsonValue),
    SubflowDone(Vec<ExecutionHistory>),
    Failed,
}

pub ghost enum NodeResult {
    Produced(JsonData),
    SubflowDone(Seq<HistoryView>),
    Failed,
}

impl NodeOutcome {
    pub open spec fn result(self) -> NodeResult {
        match self {
            NodeOutcome::Produced(v) => NodeResult::Produced(v@),
            NodeOutcome::SubflowDone(h) => NodeResult::SubflowDone(history_view(h@)),
            NodeOutcome::Failed => NodeResult::Failed,
        }
    }
}

pub open spec fn node_kind_name(a: NodeAdapter) -> Seq<char> {
    match a {
        NodeAdapter::Agent => "Agent"@,
        NodeAdapter::OnChainConnector => "OnChainConnector"@,
        NodeAdapter::OffChainConnector => "OffChainConnector"@,
        NodeAdapter::SubFlow { .. } => "Subflow"@,
    }
}

/// What a node yields and records once its work is done: a produced value is
/// recorded and passed on; a finished subflow records its success, then its
/// own history, and passes on a success message (blocking) or a start message
/// (non-blocking); anything else records a failure and yields nothing.
pub open spec fn node_finish(node: WorkflowNode, outcome: NodeResult, at: Timestamp) -> (Option<JsonData>, Seq<HistoryView>) {
    let id = node.id@;
    match node.adapter_type {
        NodeAdapter::SubFlow { subflow, blocking, repetitions, count_successes } => match outcome {
            NodeResult::SubflowDone(h) => (
                Some(JsonData::Str(if blocking { "Blocking SubFlow Success"@ } else { "Non-blocking SubFlow Started"@ })),
                seq![entry(id, "Subflow"@, Some(JsonData::Str("Blocking SubFlow Success"@)), at)] + h,
            ),
            _ => (None, seq![entry(id, "Subflow"@, None, at)]),
        },
        _ => match outcome {
            NodeResult::Produced(v) => (Some(v), seq![entry(id, node_kind_name(node.adapter_type), Some(v), at)]),
            _ => (None, seq![entry(id, node_kind_name(node.adapter_type), None, at)]),
        },
    }
}

fn kind_text(a: &NodeAdapter) -> (res: String)
    ensures
        res@ == node_kind_name(*a),
{
    match a {
        NodeAdapter::Agent => Adapter::Agent.to_string(),
        NodeAdapter::OnChainConnector => Adapter::OnChainConnector.to_string(),
        NodeAdapter::OffChainConnector => Adapter::OffChainConnector.to_string(),
        NodeAdapter::SubFlow { .. } => owned("Subflow"),
    }
}

impl Workflow {
    /// Looks for the agent's wallet among the agent nodes, recording a failure
    /// for each node passed over.
    #[verifier::loop_isolation(false)]
    fn scan_agent_wallet(&mut self, agent_id: &[u8], agents: &Vec<Vec<u8>>, now: Timestamp) -> (found: bool)
        ensures
            same_but_history(*old(self), *final(self)),
            forall|flag: bool| run_step_kept(*old(self), *final(self), flag, flag),
            ({
                let scan = agent_wallet_scan(old(self).nodes@, 0, agent_id@, byte_seqs(agents@));
                &&& found == scan.0
                &&& final(self).history() == old(self).history() + failures(scan.1, "OnChainConnector"@, now)
            }),
    {
        let ghost nodes = self.nodes@;
        let ghost agent_ids = byte_seqs(agents@);
        let ghost h0 = self.history();
        let ghost mut passed: Seq<Seq<u8>> = Seq::empty();
        let mut i: usize = 0;
        let n = self.nodes.len();
        while i < n
            invariant
                0 <= i <= n,
                n == nodes.len(),
                self.nodes@ == nodes,
                same_but_history(*old(self), *self),
                agent_wallet_scan(nodes, 0, agent_id@, agent_ids) == {
                    let rest = agent_wallet_scan(nodes, i as int, agent_id@, agent_ids);
                    (rest.0, passed + rest.1)
                },
                self.history() == h0 + failures(passed, "OnChainConnector"@, now),
            decreases n - i,
        {
            let is_agent = match self.nodes[i].adapter_type {
                NodeAdapter::Agent => true,
                _ => false,
            };
            if is_agent && bytes_eq(self.nodes[i].adapter_id.as_slice(), agent_id) {
                if contains_id(agents, agent_id) {
                    return true;
                }
            } else {
                let id = crate::json::clone_bytes(&self.nodes[i].id);
                let ghost p0 = passed;
                self.record(&id, Adapter::OnChainConnector.to_string(), None, now);
                proof {
                    passed = passed.push(nodes[i as int].id@);
                    assert(failures(passed, "OnChainConnector"@, now) =~= failures(p0, "OnChainConnector"@, now).push(
                        entry(nodes[i as int].id@, "OnChainConnector"@, None, now),
                    ));
                    let rest = agent_wallet_scan(nodes, i + 1, agent_id@, agent_ids);
                    assert(seq![nodes[i as int].id@] + rest.1 =~= seq![nodes[i as int].id@].add(rest.1));
                    assert(p0 + (seq![nodes[i as int].id@] + rest.1) =~= passed + rest.1);
                }
            }
            i = i + 1;
        }
        proof {
            assert(passed + Seq::<Seq<u8>>::empty() =~= passed);
        }
        false
    }

    /// Plans node `index` of this workflow on the incoming (already reshaped)
    /// context, recording what the plan says is recorded first.
    pub fn plan_node(
        &mut self,
        index: usize,
        registry: &Registry,
        context: Option<JsonValue>,
        has_manager: bool,
        now: Timestamp,
    ) -> (plan: NodePlan)
        requires
            index < old(self).nodes@.len(),
        ensures
            same_but_history(*old(self), *final(self)),
            forall|flag: bool| run_step_kept(*old(self), *final(self), flag, flag),
            ({
                let (task, pushed) = node_plan(
                    old(self).nodes@[index as int],
                    old(self).nodes@,
                    *registry,
                    opt_data(context),
                    has_manager,
                    now,
                );
                &&& plan.task() == task
                &&& final(self).history() == old(self).history() + pushed
            }),
    {
        let ghost h0 = self.history();
        let id = crate::json::clone_bytes(&self.nodes[index].id);
        let adapter_id = crate::json::clone_bytes(&self.nodes[index].adapter_id);
        match &self.nodes[index].adapter_type {
            NodeAdapter::Agent => {
                if contains_id(&registry.agents, adapter_id.as_slice()) {
                    let input = match &self.nodes[index].context {
                        Some(v) => match v.as_str() {
                            Some(s) => owned(s),
                            None => owned(""),
                        },
                        None => owned(""),
                    };
                    assert(h0 + Seq::<HistoryView>::empty() =~= h0);
                    NodePlan::RunAgent { input }
                } else {
                    self.record(&id, Adapter::Agent.to_string(), None, now);
                    assert(h0.push(entry(id@, "Agent"@, None, now)) =~= h0 + seq![entry(id@, "Agent"@, None, now)]);
                    NodePlan::Stop
                }
            },
            NodeAdapter::OnChainConnector => {
                if contains_id(&registry.onchain_connectors, adapter_id.as_slice()) {
                    let node_context = clone_opt(&self.nodes[index].context);
                    match node_context {
                        Some(ctx) => {
                            let ghost nodes0 = self.nodes@;
                            let wallet = match ctx.get("agent_wallet") {
                                Some(w) => match w.as_str() {
                                    Some(aid) => {
                                        let found = self.scan_agent_wallet(aid.as_bytes(), &registry.agents, now);
                                        if found {
                                            WalletChoice::Agent(vstd::slice::slice_to_vec(aid.as_bytes()))
                                        } else {
                                            WalletChoice::Owner
                                        }
                                    },
                                    None => {
                                        assert(h0 + failures(Seq::empty(), "OnChainConnector"@, now) =~= h0);
                                        WalletChoice::Owner
                                    },
                                },
                                None => {
                                    assert(h0 + failures(Seq::empty(), "OnChainConnector"@, now) =~= h0);
                                    match ctx.get("custom_wallet") {
                                        Some(c) => match c.as_str() {
                                            Some(k) => if wallet_key_valid(k) {
                                                WalletChoice::Custom(owned(k))
                                            } else {
                                                WalletChoice::Owner
                                            },
                                            None => WalletChoice::Owner,
                                        },
                                        None => WalletChoice::Owner,
                                    }
                                },
                            };
                            let method_name = match ctx.str_member("method_name") {
                                Some(m) => Some(owned(m)),
                                None => None,
                            };
                            let params = match ctx.array_member("params") {
                                Some(items) => Some(clone_values(items)),
                                None => None,
                            };
                            NodePlan::RunOnChain { wallet, method_name, params }
                        },
                        None => {
                            assert(h0 + Seq::<HistoryView>::empty() =~= h0);
                            NodePlan::RunOnChain { wallet: WalletChoice::Owner, method_name: None, params: None }
                        },
                    }
                } else {
                    self.record(&id, Adapter::OnChainConnector.to_string(), None, now);
                    assert(h0.push(entry(id@, "OnChainConnector"@, None, now)) =~= h0 + seq![entry(id@, "OnChainConnector"@, None, now)]);
                    NodePlan::Stop
                }
            },
            NodeAdapter::OffChainConnector => {
                if contains_id(&registry.offchain_connectors, adapter_id.as_slice()) {
                    assert(h0 + Seq::<HistoryView>::empty() =~= h0);
                    NodePlan::RunOffChain { context }
                } else {
                    self.record(&id, Adapter::OffChainConnector.to_string(), None, now);
                    assert(h0.push(entry(id@, "OffChainConnector"@, None, now)) =~= h0 + seq![entry(id@, "OffChainConnector"@, None, now)]);
                    NodePlan::Stop
                }
            },
            NodeAdapter::SubFlow { subflow, blocking, repetitions, count_successes } => {
                if has_manager {
                    assert(h0 + Seq::<HistoryView>::empty() =~= h0);
                    NodePlan::RunSubflow { blocking: *blocking, repetitions: *repetitions, count_successes: *count_successes }
                } else {
                    self.record(&id, owned("Subflow"), None, now);
                    assert(h0.push(entry(id@, "Subflow"@, None, now)) =~= h0 + seq![entry(id@, "Subflow"@, None, now)]);
                    NodePlan::Stop
                }
            },
        }
    }

    /// Records what node `index` gave and yields what the run passes on.
    pub fn finish_node(&mut self, index: usize, outcome: NodeOutcome, now: Timestamp) -> (res: Option<JsonValue>)
        requires
            index < old(self).nodes@.len(),
        ensures
            same_but_history(*old(self), *final(self)),
            forall|flag: bool| run_step_kept(*old(self), *final(self), flag, flag),
            ({
                let (value, pushed) = node_finish(old(self).nodes@[index as int], outcome.result(), now);
                &&& opt_data(res) == value
                &&& final(self).history() == old(self).history() + pushed
            }),
    {
        let ghost h0 = self.history();
        let id = crate::json::clone_bytes(&self.nodes[index].id);
        let kind = kind_text(&self.nodes[index].adapter_type);
        let subflow_mode = match &self.nodes[index].adapter_type {
            NodeAdapter::SubFlow { blocking, .. } => Some(*blocking),
            _ => None,
        };
        match subflow_mode {
            Some(blocking) => match outcome {
                NodeOutcome::SubflowDone(history) => {
                    self.record(&id, kind, Some(JsonValue::text("Blocking SubFlow Success")), now);
                    let ghost h1 = self.history();
                    let ghost hv = history_view(history@);
                    self.record_all(history);
                    assert(h0 + (seq![entry(id@, "Subflow"@, Some(JsonData::Str("Blocking SubFlow Success"@)), now)] + hv)
                        =~= h1 + hv);
                    if blocking {
                        Some(JsonValue::text("Blocking SubFlow Success"))
                    } else {
                        Some(JsonValue::text("Non-blocking SubFlow Started"))
                    }
                },
                _ => {
                    self.record(&id, kind, None, now);
                    assert(h0.push(entry(id@, "Subflow"@, None, now)) =~= h0 + seq![entry(id@, "Subflow"@, None, now)]);
                    None
                },
            },
            None => match outcome {
                NodeOutcome::Produced(v) => {
                    let ghost k = kind@;
                    let copy = v.deep_clone();
                    self.record(&id, kind, Some(v), now);
                    assert(h0.push(entry(id@, k, Some(copy@), now)) =~= h0 + seq![entry(id@, k, Some(copy@), now)]);
                    Some(copy)
                },
                _ => {
                    let ghost k = kind@;
                    self.record(&id, kind, None, now);
                    assert(h0.push(entry(id@, k, None, now)) =~= h0 + seq![entry(id@, k, None, now)]);
                    None
                },
            },
        }
    }
}


/// The law of an off-chain node: a registered off-chain connector node asks
/// to run the connector on exactly the incoming context, and records nothing
/// first.
pub proof fn law_offchain_node_runs_on_its_context(
    node: WorkflowNode,
    nodes: Seq<WorkflowNode>,
    registry: Registry,
    context: Option<JsonData>,
    has_manager: bool,
    at: Timestamp,
)
    requires
        node.adapter_type == NodeAdapter::OffChainConnector,
        exists|i: int| 0 <= i < registry.offchain_connectors@.len() && registry.offchain_connectors@[i]@ == node.adapter_id@,
    ensures
        node_plan(node, nodes, registry, context, has_manager, at).0 == NodeTask::OffChain(context),
        node_plan(node, nodes, registry, context, has_manager, at).1.len() == 0,
{
    let i = choose|i: int| 0 <= i < registry.offchain_connectors@.len() && registry.offchain_connectors@[i]@ == node.adapter_id@;
    assert(byte_seqs(registry.offchain_connectors@)[i] == node.adapter_id@);
}


/// Whether an id is among a registry's ids.
pub open spec fn registered(ids: Seq<Vec<u8>>, id: Seq<u8>) -> bool {
    exists|i: int| 0 <= i < ids.len() && ids[i]@ == id
}

proof fn lemma_registered(ids: Seq<Vec<u8>>, id: Seq<u8>)
    ensures
        byte_seqs(ids).contains(id) <==> registered(ids, id),
{
    if registered(ids, id) {
        let i = choose|i: int| 0 <= i < ids.len() && ids[i]@ == id;
        assert(byte_seqs(ids)[i] == id);
    }
    if byte_seqs(ids).contains(id) {
        let i = choose|i: int| 0 <= i < byte_seqs(ids).len() && byte_seqs(ids)[i] == id;
        assert(ids[i]@ == id);
    }
}

/// The law of nodes that name no registered adapter: an agent, on-chain or
/// off-chain node whose adapter is not registered under its kind stops the
/// step and records one failure, for the node, with no result.
pub proof fn law_unregistered_node_stops(
    node: WorkflowNode,
    nodes: Seq<WorkflowNode>,
    registry: Registry,
    context: Option<JsonData>,
    has_manager: bool,
    at: Timestamp,
)
    requires
        match node.adapter_type {
            NodeAdapter::Agent => !registered(registry.agents@, node.adapter_id@),
            NodeAdapter::OnChainConnector => !registered(registry.onchain_connectors@, node.adapter_id@),
            NodeAdapter::OffChainConnector => !registered(registry.offchain_connectors@, node.adapter_id@),
            NodeAdapter::SubFlow { .. } => false,
        },
    ensures
        ({
            let (task, pushed) = node_plan(node, nodes, registry, context, has_manager, at);
            &&& task == NodeTask::Stop
            &&& pushed.len() == 1
            &&& pushed[0].element_id == node.id@
            &&& pushed[0].result is None
            &&& pushed[0].timestamp == at
        }),
{
    lemma_registered(registry.agents@, node.adapter_id@);
    lemma_registered(registry.onchain_connectors@, node.adapter_id@);
    lemma_registered(registry.offchain_connectors@, node.adapter_id@);
}

/// The law of agent nodes: a registered agent is asked with the node's own
/// context when that is a text, and with the empty text otherwise; nothing is
/// recorded first.
pub proof fn law_agent_node_asks_with_its_context_text(
    node: WorkflowNode,
    nodes: Seq<WorkflowNode>,
    registry: Registry,
    context: Option<JsonData>,
    has_manager: bool,
    at: Timestamp,
)
    requires
        node.adapter_type == NodeAdapter::Agent,
        registered(registry.agents@, node.adapter_id@),
    ensures
        ({
            let (task, pushed) = node_plan(node, nodes, registry, context, has_manager, at);
            &&& pushed.len() == 0
            &&& opt_data(node.context) matches Some(JsonData::Str(s)) ==> task == NodeTask::Agent(s)
            &&& !(opt_data(node.context) matches Some(JsonData::Str(_))) ==> task == NodeTask::Agent(Seq::empty())
        }),
{
    lemma_registered(registry.agents@, node.adapter_id@);
    reveal_strlit("");
    assert(""@ =~= Seq::<char>::empty());
}

/// The law of subflow nodes: with a subflow manager a subflow node asks to
/// run its subflow as the node says (blocking, repetitions, counting
/// successes); without one it stops the step and records one failure.
pub proof fn law_subflow_node_needs_a_manager(
    node: WorkflowNode,
    nodes: Seq<WorkflowNode>,
    registry: Registry,
    context: Option<JsonData>,
    has_manager: bool,
    at: Timestamp,
)
    requires
        node.adapter_type is SubFlow,
    ensures
        ({
            let (task, pushed) = node_plan(node, nodes, registry, context, has_manager, at);
            &&& has_manager ==> task == NodeTask::Subflow(
                node.adapter_type->SubFlow_blocking,
                node.adapter_type->SubFlow_repetitions,
                node.adapter_type->SubFlow_count_successes,
            ) && pushed.len() == 0
            &&& !has_manager ==> task == NodeTask::Stop && pushed.len() == 1 && pushed[0].element_id == node.id@
        }),
{
}

/// The law of on-chain nodes without a context: a registered on-chain
/// connector node with no context is run by the owner's wallet, with no
/// method name and no parameters.
pub proof fn law_onchain_node_without_context(
    node: WorkflowNode,
    nodes: Seq<WorkflowNode>,
    registry: Registry,
    context: Option<JsonData>,
    has_manager: bool,
    at: Timestamp,
)
    requires
        node.adapter_type == NodeAdapter::OnChainConnector,
        registered(registry.onchain_connectors@, node.adapter_id@),
        node.context is None,
    ensures
        node_plan(node, nodes, registry, context, has_manager, at).0 == NodeTask::OnChain(WalletPick::Owner, None, None),
{
    lemma_registered(registry.onchain_connectors@, node.adapter_id@);
}

} // verus!
