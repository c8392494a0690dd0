//! Putting a workflow together, and the metadata it is stored as.

use vstd::prelude::*;
use crate::execution::{history_view, ExecutionHistory, HistoryView, Timestamp};
use crate::json::{entries_data, opt_data, values_data, JsonData, JsonValue};
use crate::text::{hex_encode, hex_text, owned};
use crate::encrypt::{ecies_plain, sealed_metadata, valid_secret_key};
use crate::tools::context::ContextParse;
use crate::tools::history::HistoryParse;
use crate::workflow::run::{find_link_from, find_node_from};
use crate::workflow::{LinkAdapter, LinkTarget, NodeAdapter, Workflow, WorkflowLink, WorkflowNode};

verus! {

/// What the search for an id from position `i` finds: the first position from
/// `i` on whose node has the id, or none when no node from `i` on has it.
pub proof fn lemma_find_node(nodes: Seq<WorkflowNode>, id: Seq<u8>, i: int)
    requires
        0 <= i,
    ensures
        match find_node_from(nodes, id, i) {
            Some(k) => i <= k < nodes.len() && nodes[k].id@ == id && forall|j: int| i <= j < k ==> nodes[j].id@ != id,
            None => forall|j: int| i <= j < nodes.len() ==> nodes[j].id@ != id,
        },
    decreases nodes.len() - i,
{
    if i < nodes.len() {
        lemma_find_node(nodes, id, i + 1);
    }
}

pub proof fn lemma_find_link(links: Seq<WorkflowLink>, id: Seq<u8>, i: int)
    requires
        0 <= i,
    ensures
        match find_link_from(links, id, i) {
            Some(k) => i <= k < links.len() && links[k].id@ == id && forall|j: int| i <= j < k ==> links[j].id@ != id,
            None => forall|j: int| i <= j < links.len() ==> links[j].id@ != id,
        },
    decreases links.len() - i,
{
    if i < links.len() {
        lemma_find_link(links, id, i + 1);
    }
}

/// Adding under an id that a node has replaces that node; otherwise the new one comes last.
pub open spec fn nodes_after_add(nodes: Seq<WorkflowNode>, node: WorkflowNode) -> Seq<WorkflowNode> {
    match find_node_from(nodes, node.id@, 0) {
        Some(k) => nodes.update(k, node),
        None => nodes.push(node),
    }
}

pub open spec fn links_after_add(links: Seq<WorkflowLink>, link: WorkflowLink) -> Seq<WorkflowLink> {
    match find_link_from(links, link.id@, 0) {
        Some(k) => links.update(k, link),
        None => links.push(link),
    }
}

/// The metadata a workflow is stored as.
pub struct ModifyWorkflow {
    pub id: Vec<u8>,
    pub metadata: String,
    pub encrypted: bool,
}

impl Workflow {
    /// A workflow with no elements and no history.
    pub fn new(id: Vec<u8>, name: String, encrypted: bool) -> (res: Workflow)
        ensures
            res.id@ == id@,
            res.name@ == name@,
            res.encrypted == encrypted,
            res.nodes@.len() == 0,
            res.links@.len() == 0,
            res.execution_history@.len() == 0,
    {
        Workflow { id, name, nodes: Vec::new(), links: Vec::new(), encrypted, execution_history: Vec::new() }
    }

    /// Adds a node under the id `id` (a fresh id, as `generate_unique_id` gives);
    /// a node already under that id is replaced.
    pub fn add_node(
        &mut self,
        id: Vec<u8>,
        adapter_id: Vec<u8>,
        adapter_type: NodeAdapter,
        repetitions: Option<u32>,
        context: Option<JsonValue>,
        description: Option<String>,
        context_tool: Option<ContextParse>,
        history_tool: Option<HistoryParse>,
    )
        ensures
            final(self).nodes@ == nodes_after_add(
                old(self).nodes@,
                (WorkflowNode { id, adapter_id, adapter_type, context, repetitions, description, context_tool, history_tool }),
            ),
            final(self).links == old(self).links,
            final(self).id == old(self).id,
            final(self).name == old(self).name,
            final(self).encrypted == old(self).encrypted,
            final(self).execution_history == old(self).execution_history,
    {
        let found = self.find_node(id.as_slice());
        let node = WorkflowNode { id, adapter_id, adapter_type, context, repetitions, description, context_tool, history_tool };
        match found {
            Some(k) => self.nodes.set(k, node),
            None => self.nodes.push(node),
        }
    }

    /// Adds a link under the id `id`; a link already under that id is replaced.
    pub fn add_link(
        &mut self,
        id: Vec<u8>,
        adapter_id: Vec<u8>,
        adapter_type: LinkAdapter,
        repetitions: Option<u32>,
        context: Option<JsonValue>,
        target: Option<LinkTarget>,
        description: Option<String>,
        context_tool: Option<ContextParse>,
        history_tool: Option<HistoryParse>,
    )
        ensures
            final(self).links@ == links_after_add(
                old(self).links@,
                (WorkflowLink { id, adapter_id, adapter_type, repetitions, context, target, description, context_tool, history_tool }),
            ),
            final(self).nodes == old(self).nodes,
            final(self).id == old(self).id,
            final(self).name == old(self).name,
            final(self).encrypted == old(self).encrypted,
            final(self).execution_history == old(self).execution_history,
    {
        let found = self.find_link(id.as_slice());
        let link = WorkflowLink { id, adapter_id, adapter_type, repetitions, context, target, description, context_tool, history_tool };
        match found {
            Some(k) => self.links.set(k, link),
            None => self.links.push(link),
        }
    }

    /// The run history so far.
    pub fn get_execution_history(&self) -> (res: &Vec<ExecutionHistory>)
        ensures
            res == &self.execution_history,
    {
        &self.execution_history
    }

    /// Once the workflow is removed from storage: no elements, and the new id
    /// (a fresh one, as `generate_unique_id` gives).
    pub fn clear_after_removal(&mut self, new_id: Vec<u8>)
        ensures
            final(self).nodes@.len() == 0,
            final(self).links@.len() == 0,
            final(self).id@ == new_id@,
            final(self).name == old(self).name,
            final(self).encrypted == old(self).encrypted,
            final(self).execution_history == old(self).execution_history,
    {
        self.nodes = Vec::new();
        self.links = Vec::new();
        self.id = new_id;
    }

    /// The request that stores this workflow, given where its metadata went.
    pub fn modify_request(&self, metadata: String) -> (res: ModifyWorkflow)
        ensures
            res.id@ == self.id@,
            res.metadata@ == metadata@,
            res.encrypted == self.encrypted,
    {
        ModifyWorkflow { id: crate::json::clone_bytes(&self.id), metadata, encrypted: self.encrypted }
    }

    /// The bytes to upload for this workflow's serialised metadata: encrypted
    /// to the owner's key exactly when the workflow is marked encrypted.
    pub fn upload_bytes(&self, serialized: Vec<u8>, secret_key: &[u8]) -> (res: Result<Vec<u8>, String>)
        requires
            self.encrypted ==> valid_secret_key(secret_key@),
        ensures
            !self.encrypted ==> (res matches Ok(v) && v@ == serialized@),
            self.encrypted ==> match res {
                Ok(c) => {
                    &&& serialized@.len() > 0
                    &&& c@.len() == serialized@.len() + 97
                    &&& ecies_plain(secret_key@, c@) == Ok::<Seq<u8>, Seq<char>>(serialized@)
                },
                Err(e) => if serialized@.len() == 0 {
                    e@ == "Invalid data."@
                } else {
                    exists|t: Seq<char>| e@ == "Error encrypting the data: "@ + t
                },
            },
    {
        sealed_metadata(serialized, self.encrypted, secret_key)
    }
}

/// The law of adding: after adding a node, looking up its id finds exactly
/// that node, and every other id finds what it found before.
pub proof fn law_find_after_add_node(nodes: Seq<WorkflowNode>, node: WorkflowNode, other: Seq<u8>)
    ensures
        ({
            let after = nodes_after_add(nodes, node);
            &&& find_node_from(after, node.id@, 0) matches Some(k) && 0 <= k < after.len() && after[k] == node
            &&& other != node.id@ ==> find_node_from(after, other, 0) == find_node_from(nodes, other, 0)
        }),
{
    let after = nodes_after_add(nodes, node);
    lemma_find_node(nodes, node.id@, 0);
    lemma_find_node(after, node.id@, 0);
    lemma_find_node(nodes, other, 0);
    lemma_find_node(after, other, 0);
    match find_node_from(nodes, node.id@, 0) {
        Some(k) => {
            assert(after == nodes.update(k, node));
            assert(after[k].id@ == node.id@);
            match find_node_from(after, node.id@, 0) {
                Some(k1) => {
                    if k1 < k {
                        assert(after[k1] == nodes[k1]);
                    }
                    assert(k1 == k);
                },
                None => {},
            }
            if other != node.id@ {
                match find_node_from(nodes, other, 0) {
                    Some(k2) => {
                        match find_node_from(after, other, 0) {
                            Some(k3) => {
                                if k3 != k {
                                    assert(after[k3] == nodes[k3]);
                                }
                                if k2 != k {
                                    assert(after[k2] == nodes[k2]);
                                }
                            },
                            None => {
                                assert(after[k2] == nodes[k2]);
                            },
                        }
                    },
                    None => {
                        match find_node_from(after, other, 0) {
                            Some(k3) => {
                                assert(after[k3] == nodes[k3]);
                            },
                            None => {},
                        }
                    },
                }
            }
        },
        None => {
            let k = nodes.len() as int;
            assert(after == nodes.push(node));
            assert(after[k] == node);
            match find_node_from(after, node.id@, 0) {
                Some(k1) => {
                    if k1 < k {
                        assert(after[k1] == nodes[k1]);
                    }
                },
                None => {},
            }
            if other != node.id@ {
                match find_node_from(nodes, other, 0) {
                    Some(k2) => {
                        assert(after[k2] == nodes[k2]);
                        match find_node_from(after, other, 0) {
                            Some(k3) => {
                                if k3 < k {
                                    assert(after[k3] == nodes[k3]);
                                }
                            },
                            None => {},
                        }
                    },
                    None => {
                        match find_node_from(after, other, 0) {
                            Some(k3) => {
                                if k3 < k {
                                    assert(after[k3] == nodes[k3]);
                                }
                            },
                            None => {},
                        }
                    },
                }
            }
        },
    }
}

/// The law of adding: after adding a link, looking up its id finds exactly
/// that link, and every other id finds what it found before.
pub proof fn law_find_after_add_link(links: Seq<WorkflowLink>, link: WorkflowLink, other: Seq<u8>)
    ensures
        ({
            let after = links_after_add(links, link);
            &&& find_link_from(after, link.id@, 0) matches Some(k) && 0 <= k < after.len() && after[k] == link
            &&& other != link.id@ ==> find_link_from(after, other, 0) == find_link_from(links, other, 0)
        }),
{
    let after = links_after_add(links, link);
    lemma_find_link(links, link.id@, 0);
    lemma_find_link(after, link.id@, 0);
    lemma_find_link(links, other, 0);
    lemma_find_link(after, other, 0);
    match find_link_from(links, link.id@, 0) {
        Some(k) => {
            assert(after == links.update(k, link));
            assert(after[k].id@ == link.id@);
            match find_link_from(after, link.id@, 0) {
                Some(k1) => {
                    if k1 < k {
                        assert(after[k1] == links[k1]);
                    }
                    assert(k1 == k);
                },
                None => {},
            }
            if other != link.id@ {
                match find_link_from(links, other, 0) {
                    Some(k2) => {
                        match find_link_from(after, other, 0) {
                            Some(k3) => {
                                if k3 != k {
                                    assert(after[k3] == links[k3]);
                                }
                                if k2 != k {
                                    assert(after[k2] == links[k2]);
                                }
                            },
                            None => {
                                assert(after[k2] == links[k2]);
                            },
                        }
                    },
                    None => {
                        match find_link_from(after, other, 0) {
                            Some(k3) => {
                                assert(after[k3] == links[k3]);
                            },
                            None => {},
                        }
                    },
                }
            }
        },
        None => {
            let k = links.len() as int;
            assert(after == links.push(link));
            assert(after[k] == link);
            match find_link_from(after, link.id@, 0) {
                Some(k1) => {
                    if k1 < k {
                        assert(after[k1] == links[k1]);
                    }
                },
                None => {},
            }
            if other != link.id@ {
                match find_link_from(links, other, 0) {
                    Some(k2) => {
                        assert(after[k2] == links[k2]);
                        match find_link_from(after, other, 0) {
                            Some(k3) => {
                                if k3 < k {
                                    assert(after[k3] == links[k3]);
                                }
                            },
                            None => {},
                        }
                    },
                    None => {
                        match find_link_from(after, other, 0) {
                            Some(k3) => {
                                if k3 < k {
                                    assert(after[k3] == links[k3]);
                                }
                            },
                            None => {},
                        }
                    },
                }
            }
        },
    }
}

/// The `{:?}` name of a node's adapter kind; a subflow is named by its kind alone.
pub open spec fn node_adapter_text(a: NodeAdapter) -> Seq<char> {
    match a {
        NodeAdapter::OffChainConnector => "OffChainConnector"@,
        NodeAdapter::OnChainConnector => "OnChainConnector"@,
        NodeAdapter::Agent => "Agent"@,
        NodeAdapter::SubFlow { .. } => "SubFlow"@,
    }
}

pub open spec fn link_adapter_text(a: LinkAdapter) -> Seq<char> {
    match a {
        LinkAdapter::Condition => "Condition"@,
        LinkAdapter::FHEGate => "FHEGate"@,
        LinkAdapter::Listener => "Listener"@,
        LinkAdapter::Evaluation => "Evaluation"@,
    }
}

pub fn node_adapter_name(a: &NodeAdapter) -> (res: String)
    ensures
        res@ == node_adapter_text(*a),
{
    match a {
        NodeAdapter::OffChainConnector => owned("OffChainConnector"),
        NodeAdapter::OnChainConnector => owned("OnChainConnector"),
        NodeAdapter::Agent => owned("Agent"),
        NodeAdapter::SubFlow { .. } => owned("SubFlow"),
    }
}

pub fn link_adapter_name(a: LinkAdapter) -> (res: String)
    ensures
        res@ == link_adapter_text(a),
{
    match a {
        LinkAdapter::Condition => owned("Condition"),
        LinkAdapter::FHEGate => owned("FHEGate"),
        LinkAdapter::Listener => owned("Listener"),
        LinkAdapter::Evaluation => owned("Evaluation"),
    }
}

pub open spec fn node_json(n: WorkflowNode) -> JsonData {
    JsonData::Object(seq![
        ("id"@, JsonData::Str(hex_text(n.id@))),
        ("adapter_type"@, JsonData::Str(node_adapter_text(n.adapter_type))),
        ("adapter_id"@, JsonData::Str(hex_text(n.adapter_id@))),
    ])
}

pub open spec fn link_json(l: WorkflowLink) -> JsonData {
    JsonData::Object(seq![
        ("id"@, JsonData::Str(hex_text(l.id@))),
        ("adapter_id"@, JsonData::Str(hex_text(l.adapter_id@))),
        ("adapter_type"@, JsonData::Str(link_adapter_text(l.adapter_type))),
    ])
}

/// The RFC 3339 text of a point in time (`chrono`'s `to_rfc3339` for UTC), or
/// nothing when the time is out of `chrono`'s range.
pub uninterp spec fn rfc3339_text(secs: i64, nanos: u32) -> Option<Seq<char>>;

/// Formats a point in time as RFC 3339 (`DateTime::<Utc>::from_timestamp`
/// then `to_rfc3339` in chrono); trusted to depend on the time alone.
#[verifier::external_body]
pub fn timestamp_rfc3339(t: Timestamp) -> (res: Option<String>)
    ensures
        match res {
            Some(s) => rfc3339_text(t.secs, t.nanos) == Some(s@),
            None => rfc3339_text(t.secs, t.nanos) is None,
        },
{
    chrono::DateTime::<chrono::Utc>::from_timestamp(t.secs, t.nanos).map(|d| d.to_rfc3339())
}

pub open spec fn history_json(h: HistoryView) -> JsonData {
    JsonData::Object(seq![
        ("element_id"@, JsonData::Str(hex_text(h.element_id))),
        ("element_type"@, JsonData::Str(h.element_type)),
        ("result"@, match h.result {
            Some(r) => r,
            None => JsonData::Null,
        }),
        ("timestamp"@, match rfc3339_text(h.timestamp.secs, h.timestamp.nanos) {
            Some(s) => JsonData::Str(s),
            None => JsonData::Null,
        }),
    ])
}

/// The metadata of a workflow: its links, its nodes and its history.
pub open spec fn metadata(w: Workflow) -> JsonData {
    JsonData::Object(seq![
        ("links"@, JsonData::Array(Seq::new(w.links@.len(), |j: int| link_json(w.links@[j])))),
        ("nodes"@, JsonData::Array(Seq::new(w.nodes@.len(), |i: int| node_json(w.nodes@[i])))),
        ("execution_history"@, JsonData::Array(
            Seq::new(w.execution_history@.len(), |k: int| history_json(w.execution_history@[k]@)),
        )),
    ])
}

impl WorkflowNode {
    pub fn to_json(&self) -> (res: JsonValue)
        ensures
            res@ == node_json(*self),
    {
        let mut entries: Vec<(String, JsonValue)> = Vec::new();
        entries.push((owned("id"), JsonValue::String(hex_encode(self.id.as_slice()))));
        entries.push((owned("adapter_type"), JsonValue::String(node_adapter_name(&self.adapter_type))));
        entries.push((owned("adapter_id"), JsonValue::String(hex_encode(self.adapter_id.as_slice()))));
        let res = JsonValue::object(entries);
        assert(entries_data(entries@) =~= seq![
            ("id"@, JsonData::Str(hex_text(self.id@))),
            ("adapter_type"@, JsonData::Str(node_adapter_text(self.adapter_type))),
            ("adapter_id"@, JsonData::Str(hex_text(self.adapter_id@))),
        ]);
        res
    }
}

impl WorkflowLink {
    pub fn to_json(&self) -> (res: JsonValue)
        ensures
            res@ == link_json(*self),
    {
        let mut entries: Vec<(String, JsonValue)> = Vec::new();
        entries.push((owned("id"), JsonValue::String(hex_encode(self.id.as_slice()))));
        entries.push((owned("adapter_id"), JsonValue::String(hex_encode(self.adapter_id.as_slice()))));
        entries.push((owned("adapter_type"), JsonValue::String(link_adapter_name(self.adapter_type))));
        let res = JsonValue::object(entries);
        assert(entries_data(entries@) =~= seq![
            ("id"@, JsonData::Str(hex_text(self.id@))),
            ("adapter_id"@, JsonData::Str(hex_text(self.adapter_id@))),
            ("adapter_type"@, JsonData::Str(link_adapter_text(self.adapter_type))),
        ]);
        res
    }
}

fn history_entry_json(e: &ExecutionHistory) -> (res: JsonValue)
    ensures
        res@ == history_json(e@),
{
    let mut entries: Vec<(String, JsonValue)> = Vec::new();
    entries.push((owned("element_id"), JsonValue::String(hex_encode(e.element_id.as_slice()))));
    entries.push((owned("element_type"), JsonValue::String(e.element_type.clone())));
    let result = match &e.result {
        Some(r) => r.deep_clone(),
        None => JsonValue::Null,
    };
    entries.push((owned("result"), result));
    let time = match timestamp_rfc3339(e.timestamp) {
        Some(s) => JsonValue::String(s),
        None => JsonValue::Null,
    };
    entries.push((owned("timestamp"), time));
    let res = JsonValue::object(entries);
    assert(entries_data(entries@) =~= match history_json(e@) {
        JsonData::Object(s) => s,
        _ => Seq::empty(),
    });
    res
}

impl Workflow {
    /// The metadata this workflow is stored as (before serialisation,
    /// encryption and upload).
    pub fn metadata_json(&self) -> (res: JsonValue)
        ensures
            res@ == metadata(*self),
    {
        let mut links: Vec<JsonValue> = Vec::new();
        let mut j: usize = 0;
        while j < self.links.len()
            invariant
                0 <= j <= self.links@.len(),
                links@.len() == j,
                forall|k: int| 0 <= k < j ==> (#[trigger] links@[k])@ == link_json(self.links@[k]),
            decreases self.links@.len() - j,
        {
            links.push(self.links[j].to_json());
            j = j + 1;
        }
        let mut nodes: Vec<JsonValue> = Vec::new();
        let mut i: usize = 0;
        while i < self.nodes.len()
            invariant
                0 <= i <= self.nodes@.len(),
                nodes@.len() == i,
                forall|k: int| 0 <= k < i ==> (#[trigger] nodes@[k])@ == node_json(self.nodes@[k]),
            decreases self.nodes@.len() - i,
        {
            nodes.push(self.nodes[i].to_json());
            i = i + 1;
        }
        let mut history: Vec<JsonValue> = Vec::new();
        let mut h: usize = 0;
        while h < self.execution_history.len()
            invariant
                0 <= h <= self.execution_history@.len(),
                history@.len() == h,
                forall|k: int| 0 <= k < h ==> (#[trigger] history@[k])@ == history_json(self.execution_history@[k]@),
            decreases self.execution_history@.len() - h,
        {
            history.push(history_entry_json(&self.execution_history[h]));
            h = h + 1;
        }
        let ghost lv = values_data(links@);
        let ghost nv = values_data(nodes@);
        let ghost hv = values_data(history@);
        assert(lv =~= Seq::new(self.links@.len(), |k: int| link_json(self.links@[k])));
        assert(nv =~= Seq::new(self.nodes@.len(), |k: int| node_json(self.nodes@[k])));
        assert(hv =~= Seq::new(self.execution_history@.len(), |k: int| history_json(self.execution_history@[k]@)));
        let mut entries: Vec<(String, JsonValue)> = Vec::new();
        entries.push((owned("links"), JsonValue::array(links)));
        entries.push((owned("nodes"), JsonValue::array(nodes)));
        entries.push((owned("execution_history"), JsonValue::array(history)));
        let res = JsonValue::object(entries);
        assert(entries_data(entries@) =~= match metadata(*self) {
            JsonData::Object(s) => s,
            _ => Seq::empty(),
        });
        res
    }
}

} // verus!
