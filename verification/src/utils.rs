//! Reading stored metadata back into the engine's values, and making ids.

use vstd::prelude::*;
use crate::execution::{ExecutionHistory, Timestamp};
use crate::json::{clone_opt, entries_data, lemma_object_view, opt_data, values_data, JsonData, JsonNumber, JsonValue};
use crate::text::{hex_bytes, hex_decode, owned};
use crate::tools::context::{texts, ContextParse};
use crate::tools::history::HistoryParse;
use crate::workflow::{link_edges, node_ids, LinkAdapter, LinkTarget, NodeAdapter, WorkflowLink, WorkflowNode};
use crate::workflow::run::{find_link_from, find_node_from};
use crate::workflow::compose::{lemma_find_link, lemma_find_node};
use crate::text::bytes_eq;
use crate::ethereum::Address;
use crate::execution::opt_text;
use crate::adapters::nodes::agents::{FloatParam, LLMModel};
use crate::string_map::{text_entries, StringMap};

verus! {

/// The bytes a hexadecimal member spells; empty when it is missing or not hexadecimal.
pub open spec fn hex_member(d: JsonData, key: Seq<char>) -> Seq<u8> {
    match d.str_at(key) {
        Some(s) => match hex_bytes(s) {
            Some(b) => b,
            None => Seq::empty(),
        },
        None => Seq::empty(),
    }
}

/// Reads a hexadecimal member; empty bytes when it is missing or not hexadecimal.
pub fn hex_member_of(d: &JsonValue, key: &str) -> (res: Vec<u8>)
    ensures
        res@ == hex_member(d@, key@),
{
    match d.str_member(key) {
        Some(s) => match hex_decode(s) {
            Some(b) => b,
            None => Vec::new(),
        },
        None => Vec::new(),
    }
}

/// A member that is a non-negative integer fitting in 32 bits.
pub open spec fn u32_member(d: JsonData, key: Seq<char>) -> Option<u32> {
    match d.u64_at(key) {
        Some(n) => if n <= u32::MAX {
            Some(n as u32)
        } else {
            None
        },
        None => None,
    }
}

pub fn u32_member_of(d: &JsonValue, key: &str) -> (res: Option<u32>)
    ensures
        res == u32_member(d@, key@),
{
    match d.u64_member(key) {
        Some(n) => if n <= 0xffff_ffffu64 {
            Some(n as u32)
        } else {
            None
        },
        None => None,
    }
}

pub fn text_member_of(d: &JsonValue, key: &str) -> (res: Option<String>)
    ensures
        crate::execution::opt_text(res) == d@.str_at(key@),
{
    match d.str_member(key) {
        Some(s) => Some(owned(s)),
        None => None,
    }
}

/// The texts among `items`, in order.
pub open spec fn texts_among(items: Seq<JsonData>) -> Seq<Seq<char>>
    decreases items.len(),
{
    if items.len() == 0 {
        Seq::empty()
    } else {
        let rest = texts_among(items.drop_last());
        match items.last().as_str() {
            Some(s) => rest.push(s),
            None => rest,
        }
    }
}

/// The texts in an array member; none when it is missing or not an array.
pub open spec fn texts_member(d: JsonData, key: Seq<char>) -> Seq<Seq<char>> {
    match d.array_at(key) {
        Some(items) => texts_among(items),
        None => Seq::empty(),
    }
}

pub fn texts_among_of(items: &Vec<JsonValue>) -> (res: Vec<String>)
    ensures
        texts(res@) == texts_among(values_data(items@)),
{
    let ghost all = values_data(items@);
    let mut out: Vec<String> = Vec::new();
    let mut i: usize = 0;
    assert(texts(out@) =~= texts_among(all.take(0)));
    while i < items.len()
        invariant
            0 <= i <= items@.len(),
            all == values_data(items@),
            texts(out@) == texts_among(all.take(i as int)),
        decreases items@.len() - i,
    {
        assert(all.take(i + 1).drop_last() =~= all.take(i as int));
        assert(all.take(i + 1).last() == items@[i as int]@);
        match items[i].as_str() {
            Some(s) => {
                let ghost before = texts(out@);
                out.push(owned(s));
                assert(texts(out@) =~= before.push(s@));
            },
            None => {},
        }
        i = i + 1;
    }
    assert(all.take(items@.len() as int) =~= all);
    out
}

pub fn texts_member_of(d: &JsonValue, key: &str) -> (res: Vec<String>)
    ensures
        texts(res@) == texts_member(d@, key@),
{
    match d.array_member(key) {
        Some(items) => texts_among_of(items),
        None => {
            let v: Vec<String> = Vec::new();
            assert(texts(v@) =~= Seq::<Seq<char>>::empty());
            v
        },
    }
}

/// The context tool a stored element describes: field parsing with the
/// stored object as its expected format and its `required_fields` texts.
pub open spec fn context_tool_matches(t: Option<ContextParse>, d: JsonData) -> bool {
    match d.object_at("context_tool"@) {
        Some(obj) => match t {
            Some(ContextParse::ParseFields { expected_format, required_fields }) => entries_data(expected_format@) == obj
                && texts(required_fields@) == texts_member(JsonData::Object(obj), "required_fields"@),
            _ => false,
        },
        None => t is None,
    }
}

/// The history tool a stored element describes: extraction at `index` along
/// the `field_path` texts, or the refusing tool when there is no index.
pub open spec fn history_tool_matches(t: Option<HistoryParse>, d: JsonData) -> bool {
    match d.object_at("history_tool"@) {
        Some(obj) => match JsonData::Object(obj).u64_at("index"@) {
            Some(i) => match t {
                Some(HistoryParse::ExtractField { index, field_path }) => index == i as usize
                    && texts(field_path@) == texts_member(JsonData::Object(obj), "field_path"@),
                _ => false,
            },
            None => t matches Some(HistoryParse::InvalidConfig),
        },
        None => t is None,
    }
}

fn context_tool_of(d: &JsonValue) -> (res: Option<ContextParse>)
    ensures
        context_tool_matches(res, d@),
{
    match d.object_member("context_tool") {
        Some(entries) => {
            let obj = JsonValue::object(crate::json::clone_entries(entries));
            let required_fields = texts_member_of(&obj, "required_fields");
            Some(ContextParse::ParseFields { expected_format: crate::json::clone_entries(entries), required_fields })
        },
        None => None,
    }
}

fn history_tool_of(d: &JsonValue) -> (res: Option<HistoryParse>)
    ensures
        history_tool_matches(res, d@),
{
    match d.object_member("history_tool") {
        Some(entries) => {
            let obj = JsonValue::object(crate::json::clone_entries(entries));
            match obj.u64_member("index") {
                Some(i) => {
                    let field_path = texts_member_of(&obj, "field_path");
                    #[verifier::truncate]
                    let index = i as usize;
                    Some(HistoryParse::ExtractField { index, field_path })
                },
                None => Some(HistoryParse::InvalidConfig),
            }
        },
        None => None,
    }
}

pub open spec fn node_kind_of(name: Seq<char>) -> Option<NodeAdapter> {
    if name == "OffChainConnector"@ {
        Some(NodeAdapter::OffChainConnector)
    } else if name == "OnChainConnector"@ {
        Some(NodeAdapter::OnChainConnector)
    } else if name == "Agent"@ {
        Some(NodeAdapter::Agent)
    } else {
        None
    }
}

pub open spec fn link_kind_of(name: Seq<char>) -> Option<LinkAdapter> {
    if name == "Evaluation"@ {
        Some(LinkAdapter::Evaluation)
    } else if name == "Condition"@ {
        Some(LinkAdapter::Condition)
    } else if name == "FHEGate"@ {
        Some(LinkAdapter::FHEGate)
    } else if name == "Listener"@ {
        Some(LinkAdapter::Listener)
    } else {
        None
    }
}

/// Why a stored node cannot be read, if it cannot.
pub open spec fn node_error(d: JsonData) -> Option<Seq<char>> {
    match d.str_at("adapter_type"@) {
        None => Some("Missing adapter_type"@),
        Some(t) => if node_kind_of(t) is None {
            Some("Invalid adapter_type"@)
        } else {
            None
        },
    }
}

pub open spec fn link_error(d: JsonData) -> Option<Seq<char>> {
    match d.str_at("adapter_type"@) {
        None => Some("Missing adapter_type"@),
        Some(t) => if link_kind_of(t) is None {
            Some("Invalid adapter_type"@)
        } else {
            None
        },
    }
}

/// The node a readable stored node gives.
pub open spec fn node_read(n: WorkflowNode, d: JsonData) -> bool {
    &&& n.id@ == hex_member(d, "id"@)
    &&& n.adapter_id@ == hex_member(d, "adapter_id"@)
    &&& Some(n.adapter_type) == node_kind_of(d.str_at("adapter_type"@).unwrap())
    &&& n.repetitions == u32_member(d, "repetitions"@)
    &&& opt_data(n.context) == d.get("context"@)
    &&& crate::execution::opt_text(n.description) == d.str_at("description"@)
    &&& context_tool_matches(n.context_tool, d)
    &&& history_tool_matches(n.history_tool, d)
}

pub open spec fn link_read(l: WorkflowLink, d: JsonData) -> bool {
    let target = hex_member(d, "target"@);
    &&& l.id@ == hex_member(d, "id"@)
    &&& l.adapter_id@ == hex_member(d, "adapter_id"@)
    &&& Some(l.adapter_type) == link_kind_of(d.str_at("adapter_type"@).unwrap())
    &&& l.repetitions == u32_member(d, "repetitions"@)
    &&& opt_data(l.context) == d.get("context"@)
    &&& crate::execution::opt_text(l.description) == d.str_at("description"@)
    &&& match l.target {
        Some(t) => d.str_at("target"@) is Some && t.true_target_id@ == target && t.false_target_id@ == target
            && (t.generated_target_id matches Some(g) && g@ == target),
        None => d.str_at("target"@) is None,
    }
    &&& context_tool_matches(l.context_tool, d)
    &&& history_tool_matches(l.history_tool, d)
}

/// Reads one stored node.
pub fn read_node(d: &JsonValue) -> (res: Result<WorkflowNode, String>)
    ensures
        match res {
            Ok(n) => node_error(d@) is None && node_read(n, d@),
            Err(e) => node_error(d@) == Some(e@),
        },
{
    let adapter_type = match d.str_member("adapter_type") {
        None => return Err(owned("Missing adapter_type")),
        Some(t) => {
            if crate::text::str_eq(t, "OffChainConnector") {
                NodeAdapter::OffChainConnector
            } else if crate::text::str_eq(t, "OnChainConnector") {
                NodeAdapter::OnChainConnector
            } else if crate::text::str_eq(t, "Agent") {
                NodeAdapter::Agent
            } else {
                return Err(owned("Invalid adapter_type"));
            }
        },
    };
    let context = match d.get("context") {
        Some(v) => Some(v.deep_clone()),
        None => None,
    };
    Ok(
        WorkflowNode {
            id: hex_member_of(d, "id"),
            adapter_id: hex_member_of(d, "adapter_id"),
            adapter_type,
            context,
            repetitions: u32_member_of(d, "repetitions"),
            description: text_member_of(d, "description"),
            context_tool: context_tool_of(d),
            history_tool: history_tool_of(d),
        },
    )
}

/// Reads one stored link; its target, when stored, serves as the target for
/// every answer.
pub fn read_link(d: &JsonValue) -> (res: Result<WorkflowLink, String>)
    ensures
        match res {
            Ok(l) => link_error(d@) is None && link_read(l, d@),
            Err(e) => link_error(d@) == Some(e@),
        },
{
    let adapter_type = match d.str_member("adapter_type") {
        None => return Err(owned("Missing adapter_type")),
        Some(t) => {
            if crate::text::str_eq(t, "Evaluation") {
                LinkAdapter::Evaluation
            } else if crate::text::str_eq(t, "Condition") {
                LinkAdapter::Condition
            } else if crate::text::str_eq(t, "FHEGate") {
                LinkAdapter::FHEGate
            } else if crate::text::str_eq(t, "Listener") {
                LinkAdapter::Listener
            } else {
                return Err(owned("Invalid adapter_type"));
            }
        },
    };
    let context = match d.get("context") {
        Some(v) => Some(v.deep_clone()),
        None => None,
    };
    let target = match d.str_member("target") {
        Some(_) => {
            let decoded = hex_member_of(d, "target");
            Some(
                LinkTarget {
                    true_target_id: crate::json::clone_bytes(&decoded),
                    false_target_id: crate::json::clone_bytes(&decoded),
                    generated_target_id: Some(decoded),
                },
            )
        },
        None => None,
    };
    Ok(
        WorkflowLink {
            id: hex_member_of(d, "id"),
            adapter_id: hex_member_of(d, "adapter_id"),
            adapter_type,
            repetitions: u32_member_of(d, "repetitions"),
            context,
            target,
            description: text_member_of(d, "description"),
            context_tool: context_tool_of(d),
            history_tool: history_tool_of(d),
        },
    )
}

fn find_node_in(nodes: &Vec<WorkflowNode>, id: &[u8]) -> (res: Option<usize>)
    ensures
        match res {
            Some(k) => find_node_from(nodes@, id@, 0) == Some(k as int) && k < nodes@.len(),
            None => find_node_from(nodes@, id@, 0) is None,
        },
{
    let mut i: usize = 0;
    while i < nodes.len()
        invariant
            0 <= i <= nodes@.len(),
            find_node_from(nodes@, id@, 0) == find_node_from(nodes@, id@, i as int),
        decreases nodes@.len() - i,
    {
        if bytes_eq(nodes[i].id.as_slice(), id) {
            return Some(i);
        }
        i = i + 1;
    }
    None
}

fn find_link_in(links: &Vec<WorkflowLink>, id: &[u8]) -> (res: Option<usize>)
    ensures
        match res {
            Some(k) => find_link_from(links@, id@, 0) == Some(k as int) && k < links@.len(),
            None => find_link_from(links@, id@, 0) is None,
        },
{
    let mut i: usize = 0;
    while i < links.len()
        invariant
            0 <= i <= links@.len(),
            find_link_from(links@, id@, 0) == find_link_from(links@, id@, i as int),
        decreases links@.len() - i,
    {
        if bytes_eq(links[i].id.as_slice(), id) {
            return Some(i);
        }
        i = i + 1;
    }
    None
}

/// The first stored element, from position `i` on, that cannot be read, as the error it gives.
pub open spec fn first_node_error(items: Seq<JsonData>, i: int) -> Option<Seq<char>>
    decreases items.len() - i,
{
    if i < 0 || i >= items.len() {
        None
    } else if node_error(items[i]) is Some {
        node_error(items[i])
    } else {
        first_node_error(items, i + 1)
    }
}

pub open spec fn first_link_error(items: Seq<JsonData>, i: int) -> Option<Seq<char>>
    decreases items.len() - i,
{
    if i < 0 || i >= items.len() {
        None
    } else if link_error(items[i]) is Some {
        link_error(items[i])
    } else {
        first_link_error(items, i + 1)
    }
}

/// `x` is read from a stored element before position `n` whose id no later one
/// before `n` has.
pub open spec fn last_node_read(x: WorkflowNode, items: Seq<JsonData>, n: int) -> bool {
    exists|i: int|
        0 <= i < n && #[trigger] node_read(x, items[i]) && forall|j: int|
            i < j < n ==> hex_member(#[trigger] items[j], "id"@) != x.id@
}

/// The nodes read from the first `n` stored nodes, one per id: each is read
/// from the last stored node with its id, and every stored id has its node.
pub open spec fn stored_nodes(ns: Seq<WorkflowNode>, items: Seq<JsonData>, n: int) -> bool {
    &&& node_ids(ns).no_duplicates()
    &&& forall|k: int| 0 <= k < ns.len() ==> #[trigger] last_node_read(ns[k], items, n)
    &&& forall|i: int| 0 <= i < n ==> exists|k: int| 0 <= k < ns.len() && #[trigger] ns[k].id@ == hex_member(#[trigger] items[i], "id"@)
}

/// `x` is read from a stored element before position `n` whose id no later one
/// before `n` has.
pub open spec fn last_link_read(x: WorkflowLink, items: Seq<JsonData>, n: int) -> bool {
    exists|i: int|
        0 <= i < n && #[trigger] link_read(x, items[i]) && forall|j: int|
            i < j < n ==> hex_member(#[trigger] items[j], "id"@) != x.id@
}

/// The ids of the links, in order.
pub open spec fn lids(ls: Seq<WorkflowLink>) -> Seq<Seq<u8>> {
    Seq::new(ls.len(), |k: int| ls[k].id@)
}

pub open spec fn stored_links(ls: Seq<WorkflowLink>, items: Seq<JsonData>, n: int) -> bool {
    &&& lids(ls).no_duplicates()
    &&& forall|k: int| 0 <= k < ls.len() ==> #[trigger] last_link_read(ls[k], items, n)
    &&& forall|i: int| 0 <= i < n ==> exists|k: int| 0 <= k < ls.len() && #[trigger] ls[k].id@ == hex_member(#[trigger] items[i], "id"@)
}

/// Reads the stored nodes of a workflow: nothing unless `data` is an array;
/// refused at the first node that cannot be read; a later node under an id
/// replaces an earlier one.
#[verifier::loop_isolation(false)]
pub fn build_nodes(data: &JsonValue) -> (res: Result<Vec<WorkflowNode>, String>)
    ensures
        match data@.as_array() {
            None => res matches Ok(ns) && ns@.len() == 0,
            Some(items) => match first_node_error(items, 0) {
                Some(e) => res matches Err(m) && m@ == e,
                None => res matches Ok(ns) && stored_nodes(ns@, items, items.len() as int),
            },
        },
{
    let mut nodes: Vec<WorkflowNode> = Vec::new();
    let items = match data.as_array() {
        Some(items) => items,
        None => return Ok(nodes),
    };
    let ghost iv = values_data(items@);
    let mut i: usize = 0;
    assert(node_ids(nodes@).no_duplicates());
    while i < items.len()
        invariant
            0 <= i <= items@.len(),
            iv == values_data(items@),
            first_node_error(iv, 0) == first_node_error(iv, i as int),
            stored_nodes(nodes@, iv, i as int),
        decreases items@.len() - i,
    {
        assert(iv[i as int] == items@[i as int]@);
        let node = match read_node(&items[i]) {
            Ok(n) => n,
            Err(e) => return Err(e),
        };
        let ghost ns0 = nodes@;
        let ghost x = node.id@;
        proof { lemma_find_node(ns0, x, 0); }
        match find_node_in(&nodes, node.id.as_slice()) {
            Some(k) => {
                nodes.set(k, node);
                proof {
                    let ns = nodes@;
                    assert(node_ids(ns) =~= node_ids(ns0));
                    assert forall|k2: int| 0 <= k2 < ns.len() implies #[trigger] last_node_read(ns[k2], iv, i + 1) by {
                        if k2 == k {
                            assert(node_read(ns[k2], iv[i as int]));
                            assert(forall|j: int| i < j < i + 1 ==> hex_member(#[trigger] iv[j], "id"@) != ns[k2].id@);
                        } else {
                            assert(ns[k2] == ns0[k2]);
                            assert(node_ids(ns0)[k2] != node_ids(ns0)[k as int]);
                            assert(last_node_read(ns0[k2], iv, i as int));
                            let i2 = choose|i2: int|
                                0 <= i2 < i && #[trigger] node_read(ns0[k2], iv[i2]) && forall|j: int|
                                    i2 < j < i ==> hex_member(#[trigger] iv[j], "id"@) != ns0[k2].id@;
                            assert(hex_member(iv[i as int], "id"@) == x);
                            assert(forall|j: int| i2 < j < i + 1 ==> hex_member(#[trigger] iv[j], "id"@) != ns[k2].id@);
                        }
                    }
                    assert forall|i2: int| 0 <= i2 < i + 1 implies exists|k2: int| 0 <= k2 < ns.len() && #[trigger] ns[k2].id@ == hex_member(#[trigger] iv[i2], "id"@) by {
                        if i2 < i {
                            let k2 = choose|k2: int| 0 <= k2 < ns0.len() && #[trigger] ns0[k2].id@ == hex_member(#[trigger] iv[i2], "id"@);
                            assert(ns[k2].id@ == ns0[k2].id@) by {
                                if k2 != k {
                                    assert(ns[k2] == ns0[k2]);
                                }
                            }
                        } else {
                            assert(ns[k as int].id@ == hex_member(iv[i2], "id"@));
                        }
                    }
                }
            },
            None => {
                nodes.push(node);
                proof {
                    let ns = nodes@;
                    assert(node_ids(ns) =~= node_ids(ns0).push(x));
                    assert forall|k2: int| 0 <= k2 < ns0.len() implies #[trigger] node_ids(ns0)[k2] != x by {
                        assert(ns0[k2].id@ != x);
                    }
                    assert forall|k2: int| 0 <= k2 < ns.len() implies #[trigger] last_node_read(ns[k2], iv, i + 1) by {
                        if k2 == ns0.len() {
                            assert(node_read(ns[k2], iv[i as int]));
                            assert(forall|j: int| i < j < i + 1 ==> hex_member(#[trigger] iv[j], "id"@) != ns[k2].id@);
                        } else {
                            assert(ns[k2] == ns0[k2]);
                            assert(ns0[k2].id@ != x);
                            assert(last_node_read(ns0[k2], iv, i as int));
                            let i2 = choose|i2: int|
                                0 <= i2 < i && #[trigger] node_read(ns0[k2], iv[i2]) && forall|j: int|
                                    i2 < j < i ==> hex_member(#[trigger] iv[j], "id"@) != ns0[k2].id@;
                            assert(hex_member(iv[i as int], "id"@) == x);
                            assert(forall|j: int| i2 < j < i + 1 ==> hex_member(#[trigger] iv[j], "id"@) != ns[k2].id@);
                        }
                    }
                    assert forall|i2: int| 0 <= i2 < i + 1 implies exists|k2: int| 0 <= k2 < ns.len() && #[trigger] ns[k2].id@ == hex_member(#[trigger] iv[i2], "id"@) by {
                        if i2 < i {
                            let k2 = choose|k2: int| 0 <= k2 < ns0.len() && #[trigger] ns0[k2].id@ == hex_member(#[trigger] iv[i2], "id"@);
                            assert(ns[k2] == ns0[k2]);
                        } else {
                            assert(ns[ns0.len() as int].id@ == hex_member(iv[i2], "id"@));
                        }
                    }
                }
            },
        }
        i = i + 1;
    }
    Ok(nodes)
}

/// Reads the stored links of a workflow: nothing unless `data` is an array;
/// refused at the first link that cannot be read; a later link under an id
/// replaces an earlier one.
#[verifier::loop_isolation(false)]
pub fn build_links(data: &JsonValue) -> (res: Result<Vec<WorkflowLink>, String>)
    ensures
        match data@.as_array() {
            None => res matches Ok(ns) && ns@.len() == 0,
            Some(items) => match first_link_error(items, 0) {
                Some(e) => res matches Err(m) && m@ == e,
                None => res matches Ok(ns) && stored_links(ns@, items, items.len() as int),
            },
        },
{
    let mut links: Vec<WorkflowLink> = Vec::new();
    let items = match data.as_array() {
        Some(items) => items,
        None => return Ok(links),
    };
    let ghost iv = values_data(items@);
    let mut i: usize = 0;
    assert(lids(links@).no_duplicates());
    while i < items.len()
        invariant
            0 <= i <= items@.len(),
            iv == values_data(items@),
            first_link_error(iv, 0) == first_link_error(iv, i as int),
            stored_links(links@, iv, i as int),
        decreases items@.len() - i,
    {
        assert(iv[i as int] == items@[i as int]@);
        let link = match read_link(&items[i]) {
            Ok(n) => n,
            Err(e) => return Err(e),
        };
        let ghost ns0 = links@;
        let ghost x = link.id@;
        proof { lemma_find_link(ns0, x, 0); }
        match find_link_in(&links, link.id.as_slice()) {
            Some(k) => {
                links.set(k, link);
                proof {
                    let ns = links@;
                    assert(lids(ns) =~= lids(ns0));
                    assert forall|k2: int| 0 <= k2 < ns.len() implies #[trigger] last_link_read(ns[k2], iv, i + 1) by {
                        if k2 == k {
                            assert(link_read(ns[k2], iv[i as int]));
                            assert(forall|j: int| i < j < i + 1 ==> hex_member(#[trigger] iv[j], "id"@) != ns[k2].id@);
                        } else {
                            assert(ns[k2] == ns0[k2]);
                            assert(lids(ns0)[k2] != lids(ns0)[k as int]);
                            assert(last_link_read(ns0[k2], iv, i as int));
                            let i2 = choose|i2: int|
                                0 <= i2 < i && #[trigger] link_read(ns0[k2], iv[i2]) && forall|j: int|
                                    i2 < j < i ==> hex_member(#[trigger] iv[j], "id"@) != ns0[k2].id@;
                            assert(hex_member(iv[i as int], "id"@) == x);
                            assert(forall|j: int| i2 < j < i + 1 ==> hex_member(#[trigger] iv[j], "id"@) != ns[k2].id@);
                        }
                    }
                    assert forall|i2: int| 0 <= i2 < i + 1 implies exists|k2: int| 0 <= k2 < ns.len() && #[trigger] ns[k2].id@ == hex_member(#[trigger] iv[i2], "id"@) by {
                        if i2 < i {
                            let k2 = choose|k2: int| 0 <= k2 < ns0.len() && #[trigger] ns0[k2].id@ == hex_member(#[trigger] iv[i2], "id"@);
                            assert(ns[k2].id@ == ns0[k2].id@) by {
                                if k2 != k {
                                    assert(ns[k2] == ns0[k2]);
                                }
                            }
                        } else {
                            assert(ns[k as int].id@ == hex_member(iv[i2], "id"@));
                        }
                    }
                }
            },
            None => {
                links.push(link);
                proof {
                    let ns = links@;
                    assert(lids(ns) =~= lids(ns0).push(x));
                    assert forall|k2: int| 0 <= k2 < ns0.len() implies #[trigger] lids(ns0)[k2] != x by {
                        assert(ns0[k2].id@ != x);
                    }
                    assert forall|k2: int| 0 <= k2 < ns.len() implies #[trigger] last_link_read(ns[k2], iv, i + 1) by {
                        if k2 == ns0.len() {
                            assert(link_read(ns[k2], iv[i as int]));
                            assert(forall|j: int| i < j < i + 1 ==> hex_member(#[trigger] iv[j], "id"@) != ns[k2].id@);
                        } else {
                            assert(ns[k2] == ns0[k2]);
                            assert(ns0[k2].id@ != x);
                            assert(last_link_read(ns0[k2], iv, i as int));
                            let i2 = choose|i2: int|
                                0 <= i2 < i && #[trigger] link_read(ns0[k2], iv[i2]) && forall|j: int|
                                    i2 < j < i ==> hex_member(#[trigger] iv[j], "id"@) != ns0[k2].id@;
                            assert(hex_member(iv[i as int], "id"@) == x);
                            assert(forall|j: int| i2 < j < i + 1 ==> hex_member(#[trigger] iv[j], "id"@) != ns[k2].id@);
                        }
                    }
                    assert forall|i2: int| 0 <= i2 < i + 1 implies exists|k2: int| 0 <= k2 < ns.len() && #[trigger] ns[k2].id@ == hex_member(#[trigger] iv[i2], "id"@) by {
                        if i2 < i {
                            let k2 = choose|k2: int| 0 <= k2 < ns0.len() && #[trigger] ns0[k2].id@ == hex_member(#[trigger] iv[i2], "id"@);
                            assert(ns[k2] == ns0[k2]);
                        } else {
                            assert(ns[ns0.len() as int].id@ == hex_member(iv[i2], "id"@));
                        }
                    }
                }
            },
        }
        i = i + 1;
    }
    Ok(links)
}

/// The point in time a text gives (`DateTime::<Utc>` `FromStr` in chrono), as
/// seconds since the epoch and nanoseconds.
pub uninterp spec fn parsed_utc(text: Seq<char>) -> Option<(i64, u32)>;

/// Parses a point in time with chrono's `DateTime::<Utc>` `FromStr`; trusted
/// to depend on the text alone.
#[verifier::external_body]
fn parse_utc(text: &str) -> (res: Option<Timestamp>)
    ensures
        match res {
            Some(t) => parsed_utc(text@) == Some((t.secs, t.nanos)),
            None => parsed_utc(text@) is None,
        },
{
    text.parse::<chrono::DateTime<chrono::Utc>>().ok().map(|d| Timestamp { secs: d.timestamp(), nanos: d.timestamp_subsec_nanos() })
}

/// The history entry a stored entry gives: its element id, its type
/// (`Unknown` when missing), its result, its time (`now` when missing or
/// unreadable) and its description.
pub open spec fn history_read(h: ExecutionHistory, d: JsonData, now: Timestamp) -> bool {
    &&& h.element_id@ == hex_member(d, "element_id"@)
    &&& h.element_type@ == match d.str_at("element_type"@) {
        Some(t) => t,
        None => "Unknown"@,
    }
    &&& opt_data(h.result) == d.get("result"@)
    &&& h.timestamp == match d.str_at("timestamp"@) {
        Some(t) => match parsed_utc(t) {
            Some((secs, nanos)) => Timestamp { secs, nanos },
            None => now,
        },
        None => now,
    }
    &&& opt_text(h.description) == d.str_at("description"@)
}

/// Reads a stored run history: nothing unless `data` is an array; one entry per item.
pub fn build_execution_history(data: &JsonValue, now: Timestamp) -> (res: Vec<ExecutionHistory>)
    ensures
        match data@.as_array() {
            None => res@.len() == 0,
            Some(items) => res@.len() == items.len() && forall|k: int| 0 <= k < items.len() ==> history_read(#[trigger] res@[k], items[k], now),
        },
{
    let mut out: Vec<ExecutionHistory> = Vec::new();
    let items = match data.as_array() {
        Some(items) => items,
        None => return out,
    };
    let ghost iv = values_data(items@);
    let mut i: usize = 0;
    while i < items.len()
        invariant
            0 <= i <= items@.len(),
            iv == values_data(items@),
            out@.len() == i,
            forall|k: int| 0 <= k < i ==> history_read(#[trigger] out@[k], iv[k], now),
        decreases items@.len() - i,
    {
        let item = &items[i];
        assert(iv[i as int] == item@);
        let element_type = match item.str_member("element_type") {
            Some(t) => owned(t),
            None => owned("Unknown"),
        };
        let result = match item.get("result") {
            Some(v) => Some(v.deep_clone()),
            None => None,
        };
        let timestamp = match item.str_member("timestamp") {
            Some(t) => match parse_utc(t) {
                Some(ts) => ts,
                None => now,
            },
            None => now,
        };
        out.push(
            ExecutionHistory {
                element_id: hex_member_of(item, "element_id"),
                element_type,
                result,
                description: text_member_of(item, "description"),
                timestamp,
            },
        );
        i = i + 1;
    }
    out
}

/// The SHA-256 digest of some bytes.
pub uninterp spec fn sha256_digest(data: Seq<u8>) -> Seq<u8>;

/// Hashes bytes with `sha2::Sha256`; trusted to depend on the bytes alone and
/// to give the 32 bytes of the digest.
#[verifier::external_body]
fn sha256(data: &[u8]) -> (res: Vec<u8>)
    ensures
        res@ == sha256_digest(data@),
        res@.len() == 32,
{
    <sha2::Sha256 as sha2::Digest>::digest(data).to_vec()
}

/// The clock, in nanoseconds since the epoch (`Utc::now().timestamp_nanos_opt()`
/// in chrono); nothing past the year 2262.
#[verifier::external_body]
fn now_nanos() -> (res: Option<i64>) {
    chrono::Utc::now().timestamp_nanos_opt()
}

/// Four random bytes from the thread's generator (`rand::thread_rng`).
#[verifier::external_body]
fn random_four_bytes() -> (res: [u8; 4]) {
    rand::Rng::gen::<[u8; 4]>(&mut rand::thread_rng())
}

/// The eight bytes of a number, most significant first (two's complement).
pub open spec fn be_bytes(n: i64) -> Seq<u8> {
    let v = n as u64;
    seq![(v >> 56u64) as u8, (v >> 48u64) as u8, (v >> 40u64) as u8, (v >> 32u64) as u8,
        (v >> 24u64) as u8, (v >> 16u64) as u8, (v >> 8u64) as u8, v as u8]
}

/// An id: the time in nanoseconds (eight bytes), four random bytes, and the
/// first eight bytes of the SHA-256 of the owner's address.
pub open spec fn unique_id_bytes(nanos: i64, random: Seq<u8>, address: Seq<u8>) -> Seq<u8> {
    be_bytes(nanos) + random + sha256_digest(address).take(8)
}

/// Puts an id together from a time, random bytes and the owner's address.
pub fn unique_id_from(nanos: i64, random: [u8; 4], address: &Address) -> (res: Vec<u8>)
    ensures
        res@ == unique_id_bytes(nanos, random@, address@),
        res@.len() == 20,
{
    #[verifier::truncate]
    let v = nanos as u64;
    let mut out: Vec<u8> = Vec::new();
    #[verifier::truncate]
    let b0 = (v >> 56u64) as u8;
    #[verifier::truncate]
    let b1 = (v >> 48u64) as u8;
    #[verifier::truncate]
    let b2 = (v >> 40u64) as u8;
    #[verifier::truncate]
    let b3 = (v >> 32u64) as u8;
    #[verifier::truncate]
    let b4 = (v >> 24u64) as u8;
    #[verifier::truncate]
    let b5 = (v >> 16u64) as u8;
    #[verifier::truncate]
    let b6 = (v >> 8u64) as u8;
    #[verifier::truncate]
    let b7 = v as u8;
    out.push(b0);
    out.push(b1);
    out.push(b2);
    out.push(b3);
    out.push(b4);
    out.push(b5);
    out.push(b6);
    out.push(b7);
    out.push(random[0]);
    out.push(random[1]);
    out.push(random[2]);
    out.push(random[3]);
    let digest = sha256(address.as_slice());
    let mut k: usize = 0;
    while k < 8
        invariant
            0 <= k <= 8,
            digest@.len() == 32,
            out@ == be_bytes(nanos) + random@ + digest@.take(k as int),
        decreases 8 - k,
    {
        out.push(digest[k]);
        k = k + 1;
        assert(digest@.take(k as int) =~= digest@.take(k - 1).push(digest@[k - 1]));
    }
    proof {
        assert(random@.len() == 4);
    }
    out
}

/// A fresh id for an element of the owner with this address; nothing when the
/// clock cannot be read in nanoseconds.
pub fn generate_unique_id(address: &Address) -> (res: Option<Vec<u8>>)
    ensures
        match res {
            Some(id) => id@.len() == 20 && exists|nanos: i64, random: Seq<u8>|
                random.len() == 4 && id@ == #[trigger] unique_id_bytes(nanos, random, address@),
            None => true,
        },
{
    let nanos = match now_nanos() {
        Some(n) => n,
        None => return None,
    };
    let random = random_four_bytes();
    let id = unique_id_from(nanos, random, address);
    assert(random@.len() == 4);
    Some(id)
}

/// Whether an id is one made for the owner with this address: twenty bytes,
/// a time, four random bytes and the digest of the address.
pub open spec fn owner_id(id: Seq<u8>, address: Seq<u8>) -> bool {
    &&& id.len() == 20
    &&& exists|nanos: i64, random: Seq<u8>| random.len() == 4 && id == #[trigger] unique_id_bytes(nanos, random, address)
}

/// A fresh id for a new adapter of the owner with this address; refused when
/// the clock cannot be read in nanoseconds.
pub fn fresh_id(address: &Address) -> (res: Result<Vec<u8>, String>)
    ensures
        match res {
            Ok(id) => owner_id(id@, address@),
            Err(e) => e@ == "Invalid timestamp"@,
        },
{
    match generate_unique_id(address) {
        Some(id) => Ok(id),
        None => Err(owned("Invalid timestamp")),
    }
}

/// A value for a contract call's parameter: an unsigned integer or a string.
pub enum TokenValue {
    Uint(u64),
    Text(String),
}

/// The parameter a JSON value gives: a non-negative integer or a string;
/// anything else is refused.
pub fn convert_value_to_token(value: &JsonValue) -> (res: Result<TokenValue, String>)
    ensures
        match res {
            Ok(TokenValue::Uint(n)) => value@.as_u64() == Some(n),
            Ok(TokenValue::Text(s)) => value@.as_u64() is None && value@.as_str() == Some(s@),
            Err(e) => value@.as_u64() is None && value@.as_str() is None && e@ == "Unsupported parameter type"@,
        },
{
    match value.as_u64() {
        Some(n) => Ok(TokenValue::Uint(n)),
        None => match value.as_str() {
            Some(s) => Ok(TokenValue::Text(owned(s))),
            None => Err(owned("Unsupported parameter type")),
        },
    }
}

/// The floating-point settings of a stored model, as read from its metadata
/// (each from its member when it is a number, else its default).
pub struct ModelFloats {
    pub temperature: FloatParam,
    pub top_p: FloatParam,
    pub frequency_penalty: FloatParam,
    pub presence_penalty: FloatParam,
}

pub open spec fn text_or_empty(d: JsonData, key: Seq<char>) -> Seq<char> {
    match d.str_at(key) {
        Some(t) => t,
        None => Seq::empty(),
    }
}

/// A non-negative integer member cut to 32 bits, or the default.
pub open spec fn u32_or(d: JsonData, key: Seq<char>, default: u64) -> u32 {
    match d.u64_at(key) {
        Some(n) => n as u32,
        None => default as u32,
    }
}

pub open spec fn opt_u32_cut(d: JsonData, key: Seq<char>) -> Option<u32> {
    match d.u64_at(key) {
        Some(n) => Some(n as u32),
        None => None,
    }
}

pub open spec fn opt_texts(d: JsonData, key: Seq<char>) -> Option<Seq<Seq<char>>> {
    match d.array_at(key) {
        Some(items) => Some(texts_among(items)),
        None => None,
    }
}

pub open spec fn opt_strings_view(v: Option<Vec<String>>) -> Option<Seq<Seq<char>>> {
    match v {
        Some(x) => Some(texts(x@)),
        None => None,
    }
}

/// The non-negative integers among `items`, each cut to 32 bits, in order.
pub open spec fn u32s_among(items: Seq<JsonData>) -> Seq<u32>
    decreases items.len(),
{
    if items.len() == 0 {
        Seq::empty()
    } else {
        let rest = u32s_among(items.drop_last());
        match items.last().as_u64() {
            Some(n) => rest.push(n as u32),
            None => rest,
        }
    }
}

/// The model that stored metadata describes, by its `model_type`: OpenAI,
/// Anthropic and Ollama read their settings (with defaults), any other type a
/// configured service with its `url`, `result_path`, `result_type` and, when
/// given, `api_key`.
pub open spec fn model_read(m: LLMModel, d: JsonData, f: ModelFloats) -> bool {
    let t = d.str_at("model_type"@).unwrap();
    if t == "OpenAI"@ {
        match m {
            LLMModel::OpenAI {
                api_key, model, temperature, max_completion_tokens, top_p, frequency_penalty, presence_penalty,
                system_prompt, store, metadata, logit_bias, logprobs, top_logprobs, modalities, stop,
                response_format, stream, parallel_tool_calls, user,
            } => {
                &&& api_key@ == text_or_empty(d, "api_key"@)
                &&& model@ == text_or_empty(d, "model"@)
                &&& temperature == f.temperature
                &&& max_completion_tokens == u32_or(d, "max_completion_tokens"@, 1000)
                &&& top_p == f.top_p
                &&& frequency_penalty == f.frequency_penalty
                &&& presence_penalty == f.presence_penalty
                &&& opt_text(system_prompt) == d.str_at("system_prompt"@)
                &&& store == d.bool_at("store"@)
                &&& opt_data(metadata) == d.get("metadata"@)
                &&& opt_data(logit_bias) == d.get("logit_bias"@)
                &&& logprobs == d.bool_at("logprobs"@)
                &&& top_logprobs == opt_u32_cut(d, "top_logprobs"@)
                &&& opt_strings_view(modalities) == opt_texts(d, "modalities"@)
                &&& opt_strings_view(stop) == opt_texts(d, "stop"@)
                &&& opt_data(response_format) == d.get("response_format"@)
                &&& stream == d.bool_at("stream"@)
                &&& parallel_tool_calls == d.bool_at("parallel_tool_calls"@)
                &&& opt_text(user) == d.str_at("user"@)
            },
            _ => false,
        }
    } else if t == "Anthropic"@ {
        match m {
            LLMModel::Anthropic {
                api_key, model, temperature, max_tokens, top_k, top_p, system_prompt, version,
                stop_sequences, stream, metadata, tool_choice, tools,
            } => {
                &&& api_key@ == text_or_empty(d, "api_key"@)
                &&& model@ == text_or_empty(d, "model"@)
                &&& temperature == f.temperature
                &&& max_tokens == u32_or(d, "max_tokens"@, 1000)
                &&& top_k == opt_u32_cut(d, "top_k"@)
                &&& top_p == f.top_p
                &&& opt_text(system_prompt) == d.str_at("system_prompt"@)
                &&& version@ == text_or_empty(d, "version"@)
                &&& opt_strings_view(stop_sequences) == opt_texts(d, "stop_sequences"@)
                &&& stream == d.bool_at("stream"@).unwrap_or(false)
                &&& opt_data(metadata) == d.get("metadata"@)
                &&& opt_data(tool_choice) == d.get("tool_choice"@)
                &&& match tools {
                    Some(v) => d.array_at("tools"@) == Some(values_data(v@)),
                    None => d.array_at("tools"@) is None,
                }
            },
            _ => false,
        }
    } else if t == "Ollama"@ {
        match m {
            LLMModel::Ollama {
                model, temperature, max_tokens, top_p, frequency_penalty, presence_penalty, format, suffix,
                system, template, context, stream, raw, keep_alive, options, images,
            } => {
                &&& model@ == text_or_empty(d, "model"@)
                &&& temperature == f.temperature
                &&& max_tokens == u32_or(d, "max_tokens"@, 1000)
                &&& top_p == f.top_p
                &&& frequency_penalty == f.frequency_penalty
                &&& presence_penalty == f.presence_penalty
                &&& opt_text(format) == d.str_at("format"@)
                &&& opt_text(suffix) == d.str_at("suffix"@)
                &&& opt_text(system) == d.str_at("system"@)
                &&& opt_text(template) == d.str_at("template"@)
                &&& match context {
                    Some(c) => d.array_at("context"@) matches Some(items) && c@ == u32s_among(items),
                    None => d.array_at("context"@) is None,
                }
                &&& stream == d.bool_at("stream"@)
                &&& raw == d.bool_at("raw"@)
                &&& opt_text(keep_alive) == d.str_at("keep_alive"@)
                &&& opt_data(options) == d.get("options"@)
                &&& opt_strings_view(images) == opt_texts(d, "images"@)
            },
            _ => false,
        }
    } else {
        match m {
            LLMModel::Other { config } => config@ == seq![
                ("url"@, text_or_empty(d, "url"@)),
                ("result_path"@, text_or_empty(d, "result_path"@)),
                ("result_type"@, text_or_empty(d, "result_type"@)),
            ] + match d.str_at("api_key"@) {
                Some(k) => seq![("api_key"@, k)],
                None => Seq::empty(),
            } + body_entry(d),
            _ => false,
        }
    }
}

/// The text of a JSON object whose members are these texts, in this order
/// (`serde_json`'s `Value::Object` of `Value::String`s, written by `to_string`).
pub uninterp spec fn json_object_text(members: Seq<(Seq<char>, Seq<char>)>) -> Seq<char>;

/// Writes a JSON object of text members (`serde_json::Map` collected from the
/// pairs, `Value::to_string`); trusted to depend on the pairs alone.
#[verifier::external_body]
fn object_text(members: &Vec<(String, String)>) -> (res: String)
    ensures
        res@ == json_object_text(crate::string_map::text_entries(members@)),
{
    let map: serde_json::Map<String, serde_json::Value> =
        members.iter().map(|(k, v)| (k.clone(), serde_json::Value::String(v.clone()))).collect();
    serde_json::Value::Object(map).to_string()
}

/// The members of a body object as texts: a member that is not a text counts
/// as the empty text.
pub open spec fn text_members(members: Seq<(Seq<char>, JsonData)>) -> Seq<(Seq<char>, Seq<char>)> {
    Seq::new(members.len(), |i: int| (members[i].0, match members[i].1 { JsonData::Str(t) => t, _ => Seq::empty() }))
}

/// The `body` entry a configured service gets from its description: the
/// description's `body` object, its members as texts, written as JSON; none
/// where there is no such object.
pub open spec fn body_entry(d: JsonData) -> Seq<(Seq<char>, Seq<char>)> {
    match d.get("body"@) {
        Some(JsonData::Object(members)) => seq![("body"@, json_object_text(text_members(members)))],
        _ => Seq::empty(),
    }
}

fn text_or_empty_of(d: &JsonValue, key: &str) -> (res: String)
    ensures
        res@ == text_or_empty(d@, key@),
{
    match d.str_member(key) {
        Some(t) => owned(t),
        None => String::new(),
    }
}

fn u32_or_of(d: &JsonValue, key: &str, default: u64) -> (res: u32)
    ensures
        res == u32_or(d@, key@, default),
{
    let n = match d.u64_member(key) {
        Some(n) => n,
        None => default,
    };
    #[verifier::truncate]
    let r = n as u32;
    r
}

fn opt_u32_cut_of(d: &JsonValue, key: &str) -> (res: Option<u32>)
    ensures
        res == opt_u32_cut(d@, key@),
{
    match d.u64_member(key) {
        Some(n) => {
            #[verifier::truncate]
            let r = n as u32;
            Some(r)
        },
        None => None,
    }
}

fn opt_texts_of(d: &JsonValue, key: &str) -> (res: Option<Vec<String>>)
    ensures
        opt_strings_view(res) == opt_texts(d@, key@),
{
    match d.array_member(key) {
        Some(items) => Some(texts_among_of(items)),
        None => None,
    }
}

fn opt_json_of(d: &JsonValue, key: &str) -> (res: Option<JsonValue>)
    ensures
        opt_data(res) == d@.get(key@),
{
    match d.get(key) {
        Some(v) => Some(v.deep_clone()),
        None => None,
    }
}

fn u32s_among_of(items: &Vec<JsonValue>) -> (res: Vec<u32>)
    ensures
        res@ == u32s_among(values_data(items@)),
{
    let ghost all = values_data(items@);
    let mut out: Vec<u32> = Vec::new();
    let mut i: usize = 0;
    assert(all.take(0) =~= Seq::<JsonData>::empty());
    while i < items.len()
        invariant
            0 <= i <= items@.len(),
            all == values_data(items@),
            out@ == u32s_among(all.take(i as int)),
        decreases items@.len() - i,
    {
        assert(all.take(i + 1).drop_last() =~= all.take(i as int));
        assert(all.take(i + 1).last() == items@[i as int]@);
        match items[i].as_u64() {
            Some(n) => {
                #[verifier::truncate]
                let r = n as u32;
                out.push(r);
            },
            None => {},
        }
        i = i + 1;
    }
    assert(all.take(items@.len() as int) =~= all);
    out
}

/// Reads a model from stored metadata; refused without a `model_type`.
#[verifier::rlimit(40)]
pub fn parse_llm_model(metadata: &JsonValue, floats: ModelFloats) -> (res: Result<LLMModel, String>)
    ensures
        match res {
            Ok(m) => metadata@.str_at("model_type"@) is Some && model_read(m, metadata@, floats),
            Err(e) => metadata@.str_at("model_type"@) is None && e@ == "Missing model_type"@,
        },
{
    let d = metadata;
    let model_type = match d.str_member("model_type") {
        Some(t) => t,
        None => return Err(owned("Missing model_type")),
    };
    let ModelFloats { temperature, top_p, frequency_penalty, presence_penalty } = floats;
    if crate::text::str_eq(model_type, "OpenAI") {
        Ok(LLMModel::OpenAI {
            api_key: text_or_empty_of(d, "api_key"),
            model: text_or_empty_of(d, "model"),
            temperature,
            max_completion_tokens: u32_or_of(d, "max_completion_tokens", 1000),
            top_p,
            frequency_penalty,
            presence_penalty,
            system_prompt: text_member_of(d, "system_prompt"),
            store: d.bool_member("store"),
            metadata: opt_json_of(d, "metadata"),
            logit_bias: opt_json_of(d, "logit_bias"),
            logprobs: d.bool_member("logprobs"),
            top_logprobs: opt_u32_cut_of(d, "top_logprobs"),
            modalities: opt_texts_of(d, "modalities"),
            stop: opt_texts_of(d, "stop"),
            response_format: opt_json_of(d, "response_format"),
            stream: d.bool_member("stream"),
            parallel_tool_calls: d.bool_member("parallel_tool_calls"),
            user: text_member_of(d, "user"),
        })
    } else if crate::text::str_eq(model_type, "Anthropic") {
        let tools = match d.array_member("tools") {
            Some(items) => Some(crate::json::clone_values(items)),
            None => None,
        };
        let stream = match d.bool_member("stream") {
            Some(b) => b,
            None => false,
        };
        Ok(LLMModel::Anthropic {
            api_key: text_or_empty_of(d, "api_key"),
            model: text_or_empty_of(d, "model"),
            temperature,
            max_tokens: u32_or_of(d, "max_tokens", 1000),
            top_k: opt_u32_cut_of(d, "top_k"),
            top_p,
            system_prompt: text_member_of(d, "system_prompt"),
            version: text_or_empty_of(d, "version"),
            stop_sequences: opt_texts_of(d, "stop_sequences"),
            stream,
            metadata: opt_json_of(d, "metadata"),
            tool_choice: opt_json_of(d, "tool_choice"),
            tools,
        })
    } else if crate::text::str_eq(model_type, "Ollama") {
        let context = match d.array_member("context") {
            Some(items) => Some(u32s_among_of(items)),
            None => None,
        };
        Ok(LLMModel::Ollama {
            model: text_or_empty_of(d, "model"),
            temperature,
            max_tokens: u32_or_of(d, "max_tokens", 1000),
            top_p,
            frequency_penalty,
            presence_penalty,
            format: text_member_of(d, "format"),
            suffix: text_member_of(d, "suffix"),
            system: text_member_of(d, "system"),
            template: text_member_of(d, "template"),
            context,
            stream: d.bool_member("stream"),
            raw: d.bool_member("raw"),
            keep_alive: text_member_of(d, "keep_alive"),
            options: opt_json_of(d, "options"),
            images: opt_texts_of(d, "images"),
        })
    } else {
        let mut entries: Vec<(String, String)> = Vec::new();
        entries.push((owned("url"), text_or_empty_of(d, "url")));
        entries.push((owned("result_path"), text_or_empty_of(d, "result_path")));
        entries.push((owned("result_type"), text_or_empty_of(d, "result_type")));
        match d.str_member("api_key") {
            Some(k) => entries.push((owned("api_key"), owned(k))),
            None => {},
        }
        let ghost head = text_entries(entries@);
        match d.get("body") {
            Some(JsonValue::Object(members)) => {
                proof { lemma_object_view(*members); }
                let ghost md = entries_data(members@);
                let mut pairs: Vec<(String, String)> = Vec::new();
                let mut i: usize = 0;
                while i < members.len()
                    invariant
                        0 <= i <= members@.len(),
                        md == entries_data(members@),
                        text_entries(pairs@) == text_members(md).take(i as int),
                    decreases members@.len() - i,
                {
                    let value = match members[i].1.as_str() {
                        Some(t) => owned(t),
                        None => String::new(),
                    };
                    assert(md[i as int] == (members@[i as int].0@, members@[i as int].1@));
                    assert(value@ == text_members(md)[i as int].1);
                    let ghost before = text_entries(pairs@);
                    pairs.push((members[i].0.clone(), value));
                    assert(text_entries(pairs@) =~= before.push(text_members(md)[i as int]));
                    assert(text_members(md).take(i + 1) =~= text_members(md).take(i as int).push(text_members(md)[i as int]));
                    i = i + 1;
                }
                assert(text_members(md).take(members@.len() as int) =~= text_members(md));
                entries.push((owned("body"), object_text(&pairs)));
            },
            _ => {},
        }
        let config = StringMap { entries };
        proof {
            assert(head =~= seq![
                ("url"@, text_or_empty(d@, "url"@)),
                ("result_path"@, text_or_empty(d@, "result_path"@)),
                ("result_type"@, text_or_empty(d@, "result_type"@)),
            ] + match d@.str_at("api_key"@) {
                Some(k) => seq![("api_key"@, k)],
                None => Seq::empty(),
            });
            assert(config@ =~= head + body_entry(d@));
        }
        Ok(LLMModel::Other { config })
    }
}

} // verus!
