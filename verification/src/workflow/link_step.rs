//! Running a link: what to check before the outside work, and where the run
//! goes after it.

use vstd::prelude::*;
use vstd::utf8::encode_utf8;
use crate::execution::{HistoryView, Timestamp};
use crate::json::{clone_bytes, clone_opt, opt_data, JsonData, JsonValue};
use crate::nibble::{contains_id, Adapter, Registry};
use crate::text::{hex_bytes, hex_decode, owned};
use crate::workflow::run::{entry, find_node_from, run_step_kept, same_but_history};
use crate::workflow::{byte_seqs, LinkAdapter, LinkTarget, Workflow, WorkflowLink, WorkflowNode};

verus! {

broadcast use {crate::workflow::run::lemma_appended_history_starts_alike, crate::workflow::run::lemma_pushed_history_starts_alike};

/// The outside work a link asks for, if any.
pub enum LinkPlan {
    /// Nothing to check: the step is over and yields nothing.
    Stop,
    CheckCondition { context: Option<JsonValue>, link_context: Option<JsonValue> },
    Listen { repetitions: Option<u64> },
    CheckFheGate { encrypted: Vec<u8>, criterion: Option<Vec<u8>>, client_key: Option<JsonValue> },
    Evaluate { context: Option<JsonValue>, interaction_id: Vec<u8> },
}

pub ghost enum LinkTask {
    Stop,
    Condition(Option<JsonData>, Option<JsonData>),
    Listen(Option<u64>),
    FheGate(Seq<u8>, Option<Seq<u8>>, Option<JsonData>),
    Evaluate(Option<JsonData>, Seq<u8>),
}

impl LinkPlan {
    pub open spec fn task(self) -> LinkTask {
        match self {
            LinkPlan::Stop => LinkTask::Stop,
            LinkPlan::CheckCondition { context, link_context } => LinkTask::Condition(
                opt_data(context),
                opt_data(link_context),
            ),
            LinkPlan::Listen { repetitions } => LinkTask::Listen(repetitions),
            LinkPlan::CheckFheGate { encrypted, criterion, client_key } => LinkTask::FheGate(
                encrypted@,
                match criterion {
                    Some(c) => Some(c@),
                    None => None,
                },
                opt_data(client_key),
            ),
            LinkPlan::Evaluate { context, interaction_id } => LinkTask::Evaluate(opt_data(context), interaction_id@),
        }
    }
}

pub open spec fn link_kind_name(a: LinkAdapter) -> Seq<char> {
    match a {
        LinkAdapter::Condition => "Condition"@,
        LinkAdapter::FHEGate => "FHEGate"@,
        LinkAdapter::Listener => "Listener"@,
        LinkAdapter::Evaluation => "Evaluation"@,
    }
}

/// The bytes of the non-negative integers among `items`, each cut to its low
/// eight bits, in order; other items are left out.
pub open spec fn low_bytes(items: Seq<JsonData>) -> Seq<u8>
    decreases items.len(),
{
    if items.len() == 0 {
        Seq::empty()
    } else {
        let rest = low_bytes(items.drop_last());
        match items.last().as_u64() {
            Some(n) => rest.push(n as u8),
            None => rest,
        }
    }
}

/// The interaction id an evaluation link's context gives: the low bytes of
/// its items when it is an array, empty otherwise.
pub open spec fn interaction_id_of(ctx: Option<JsonData>) -> Seq<u8> {
    match ctx {
        Some(v) => match v.as_array() {
            Some(items) => low_bytes(items),
            None => Seq::empty(),
        },
        None => Seq::empty(),
    }
}

/// The encrypted value an FHE gate reads: the incoming context as hexadecimal text.
pub open spec fn encrypted_of(context: Option<JsonData>) -> Option<Seq<u8>> {
    match context {
        Some(v) => match v.as_str() {
            Some(s) => hex_bytes(s),
            None => None,
        },
        None => None,
    }
}

pub open spec fn registered_for(a: LinkAdapter, r: Registry) -> Seq<Seq<u8>> {
    match a {
        LinkAdapter::Condition => byte_seqs(r.conditions@),
        LinkAdapter::FHEGate => byte_seqs(r.fhe_gates@),
        LinkAdapter::Listener => byte_seqs(r.listeners@),
        LinkAdapter::Evaluation => byte_seqs(r.evaluations@),
    }
}

/// What a link asks for, what it records first, and whether it fails the run:
/// an adapter the nibble lacks records a failure and stops the step (for a
/// listener this also fails the run); a condition is checked on the incoming
/// context and the link's own; a listener waits for as many events as the
/// link's context gives; an FHE gate needs the incoming context as
/// hexadecimal and a context of its own (criterion and client key); an
/// evaluation gets the incoming context and the interaction id.
pub open spec fn link_plan(link: WorkflowLink, registry: Registry, context: Option<JsonData>, at: Timestamp) -> (LinkTask, Seq<HistoryView>, bool) {
    let id = link.id@;
    let fail = seq![entry(id, link_kind_name(link.adapter_type), None, at)];
    if !registered_for(link.adapter_type, registry).contains(link.adapter_id@) {
        (LinkTask::Stop, fail, link.adapter_type == LinkAdapter::Listener)
    } else {
        match link.adapter_type {
            LinkAdapter::Condition => (LinkTask::Condition(context, opt_data(link.context)), Seq::empty(), false),
            LinkAdapter::Listener => (
                LinkTask::Listen(
                    match opt_data(link.context) {
                        Some(v) => v.as_u64(),
                        None => None,
                    },
                ),
                Seq::empty(),
                false,
            ),
            LinkAdapter::FHEGate => match encrypted_of(context) {
                Some(bytes) => match opt_data(link.context) {
                    Some(ctx) => (
                        LinkTask::FheGate(
                            bytes,
                            match ctx.str_at("criterion"@) {
                                Some(c) => Some(encode_utf8(c)),
                                None => None,
                            },
                            ctx.get("client_key"@),
                        ),
                        Seq::empty(),
                        false,
                    ),
                    None => (LinkTask::Stop, fail, false),
                },
                None => (LinkTask::Stop, fail, false),
            },
            LinkAdapter::Evaluation => (
                LinkTask::Evaluate(context, interaction_id_of(opt_data(link.context))),
                Seq::empty(),
                false,
            ),
        }
    }
}

/// What the outside work of a link gave.
pub enum LinkOutcome {
    /// A condition's or an FHE gate's answer.
    Decided(bool),
    /// An evaluation's answer.
    Evaluated(JsonValue),
    /// A listener's first event, if any, and whether its task failed.
    Heard { event: Option<JsonValue>, task_failed: bool },
    Failed,
}

pub ghost enum LinkResult {
    Decided(bool),
    Evaluated(JsonData),
    Heard(Option<JsonData>, bool),
    Failed,
}

impl LinkOutcome {
    pub open spec fn result(self) -> LinkResult {
        match self {
            LinkOutcome::Decided(b) => LinkResult::Decided(b),
            LinkOutcome::Evaluated(v) => LinkResult::Evaluated(v@),
            LinkOutcome::Heard { event, task_failed } => LinkResult::Heard(opt_data(event), task_failed),
            LinkOutcome::Failed => LinkResult::Failed,
        }
    }
}

/// Where a run goes after a link: on with a value (or stopped with none), or
/// into a target node with the link's context; the link's own result is then
/// what that node yields.
pub enum LinkNext {
    Done(Option<JsonValue>),
    Visit { node: usize, context: Option<JsonValue> },
}

pub ghost enum LinkMove {
    Done(Option<JsonData>),
    Visit(int, Option<JsonData>),
}

impl LinkNext {
    pub open spec fn step(self) -> LinkMove {
        match self {
            LinkNext::Done(v) => LinkMove::Done(opt_data(v)),
            LinkNext::Visit { node, context } => LinkMove::Visit(node as int, opt_data(context)),
        }
    }
}

/// The node a yes/no answer leads to.
pub open spec fn decided_target(t: LinkTarget, answer: bool) -> Seq<u8> {
    if answer {
        t.true_target_id@
    } else {
        t.false_target_id@
    }
}

/// The node an evaluation's answer leads to: by its truth when it is a
/// boolean, else the generated target, else the empty id.
pub open spec fn evaluated_target(t: LinkTarget, answer: JsonData) -> Seq<u8> {
    match answer.as_bool() {
        Some(b) => decided_target(t, b),
        None => match t.generated_target_id {
            Some(g) => g@,
            None => Seq::empty(),
        },
    }
}

/// Going to the node with the given id, or recording a failure when there is none.
pub open spec fn go_to(nodes: Seq<WorkflowNode>, next: Seq<u8>, context: Option<JsonData>, fail: HistoryView) -> (LinkMove, Seq<HistoryView>) {
    match find_node_from(nodes, next, 0) {
        Some(k) => (LinkMove::Visit(k, context), Seq::empty()),
        None => (LinkMove::Done(None), seq![fail]),
    }
}

/// Where a link sends the run once its work is done, what it records, and
/// whether it fails the run. A condition records its success first; with a
/// target it leads to the node its answer picks, without one a yes goes on
/// with a success message and a no stops. An FHE gate does the same without
/// the first record. A listener goes on with its event and fails the run
/// without one. An evaluation leads to the node its answer picks, or goes on
/// with the incoming context when it has no target. A failed check stops.
pub open spec fn link_finish(
    link: WorkflowLink,
    nodes: Seq<WorkflowNode>,
    context: Option<JsonData>,
    outcome: LinkResult,
    at: Timestamp,
) -> (LinkMove, Seq<HistoryView>, bool) {
    let id = link.id@;
    let kind = link_kind_name(link.adapter_type);
    let fail = entry(id, kind, None, at);
    match link.adapter_type {
        LinkAdapter::Condition => match outcome {
            LinkResult::Decided(r) => {
                let first = entry(id, kind, Some(JsonData::Str("Condition Success"@)), at);
                match link.target {
                    Some(t) => {
                        let (mv, pushed) = go_to(nodes, decided_target(t, r), context, fail);
                        (mv, seq![first] + pushed, false)
                    },
                    None => if r {
                        (LinkMove::Done(Some(JsonData::Str("Condition Success"@))), seq![first, first], false)
                    } else {
                        (LinkMove::Done(None), seq![first, fail], false)
                    },
                }
            },
            _ => (LinkMove::Done(None), seq![fail], false),
        },
        LinkAdapter::FHEGate => match outcome {
            LinkResult::Decided(r) => match link.target {
                Some(t) => {
                    let (mv, pushed) = go_to(nodes, decided_target(t, r), context, fail);
                    (mv, pushed, false)
                },
                None => if r {
                    (
                        LinkMove::Done(Some(JsonData::Str("FHE Gate Success"@))),
                        seq![entry(id, kind, Some(JsonData::Str("FHE Gate Success"@)), at)],
                        false,
                    )
                } else {
                    (LinkMove::Done(None), seq![fail], false)
                },
            },
            _ => (LinkMove::Done(None), seq![fail], false),
        },
        LinkAdapter::Listener => match outcome {
            LinkResult::Heard(event, task_failed) => {
                let after = if task_failed { seq![fail] } else { Seq::empty() };
                match event {
                    Some(e) => (LinkMove::Done(Some(e)), seq![entry(id, kind, Some(e), at)] + after, false),
                    None => (LinkMove::Done(None), seq![fail] + after, true),
                }
            },
            _ => (LinkMove::Done(None), seq![fail], true),
        },
        LinkAdapter::Evaluation => match outcome {
            LinkResult::Evaluated(answer) => match link.target {
                Some(t) => {
                    let (mv, pushed) = go_to(nodes, evaluated_target(t, answer), context, fail);
                    (mv, pushed, false)
                },
                None => (LinkMove::Done(context), seq![entry(id, kind, context, at)], false),
            },
            _ => (LinkMove::Done(None), seq![fail], false),
        },
    }
}

fn link_kind_text(a: LinkAdapter) -> (res: String)
    ensures
        res@ == link_kind_name(a),
{
    match a {
        LinkAdapter::Condition => Adapter::Condition.to_string(),
        LinkAdapter::FHEGate => Adapter::FHEGate.to_string(),
        LinkAdapter::Listener => Adapter::Listener.to_string(),
        LinkAdapter::Evaluation => Adapter::Evaluation.to_string(),
    }
}

fn low_bytes_of(items: &Vec<JsonValue>) -> (res: Vec<u8>)
    ensures
        res@ == low_bytes(crate::json::values_data(items@)),
{
    let ghost all = crate::json::values_data(items@);
    let mut out: Vec<u8> = Vec::new();
    let mut i: usize = 0;
    assert(all.take(0) =~= Seq::<JsonData>::empty());
    while i < items.len()
        invariant
            0 <= i <= items@.len(),
            all == crate::json::values_data(items@),
            out@ == low_bytes(all.take(i as int)),
        decreases items@.len() - i,
    {
        assert(all.take(i + 1).drop_last() =~= all.take(i as int));
        assert(all.take(i + 1).last() == items@[i as int]@);
        match items[i].as_u64() {
            Some(n) => {
                #[verifier::truncate]
                let b = n as u8;
                out.push(b);
            },
            None => {},
        }
        i = i + 1;
    }
    assert(all.take(items@.len() as int) =~= all);
    out
}

impl Workflow {
    /// Plans link `index` of this workflow on the incoming (already reshaped)
    /// context, recording what the plan says is recorded first.
    pub fn plan_link(
        &mut self,
        index: usize,
        registry: &Registry,
        context: Option<JsonValue>,
        current_success: &mut bool,
        now: Timestamp,
    ) -> (plan: LinkPlan)
        requires
            index < old(self).links@.len(),
        ensures
            same_but_history(*old(self), *final(self)),
            run_step_kept(*old(self), *final(self), *old(current_success), *final(current_success)),
            ({
                let (task, pushed, fails) = link_plan(old(self).links@[index as int], *registry, opt_data(context), now);
                &&& plan.task() == task
                &&& final(self).history() == old(self).history() + pushed
                &&& *final(current_success) == (*old(current_success) && !fails)
            }),
    {
        let ghost h0 = self.history();
        let id = clone_bytes(&self.links[index].id);
        let kind = self.links[index].adapter_type;
        let ghost fail = seq![entry(id@, link_kind_name(kind), None, now)];
        let registered = match kind {
            LinkAdapter::Condition => contains_id(&registry.conditions, self.links[index].adapter_id.as_slice()),
            LinkAdapter::FHEGate => contains_id(&registry.fhe_gates, self.links[index].adapter_id.as_slice()),
            LinkAdapter::Listener => contains_id(&registry.listeners, self.links[index].adapter_id.as_slice()),
            LinkAdapter::Evaluation => contains_id(&registry.evaluations, self.links[index].adapter_id.as_slice()),
        };
        if !registered {
            if kind == LinkAdapter::Listener {
                *current_success = false;
            }
            self.record(&id, link_kind_text(kind), None, now);
            assert(h0.push(fail[0]) =~= h0 + fail);
            return LinkPlan::Stop;
        }
        assert(h0 + Seq::<HistoryView>::empty() =~= h0);
        match kind {
            LinkAdapter::Condition => LinkPlan::CheckCondition {
                context,
                link_context: clone_opt(&self.links[index].context),
            },
            LinkAdapter::Listener => {
                let repetitions = match &self.links[index].context {
                    Some(v) => v.as_u64(),
                    None => None,
                };
                LinkPlan::Listen { repetitions }
            },
            LinkAdapter::Evaluation => {
                let interaction_id = match &self.links[index].context {
                    Some(v) => match v.as_array() {
                        Some(items) => low_bytes_of(items),
                        None => Vec::new(),
                    },
                    None => Vec::new(),
                };
                LinkPlan::Evaluate { context, interaction_id }
            },
            LinkAdapter::FHEGate => {
                let encrypted = match &context {
                    Some(v) => match v.as_str() {
                        Some(s) => hex_decode(s),
                        None => None,
                    },
                    None => None,
                };
                match encrypted {
                    Some(bytes) => {
                        let link_context = clone_opt(&self.links[index].context);
                        match link_context {
                            Some(ctx) => {
                                let criterion = match ctx.str_member("criterion") {
                                    Some(c) => Some(vstd::slice::slice_to_vec(c.as_bytes())),
                                    None => None,
                                };
                                let client_key = match ctx.get("client_key") {
                                    Some(k) => Some(k.deep_clone()),
                                    None => None,
                                };
                                LinkPlan::CheckFheGate { encrypted: bytes, criterion, client_key }
                            },
                            None => {
                                self.record(&id, link_kind_text(kind), None, now);
                                assert(h0.push(fail[0]) =~= h0 + fail);
                                LinkPlan::Stop
                            },
                        }
                    },
                    None => {
                        self.record(&id, link_kind_text(kind), None, now);
                        assert(h0.push(fail[0]) =~= h0 + fail);
                        LinkPlan::Stop
                    },
                }
            },
        }
    }

    fn go_to_node(&mut self, link_id: &Vec<u8>, kind: LinkAdapter, next: &Vec<u8>, context: Option<JsonValue>, now: Timestamp) -> (res: LinkNext)
        ensures
            same_but_history(*old(self), *final(self)),
            ({
                let (mv, pushed) = go_to(old(self).nodes@, next@, opt_data(context), entry(link_id@, link_kind_name(kind), None, now));
                &&& res.step() == mv
                &&& final(self).history() == old(self).history() + pushed
            }),
    {
        let ghost h0 = self.history();
        match self.find_node(next.as_slice()) {
            Some(k) => {
                assert(h0 + Seq::<HistoryView>::empty() =~= h0);
                LinkNext::Visit { node: k, context }
            },
            None => {
                let ghost e = entry(link_id@, link_kind_name(kind), None, now);
                self.record(link_id, link_kind_text(kind), None, now);
                assert(h0.push(e) =~= h0 + seq![e]);
                LinkNext::Done(None)
            },
        }
    }

    /// Records what link `index` gave and says where the run goes.
    #[verifier::rlimit(40)]
    pub fn finish_link(
        &mut self,
        index: usize,
        context: Option<JsonValue>,
        outcome: LinkOutcome,
        current_success: &mut bool,
        now: Timestamp,
    ) -> (next: LinkNext)
        requires
            index < old(self).links@.len(),
        ensures
            same_but_history(*old(self), *final(self)),
            run_step_kept(*old(self), *final(self), *old(current_success), *final(current_success)),
            ({
                let (mv, pushed, fails) = link_finish(
                    old(self).links@[index as int],
                    old(self).nodes@,
                    opt_data(context),
                    outcome.result(),
                    now,
                );
                &&& next.step() == mv
                &&& final(self).history() == old(self).history() + pushed
                &&& *final(current_success) == (*old(current_success) && !fails)
            }),
    {
        let ghost h0 = self.history();
        let id = clone_bytes(&self.links[index].id);
        let kind = self.links[index].adapter_type;
        let ghost fail = entry(id@, link_kind_name(kind), None, now);
        let (true_id, false_id, generated) = match &self.links[index].target {
            Some(t) => (
                Some(clone_bytes(&t.true_target_id)),
                Some(clone_bytes(&t.false_target_id)),
                match &t.generated_target_id {
                    Some(g) => Some(clone_bytes(g)),
                    None => None,
                },
            ),
            None => (None, None, None),
        };
        let has_target = true_id.is_some();
        proof {
            match self.links@[index as int].target {
                Some(t) => {
                    assert(true_id == Some(t.true_target_id) || true_id.unwrap()@ == t.true_target_id@);
                },
                None => {},
            }
        }
        match kind {
            LinkAdapter::Condition => match outcome {
                LinkOutcome::Decided(r) => {
                    let ghost first = entry(id@, link_kind_name(kind), Some(JsonData::Str("Condition Success"@)), now);
                    self.record(&id, link_kind_text(kind), Some(JsonValue::text("Condition Success")), now);
                    let ghost h1 = self.history();
                    if has_target {
                        let next = if r { true_id.unwrap() } else { false_id.unwrap() };
                        let res = self.go_to_node(&id, kind, &next, context, now);
                        proof {
                            let (mv, pushed) = go_to(self.nodes@, next@, opt_data(context), fail);
                            assert(h0.push(first) + pushed =~= h0 + (seq![first] + pushed));
                        }
                        res
                    } else if r {
                        self.record(&id, link_kind_text(kind), Some(JsonValue::text("Condition Success")), now);
                        assert(h0.push(first).push(first) =~= h0 + seq![first, first]);
                        LinkNext::Done(Some(JsonValue::text("Condition Success")))
                    } else {
                        self.record(&id, link_kind_text(kind), None, now);
                        assert(h0.push(first).push(fail) =~= h0 + seq![first, fail]);
                        LinkNext::Done(None)
                    }
                },
                _ => {
                    self.record(&id, link_kind_text(kind), None, now);
                    assert(h0.push(fail) =~= h0 + seq![fail]);
                    LinkNext::Done(None)
                },
            },
            LinkAdapter::FHEGate => match outcome {
                LinkOutcome::Decided(r) => {
                    if has_target {
                        let next = if r { true_id.unwrap() } else { false_id.unwrap() };
                        self.go_to_node(&id, kind, &next, context, now)
                    } else if r {
                        let ghost e = entry(id@, link_kind_name(kind), Some(JsonData::Str("FHE Gate Success"@)), now);
                        self.record(&id, link_kind_text(kind), Some(JsonValue::text("FHE Gate Success")), now);
                        assert(h0.push(e) =~= h0 + seq![e]);
                        LinkNext::Done(Some(JsonValue::text("FHE Gate Success")))
                    } else {
                        self.record(&id, link_kind_text(kind), None, now);
                        assert(h0.push(fail) =~= h0 + seq![fail]);
                        LinkNext::Done(None)
                    }
                },
                _ => {
                    self.record(&id, link_kind_text(kind), None, now);
                    assert(h0.push(fail) =~= h0 + seq![fail]);
                    LinkNext::Done(None)
                },
            },
            LinkAdapter::Listener => {
                let (event, task_failed) = match outcome {
                    LinkOutcome::Heard { event, task_failed } => (event, task_failed),
                    _ => (None, false),
                };
                let ghost ev = opt_data(event);
                let result = match event {
                    Some(e) => {
                        let copy = e.deep_clone();
                        self.record(&id, link_kind_text(kind), Some(e), now);
                        Some(copy)
                    },
                    None => {
                        *current_success = false;
                        self.record(&id, link_kind_text(kind), None, now);
                        None
                    },
                };
                let ghost h1 = self.history();
                if task_failed {
                    self.record(&id, link_kind_text(kind), None, now);
                }
                proof {
                    let after = if task_failed { seq![fail] } else { Seq::<HistoryView>::empty() };
                    assert(self.history() =~= h1 + after);
                    let head = entry(id@, link_kind_name(kind), ev, now);
                    assert(h1 =~= h0 + seq![head]);
                    assert(h0 + seq![head] + after =~= h0 + (seq![head] + after));
                }
                LinkNext::Done(result)
            },
            LinkAdapter::Evaluation => match outcome {
                LinkOutcome::Evaluated(answer) => {
                    if has_target {
                        let next = match answer.as_bool() {
                            Some(b) => if b { true_id.unwrap() } else { false_id.unwrap() },
                            None => match generated {
                                Some(g) => g,
                                None => Vec::new(),
                            },
                        };
                        self.go_to_node(&id, kind, &next, context, now)
                    } else {
                        let copy = clone_opt(&context);
                        let ghost e = entry(id@, link_kind_name(kind), opt_data(context), now);
                        self.record(&id, link_kind_text(kind), copy, now);
                        assert(h0.push(e) =~= h0 + seq![e]);
                        LinkNext::Done(context)
                    }
                },
                _ => {
                    self.record(&id, link_kind_text(kind), None, now);
                    assert(h0.push(fail) =~= h0 + seq![fail]);
                    LinkNext::Done(None)
                },
            },
        }
    }

    /// Closes a link whose run went into a target node: records what the
    /// node yielded under the link, and passes it on.
    pub fn close_link(&mut self, index: usize, result: Option<JsonValue>, now: Timestamp) -> (res: Option<JsonValue>)
        requires
            index < old(self).links@.len(),
        ensures
            same_but_history(*old(self), *final(self)),
            forall|flag: bool| run_step_kept(*old(self), *final(self), flag, flag),
            opt_data(res) == opt_data(result),
            final(self).history() == old(self).history().push(
                entry(old(self).links@[index as int].id@, link_kind_name(old(self).links@[index as int].adapter_type), opt_data(result), now),
            ),
    {
        let id = clone_bytes(&self.links[index].id);
        let kind = self.links[index].adapter_type;
        let copy = clone_opt(&result);
        self.record(&id, link_kind_text(kind), copy, now);
        result
    }
}


/// The law of a decided link: a condition or FHE gate with a target sends a
/// yes to the first node whose id is the target's true id and a no to the
/// first node whose id is its false id, with the link's context, whenever the
/// workflow has such a node; without one, the run stops there.
pub proof fn law_decided_link_follows_its_answer(
    link: WorkflowLink,
    nodes: Seq<WorkflowNode>,
    context: Option<JsonData>,
    answer: bool,
    at: Timestamp,
)
    requires
        link.adapter_type == LinkAdapter::Condition || link.adapter_type == LinkAdapter::FHEGate,
        link.target is Some,
    ensures
        ({
            let t = link.target.unwrap();
            let want = if answer { t.true_target_id@ } else { t.false_target_id@ };
            let mv = link_finish(link, nodes, context, LinkResult::Decided(answer), at).0;
            &&& (exists|i: int| 0 <= i < nodes.len() && nodes[i].id@ == want) ==> (mv matches LinkMove::Visit(k, c) && 0 <= k < nodes.len()
                && nodes[k].id@ == want && c == context && forall|j: int| 0 <= j < k ==> nodes[j].id@ != want)
            &&& (forall|i: int| 0 <= i < nodes.len() ==> nodes[i].id@ != want) ==> mv == LinkMove::Done(None)
        }),
{
    let t = link.target.unwrap();
    let want = if answer { t.true_target_id@ } else { t.false_target_id@ };
    crate::workflow::compose::lemma_find_node(nodes, want, 0);
}

/// The law of an evaluated link with a target: a boolean answer picks the
/// true or the false target as a decided link does, any other answer the
/// generated target, each where the workflow has such a node.
pub proof fn law_evaluated_link_follows_its_answer(
    link: WorkflowLink,
    nodes: Seq<WorkflowNode>,
    context: Option<JsonData>,
    answer: JsonData,
    at: Timestamp,
)
    requires
        link.adapter_type == LinkAdapter::Evaluation,
        link.target is Some,
    ensures
        ({
            let t = link.target.unwrap();
            let want = match answer {
                JsonData::Bool(true) => t.true_target_id@,
                JsonData::Bool(false) => t.false_target_id@,
                _ => match t.generated_target_id {
                    Some(g) => g@,
                    None => Seq::empty(),
                },
            };
            let mv = link_finish(link, nodes, context, LinkResult::Evaluated(answer), at).0;
            (exists|i: int| 0 <= i < nodes.len() && nodes[i].id@ == want) ==> (mv matches LinkMove::Visit(k, c) && 0 <= k < nodes.len()
                && nodes[k].id@ == want && c == context)
        }),
{
    let t = link.target.unwrap();
    let want = evaluated_target(t, answer);
    crate::workflow::compose::lemma_find_node(nodes, want, 0);
}


/// The law of decided links without a target: a yes goes on with the
/// check's success message ("Condition Success" or "FHE Gate Success") and a
/// no stops the run with nothing; neither fails the run.
pub proof fn law_untargeted_decided_link(
    link: WorkflowLink,
    nodes: Seq<WorkflowNode>,
    context: Option<JsonData>,
    answer: bool,
    at: Timestamp,
)
    requires
        link.adapter_type == LinkAdapter::Condition || link.adapter_type == LinkAdapter::FHEGate,
        link.target is None,
    ensures
        ({
            let (mv, pushed, fails) = link_finish(link, nodes, context, LinkResult::Decided(answer), at);
            let message = if link.adapter_type == LinkAdapter::Condition { "Condition Success"@ } else { "FHE Gate Success"@ };
            &&& answer ==> mv == LinkMove::Done(Some(JsonData::Str(message)))
            &&& !answer ==> mv == LinkMove::Done(None)
            &&& !fails
            &&& pushed.len() >= 1 && pushed.last().element_id == link.id@
        }),
{
}

/// The law of listener links: the first event heard is what the run goes on
/// with; hearing nothing stops the run with nothing and fails it.
pub proof fn law_listener_link_goes_on_with_its_event(
    link: WorkflowLink,
    nodes: Seq<WorkflowNode>,
    context: Option<JsonData>,
    event: Option<JsonData>,
    task_failed: bool,
    at: Timestamp,
)
    requires
        link.adapter_type == LinkAdapter::Listener,
    ensures
        ({
            let (mv, pushed, fails) = link_finish(link, nodes, context, LinkResult::Heard(event, task_failed), at);
            &&& mv == LinkMove::Done(event)
            &&& fails <==> event is None
            &&& pushed.len() >= 1 && pushed[0].element_id == link.id@ && pushed[0].result == event
        }),
{
}

/// The law of evaluation links without a target: the run goes on with the
/// incoming context, which is recorded as the link's result.
pub proof fn law_untargeted_evaluation_keeps_the_context(
    link: WorkflowLink,
    nodes: Seq<WorkflowNode>,
    context: Option<JsonData>,
    answer: JsonData,
    at: Timestamp,
)
    requires
        link.adapter_type == LinkAdapter::Evaluation,
        link.target is None,
    ensures
        ({
            let (mv, pushed, fails) = link_finish(link, nodes, context, LinkResult::Evaluated(answer), at);
            &&& mv == LinkMove::Done(context)
            &&& !fails
            &&& pushed.len() == 1 && pushed[0].element_id == link.id@ && pushed[0].result == context
        }),
{
}

/// The law of failed checks: when the outside work of a link failed, the run
/// stops there with nothing, and one failure is recorded for the link; only a
/// listener's failure fails the run.
pub proof fn law_failed_link_stops(
    link: WorkflowLink,
    nodes: Seq<WorkflowNode>,
    context: Option<JsonData>,
    at: Timestamp,
)
    ensures
        ({
            let (mv, pushed, fails) = link_finish(link, nodes, context, LinkResult::Failed, at);
            &&& mv == LinkMove::Done(None)
            &&& pushed.len() == 1 && pushed[0].element_id == link.id@ && pushed[0].result is None
            &&& fails <==> link.adapter_type == LinkAdapter::Listener
        }),
{
}


/// Whether an id is among a registry's ids.
pub open spec fn link_registered(ids: Seq<Vec<u8>>, id: Seq<u8>) -> bool {
    exists|i: int| 0 <= i < ids.len() && ids[i]@ == id
}

proof fn lemma_link_registered(ids: Seq<Vec<u8>>, id: Seq<u8>)
    ensures
        byte_seqs(ids).contains(id) <==> link_registered(ids, id),
{
    if link_registered(ids, id) {
        let i = choose|i: int| 0 <= i < ids.len() && ids[i]@ == id;
        assert(byte_seqs(ids)[i] == id);
    }
    if byte_seqs(ids).contains(id) {
        let i = choose|i: int| 0 <= i < byte_seqs(ids).len() && byte_seqs(ids)[i] == id;
        assert(ids[i]@ == id);
    }
}

/// The law of planning links: an adapter not registered under the link's
/// kind stops the step with one failure for the link (failing the run only
/// for a listener); a registered condition is checked on exactly the incoming
/// context and the link's own; a registered evaluation gets exactly the
/// incoming context; a registered listener waits for the number of events its
/// context gives, if it gives one.
pub proof fn law_link_plan_hands_on_the_context(link: WorkflowLink, registry: Registry, context: Option<JsonData>, at: Timestamp)
    ensures
        ({
            let ids = match link.adapter_type {
                LinkAdapter::Condition => registry.conditions@,
                LinkAdapter::FHEGate => registry.fhe_gates@,
                LinkAdapter::Listener => registry.listeners@,
                LinkAdapter::Evaluation => registry.evaluations@,
            };
            let (task, pushed, fails) = link_plan(link, registry, context, at);
            &&& !link_registered(ids, link.adapter_id@) ==> (task == LinkTask::Stop && pushed.len() == 1
                && pushed[0].element_id == link.id@ && pushed[0].result is None
                && (fails <==> link.adapter_type == LinkAdapter::Listener))
            &&& link_registered(ids, link.adapter_id@) && link.adapter_type == LinkAdapter::Condition
                ==> task == LinkTask::Condition(context, opt_data(link.context)) && pushed.len() == 0 && !fails
            &&& link_registered(ids, link.adapter_id@) && link.adapter_type == LinkAdapter::Evaluation
                ==> (task matches LinkTask::Evaluate(c, _) && c == context) && pushed.len() == 0 && !fails
            &&& link_registered(ids, link.adapter_id@) && link.adapter_type == LinkAdapter::Listener
                ==> task == LinkTask::Listen(match opt_data(link.context) {
                    Some(JsonData::Number(crate::json::JsonNumber::PosInt(n))) => Some(n),
                    _ => None,
                }) && pushed.len() == 0 && !fails
        }),
{
    let ids = match link.adapter_type {
        LinkAdapter::Condition => registry.conditions@,
        LinkAdapter::FHEGate => registry.fhe_gates@,
        LinkAdapter::Listener => registry.listeners@,
        LinkAdapter::Evaluation => registry.evaluations@,
    };
    lemma_link_registered(ids, link.adapter_id@);
}

} // verus!
