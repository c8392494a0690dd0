//! The bookkeeping of runs: the history a run writes, the context each step
//! receives, the position reached in the run order, and how many runs to make.

use vstd::prelude::*;
use crate::execution::{history_view, ExecutionHistory, HistoryView, Timestamp};
use crate::json::{clone_bytes, entries_data, opt_data, JsonData, JsonValue};
use crate::nibble::contains_id;
use crate::text::bytes_eq;
use crate::tools::context::{parse_fields_result, texts, ContextParse, ContextStep};
use crate::workflow::{byte_seqs, Workflow, WorkflowLink, WorkflowNode};

verus! {

/// A history entry with no description.
pub open spec fn entry(id: Seq<u8>, kind: Seq<char>, result: Option<JsonData>, at: Timestamp) -> HistoryView {
    HistoryView { element_id: id, element_type: kind, result, description: None, timestamp: at }
}

/// Everything but the history is the same.
pub open spec fn same_but_history(a: Workflow, b: Workflow) -> bool {
    &&& a.id == b.id
    &&& a.name == b.name
    &&& a.nodes == b.nodes
    &&& a.links == b.links
    &&& a.encrypted == b.encrypted
}

/// A step of a run went from `a` (success flag `sa`) to `b` (flag `sb`):
/// everything but the history is kept, the history only grows at its end,
/// and a cleared success flag stays cleared.
pub open spec fn run_step_kept(a: Workflow, b: Workflow, sa: bool, sb: bool) -> bool {
    &&& same_but_history(a, b)
    &&& a.history().len() <= b.history().len()
    &&& b.history().take(a.history().len() as int) == a.history()
    &&& (!sa ==> !sb)
}

/// A history that had entries appended starts with what it was.
pub broadcast proof fn lemma_appended_history_starts_alike(h: Seq<HistoryView>, added: Seq<HistoryView>)
    ensures
        #[trigger] (h + added).take(h.len() as int) == h,
{
    assert((h + added).take(h.len() as int) =~= h);
}

/// A history that had one entry pushed starts with what it was.
pub broadcast proof fn lemma_pushed_history_starts_alike(h: Seq<HistoryView>, e: HistoryView)
    ensures
        #[trigger] h.push(e).take(h.len() as int) == h,
{
    assert(h.push(e).take(h.len() as int) =~= h);
}

/// The law of steps: two steps in a row are again such a step, so a whole
/// link or node step, made of planning, finishing and closing, keeps the
/// workflow, only appends to its history and never sets the success flag.
pub proof fn law_run_steps_compose(a: Workflow, b: Workflow, c: Workflow, sa: bool, sb: bool, sc: bool)
    requires
        run_step_kept(a, b, sa, sb),
        run_step_kept(b, c, sb, sc),
    ensures
        run_step_kept(a, c, sa, sc),
{
    let ha = a.history();
    let hb = b.history();
    let hc = c.history();
    assert(hc.take(ha.len() as int) =~= hc.take(hb.len() as int).take(ha.len() as int));
}

impl Workflow {
    pub open spec fn history(&self) -> Seq<HistoryView> {
        history_view(self.execution_history@)
    }

    /// Appends an entry to the run history.
    pub fn record(&mut self, id: &Vec<u8>, kind: String, result: Option<JsonValue>, now: Timestamp)
        ensures
            same_but_history(*old(self), *final(self)),
            final(self).history() == old(self).history().push(entry(id@, kind@, opt_data(result), now)),
    {
        let ghost h0 = self.execution_history@;
        let ghost e = entry(id@, kind@, opt_data(result), now);
        self.execution_history.push(
            ExecutionHistory {
                element_id: clone_bytes(id),
                element_type: kind,
                result,
                description: None,
                timestamp: now,
            },
        );
        assert(history_view(self.execution_history@) =~= history_view(h0).push(e));
    }

    /// Appends entries to the run history.
    pub fn record_all(&mut self, entries: Vec<ExecutionHistory>)
        ensures
            same_but_history(*old(self), *final(self)),
            final(self).history() == old(self).history() + history_view(entries@),
    {
        let ghost h0 = self.execution_history@;
        let mut entries = entries;
        let ghost e0 = entries@;
        self.execution_history.append(&mut entries);
        assert(history_view(self.execution_history@) =~= history_view(h0) + history_view(e0));
    }
}

/// The context a step works on, once its tool has reshaped it: nothing comes
/// in, nothing goes on; field parsing passes on what it keeps, or nothing when
/// it refuses; a user processor is handed the context (`None` here).
pub open spec fn prepared(tool: Option<ContextParse>, data: Option<JsonData>) -> Option<Option<JsonData>> {
    match tool {
        None => Some(data),
        Some(t) => match data {
            None => Some(None),
            Some(d) => match t {
                ContextParse::CustomProcessor => None,
                ContextParse::ParseFields { expected_format, required_fields } => match parse_fields_result(
                    entries_data(expected_format@),
                    texts(required_fields@),
                    d,
                ) {
                    Ok(v) => Some(Some(v)),
                    Err(_) => Some(None),
                },
            },
        },
    }
}

/// A step's context after its tool: ready, or to be handed to the user's processor.
pub enum Prepared {
    Ready(Option<JsonValue>),
    Apply(JsonValue),
}

/// Reshapes the context coming into a step with the step's tool, if it has one.
pub fn prepare_context(tool: &Option<ContextParse>, data: Option<JsonValue>) -> (res: Prepared)
    ensures
        match res {
            Prepared::Ready(v) => prepared(*tool, opt_data(data)) == Some(opt_data(v)),
            Prepared::Apply(v) => prepared(*tool, opt_data(data)) is None && opt_data(data) == Some(v@),
        },
{
    match tool {
        None => Prepared::Ready(data),
        Some(t) => match data {
            None => Prepared::Ready(None),
            Some(d) => match t.process(d) {
                ContextStep::Parsed(Ok(v)) => Prepared::Ready(Some(v)),
                ContextStep::Parsed(Err(_)) => Prepared::Ready(None),
                ContextStep::Custom(v) => Prepared::Apply(v),
            },
        },
    }
}

/// The first node with the given id.
pub open spec fn find_node_from(nodes: Seq<WorkflowNode>, id: Seq<u8>, i: int) -> Option<int>
    decreases nodes.len() - i,
{
    if i < 0 || i >= nodes.len() {
        None
    } else if nodes[i].id@ == id {
        Some(i)
    } else {
        find_node_from(nodes, id, i + 1)
    }
}

/// The first link with the given id.
pub open spec fn find_link_from(links: Seq<WorkflowLink>, id: Seq<u8>, i: int) -> Option<int>
    decreases links.len() - i,
{
    if i < 0 || i >= links.len() {
        None
    } else if links[i].id@ == id {
        Some(i)
    } else {
        find_link_from(links, id, i + 1)
    }
}

impl Workflow {
    /// The position of the first node with the given id.
    pub fn find_node(&self, id: &[u8]) -> (res: Option<usize>)
        ensures
            match res {
                Some(k) => find_node_from(self.nodes@, id@, 0) == Some(k as int) && k < self.nodes@.len(),
                None => find_node_from(self.nodes@, id@, 0) is None,
            },
    {
        let mut i: usize = 0;
        while i < self.nodes.len()
            invariant
                0 <= i <= self.nodes@.len(),
                find_node_from(self.nodes@, id@, 0) == find_node_from(self.nodes@, id@, i as int),
            decreases self.nodes@.len() - i,
        {
            if bytes_eq(self.nodes[i].id.as_slice(), id) {
                return Some(i);
            }
            i = i + 1;
        }
        None
    }

    /// The position of the first link with the given id.
    pub fn find_link(&self, id: &[u8]) -> (res: Option<usize>)
        ensures
            match res {
                Some(k) => find_link_from(self.links@, id@, 0) == Some(k as int) && k < self.links@.len(),
                None => find_link_from(self.links@, id@, 0) is None,
            },
    {
        let mut i: usize = 0;
        while i < self.links.len()
            invariant
                0 <= i <= self.links@.len(),
                find_link_from(self.links@, id@, 0) == find_link_from(self.links@, id@, i as int),
            decreases self.links@.len() - i,
        {
            if bytes_eq(self.links[i].id.as_slice(), id) {
                return Some(i);
            }
            i = i + 1;
        }
        None
    }
}

/// The ids in `order` that no history entry names, in order.
pub open spec fn not_yet_run(order: Seq<Seq<u8>>, executed: Seq<HistoryView>) -> Seq<Seq<u8>>
    decreases order.len(),
{
    if order.len() == 0 {
        order
    } else {
        let rest = not_yet_run(order.drop_last(), executed);
        if exists|k: int| 0 <= k < executed.len() && #[trigger] executed[k].element_id == order.last() {
            rest
        } else {
            rest.push(order.last())
        }
    }
}

impl Workflow {
    fn executed(&self, id: &Vec<u8>) -> (res: bool)
        ensures
            res == exists|k: int| 0 <= k < self.history().len() && #[trigger] self.history()[k].element_id == id@,
    {
        let mut i: usize = 0;
        while i < self.execution_history.len()
            invariant
                0 <= i <= self.execution_history@.len(),
                forall|k: int| 0 <= k < i ==> #[trigger] self.history()[k].element_id != id@,
            decreases self.execution_history@.len() - i,
        {
            if bytes_eq(self.execution_history[i].element_id.as_slice(), id.as_slice()) {
                assert(self.history()[i as int].element_id == id@);
                return true;
            }
            i = i + 1;
        }
        false
    }

    /// The elements of a run order that the history does not name yet: the
    /// steps still to come.
    pub fn pending_elements(&self, order: &Vec<Vec<u8>>) -> (res: Vec<Vec<u8>>)
        ensures
            byte_seqs(res@) == not_yet_run(byte_seqs(order@), self.history()),
    {
        let mut out: Vec<Vec<u8>> = Vec::new();
        let mut i: usize = 0;
        let ghost all = byte_seqs(order@);
        assert(byte_seqs(out@) =~= not_yet_run(all.take(0), self.history()));
        while i < order.len()
            invariant
                0 <= i <= order@.len(),
                all == byte_seqs(order@),
                byte_seqs(out@) == not_yet_run(all.take(i as int), self.history()),
            decreases order@.len() - i,
        {
            assert(all.take(i + 1).drop_last() =~= all.take(i as int));
            assert(all.take(i + 1).last() == order@[i as int]@);
            if !self.executed(&order[i]) {
                let ghost before = out@;
                out.push(clone_bytes(&order[i]));
                assert(byte_seqs(out@) =~= byte_seqs(before).push(order@[i as int]@));
            }
            i = i + 1;
        }
        assert(all.take(order@.len() as int) =~= all);
        out
    }
}

/// Where a run stands: the order it follows, how far it got, the context the
/// last step produced, whether it still counts as a success, and whether a
/// step stopped it.
pub struct RunState {
    pub order: Vec<Vec<u8>>,
    pub position: usize,
    pub context: Option<JsonValue>,
    pub current_success: bool,
    pub stopped: bool,
}

/// What a run does next.
pub enum NextElement {
    Finished,
    Node(usize),
    Link(usize),
    Unknown,
}

impl RunState {
    /// A run that starts at the head of `order` with no context.
    pub fn start(order: Vec<Vec<u8>>) -> (res: RunState)
        ensures
            res.order@ == order@,
            res.position == 0,
            res.context is None,
            res.current_success,
            !res.stopped,
    {
        RunState { order, position: 0, context: None, current_success: true, stopped: false }
    }

    /// The element at the current position: a node when a node has its id,
    /// else a link when a link has it; nothing once the run is stopped or at
    /// the end of its order.
    pub fn next_element(&self, wf: &Workflow) -> (res: NextElement)
        ensures
            match res {
                NextElement::Finished => self.stopped || self.position >= self.order@.len(),
                NextElement::Node(k) => !self.stopped && self.position < self.order@.len()
                    && find_node_from(wf.nodes@, self.order@[self.position as int]@, 0) == Some(k as int),
                NextElement::Link(k) => !self.stopped && self.position < self.order@.len()
                    && find_node_from(wf.nodes@, self.order@[self.position as int]@, 0) is None
                    && find_link_from(wf.links@, self.order@[self.position as int]@, 0) == Some(k as int),
                NextElement::Unknown => !self.stopped && self.position < self.order@.len()
                    && find_node_from(wf.nodes@, self.order@[self.position as int]@, 0) is None
                    && find_link_from(wf.links@, self.order@[self.position as int]@, 0) is None,
            },
    {
        if self.stopped || self.position >= self.order.len() {
            return NextElement::Finished;
        }
        let id = self.order[self.position].as_slice();
        match wf.find_node(id) {
            Some(k) => NextElement::Node(k),
            None => match wf.find_link(id) {
                Some(k) => NextElement::Link(k),
                None => NextElement::Unknown,
            },
        }
    }

    /// After a node: its result is the context from now on; no result stops
    /// the run and marks it failed.
    pub fn after_node(&mut self, result: Option<JsonValue>)
        requires
            old(self).position < old(self).order@.len(),
        ensures
            final(self).order == old(self).order,
            final(self).position == old(self).position + 1,
            opt_data(final(self).context) == opt_data(result),
            final(self).stopped == (old(self).stopped || result is None),
            final(self).current_success == (old(self).current_success && result is Some),
    {
        if result.is_none() {
            self.current_success = false;
            self.stopped = true;
        }
        self.context = result;
        let len = self.order.len();
        assert(self.position < len);
        self.position = self.position + 1;
    }

    /// After a link: its result is the context from now on; no result stops
    /// the run (a link that fails the run says so itself).
    pub fn after_link(&mut self, result: Option<JsonValue>)
        requires
            old(self).position < old(self).order@.len(),
        ensures
            final(self).order == old(self).order,
            final(self).position == old(self).position + 1,
            opt_data(final(self).context) == opt_data(result),
            final(self).stopped == (old(self).stopped || result is None),
            final(self).current_success == old(self).current_success,
    {
        if result.is_none() {
            self.stopped = true;
        }
        self.context = result;
        let len = self.order.len();
        assert(self.position < len);
        self.position = self.position + 1;
    }

    /// Passes over an id that names no element.
    pub fn skip(&mut self)
        requires
            old(self).position < old(self).order@.len(),
        ensures
            final(self).order == old(self).order,
            final(self).position == old(self).position + 1,
            opt_data(final(self).context) == opt_data(old(self).context),
            final(self).stopped == old(self).stopped,
            final(self).current_success == old(self).current_success,
    {
        let len = self.order.len();
        assert(self.position < len);
        self.position = self.position + 1;
    }
}

/// How many runs a workflow makes: until `limit` runs were made, or, when
/// successes count, until `limit` of them succeeded; forever without a limit.
pub struct Repetitions {
    pub limit: Option<u32>,
    pub count_successes: bool,
    pub successful: u32,
    pub total: u32,
}

impl Repetitions {
    pub fn new(limit: Option<u32>, count_successes: bool) -> (res: Repetitions)
        ensures
            res.limit == limit,
            res.count_successes == count_successes,
            res.successful == 0,
            res.total == 0,
    {
        Repetitions { limit, count_successes, successful: 0, total: 0 }
    }

    pub open spec fn goes_on(&self) -> bool {
        match self.limit {
            None => true,
            Some(r) => if self.count_successes {
                self.successful < r
            } else {
                self.total < r
            },
        }
    }

    /// Whether another run is due.
    pub fn should_continue(&self) -> (res: bool)
        ensures
            res == self.goes_on(),
    {
        match self.limit {
            None => true,
            Some(r) => if self.count_successes {
                self.successful < r
            } else {
                self.total < r
            },
        }
    }

    /// Counts a finished run; a success counts only when successes are counted.
    pub fn record(&mut self, current_success: bool)
        requires
            old(self).total < u32::MAX,
            old(self).successful <= old(self).total,
        ensures
            final(self).limit == old(self).limit,
            final(self).count_successes == old(self).count_successes,
            final(self).total == old(self).total + 1,
            final(self).successful == old(self).successful + (if current_success && old(self).count_successes { 1int } else { 0int }),
            final(self).successful <= final(self).total,
    {
        if current_success && self.count_successes {
            self.successful = self.successful + 1;
        }
        self.total = self.total + 1;
    }
}

} // verus!
