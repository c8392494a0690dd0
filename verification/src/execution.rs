//! What a workflow run records: one entry per step taken, with its outcome.

use vstd::prelude::*;
use crate::json::{clone_bytes, clone_opt, opt_data, JsonData, JsonValue};

verus! {

/// A point in time: whole seconds since the Unix epoch (UTC) and the
/// nanoseconds past that second.
#[derive(Debug, PartialEq, Eq, Clone, Copy)]
pub struct Timestamp {
    pub secs: i64,
    pub nanos: u32,
}

/// One recorded step of a run: which element, of which kind, what it produced
/// (nothing when it failed or stopped the run), and when.
#[derive(Debug, PartialEq, Eq)]
pub struct ExecutionHistory {
    pub element_id: Vec<u8>,
    pub element_type: String,
    pub result: Option<JsonValue>,
    pub description: Option<String>,
    pub timestamp: Timestamp,
}

/// The content of a history entry.
pub struct HistoryView {
    pub element_id: Seq<u8>,
    pub element_type: Seq<char>,
    pub result: Option<JsonData>,
    pub description: Option<Seq<char>>,
    pub timestamp: Timestamp,
}

pub open spec fn opt_text(s: Option<String>) -> Option<Seq<char>> {
    match s {
        Some(t) => Some(t@),
        None => None,
    }
}

impl View for ExecutionHistory {
    type V = HistoryView;

    open spec fn view(&self) -> HistoryView {
        HistoryView {
            element_id: self.element_id@,
            element_type: self.element_type@,
            result: opt_data(self.result),
            description: opt_text(self.description),
            timestamp: self.timestamp,
        }
    }
}

/// The content of a run's history.
pub open spec fn history_view(entries: Seq<ExecutionHistory>) -> Seq<HistoryView> {
    Seq::new(entries.len(), |i: int| entries[i]@)
}

pub fn clone_opt_text(s: &Option<String>) -> (res: Option<String>)
    ensures
        opt_text(res) == opt_text(*s),
{
    match s {
        Some(t) => Some(t.clone()),
        None => None,
    }
}

impl ExecutionHistory {
    pub fn copy(&self) -> (res: ExecutionHistory)
        ensures
            res@ == self@,
    {
        ExecutionHistory {
            element_id: clone_bytes(&self.element_id),
            element_type: self.element_type.clone(),
            result: clone_opt(&self.result),
            description: clone_opt_text(&self.description),
            timestamp: self.timestamp,
        }
    }
}

/// A copy of a run's history.
pub fn copy_history(entries: &Vec<ExecutionHistory>) -> (res: Vec<ExecutionHistory>)
    ensures
        history_view(res@) == history_view(entries@),
{
    let mut out: Vec<ExecutionHistory> = Vec::new();
    let mut i: usize = 0;
    while i < entries.len()
        invariant
            0 <= i <= entries@.len(),
            out@.len() == i,
            forall|j: int| 0 <= j < i ==> (#[trigger] out@[j])@ == entries@[j]@,
        decreases entries@.len() - i,
    {
        out.push(entries[i].copy());
        i = i + 1;
    }
    assert(history_view(out@) =~= history_view(entries@));
    out
}

} // verus!
