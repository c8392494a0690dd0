//! Reading a value out of the history of a run.

use vstd::prelude::*;
use crate::assoc::lookup;
use crate::execution::{history_view, ExecutionHistory, HistoryView};
use crate::json::{JsonData, JsonValue};
use crate::text::{append_decimal, decimal, owned};
use crate::tools::context::texts;

verus! {

/// How a value is read from a run's history: follow a path of object members
/// from the result recorded at a position, hand the history to a processor
/// function supplied by the user, or (for a stored configuration without a
/// position) refuse.
pub enum HistoryParse {
    ExtractField { index: usize, field_path: Vec<String> },
    CustomProcessor,
    InvalidConfig,
}

pub open spec fn invalid_config_message() -> Seq<char> {
    "Invalid history_tool configuration"@
}

/// What reading gives: a value or an error message, or, for a user processor,
/// the history that the processor is to be applied to.
pub enum HistoryStep {
    Extracted(Result<JsonValue, String>),
    Custom(Vec<ExecutionHistory>),
}

pub open spec fn field_not_found_message(key: Seq<char>, index: nat) -> Seq<char> {
    "Field '"@ + key + "' not found in result at index "@ + decimal(index)
}

pub open spec fn invalid_path_message(key: Seq<char>, index: nat) -> Seq<char> {
    "Invalid field path: '"@ + key + "' in result at index "@ + decimal(index)
}

pub open spec fn no_result_message(index: nat) -> Seq<char> {
    "No result found in ExecutionHistory at index "@ + decimal(index)
}

pub open spec fn out_of_bounds_message(index: nat, len: nat) -> Seq<char> {
    "Index "@ + decimal(index) + " out of bounds in ExecutionHistory (length: "@ + decimal(len) + ")"@
}

/// Following `path` from `v`: each step needs an object that has the member.
pub open spec fn walk_path(v: JsonData, path: Seq<Seq<char>>, index: nat) -> Result<JsonData, Seq<char>>
    decreases path.len(),
{
    if path.len() == 0 {
        Ok(v)
    } else {
        match v {
            JsonData::Object(members) => match lookup(members, path[0]) {
                Some(child) => walk_path(child, path.drop_first(), index),
                None => Err(field_not_found_message(path[0], index)),
            },
            _ => Err(invalid_path_message(path[0], index)),
        }
    }
}

/// The value that field extraction reads from a history.
pub open spec fn extract_result(history: Seq<HistoryView>, index: nat, path: Seq<Seq<char>>) -> Result<JsonData, Seq<char>> {
    if index >= history.len() {
        Err(out_of_bounds_message(index, history.len()))
    } else {
        match history[index as int].result {
            Some(r) => walk_path(r, path, index),
            None => Err(no_result_message(index)),
        }
    }
}

pub open spec fn extracted_data(r: Result<JsonValue, String>) -> Result<JsonData, Seq<char>> {
    match r {
        Ok(v) => Ok(v@),
        Err(e) => Err(e@),
    }
}

proof fn lemma_walk_step(v: JsonData, path: Seq<Seq<char>>, i: int, index: nat)
    requires
        0 <= i < path.len(),
    ensures
        walk_path(v, path.skip(i), index) == (match v {
            JsonData::Object(members) => match lookup(members, path[i]) {
                Some(child) => walk_path(child, path.skip(i + 1), index),
                None => Err(field_not_found_message(path[i], index)),
            },
            _ => Err(invalid_path_message(path[i], index)),
        }),
{
    assert(path.skip(i).drop_first() =~= path.skip(i + 1));
    assert(path.skip(i)[0] == path[i]);
}

impl HistoryParse {
    /// Reads from `history`. Field extraction takes the result at `index` and
    /// follows `field_path` through object members; a position past the end, a
    /// missing result, a missing member or a non-object on the way is reported
    /// with its own message.
    #[verifier::loop_isolation(false)]
    pub fn process(&self, history: Vec<ExecutionHistory>) -> (res: HistoryStep)
        ensures
            match self {
                HistoryParse::ExtractField { index, field_path } => match res {
                    HistoryStep::Extracted(r) => extracted_data(r) == extract_result(
                        history_view(history@),
                        *index as nat,
                        texts(field_path@),
                    ),
                    HistoryStep::Custom(_) => false,
                },
                HistoryParse::CustomProcessor => match res {
                    HistoryStep::Custom(h) => history_view(h@) == history_view(history@),
                    HistoryStep::Extracted(_) => false,
                },
                HistoryParse::InvalidConfig => match res {
                    HistoryStep::Extracted(r) => extracted_data(r) == Err::<JsonData, Seq<char>>(invalid_config_message()),
                    HistoryStep::Custom(_) => false,
                },
            },
    {
        match self {
            HistoryParse::CustomProcessor => HistoryStep::Custom(history),
            HistoryParse::InvalidConfig => HistoryStep::Extracted(Err(owned("Invalid history_tool configuration"))),
            HistoryParse::ExtractField { index, field_path } => {
                let index = *index;
                if index >= history.len() {
                    let mut msg = owned("Index ");
                    append_decimal(&mut msg, index as u64);
                    msg.append(" out of bounds in ExecutionHistory (length: ");
                    append_decimal(&mut msg, history.len() as u64);
                    msg.append(")");
                    return HistoryStep::Extracted(Err(msg));
                }
                match &history[index].result {
                    None => {
                        let mut msg = owned("No result found in ExecutionHistory at index ");
                        append_decimal(&mut msg, index as u64);
                        HistoryStep::Extracted(Err(msg))
                    },
                    Some(result) => {
                        let ghost path = texts(field_path@);
                        let mut current: &JsonValue = result;
                        let mut i: usize = 0;
                        assert(path.skip(0) =~= path);
                        while i < field_path.len()
                            invariant
                                0 <= i <= field_path@.len(),
                                path == texts(field_path@),
                                walk_path(result@, path, index as nat) == walk_path(current@, path.skip(i as int), index as nat),
                            decreases field_path@.len() - i,
                        {
                            proof { lemma_walk_step(current@, path, i as int, index as nat); }
                            match current {
                                JsonValue::Object(_) => {
                                    match current.get(field_path[i].as_str()) {
                                        Some(child) => {
                                            current = child;
                                        },
                                        None => {
                                            let mut msg = owned("Field '");
                                            msg.append(field_path[i].as_str());
                                            msg.append("' not found in result at index ");
                                            append_decimal(&mut msg, index as u64);
                                            return HistoryStep::Extracted(Err(msg));
                                        },
                                    }
                                },
                                _ => {
                                    let mut msg = owned("Invalid field path: '");
                                    msg.append(field_path[i].as_str());
                                    msg.append("' in result at index ");
                                    append_decimal(&mut msg, index as u64);
                                    return HistoryStep::Extracted(Err(msg));
                                },
                            }
                            i = i + 1;
                        }
                        assert(path.skip(path.len() as int) =~= Seq::<Seq<char>>::empty());
                        HistoryStep::Extracted(Ok(current.deep_clone()))
                    },
                }
            },
        }
    }
}


/// The law of field extraction: it reads the entry at position `index`
/// counted from the front. With no path the result is that entry's result;
/// with one key it is that member of the entry's result; a position past the
/// end, or an entry without a result, is refused.
pub proof fn law_extraction_reads_the_indexed_entry(history: Seq<HistoryView>, index: nat, key: Seq<char>)
    ensures
        index < history.len() && history[index as int].result is Some
            ==> extract_result(history, index, Seq::empty()) == Ok::<JsonData, Seq<char>>(history[index as int].result.unwrap()),
        index < history.len() && history[index as int].result is Some && history[index as int].result.unwrap().get(key) is Some
            ==> extract_result(history, index, seq![key]) == Ok::<JsonData, Seq<char>>(history[index as int].result.unwrap().get(key).unwrap()),
        index >= history.len() ==> extract_result(history, index, Seq::empty()) is Err,
        index < history.len() && history[index as int].result is None ==> extract_result(history, index, Seq::empty()) is Err,
{
    if index < history.len() && history[index as int].result is Some {
        let r = history[index as int].result.unwrap();
        let p = seq![key];
        if r.get(key) is Some {
            let child = r.get(key).unwrap();
            assert(p.drop_first() =~= Seq::<Seq<char>>::empty());
            assert(p[0] == key);
            assert(walk_path(child, p.drop_first(), index) == Ok::<JsonData, Seq<char>>(child));
            assert(walk_path(r, p, index) == walk_path(child, p.drop_first(), index));
        }
    }
}


/// The law of field paths: a path is followed from its first key on, one
/// object member at a time; a key missing on the way is refused.
pub proof fn law_path_is_followed_in_order(v: JsonData, first: Seq<char>, second: Seq<char>, index: nat)
    ensures
        v.get(first) is Some && v.get(first).unwrap().get(second) is Some
            ==> walk_path(v, seq![first, second], index) == Ok::<JsonData, Seq<char>>(v.get(first).unwrap().get(second).unwrap()),
        v.get(first) is None ==> walk_path(v, seq![first, second], index) is Err,
{
    let p = seq![first, second];
    assert(p[0] == first);
    assert(p.drop_first() =~= seq![second]);
    assert(p.drop_first()[0] == second);
    assert(p.drop_first().drop_first() =~= Seq::<Seq<char>>::empty());
    if v.get(first) is Some {
        let w = v.get(first).unwrap();
        if w.get(second) is Some {
            let x = w.get(second).unwrap();
            assert(walk_path(x, p.drop_first().drop_first(), index) == Ok::<JsonData, Seq<char>>(x));
            assert(walk_path(w, p.drop_first(), index) == walk_path(x, p.drop_first().drop_first(), index));
            assert(walk_path(v, p, index) == walk_path(w, p.drop_first(), index));
        }
    }
}

} // verus!
