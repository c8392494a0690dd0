//! Reshaping the context handed from one step of a workflow to the next.

use vstd::prelude::*;
use crate::assoc::{contains_key, keys_of};
use crate::json::{entries_data, JsonData, JsonValue};
use crate::text::{owned, str_eq};

verus! {

/// The `Debug` text (`{:?}`) of a list of strings.
pub uninterp spec fn debug_list_text(items: Seq<Seq<char>>) -> Seq<char>;

/// The texts of a list of strings.
pub open spec fn texts(items: Seq<String>) -> Seq<Seq<char>> {
    Seq::new(items.len(), |i: int| items[i]@)
}

/// Formats a list of strings as `{:?}` does (std `Debug` for `Vec<String>`);
/// trusted to give a text that depends on the strings alone.
#[verifier::external_body]
fn debug_strings(items: &Vec<String>) -> (res: String)
    ensures
        res@ == debug_list_text(texts(items@)),
{
    format!("{:?}", items)
}

/// How a step's incoming context is reshaped: either keep only the members
/// named in an expected format after checking that the required members are
/// there, or hand the context to a processor function supplied by the user.
pub enum ContextParse {
    ParseFields { expected_format: Vec<(String, JsonValue)>, required_fields: Vec<String> },
    CustomProcessor,
}

/// What reshaping gives: a result, or, for a user processor, the input that
/// the processor is to be applied to (its result is the step's result).
pub enum ContextStep {
    Parsed(Result<JsonValue, String>),
    Custom(JsonValue),
}

/// The required fields that the object lacks, in the order they are required.
pub open spec fn missing_fields(required: Seq<Seq<char>>, object: Seq<(Seq<char>, JsonData)>) -> Seq<Seq<char>>
    decreases required.len(),
{
    if required.len() == 0 {
        required
    } else {
        let rest = missing_fields(required.drop_last(), object);
        if contains_key(object, required.last()) {
            rest
        } else {
            rest.push(required.last())
        }
    }
}

/// The members of the object whose key the expected format names, in order.
pub open spec fn kept_fields(object: Seq<(Seq<char>, JsonData)>, expected: Seq<(Seq<char>, JsonData)>) -> Seq<(Seq<char>, JsonData)>
    decreases object.len(),
{
    if object.len() == 0 {
        object
    } else {
        let rest = kept_fields(object.drop_last(), expected);
        if contains_key(expected, object.last().0) {
            rest.push(object.last())
        } else {
            rest
        }
    }
}

pub open spec fn not_json_message() -> Seq<char> {
    "The input is not a valid JSON."@
}

pub open spec fn required_missing_message(missing: Seq<Seq<char>>) -> Seq<char> {
    "Required Field Not Found: "@ + debug_list_text(missing)
}

/// The result of field parsing on an input.
pub open spec fn parse_fields_result(
    expected: Seq<(Seq<char>, JsonData)>,
    required: Seq<Seq<char>>,
    input: JsonData,
) -> Result<JsonData, Seq<char>> {
    match input {
        JsonData::Object(object) => {
            let missing = missing_fields(required, object);
            if missing.len() > 0 {
                Err(required_missing_message(missing))
            } else {
                Ok(JsonData::Object(kept_fields(object, expected)))
            }
        },
        _ => Err(not_json_message()),
    }
}

/// The content of a reshaping outcome.
pub open spec fn result_data(r: Result<JsonValue, String>) -> Result<JsonData, Seq<char>> {
    match r {
        Ok(v) => Ok(v@),
        Err(e) => Err(e@),
    }
}

fn contains_entry_key(entries: &Vec<(String, JsonValue)>, key: &str) -> (res: bool)
    ensures
        res == contains_key(entries_data(entries@), key@),
{
    proof { crate::assoc::lemma_same_keys(crate::assoc::keyed(entries@), entries_data(entries@), key@); }
    crate::assoc::find_index(entries, key).is_some()
}

impl ContextParse {
    /// Reshapes `input`. Field parsing refuses anything but an object, then
    /// refuses an object that lacks a required field (naming all that are
    /// missing), and otherwise keeps exactly the members the expected format names.
    #[verifier::loop_isolation(false)]
    pub fn process(&self, input: JsonValue) -> (res: ContextStep)
        ensures
            match self {
                ContextParse::ParseFields { expected_format, required_fields } => match res {
                    ContextStep::Parsed(r) => result_data(r) == parse_fields_result(
                        entries_data(expected_format@),
                        texts(required_fields@),
                        input@,
                    ),
                    ContextStep::Custom(_) => false,
                },
                ContextParse::CustomProcessor => match res {
                    ContextStep::Custom(v) => v@ == input@,
                    ContextStep::Parsed(_) => false,
                },
            },
    {
        match self {
            ContextParse::CustomProcessor => ContextStep::Custom(input),
            ContextParse::ParseFields { expected_format, required_fields } => {
                match input {
                    JsonValue::Object(entries) => {
                        proof { crate::json::lemma_object_view(entries); }
                        let ghost object = entries_data(entries@);
                        let ghost req = texts(required_fields@);
                        let mut missing: Vec<String> = Vec::new();
                        let mut i: usize = 0;
                        assert(texts(missing@) =~= missing_fields(req.take(0), object));
                        while i < required_fields.len()
                            invariant
                                0 <= i <= required_fields@.len(),
                                req == texts(required_fields@),
                                object == entries_data(entries@),
                                texts(missing@) == missing_fields(req.take(i as int), object),
                            decreases required_fields@.len() - i,
                        {
                            assert(req.take(i + 1).drop_last() =~= req.take(i as int));
                            let present = contains_entry_key(&entries, required_fields[i].as_str());
                            if !present {
                                let ghost before = missing@;
                                missing.push(required_fields[i].clone());
                                assert(texts(missing@) =~= texts(before).push(req[i as int]));
                            }
                            i = i + 1;
                        }
                        assert(req.take(req.len() as int) =~= req);
                        if missing.len() > 0 {
                            let mut msg = owned("Required Field Not Found: ");
                            let listed = debug_strings(&missing);
                            msg.append(listed.as_str());
                            return ContextStep::Parsed(Err(msg));
                        }
                        let mut kept: Vec<(String, JsonValue)> = Vec::new();
                        let ghost expected = entries_data(expected_format@);
                        let mut j: usize = 0;
                        assert(entries_data(kept@) =~= kept_fields(object.take(0), expected));
                        while j < entries.len()
                            invariant
                                0 <= j <= entries@.len(),
                                object == entries_data(entries@),
                                expected == entries_data(expected_format@),
                                entries_data(kept@) == kept_fields(object.take(j as int), expected),
                            decreases entries@.len() - j,
                        {
                            assert(object.take(j + 1).drop_last() =~= object.take(j as int));
                            let keep = contains_entry_key(expected_format, entries[j].0.as_str());
                            if keep {
                                let ghost k0 = kept@;
                                kept.push((entries[j].0.clone(), entries[j].1.deep_clone()));
                                assert(entries_data(kept@) =~= entries_data(k0).push(object[j as int]));
                            }
                            j = j + 1;
                        }
                        assert(object.take(object.len() as int) =~= object);
                        ContextStep::Parsed(Ok(JsonValue::object(kept)))
                    },
                    _ => ContextStep::Parsed(Err(owned("The input is not a valid JSON."))),
                }
            },
        }
    }
}

} // verus!
