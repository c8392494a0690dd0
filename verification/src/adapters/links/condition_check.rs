//! Checking a condition. The chain call, the HTTP request and the user's
//! judging function are the caller's work; what to ask for, which errors come
//! before any of it, and how the verdicts of sub-conditions combine are decided
//! here.

use vstd::prelude::*;
use crate::adapters::links::conditions::{check_time, time_condition_holds, Condition, ConditionType, ConditionTypeData, LogicalOperator, TimeOfDay};
use crate::ethereum::Address;
use crate::json::{clone_values, entries_data, opt_data, values_data, JsonData, JsonValue};
use crate::text::owned;

verus! {

/// What the caller must do to learn the verdict of one condition.
pub enum Probe {
    /// Call the function on the contract with these parameters, then judge
    /// the raw reply, as its debug text.
    Call { contract_address: Address, function_signature: String, params: Vec<JsonValue> },
    /// Fetch the JSON at this URL and judge it.
    Fetch { url: String },
    /// Judge this value.
    Judge { value: JsonValue },
    /// The verdict is known without outside work.
    Decided { verdict: bool },
}

/// The content of a probe.
pub ghost enum ProbeData {
    Call { contract_address: Seq<u8>, function_signature: Seq<char>, params: Seq<JsonData> },
    Fetch { url: Seq<char> },
    Judge { value: JsonData },
    Decided { verdict: bool },
}

impl Probe {
    pub open spec fn data(self) -> ProbeData {
        match self {
            Probe::Call { contract_address, function_signature, params } => ProbeData::Call {
                contract_address: contract_address@,
                function_signature: function_signature@,
                params: params@.map_values(|p: JsonValue| p@),
            },
            Probe::Fetch { url } => ProbeData::Fetch { url: url@ },
            Probe::Judge { value } => ProbeData::Judge { value: value@ },
            Probe::Decided { verdict } => ProbeData::Decided { verdict },
        }
    }
}

/// How a condition is checked: by one probe, or by probing each of its
/// sub-conditions in turn and combining their verdicts with the operator.
pub enum CheckPlan {
    Probe(Probe),
    EachSubCondition { operator: LogicalOperator },
}

pub ghost enum CheckPlanData {
    Probe(ProbeData),
    EachSubCondition { operator: LogicalOperator },
}

impl CheckPlan {
    pub open spec fn data(self) -> CheckPlanData {
        match self {
            CheckPlan::Probe(p) => CheckPlanData::Probe(p.data()),
            CheckPlan::EachSubCondition { operator } => CheckPlanData::EachSubCondition { operator },
        }
    }
}

/// `parts` joined with `sep` between each two.
pub open spec fn joined(parts: Seq<Seq<char>>, sep: Seq<char>) -> Seq<char>
    decreases parts.len(),
{
    if parts.len() == 0 {
        Seq::empty()
    } else if parts.len() == 1 {
        parts[0]
    } else {
        joined(parts.drop_last(), sep) + sep + parts.last()
    }
}

/// The `key=value` pair of a query string for one member of the dynamic
/// parameters; a value that is not a string gives an empty text.
pub open spec fn query_pair(entry: (Seq<char>, JsonData)) -> Seq<char> {
    entry.0 + "="@ + match entry.1 {
        JsonData::Str(s) => s,
        _ => Seq::empty(),
    }
}

/// The URL an off-chain condition fetches: with an object of dynamic
/// parameters, the API URL, `?` and the members as `key=value` pairs joined by
/// `&`; otherwise the API URL itself.
pub open spec fn fetch_url(api_url: Seq<char>, dynamic: Option<JsonData>) -> Seq<char> {
    match dynamic {
        Some(JsonData::Object(entries)) => api_url + "?"@ + joined(entries.map_values(|e: (Seq<char>, JsonData)| query_pair(e)), "&"@),
        _ => api_url,
    }
}

/// The parameters of an on-chain call: none without dynamic parameters, the
/// items of an array, and an error for anything else.
pub open spec fn call_params(dynamic: Option<JsonData>) -> Result<Seq<JsonData>, Seq<char>> {
    match dynamic {
        None => Ok(Seq::empty()),
        Some(JsonData::Array(items)) => Ok(items),
        Some(_) => Err("dynamic_params must be an array"@),
    }
}

/// The error of a context-based condition checked on its own, without context.
pub open spec fn missing_context_message() -> Seq<char> {
    "No context provided from the previous node to evaluate condition."@
}

/// The error of a context-based sub-condition without context.
pub open spec fn missing_sub_context_message() -> Seq<char> {
    "No context provided for ContextBased condition"@
}

/// The error of a composite sub-condition.
pub open spec fn unsupported_sub_message() -> Seq<char> {
    "Unsupported sub-condition type"@
}

/// The error of `Not` over other than one sub-condition.
pub open spec fn not_arity_message() -> Seq<char> {
    "Not operator must have exactly one sub-condition"@
}

/// The probe of a condition of a kind other than composite; `missing` is the
/// error for a context-based condition without context.
pub open spec fn probe_of(
    t: ConditionTypeData,
    context: Option<JsonData>,
    dynamic: Option<JsonData>,
    now: TimeOfDay,
    missing: Seq<char>,
) -> Result<ProbeData, Seq<char>> {
    match t {
        ConditionTypeData::OnChain { contract_address, function_signature } => match call_params(dynamic) {
            Ok(params) => Ok(ProbeData::Call { contract_address, function_signature, params }),
            Err(e) => Err(e),
        },
        ConditionTypeData::OffChain { api_url } => Ok(ProbeData::Fetch { url: fetch_url(api_url, dynamic) }),
        ConditionTypeData::ContextBased => match context {
            Some(c) => Ok(ProbeData::Judge { value: c }),
            None => Err(missing),
        },
        ConditionTypeData::TimeBased { comparison_time, comparison_type } => Ok(ProbeData::Decided {
            verdict: time_condition_holds(now, comparison_time, comparison_type),
        }),
        ConditionTypeData::Composite { .. } => Err(unsupported_sub_message()),
    }
}

/// How a condition is checked.
pub open spec fn check_plan(
    t: ConditionTypeData,
    context: Option<JsonData>,
    dynamic: Option<JsonData>,
    now: TimeOfDay,
) -> Result<CheckPlanData, Seq<char>> {
    match t {
        ConditionTypeData::Composite { operator, .. } => Ok(CheckPlanData::EachSubCondition { operator }),
        _ => match probe_of(t, context, dynamic, now, missing_context_message()) {
            Ok(p) => Ok(CheckPlanData::Probe(p)),
            Err(e) => Err(e),
        },
    }
}

/// Whether every verdict holds.
pub open spec fn all_hold(results: Seq<bool>) -> bool {
    forall|i: int| 0 <= i < results.len() ==> #[trigger] results[i]
}

/// Whether some verdict holds.
pub open spec fn any_holds(results: Seq<bool>) -> bool {
    exists|i: int| 0 <= i < results.len() && #[trigger] results[i]
}

/// The verdict of a composite condition from those of its sub-conditions:
/// `And` all, `Or` any, `Not` the negation of the only one.
pub open spec fn combined(operator: LogicalOperator, results: Seq<bool>) -> Result<bool, Seq<char>> {
    match operator {
        LogicalOperator::And => Ok(all_hold(results)),
        LogicalOperator::Or => Ok(any_holds(results)),
        LogicalOperator::Not => if results.len() == 1 {
            Ok(!results[0])
        } else {
            Err(not_arity_message())
        },
    }
}

pub open spec fn probe_result(r: Result<Probe, String>) -> Result<ProbeData, Seq<char>> {
    match r {
        Ok(p) => Ok(p.data()),
        Err(e) => Err(e@),
    }
}

pub open spec fn plan_result(r: Result<CheckPlan, String>) -> Result<CheckPlanData, Seq<char>> {
    match r {
        Ok(p) => Ok(p.data()),
        Err(e) => Err(e@),
    }
}

fn append_str(s: &mut String, t: &str)
    ensures
        final(s)@ == old(s)@ + t@,
{
    s.append(t);
}

/// The URL an off-chain condition fetches.
pub fn build_fetch_url(api_url: &String, dynamic: &Option<JsonValue>) -> (res: String)
    ensures
        res@ == fetch_url(api_url@, opt_data(*dynamic)),
{
    match dynamic {
        Some(JsonValue::Object(entries)) => {
            let mut url = api_url.clone();
            append_str(&mut url, "?");
            let ghost pairs = entries_data(entries@).map_values(|e: (Seq<char>, JsonData)| query_pair(e));
            let ghost base = url@;
            let mut i: usize = 0;
            while i < entries.len()
                invariant
                    i <= entries@.len(),
                    pairs.len() == entries@.len(),
                    forall|k: int| 0 <= k < entries@.len() ==> #[trigger] pairs[k] == query_pair((entries@[k].0@, entries@[k].1@)),
                    url@ == base + joined(pairs.take(i as int), "&"@),
                decreases entries.len() - i,
            {
                let ghost before = url@;
                if i > 0 {
                    append_str(&mut url, "&");
                }
                append_str(&mut url, entries[i].0.as_str());
                append_str(&mut url, "=");
                match &entries[i].1 {
                    JsonValue::String(v) => append_str(&mut url, v.as_str()),
                    _ => {},
                }
                proof {
                    let t = pairs.take(i + 1);
                    assert(t.drop_last() =~= pairs.take(i as int));
                    assert(t.last() == pairs[i as int]);
                    if i == 0 {
                        assert(pairs.take(0) =~= Seq::<Seq<char>>::empty());
                        assert(url@ =~= base + joined(t, "&"@));
                    } else {
                        assert(url@ =~= base + joined(t, "&"@));
                    }
                }
                i = i + 1;
            }
            proof {
                assert(pairs.take(entries@.len() as int) =~= pairs);
                let e = entries_data(entries@);
                assert(opt_data(*dynamic) == Some(JsonData::Object(e))) by {
                    assert(dynamic.unwrap()@ == JsonData::Object(e)) by {
                        assert(dynamic.unwrap()@->Object_0 =~= e);
                    }
                }
                assert(url@ =~= api_url@ + "?"@ + joined(pairs, "&"@));
            }
            url
        },
        _ => api_url.clone(),
    }
}

/// The parameters of an on-chain call, from the dynamic parameters.
pub fn build_call_params(dynamic: &Option<JsonValue>) -> (res: Result<Vec<JsonValue>, String>)
    ensures
        match (res, call_params(opt_data(*dynamic))) {
            (Ok(v), Ok(p)) => v@.map_values(|x: JsonValue| x@) == p,
            (Err(e), Err(m)) => e@ == m,
            _ => false,
        },
{
    match dynamic {
        None => Ok(Vec::new()),
        Some(JsonValue::Array(items)) => {
            let v = clone_values(items);
            proof {
                let a = dynamic.unwrap();
                assert(a == JsonValue::Array(*items));
                let d = a@->Array_0;
                assert(d.len() == items@.len());
                let m = v@.map_values(|x: JsonValue| x@);
                assert(m.len() == items@.len()) by {
                    assert(values_data(v@).len() == values_data(items@).len());
                }
                assert forall|k: int| 0 <= k < v@.len() implies #[trigger] m[k] == d[k] by {
                    assert(values_data(v@)[k] == values_data(items@)[k]);
                    assert(d[k] == items@[k].data());
                }
                assert(m =~= d);
            }
            Ok(v)
        },
        Some(_) => Err(owned("dynamic_params must be an array")),
    }
}

fn probe_for(
    t: &ConditionType,
    context: &Option<JsonValue>,
    dynamic: &Option<JsonValue>,
    now: &TimeOfDay,
    missing: &str,
) -> (res: Result<Probe, String>)
    ensures
        probe_result(res) == probe_of(t.data(), opt_data(*context), opt_data(*dynamic), *now, missing@),
{
    match t {
        ConditionType::OnChain { contract_address, function_signature } => {
            match build_call_params(dynamic) {
                Ok(params) => Ok(Probe::Call {
                    contract_address: *contract_address,
                    function_signature: function_signature.clone(),
                    params,
                }),
                Err(e) => Err(e),
            }
        },
        ConditionType::OffChain { api_url } => Ok(Probe::Fetch { url: build_fetch_url(api_url, dynamic) }),
        ConditionType::ContextBased => match context {
            Some(c) => Ok(Probe::Judge { value: c.deep_clone() }),
            None => Err(owned(missing)),
        },
        ConditionType::TimeBased { comparison_time, comparison_type } => Ok(Probe::Decided {
            verdict: check_time(now, comparison_time, *comparison_type),
        }),
        ConditionType::Composite { .. } => Err(owned("Unsupported sub-condition type")),
    }
}

impl Condition {
    /// How this condition is checked, given the result of the previous node,
    /// the dynamic parameters and the time of day: the probe of a simple
    /// condition, or, for a composite one, a probe of each sub-condition in
    /// turn (see `plan_sub_check`) combined by `combine_results`.
    pub fn plan_check(&self, context: &Option<JsonValue>, dynamic: &Option<JsonValue>, now: &TimeOfDay) -> (res: Result<CheckPlan, String>)
        ensures
            plan_result(res) == check_plan(self.condition_type.data(), opt_data(*context), opt_data(*dynamic), *now),
    {
        match &self.condition_type {
            ConditionType::Composite { operator, .. } => Ok(CheckPlan::EachSubCondition { operator: *operator }),
            _ => match probe_for(&self.condition_type, context, dynamic, now, "No context provided from the previous node to evaluate condition.") {
                Ok(p) => Ok(CheckPlan::Probe(p)),
                Err(e) => Err(e),
            },
        }
    }

    /// The probe of this condition as a sub-condition of a composite one; a
    /// composite sub-condition is refused.
    pub fn plan_sub_check(&self, context: &Option<JsonValue>, dynamic: &Option<JsonValue>, now: &TimeOfDay) -> (res: Result<Probe, String>)
        ensures
            probe_result(res) == probe_of(self.condition_type.data(), opt_data(*context), opt_data(*dynamic), *now, missing_sub_context_message()),
    {
        probe_for(&self.condition_type, context, dynamic, now, "No context provided for ContextBased condition")
    }
}

/// The verdict of a composite condition from the verdicts of its
/// sub-conditions, in order.
pub fn combine_results(operator: LogicalOperator, results: &Vec<bool>) -> (res: Result<bool, String>)
    ensures
        match (res, combined(operator, results@)) {
            (Ok(b), Ok(c)) => b == c,
            (Err(e), Err(m)) => e@ == m,
            _ => false,
        },
{
    match operator {
        LogicalOperator::And => {
            let mut i: usize = 0;
            while i < results.len()
                invariant
                    i <= results@.len(),
                    operator == LogicalOperator::And,
                    forall|k: int| 0 <= k < i ==> #[trigger] results@[k],
                decreases results.len() - i,
            {
                if !results[i] {
                    assert(!results@[i as int]);
                    return Ok(false);
                }
                i = i + 1;
            }
            Ok(true)
        },
        LogicalOperator::Or => {
            let mut i: usize = 0;
            while i < results.len()
                invariant
                    i <= results@.len(),
                    operator == LogicalOperator::Or,
                    forall|k: int| 0 <= k < i ==> !#[trigger] results@[k],
                decreases results.len() - i,
            {
                if results[i] {
                    assert(results@[i as int]);
                    return Ok(true);
                }
                i = i + 1;
            }
            Ok(false)
        },
        LogicalOperator::Not => {
            if results.len() != 1 {
                Err(owned("Not operator must have exactly one sub-condition"))
            } else {
                Ok(!results[0])
            }
        },
    }
}

} // verus!
