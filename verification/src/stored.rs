//! Reading back a nibble's stored adapters. The subgraph lists each adapter
//! by an entry (its id, the hash of its uploaded description, and flags); the
//! caller fetches the description and decrypts it where the entry says it is
//! encrypted; the adapter is then read from the description here.

use vstd::prelude::*;
use crate::adapters::links::conditions::{
    comparison_name, time_error_text, time_of_day_of_text, Condition, ConditionCheck, ConditionData,
    ConditionType, ConditionTypeData, TimeComparisonType, TimeOfDay,
};
use crate::adapters::links::evaluations::{Evaluation, EvaluationResponseType, EvaluationType};
use crate::adapters::links::fhe_gates::FHEGate;
use crate::adapters::links::listeners::{Listener, ListenerType};
use crate::adapters::nodes::agents::{Agent, Objective};
use crate::adapters::nodes::connectors::off_chain::{ConnectorType, OffChainConnector};
use crate::assoc::inserted;
use crate::ethereum::{
    address_error_text, address_of_text, address_parse_error, chain_of_text, chain_parse_error, key_address,
    parse_address, parse_chain, wallet_address_of_key, wallet_error_text, wallet_key_accepted, wallet_key_error,
    Address,
};
use crate::function_ref::FunctionRef;
use crate::json::{entries_data, opt_data, values_data, JsonData, JsonValue};
use crate::string_map::StringMap;
use crate::text::{decimal, owned, push_char, str_eq, u64_to_decimal, unsigned_of_text};
use crate::utils::{
    build_execution_history, build_links, build_nodes, first_link_error, first_node_error, hex_member, hex_member_of,
    history_read, model_read, parse_llm_model, stored_links, stored_nodes, ModelFloats,
};
use crate::execution::{ExecutionHistory, Timestamp};
use crate::adapters::nodes::connectors::on_chain::U256Words;
use crate::workflow::{Workflow, WorkflowLink, WorkflowNode};

verus! {

/// The subgraph's entry for a stored adapter.
pub struct StoredEntry {
    pub id: Vec<u8>,
    pub metadata_hash: String,
    pub encrypted: bool,
}

/// A text member, or `default` where it is missing or no text.
pub open spec fn str_or(d: JsonData, key: Seq<char>, default: Seq<char>) -> Seq<char> {
    match d.str_at(key) {
        Some(s) => s,
        None => default,
    }
}

/// A boolean member, or false where it is missing or no boolean.
pub open spec fn bool_or_false(d: JsonData, key: Seq<char>) -> bool {
    match d.bool_at(key) {
        Some(b) => b,
        None => false,
    }
}

fn str_or_of(d: &JsonValue, key: &str, default: &str) -> (res: String)
    ensures
        res@ == str_or(d@, key@, default@),
{
    match d.str_member(key) {
        Some(s) => owned(s),
        None => owned(default),
    }
}

fn bool_or_false_of(d: &JsonValue, key: &str) -> (res: bool)
    ensures
        res == bool_or_false(d@, key@),
{
    match d.bool_member(key) {
        Some(b) => b,
        None => false,
    }
}

/// Whether an entry is the one the subgraph's item gives: the id its
/// hexadecimal `id` spells (empty where it is missing or not hexadecimal), the
/// hash under `metadata`, and the `encrypted` flag (false where missing).
pub open spec fn entry_read(e: StoredEntry, d: JsonData) -> bool {
    &&& e.id@ == hex_member(d, "id"@)
    &&& d.str_at("metadata"@) == Some(e.metadata_hash@)
    &&& e.encrypted == bool_or_false(d, "encrypted"@)
}

/// Reads the subgraph's entry for a stored adapter; an entry without the hash
/// of its description is refused.
pub fn read_entry(d: &JsonValue) -> (res: Result<StoredEntry, String>)
    ensures
        match res {
            Ok(e) => entry_read(e, d@),
            Err(m) => d@.str_at("metadata"@) is None && m@ == "Missing metadata"@,
        },
{
    let id = hex_member_of(d, "id");
    match d.str_member("metadata") {
        None => Err(owned("Missing metadata")),
        Some(h) => Ok(StoredEntry { id, metadata_hash: owned(h), encrypted: bool_or_false_of(d, "encrypted") }),
    }
}

/// The items the subgraph lists; none where it lists no array.
pub fn listed_items(data: &JsonValue) -> (res: Vec<JsonValue>)
    ensures
        match data@ {
            JsonData::Array(items) => res@.map_values(|v: JsonValue| v@) == items,
            _ => res@.len() == 0,
        },
{
    match data {
        JsonValue::Array(items) => {
            let v = crate::json::clone_values(items);
            proof {
                assert(*data == JsonValue::Array(*items));
                let m = v@.map_values(|x: JsonValue| x@);
                let d = data@->Array_0;
                assert(m.len() == d.len()) by {
                    assert(crate::json::values_data(v@).len() == crate::json::values_data(items@).len());
                }
                assert forall|k: int| 0 <= k < m.len() implies #[trigger] m[k] == d[k] by {
                    assert(crate::json::values_data(v@)[k] == crate::json::values_data(items@)[k]);
                }
                assert(m =~= d);
            }
            v
        },
        _ => Vec::new(),
    }
}

// ---------------------------------------------------------------- conditions

/// The first error that reading a condition from its description gives.
pub open spec fn condition_metadata_error(d: JsonData) -> Option<Seq<char>> {
    match d.str_at("condition_type"@) {
        None => Some("Missing condition_type"@),
        Some(t) => if t == "OnChain"@ {
            match d.str_at("contract_address"@) {
                None => Some("Missing contract_address"@),
                Some(a) => if address_of_text(a) is None {
                    Some(address_error_text(a))
                } else {
                    None
                },
            }
        } else if t == "OffChain"@ || t == "ContextBased"@ {
            None
        } else if t == "TimeBased"@ {
            match d.str_at("comparison_time"@) {
                None => Some("Missing comparison_time"@),
                Some(x) => if time_of_day_of_text(x) is None {
                    Some(time_error_text(x))
                } else {
                    let c = str_or(d, "comparison_type"@, "After"@);
                    if c == "Before"@ || c == "After"@ {
                        None
                    } else {
                        Some("Invalid comparison_type"@)
                    }
                },
            }
        } else {
            Some("Invalid condition_type"@)
        },
    }
}

/// The kind of condition a description gives, where it gives one.
pub open spec fn condition_type_read(t: ConditionTypeData, d: JsonData) -> bool {
    let kind = str_or(d, "condition_type"@, Seq::empty());
    match t {
        ConditionTypeData::OnChain { contract_address, function_signature } => {
            &&& kind == "OnChain"@
            &&& address_of_text(str_or(d, "contract_address"@, Seq::empty())) == Some(contract_address)
            &&& function_signature == str_or(d, "function_signature"@, Seq::empty())
        },
        ConditionTypeData::OffChain { api_url } => kind == "OffChain"@ && api_url == str_or(d, "api_url"@, Seq::empty()),
        ConditionTypeData::ContextBased => kind == "ContextBased"@,
        ConditionTypeData::TimeBased { comparison_time, comparison_type } => {
            &&& kind == "TimeBased"@
            &&& time_of_day_of_text(str_or(d, "comparison_time"@, Seq::empty()))
                == Some((comparison_time.spec_secs(), comparison_time.spec_frac()))
            &&& comparison_name(comparison_type) == str_or(d, "comparison_type"@, "After"@)
        },
        ConditionTypeData::Composite { .. } => false,
    }
}

/// Whether a condition is the one a stored description gives: its name
/// (`Unnamed Condition` where missing), its kind, the check that accepts every
/// value with the description's `expected_value`, and the entry's id and flag.
pub open spec fn condition_read(c: ConditionData, d: JsonData, id: Seq<u8>, encrypted: bool) -> bool {
    &&& c.name == str_or(d, "name"@, "Unnamed Condition"@)
    &&& condition_type_read(c.condition_type, d)
    &&& c.condition_fn == FunctionRef::AcceptAll
    &&& c.expected_value == d.get("expected_value"@)
    &&& c.id == id
    &&& c.encrypted == encrypted
}

fn read_address(d: &JsonValue) -> (res: Result<crate::ethereum::Address, String>)
    ensures
        match res {
            Ok(a) => d@.str_at("contract_address"@) is Some
                && address_of_text(str_or(d@, "contract_address"@, Seq::empty())) == Some(a@),
            Err(e) => match d@.str_at("contract_address"@) {
                None => e@ == "Missing contract_address"@,
                Some(a) => address_of_text(a) is None && e@ == address_error_text(a),
            },
        },
{
    match d.str_member("contract_address") {
        None => Err(owned("Missing contract_address")),
        Some(a) => match parse_address(a) {
            Some(x) => Ok(x),
            None => Err(address_parse_error(a)),
        },
    }
}

/// Reads a stored condition from its description.
pub fn condition_from_metadata(metadata: &JsonValue, id: Vec<u8>, encrypted: bool) -> (res: Result<Condition, String>)
    ensures
        match res {
            Ok(c) => condition_metadata_error(metadata@) is None && condition_read(c.data(), metadata@, id@, encrypted),
            Err(e) => condition_metadata_error(metadata@) == Some(e@),
        },
{
    let d = metadata;
    proof {
        reveal_strlit("");
        assert(""@ =~= Seq::<char>::empty());
        reveal_strlit("OnChain");
        reveal_strlit("OffChain");
        reveal_strlit("ContextBased");
        reveal_strlit("TimeBased");
        reveal_strlit("Before");
        reveal_strlit("After");
    }
    let name = str_or_of(d, "name", "Unnamed Condition");
    let kind = match d.str_member("condition_type") {
        None => return Err(owned("Missing condition_type")),
        Some(k) => k,
    };
    let condition_type = if str_eq(kind, "OnChain") {
        let contract_address = match read_address(d) {
            Ok(a) => a,
            Err(e) => return Err(e),
        };
        ConditionType::OnChain { contract_address, function_signature: str_or_of(d, "function_signature", "") }
    } else if str_eq(kind, "OffChain") {
        ConditionType::OffChain { api_url: str_or_of(d, "api_url", "") }
    } else if str_eq(kind, "ContextBased") {
        ConditionType::ContextBased
    } else if str_eq(kind, "TimeBased") {
        let text = match d.str_member("comparison_time") {
            None => return Err(owned("Missing comparison_time")),
            Some(t) => t,
        };
        let comparison_time = match TimeOfDay::parse(text) {
            Some(t) => t,
            None => return Err(TimeOfDay::parse_error(text)),
        };
        let c = str_or_of(d, "comparison_type", "After");
        let comparison_type = if str_eq(c.as_str(), "Before") {
            TimeComparisonType::Before
        } else if str_eq(c.as_str(), "After") {
            TimeComparisonType::After
        } else {
            return Err(owned("Invalid comparison_type"));
        };
        ConditionType::TimeBased { comparison_time, comparison_type }
    } else {
        return Err(owned("Invalid condition_type"));
    };
    let expected_value = match d.get("expected_value") {
        Some(v) => Some(v.deep_clone()),
        None => None,
    };
    let c = Condition {
        name,
        condition_type,
        check: ConditionCheck { condition_fn: FunctionRef::AcceptAll, expected_value },
        encrypted,
        id,
    };
    Ok(c)
}

// ----------------------------------------------------------------- listeners

/// The `{:?}` text of a `Duration` of whole seconds: `0ns` for none, else
/// the number of seconds in decimal followed by `s`.
pub open spec fn seconds_debug_text(secs: u64) -> Seq<char> {
    if secs == 0 { "0ns"@ } else { decimal(secs as nat) + "s"@ }
}

/// Shows an interval of whole seconds as `{:?}` shows such a `Duration`.
fn seconds_debug(secs: u64) -> (res: String)
    ensures
        res@ == seconds_debug_text(secs),
{
    if secs == 0 {
        owned("0ns")
    } else {
        let mut s = u64_to_decimal(secs);
        s.append("s");
        s
    }
}

/// The first error that reading a listener from its description gives.
pub open spec fn listener_metadata_error(d: JsonData) -> Option<Seq<char>> {
    match d.str_at("listener_type"@) {
        None => Some("Missing listener_type"@),
        Some(t) => if t == "OnChain"@ {
            match d.str_at("contract_address"@) {
                None => Some("Missing contract_address"@),
                Some(a) => if address_of_text(a) is None {
                    Some(address_error_text(a))
                } else if d.str_at("abi"@) is None {
                    Some("Missing abi"@)
                } else {
                    match d.str_at("chain"@) {
                        None => Some("Missing chain"@),
                        Some(c) => if chain_of_text(c) is None {
                            Some("Matching variant not found"@)
                        } else {
                            None
                        },
                    }
                },
            }
        } else if t == "OffChain"@ {
            None
        } else if t == "Timer"@ {
            if d.u64_at("interval"@) is None {
                Some("Missing interval"@)
            } else {
                None
            }
        } else {
            Some("Invalid listener_type"@)
        },
    }
}

/// The kind of listener a description gives; the provider and the wallet are
/// the caller's, by their texts.
pub open spec fn listener_type_read(t: ListenerType, d: JsonData, provider: Seq<char>, wallet: Seq<char>) -> bool {
    let kind = str_or(d, "listener_type"@, Seq::empty());
    match t {
        ListenerType::OnChain { contract_address, event_signature, abi, provider: p, wallet: w, chain } => {
            &&& kind == "OnChain"@
            &&& address_of_text(str_or(d, "contract_address"@, Seq::empty())) == Some(contract_address@)
            &&& event_signature@ == str_or(d, "event_signature"@, Seq::empty())
            &&& d.str_at("abi"@) == Some(abi@)
            &&& chain_of_text(str_or(d, "chain"@, Seq::empty())) == Some(chain@)
            &&& p@ == provider
            &&& w@ == wallet
        },
        ListenerType::OffChain { webhook_url, sns_verification } => {
            &&& kind == "OffChain"@
            &&& webhook_url@ == str_or(d, "webhook_url"@, Seq::empty())
            &&& sns_verification == bool_or_false(d, "sns_verification"@)
        },
        ListenerType::Timer { interval } => {
            &&& kind == "Timer"@
            &&& d.u64_at("interval"@) is Some
            &&& interval@ == seconds_debug_text(d.u64_at("interval"@).unwrap())
        },
    }
}

/// Whether a listener is the one a stored description gives.
pub open spec fn listener_read(l: Listener, d: JsonData, id: Seq<u8>, encrypted: bool, provider: Seq<char>, wallet: Seq<char>) -> bool {
    &&& l.name@ == str_or(d, "name"@, "Unnamed Listener"@)
    &&& listener_type_read(l.listener_type, d, provider, wallet)
    &&& l.id@ == id
    &&& l.encrypted == encrypted
}

/// Reads a stored listener from its description; an on-chain listener gets
/// the caller's provider and wallet, given by their `{:?}` texts.
pub fn listener_from_metadata(
    metadata: &JsonValue,
    id: Vec<u8>,
    encrypted: bool,
    provider: &str,
    wallet: &str,
) -> (res: Result<Listener, String>)
    ensures
        match res {
            Ok(l) => listener_metadata_error(metadata@) is None && listener_read(l, metadata@, id@, encrypted, provider@, wallet@),
            Err(e) => listener_metadata_error(metadata@) == Some(e@),
        },
{
    let d = metadata;
    proof {
        reveal_strlit("");
        assert(""@ =~= Seq::<char>::empty());
        reveal_strlit("OnChain");
        reveal_strlit("OffChain");
        reveal_strlit("Timer");
    }
    let name = str_or_of(d, "name", "Unnamed Listener");
    let kind = match d.str_member("listener_type") {
        None => return Err(owned("Missing listener_type")),
        Some(k) => k,
    };
    let listener_type = if str_eq(kind, "OnChain") {
        let contract_address = match read_address(d) {
            Ok(a) => a,
            Err(e) => return Err(e),
        };
        let event_signature = str_or_of(d, "event_signature", "");
        let abi = match d.str_member("abi") {
            None => return Err(owned("Missing abi")),
            Some(a) => owned(a),
        };
        let chain = match d.str_member("chain") {
            None => return Err(owned("Missing chain")),
            Some(c) => match parse_chain(c) {
                Some(x) => x,
                None => return Err(chain_parse_error(c)),
            },
        };
        ListenerType::OnChain {
            contract_address,
            event_signature,
            abi,
            provider: owned(provider),
            wallet: owned(wallet),
            chain,
        }
    } else if str_eq(kind, "OffChain") {
        ListenerType::OffChain {
            webhook_url: str_or_of(d, "webhook_url", ""),
            sns_verification: bool_or_false_of(d, "sns_verification"),
        }
    } else if str_eq(kind, "Timer") {
        match d.u64_member("interval") {
            None => return Err(owned("Missing interval")),
            Some(n) => ListenerType::Timer { interval: seconds_debug(n) },
        }
    } else {
        return Err(owned("Invalid listener_type"));
    };
    Ok(Listener { name, id, listener_type, encrypted })
}

// --------------------------------------------------------------- evaluations

/// The number a text spells in decimal, as `str::parse::<u64>` reads it.
pub open spec fn u64_of_text(s: Seq<char>) -> Option<u64> {
    match unsigned_of_text(s, u64::MAX as nat) {
        Some(n) => Some(n as u64),
        None => None,
    }
}

/// Reads a number from a text (`str::parse::<u64>`); trusted to accept, as
/// the documentation of `from_str_radix` says, an optional `+` and then
/// decimal digits whose value fits.
#[verifier::external_body]
fn parse_u64(s: &str) -> (res: Option<u64>)
    ensures
        res == u64_of_text(s@),
{
    s.parse::<u64>().ok()
}

/// The seconds a human judge is given: the number its `timeout` text spells,
/// or none.
pub open spec fn timeout_secs_of(d: JsonData) -> u64 {
    match d.str_at("timeout"@) {
        Some(s) => match u64_of_text(s) {
            Some(n) => n,
            None => 0,
        },
        None => 0,
    }
}

/// How a judge's answer is read: a boolean `response_type` is the expected
/// answer, a number the threshold of a score (`threshold_bits`, the bits of the
/// number as an `f64`, which the caller reads), anything else a dynamic answer.
pub open spec fn response_read(r: EvaluationResponseType, d: JsonData, threshold_bits: u64) -> bool {
    match d.get("response_type"@) {
        Some(JsonData::Bool(b)) => r == (EvaluationResponseType::Boolean { expected: b }),
        Some(JsonData::Number(_)) => r == (EvaluationResponseType::Score { threshold: threshold_bits }),
        _ => r == EvaluationResponseType::Dynamic,
    }
}

/// The text a single zero byte spells.
pub open spec fn zero_text() -> Seq<char> {
    seq!['\u{0}']
}

/// The first error that reading an evaluation from its description gives.
pub open spec fn evaluation_metadata_error(d: JsonData) -> Option<Seq<char>> {
    match d.str_at("evaluation_type"@) {
        None => Some("Missing evaluation_type"@),
        Some(t) => if t == "HumanJudge"@ || t == "AgentJudge"@ {
            None
        } else if t == "LLMJudge"@ {
            if d.str_at("model_type"@) is None {
                Some("Missing model_type"@)
            } else {
                None
            }
        } else {
            Some("Invalid evaluation_type"@)
        },
    }
}

/// Whether an evaluation is the one a stored description gives.
pub open spec fn evaluation_read(
    ev: Evaluation,
    d: JsonData,
    id: Seq<u8>,
    encrypted: bool,
    floats: ModelFloats,
    threshold_bits: u64,
) -> bool {
    let kind = str_or(d, "evaluation_type"@, Seq::empty());
    &&& ev.name@ == str_or(d, "name"@, "Unnamed Evaluation"@)
    &&& ev.id@ == id
    &&& ev.encrypted == encrypted
    &&& match ev.evaluation_type {
        EvaluationType::HumanJudge { timeout_secs, timeout_nanos, default, endpoint, auth_key } => {
            &&& kind == "HumanJudge"@
            &&& timeout_secs == timeout_secs_of(d)
            &&& timeout_nanos == 0
            &&& default == bool_or_false(d, "default"@)
            &&& endpoint@ == str_or(d, "endpoint"@, Seq::empty())
            &&& auth_key matches Some(k) && k@ == str_or(d, "auth_key"@, Seq::empty())
        },
        EvaluationType::LLMJudge { model_type, prompt, response_type } => {
            &&& kind == "LLMJudge"@
            &&& d.str_at("model_type"@) is Some
            &&& model_read(model_type, d, floats)
            &&& prompt@ == str_or(d, "prompt"@, Seq::empty())
            &&& response_read(response_type, d, threshold_bits)
        },
        EvaluationType::AgentJudge { agent_id, prompt, response_type } => {
            &&& kind == "AgentJudge"@
            &&& agent_id@ == str_or(d, "agent_id"@, zero_text())
            &&& prompt@ == str_or(d, "prompt"@, Seq::empty())
            &&& response_read(response_type, d, threshold_bits)
        },
    }
}

fn response_of(d: &JsonValue, threshold_bits: u64) -> (res: EvaluationResponseType)
    ensures
        response_read(res, d@, threshold_bits),
{
    match d.get("response_type") {
        Some(JsonValue::Bool(b)) => EvaluationResponseType::Boolean { expected: *b },
        Some(JsonValue::Number(_)) => EvaluationResponseType::Score { threshold: threshold_bits },
        _ => EvaluationResponseType::Dynamic,
    }
}

/// Reads a stored evaluation from its description. The floating-point
/// settings of an LLM judge's model, and the threshold of a score, are read by
/// the caller and given here.
pub fn evaluation_from_metadata(
    metadata: &JsonValue,
    id: Vec<u8>,
    encrypted: bool,
    floats: ModelFloats,
    threshold_bits: u64,
) -> (res: Result<Evaluation, String>)
    ensures
        match res {
            Ok(ev) => evaluation_metadata_error(metadata@) is None
                && evaluation_read(ev, metadata@, id@, encrypted, floats, threshold_bits),
            Err(e) => evaluation_metadata_error(metadata@) == Some(e@),
        },
{
    let d = metadata;
    proof {
        reveal_strlit("");
        assert(""@ =~= Seq::<char>::empty());
        reveal_strlit("HumanJudge");
        reveal_strlit("LLMJudge");
        reveal_strlit("AgentJudge");
    }
    let name = str_or_of(d, "name", "Unnamed Evaluation");
    let kind = match d.str_member("evaluation_type") {
        None => return Err(owned("Missing evaluation_type")),
        Some(k) => k,
    };
    let evaluation_type = if str_eq(kind, "HumanJudge") {
        let timeout_secs = match d.str_member("timeout") {
            Some(t) => match parse_u64(t) {
                Some(n) => n,
                None => 0,
            },
            None => 0,
        };
        EvaluationType::HumanJudge {
            timeout_secs,
            timeout_nanos: 0,
            default: bool_or_false_of(d, "default"),
            endpoint: str_or_of(d, "endpoint", ""),
            auth_key: Some(str_or_of(d, "auth_key", "")),
        }
    } else if str_eq(kind, "LLMJudge") {
        let model_type = match parse_llm_model(d, floats) {
            Ok(m) => m,
            Err(e) => {
                assert("LLMJudge"@[0] != "AgentJudge"@[0]);
                return Err(e);
            },
        };
        EvaluationType::LLMJudge {
            model_type,
            prompt: str_or_of(d, "prompt", ""),
            response_type: response_of(d, threshold_bits),
        }
    } else if str_eq(kind, "AgentJudge") {
        let agent_id = match d.str_member("agent_id") {
            Some(a) => owned(a),
            None => {
                let mut z = String::new();
                push_char(&mut z, '\u{0}');
                proof {
                    assert(z@ =~= zero_text());
                }
                z
            },
        };
        EvaluationType::AgentJudge {
            agent_id,
            prompt: str_or_of(d, "prompt", ""),
            response_type: response_of(d, threshold_bits),
        }
    } else {
        return Err(owned("Invalid evaluation_type"));
    };
    Ok(Evaluation { name, encrypted, id, evaluation_type })
}

// ------------------------------------------------------------------ FHE gates

/// The contract of a stored gate, from its entry: a list of exactly twenty
/// numbers, each cut to its low byte.
pub open spec fn gate_address_of(item: JsonData) -> Option<Seq<u8>> {
    match item.array_at("contract_address"@) {
        Some(a) => if a.len() == 20 {
            Some(a.map_values(|v: JsonData| v.as_u64().unwrap() as u8))
        } else {
            None
        },
        None => None,
    }
}

/// Whether the entry's contract list can be read: a list of twenty that is
/// not all numbers cannot (reading it fails).
pub open spec fn gate_address_readable(item: JsonData) -> bool {
    match item.array_at("contract_address"@) {
        Some(a) => a.len() == 20 ==> forall|i: int| 0 <= i < a.len() ==> (#[trigger] a[i]).as_u64() is Some,
        None => true,
    }
}

/// Whether a gate is the one a stored description and its entry give: the
/// name and key from the description; the contract, the operation and the
/// chain (`Mainnet` where the entry names none that is known) from the entry.
pub open spec fn gate_read(g: FHEGate, d: JsonData, item: JsonData, id: Seq<u8>, encrypted: bool) -> bool {
    &&& g.name@ == str_or(d, "name"@, "Unnamed FHE Gate"@)
    &&& g.key@ == str_or(d, "key"@, Seq::empty())
    &&& gate_address_of(item) == Some(g.contract_address@)
    &&& g.operation@ == str_or(item, "operation"@, "Unnamed Operation"@)
    &&& g.chain@ == match item.str_at("chain"@) {
        Some(c) => match chain_of_text(c) {
            Some(t) => t,
            None => "Mainnet"@,
        },
        None => "Mainnet"@,
    }
    &&& g.id@ == id
    &&& g.encrypted == encrypted
}

/// Reads a stored FHE gate from its description and its entry; an entry
/// without a list of twenty numbers for the contract is refused.
pub fn gate_from_metadata(metadata: &JsonValue, item: &JsonValue, id: Vec<u8>, encrypted: bool) -> (res: Result<FHEGate, String>)
    requires
        gate_address_readable(item@),
    ensures
        match res {
            Ok(g) => gate_read(g, metadata@, item@, id@, encrypted),
            Err(e) => gate_address_of(item@) is None && e@ == "Invalid or missing contract address"@,
        },
{
    proof {
        reveal_strlit("");
        assert(""@ =~= Seq::<char>::empty());
    }
    let name = str_or_of(metadata, "name", "Unnamed FHE Gate");
    let key = str_or_of(metadata, "key", "");
    let list = match item.array_member("contract_address") {
        Some(a) => a,
        None => return Err(owned("Invalid or missing contract address")),
    };
    if list.len() != 20 {
        return Err(owned("Invalid or missing contract address"));
    }
    let ghost items = values_data(list@);
    let mut contract_address: Address = [0u8; 20];
    let mut i: usize = 0;
    while i < 20
        invariant
            i <= 20,
            list@.len() == 20,
            items == values_data(list@),
            forall|k: int| 0 <= k < 20 ==> (#[trigger] items[k]).as_u64() is Some,
            forall|k: int| 0 <= k < i ==> contract_address@[k] == (#[trigger] items[k]).as_u64().unwrap() as u8,
        decreases 20 - i,
    {
        let n = match list[i].as_u64() {
            Some(n) => n,
            None => 0,
        };
        assert(items[i as int] == list@[i as int]@);
        #[verifier::truncate]
        let b = n as u8;
        contract_address.set(i, b);
        i = i + 1;
    }
    proof {
        assert(contract_address@ =~= items.map_values(|v: JsonData| v.as_u64().unwrap() as u8));
    }
    let operation = str_or_of(item, "operation", "Unnamed Operation");
    let chain = match item.str_member("chain") {
        Some(c) => match parse_chain(c) {
            Some(t) => t,
            None => owned("Mainnet"),
        },
        None => owned("Mainnet"),
    };
    Ok(FHEGate { name, id, key, encrypted, contract_address, operation, chain })
}

// -------------------------------------------------------------------- agents

/// The subgraph's entry for a stored agent: the common entry, the text of its
/// wallet's key, and its roles.
pub struct AgentEntry {
    pub entry: StoredEntry,
    pub wallet_key: String,
    pub write_role: bool,
    pub admin_role: bool,
}

/// Reads the subgraph's entry for a stored agent: the hash of its
/// description, then its wallet, are required.
pub fn read_agent_entry(d: &JsonValue) -> (res: Result<AgentEntry, String>)
    ensures
        match res {
            Ok(a) => {
                &&& entry_read(a.entry, d@)
                &&& d@.str_at("wallet"@) == Some(a.wallet_key@)
                &&& a.write_role == bool_or_false(d@, "writer"@)
                &&& a.admin_role == bool_or_false(d@, "admin"@)
            },
            Err(m) => if d@.str_at("metadata"@) is None {
                m@ == "Missing metadata"@
            } else {
                d@.str_at("wallet"@) is None && m@ == "Missing wallet"@
            },
        },
{
    let entry = match read_entry(d) {
        Ok(e) => e,
        Err(m) => return Err(m),
    };
    let wallet_key = match d.str_member("wallet") {
        Some(w) => owned(w),
        None => return Err(owned("Missing wallet")),
    };
    Ok(AgentEntry {
        entry,
        wallet_key,
        write_role: bool_or_false_of(d, "writer"),
        admin_role: bool_or_false_of(d, "admin"),
    })
}

/// The objective a description of one gives, where it gives one.
pub open spec fn objective_of(d: JsonData) -> Option<(Seq<char>, u8, bool)> {
    match (d.str_at("description"@), d.u64_at("priority"@), d.bool_at("generated"@)) {
        (Some(s), Some(p), Some(g)) => Some((s, p as u8, g)),
        _ => None,
    }
}

/// The objectives a list of descriptions gives, in order; those that give
/// none are left out.
pub open spec fn objectives_of(items: Seq<JsonData>) -> Seq<(Seq<char>, u8, bool)>
    decreases items.len(),
{
    if items.len() == 0 {
        Seq::empty()
    } else {
        let rest = objectives_of(items.drop_last());
        match objective_of(items.last()) {
            Some(o) => rest.push(o),
            None => rest,
        }
    }
}

pub open spec fn objective_triples(objectives: Seq<Objective>) -> Seq<(Seq<char>, u8, bool)> {
    objectives.map_values(|o: Objective| (o.description@, o.priority, o.generated))
}

/// The descriptions of objectives a stored agent lists.
pub open spec fn listed_objectives(d: JsonData) -> Seq<JsonData> {
    match d.array_at("objectives"@) {
        Some(a) => a,
        None => Seq::empty(),
    }
}

/// The first error that reading an agent gives: its model, then its wallet.
pub open spec fn agent_metadata_error(d: JsonData, wallet_key: Seq<char>) -> Option<Seq<char>> {
    if d.str_at("model_type"@) is None {
        Some("Missing model_type"@)
    } else if !wallet_key_accepted(wallet_key) {
        Some(wallet_error_text(wallet_key))
    } else {
        None
    }
}

/// Whether an agent is the one a stored description and its entry give.
pub open spec fn agent_read(a: Agent, d: JsonData, e: AgentEntry, floats: ModelFloats) -> bool {
    &&& a.name@ == str_or(d, "name"@, Seq::empty())
    &&& a.id@ == e.entry.id@
    &&& a.role@ == str_or(d, "role"@, Seq::empty())
    &&& a.personality@ == str_or(d, "personality"@, Seq::empty())
    &&& a.system@ == str_or(d, "system"@, Seq::empty())
    &&& model_read(a.model, d, floats)
    &&& a.wallet_address@ == key_address(e.wallet_key@)
    &&& a.write_role == e.write_role
    &&& a.admin_role == e.admin_role
    &&& a.encrypted == e.entry.encrypted
    &&& a.lens_account matches Some(l) && l@ == str_or(d, "lens_account"@, Seq::empty())
    &&& a.farcaster_account matches Some(f) && f@ == str_or(d, "farcaster_account"@, Seq::empty())
    &&& objective_triples(a.objectives@) == objectives_of(listed_objectives(d))
}

fn objectives_from(items: &Vec<JsonValue>) -> (res: Vec<Objective>)
    ensures
        objective_triples(res@) == objectives_of(values_data(items@)),
{
    let ghost all = values_data(items@);
    let mut out: Vec<Objective> = Vec::new();
    let mut i: usize = 0;
    while i < items.len()
        invariant
            i <= items@.len(),
            all == values_data(items@),
            objective_triples(out@) == objectives_of(all.take(i as int)),
        decreases items.len() - i,
    {
        let r = Objective::try_from(&items[i]);
        proof {
            assert(all.take(i + 1).drop_last() =~= all.take(i as int));
            assert(all.take(i + 1).last() == items@[i as int]@);
        }
        match r {
            Ok(o) => {
                let ghost before = out@;
                let ghost t = (o.description@, o.priority, o.generated);
                out.push(o);
                proof {
                    assert(objective_triples(out@) =~= objective_triples(before).push(t));
                }
            },
            Err(_) => {},
        }
        i = i + 1;
    }
    proof {
        assert(all.take(items@.len() as int) =~= all);
    }
    out
}

/// Reads a stored agent from its description and its entry. The
/// floating-point settings of its model are read by the caller and given here.
pub fn agent_from_metadata(metadata: &JsonValue, entry: &AgentEntry, floats: ModelFloats) -> (res: Result<Agent, String>)
    ensures
        match res {
            Ok(a) => agent_metadata_error(metadata@, entry.wallet_key@) is None && agent_read(a, metadata@, *entry, floats),
            Err(e) => agent_metadata_error(metadata@, entry.wallet_key@) == Some(e@),
        },
{
    let d = metadata;
    proof {
        reveal_strlit("");
        assert(""@ =~= Seq::<char>::empty());
    }
    let role = str_or_of(d, "role", "");
    let personality = str_or_of(d, "personality", "");
    let system = str_or_of(d, "system", "");
    let model = match parse_llm_model(d, floats) {
        Ok(m) => m,
        Err(e) => return Err(e),
    };
    let lens_account = str_or_of(d, "lens_account", "");
    let farcaster_account = str_or_of(d, "farcaster_account", "");
    let objectives = match d.array_member("objectives") {
        Some(items) => objectives_from(items),
        None => {
            let v: Vec<Objective> = Vec::new();
            proof {
                assert(objective_triples(v@) =~= Seq::<(Seq<char>, u8, bool)>::empty());
            }
            v
        },
    };
    let name = str_or_of(d, "name", "");
    let wallet_address = match wallet_address_of_key(entry.wallet_key.as_str()) {
        Some(a) => a,
        None => return Err(wallet_key_error(entry.wallet_key.as_str())),
    };
    Ok(Agent {
        name,
        id: entry.entry.id.clone(),
        role,
        personality,
        system,
        model,
        wallet_address,
        write_role: entry.write_role,
        admin_role: entry.admin_role,
        encrypted: entry.entry.encrypted,
        lens_account: Some(lens_account),
        farcaster_account: Some(farcaster_account),
        objectives,
    })
}

// ------------------------------------------------------- off-chain connectors

/// Whether the subgraph lists an entry as an on-chain connector.
pub fn listed_on_chain(item: &JsonValue) -> (res: bool)
    ensures
        res == bool_or_false(item@, "onChain"@),
{
    bool_or_false_of(item, "onChain")
}

/// The table the text members of an object give, a later member replacing an
/// earlier one of the same key.
pub open spec fn text_table(entries: Seq<(Seq<char>, JsonData)>) -> Seq<(Seq<char>, Seq<char>)>
    decreases entries.len(),
{
    if entries.len() == 0 {
        Seq::empty()
    } else {
        let rest = text_table(entries.drop_last());
        match entries.last().1 {
            JsonData::Str(v) => inserted(rest, entries.last().0, v),
            _ => rest,
        }
    }
}

/// The table of an object member, where it is one.
pub open spec fn opt_table(d: JsonData, key: Seq<char>) -> Option<Seq<(Seq<char>, Seq<char>)>> {
    match d.object_at(key) {
        Some(e) => Some(text_table(e)),
        None => None,
    }
}

pub open spec fn table_view(t: Option<StringMap>) -> Option<Seq<(Seq<char>, Seq<char>)>> {
    match t {
        Some(m) => Some(m@),
        None => None,
    }
}

fn table_from(entries: &Vec<(String, JsonValue)>) -> (res: StringMap)
    ensures
        res@ == text_table(entries_data(entries@)),
        res.wf(),
{
    let ghost all = entries_data(entries@);
    let mut t = StringMap::new();
    let mut i: usize = 0;
    while i < entries.len()
        invariant
            i <= entries@.len(),
            all == entries_data(entries@),
            t@ == text_table(all.take(i as int)),
            t.wf(),
        decreases entries.len() - i,
    {
        proof {
            assert(all.take(i + 1).drop_last() =~= all.take(i as int));
            assert(all.take(i + 1).last() == (entries@[i as int].0@, entries@[i as int].1@));
        }
        match &entries[i].1 {
            JsonValue::String(v) => t.insert_str(entries[i].0.as_str(), v.as_str()),
            _ => {},
        }
        i = i + 1;
    }
    proof {
        assert(all.take(entries@.len() as int) =~= all);
    }
    t
}

fn opt_table_of(d: &JsonValue, key: &str) -> (res: Option<StringMap>)
    ensures
        table_view(res) == opt_table(d@, key@),
        res matches Some(t) ==> t.wf(),
{
    match d.object_member(key) {
        Some(e) => Some(table_from(e)),
        None => None,
    }
}

/// The method a stored connector uses: `POST`, `PUT` or `DELETE` where it
/// names one, else `GET`.
pub open spec fn method_of(d: JsonData) -> Seq<char> {
    let m = str_or(d, "http_method"@, Seq::empty());
    if m == "POST"@ {
        "POST"@
    } else if m == "PUT"@ {
        "PUT"@
    } else if m == "DELETE"@ {
        "DELETE"@
    } else {
        "GET"@
    }
}

/// The first error that reading an off-chain connector gives.
pub open spec fn offchain_metadata_error(d: JsonData) -> Option<Seq<char>> {
    if d.str_at("api_url"@) is None {
        Some("Missing api_url"@)
    } else {
        match d.str_at("connector_type"@) {
            None => Some("Missing connector_type"@),
            Some(t) => if t == "REST"@ {
                None
            } else if t == "GraphQL"@ {
                if d.str_at("query"@) is None {
                    Some("Missing query for GraphQL connector"@)
                } else {
                    None
                }
            } else {
                Some("Invalid connector_type"@)
            },
        }
    }
}

/// Whether an off-chain connector is the one a stored description gives: a
/// REST connector has the `base_payload` that is there and not null; it
/// processes results with the built-in function that gives null; it has no
/// query parameters, tokens or authentication flow.
pub open spec fn offchain_read(c: OffChainConnector, d: JsonData, id: Seq<u8>, encrypted: bool) -> bool {
    let kind = str_or(d, "connector_type"@, Seq::empty());
    &&& c.name@ == str_or(d, "name"@, "Unnamed OffChain Connector"@)
    &&& d.str_at("api_url"@) == Some(c.api_url@)
    &&& c.http_method@ == method_of(d)
    &&& table_view(c.headers) == opt_table(d, "headers"@)
    &&& match c.connector_type {
        ConnectorType::REST { base_payload } => {
            &&& kind == "REST"@
            &&& opt_data(base_payload) == match d.get("base_payload"@) {
                Some(JsonData::Null) => None,
                other => other,
            }
        },
        ConnectorType::GraphQL { query, variables } => {
            &&& kind == "GraphQL"@
            &&& d.str_at("query"@) == Some(query@)
            &&& table_view(variables) == opt_table(d, "variables"@)
        },
    }
    &&& c.params is None
    &&& c.auth_tokens is None
    &&& c.auth_subflow is None
    &&& c.result_processing_fn == Some(FunctionRef::GiveNull)
    &&& c.id@ == id
    &&& c.encrypted == encrypted
}

/// Reads a stored off-chain connector from its description.
pub fn offchain_from_metadata(metadata: &JsonValue, id: Vec<u8>, encrypted: bool) -> (res: Result<OffChainConnector, String>)
    ensures
        match res {
            Ok(c) => offchain_metadata_error(metadata@) is None && offchain_read(c, metadata@, id@, encrypted),
            Err(e) => offchain_metadata_error(metadata@) == Some(e@),
        },
{
    let d = metadata;
    proof {
        reveal_strlit("");
        assert(""@ =~= Seq::<char>::empty());
        reveal_strlit("POST");
        reveal_strlit("PUT");
        reveal_strlit("DELETE");
        reveal_strlit("GET");
        reveal_strlit("REST");
        reveal_strlit("GraphQL");
    }
    let name = str_or_of(d, "name", "Unnamed OffChain Connector");
    let api_url = match d.str_member("api_url") {
        None => return Err(owned("Missing api_url")),
        Some(u) => owned(u),
    };
    let m = str_or_of(d, "http_method", "");
    let http_method = if str_eq(m.as_str(), "POST") {
        owned("POST")
    } else if str_eq(m.as_str(), "PUT") {
        owned("PUT")
    } else if str_eq(m.as_str(), "DELETE") {
        owned("DELETE")
    } else {
        owned("GET")
    };
    let headers = opt_table_of(d, "headers");
    let kind = match d.str_member("connector_type") {
        None => return Err(owned("Missing connector_type")),
        Some(k) => k,
    };
    let connector_type = if str_eq(kind, "REST") {
        let base_payload = match d.get("base_payload") {
            Some(JsonValue::Null) => None,
            Some(v) => Some(v.deep_clone()),
            None => None,
        };
        ConnectorType::REST { base_payload }
    } else if str_eq(kind, "GraphQL") {
        let query = match d.str_member("query") {
            None => return Err(owned("Missing query for GraphQL connector")),
            Some(q) => owned(q),
        };
        ConnectorType::GraphQL { query, variables: opt_table_of(d, "variables") }
    } else {
        return Err(owned("Invalid connector_type"));
    };
    Ok(OffChainConnector {
        name,
        id,
        connector_type,
        api_url,
        encrypted,
        http_method,
        headers,
        params: None,
        auth_tokens: None,
        auth_subflow: None,
        result_processing_fn: Some(FunctionRef::GiveNull),
    })
}

// ---------------------------------------------------------------- workflows

/// The bytes a text spells in standard base64.
pub uninterp spec fn base64_decoded(s: Seq<char>) -> Option<Seq<u8>>;

/// Decodes standard base64 (`base64::engine::general_purpose::STANDARD`);
/// trusted to depend on the text alone.
#[verifier::external_body]
fn base64_decode(s: &str) -> (res: Option<Vec<u8>>)
    ensures
        match res {
            Some(b) => base64_decoded(s@) == Some(b@),
            None => base64_decoded(s@) is None,
        },
{
    base64::Engine::decode(&base64::engine::general_purpose::STANDARD, s).ok()
}

/// The object a subgraph's answer holds under `data`, then `nibble`.
pub open spec fn graph_object(json: JsonData) -> Option<Seq<(Seq<char>, JsonData)>> {
    match json.get("data"@) {
        Some(d) => d.object_at("nibble"@),
        None => None,
    }
}

/// The error that reading stored nodes gives, if any.
pub open spec fn nodes_error(data: JsonData) -> Option<Seq<char>> {
    match data.as_array() {
        Some(items) => first_node_error(items, 0),
        None => None,
    }
}

/// Whether nodes are those stored ones give.
pub open spec fn nodes_read(ns: Seq<WorkflowNode>, data: JsonData) -> bool {
    match data.as_array() {
        Some(items) => stored_nodes(ns, items, items.len() as int),
        None => ns.len() == 0,
    }
}

/// The error that reading stored links gives, if any.
pub open spec fn links_error(data: JsonData) -> Option<Seq<char>> {
    match data.as_array() {
        Some(items) => first_link_error(items, 0),
        None => None,
    }
}

/// Whether links are those stored ones give.
pub open spec fn links_read(ls: Seq<WorkflowLink>, data: JsonData) -> bool {
    match data.as_array() {
        Some(items) => stored_links(ls, items, items.len() as int),
        None => ls.len() == 0,
    }
}

/// Whether a run history is the one stored entries give.
pub open spec fn history_list_read(hs: Seq<ExecutionHistory>, data: JsonData, now: Timestamp) -> bool {
    match data.as_array() {
        Some(items) => hs.len() == items.len() && forall|k: int| 0 <= k < items.len() ==> history_read(#[trigger] hs[k], items[k], now),
        None => hs.len() == 0,
    }
}

/// The first error in the head of a stored workflow: its data, its base64 id,
/// its name and its flag.
pub open spec fn workflow_head_error(json: JsonData) -> Option<Seq<char>> {
    match graph_object(json) {
        None => Some("No data returned from Graph query"@),
        Some(o) => {
            let d = JsonData::Object(o);
            match d.str_at("id"@) {
                None => Some("Missing or invalid id"@),
                Some(id) => if base64_decoded(id) is None {
                    Some("Failed to decode id"@)
                } else if d.str_at("name"@) is None {
                    Some("Missing name"@)
                } else if d.bool_at("encrypted"@) is None {
                    Some("Missing encrypted"@)
                } else {
                    None
                },
            }
        },
    }
}

/// The member of the answer's object, where there is one.
pub open spec fn graph_member(json: JsonData, key: Seq<char>) -> Option<JsonData> {
    match graph_object(json) {
        Some(o) => JsonData::Object(o).get(key),
        None => None,
    }
}

/// Whether the answer holds what reading it takes: where its head reads, its
/// nodes; where they read too, its links; where those read too, its history.
pub open spec fn workflow_answer_complete(json: JsonData) -> bool {
    workflow_head_error(json) is None ==> {
        &&& graph_member(json, "nodes"@) is Some
        &&& nodes_error(graph_member(json, "nodes"@).unwrap()) is None ==> {
            &&& graph_member(json, "links"@) is Some
            &&& links_error(graph_member(json, "links"@).unwrap()) is None ==> graph_member(json, "execution_history"@) is Some
        }
    }
}

/// The first error that reading a stored workflow gives.
pub open spec fn workflow_answer_error(json: JsonData) -> Option<Seq<char>> {
    match workflow_head_error(json) {
        Some(e) => Some(e),
        None => match nodes_error(graph_member(json, "nodes"@).unwrap()) {
            Some(e) => Some(e),
            None => links_error(graph_member(json, "links"@).unwrap()),
        },
    }
}

/// Reads a stored workflow from the subgraph's answer; `now` stands for the
/// time of an entry of its history that has none.
pub fn workflow_from_answer(json: &JsonValue, now: Timestamp) -> (res: Result<Workflow, String>)
    requires
        workflow_answer_complete(json@),
    ensures
        match res {
            Ok(w) => {
                let o = JsonData::Object(graph_object(json@).unwrap());
                &&& workflow_answer_error(json@) is None
                &&& base64_decoded(o.str_at("id"@).unwrap()) == Some(w.id@)
                &&& o.str_at("name"@) == Some(w.name@)
                &&& o.bool_at("encrypted"@) == Some(w.encrypted)
                &&& nodes_read(w.nodes@, o.get("nodes"@).unwrap())
                &&& links_read(w.links@, o.get("links"@).unwrap())
                &&& history_list_read(w.execution_history@, o.get("execution_history"@).unwrap(), now)
            },
            Err(e) => workflow_answer_error(json@) == Some(e@),
        },
{
    let data = match json.get("data") {
        Some(d) => d,
        None => return Err(owned("No data returned from Graph query")),
    };
    let object = match data.get("nibble") {
        Some(v) => v,
        None => return Err(owned("No data returned from Graph query")),
    };
    if object.as_object().is_none() {
        return Err(owned("No data returned from Graph query"));
    }
    let id_text = match object.str_member("id") {
        Some(t) => t,
        None => return Err(owned("Missing or invalid id")),
    };
    let id = match base64_decode(id_text) {
        Some(b) => b,
        None => return Err(owned("Failed to decode id")),
    };
    let name = match object.str_member("name") {
        Some(n) => owned(n),
        None => return Err(owned("Missing name")),
    };
    let encrypted = match object.bool_member("encrypted") {
        Some(b) => b,
        None => return Err(owned("Missing encrypted")),
    };
    let nodes = match object.get("nodes") {
        Some(n) => match build_nodes(n) {
            Ok(ns) => ns,
            Err(e) => return Err(e),
        },
        None => return Err(owned("Missing nodes")),
    };
    let links = match object.get("links") {
        Some(l) => match build_links(l) {
            Ok(ls) => ls,
            Err(e) => return Err(e),
        },
        None => return Err(owned("Missing links")),
    };
    let execution_history = match object.get("execution_history") {
        Some(h) => build_execution_history(h, now),
        None => return Err(owned("Missing execution_history")),
    };
    Ok(Workflow { id, name, nodes, links, encrypted, execution_history })
}

// ------------------------------------------------------------------- nibbles

/// The object the subgraph's answer holds under `data`, then `nibble`.
pub fn answer_object(json: &JsonValue) -> (res: Result<&JsonValue, String>)
    ensures
        match res {
            Ok(o) => graph_object(json@) is Some && o@ == JsonData::Object(graph_object(json@).unwrap()),
            Err(e) => graph_object(json@) is None && e@ == "No data returned from Graph query"@,
        },
{
    let data = match json.get("data") {
        Some(d) => d,
        None => return Err(owned("No data returned from Graph query")),
    };
    let object = match data.get("nibble") {
        Some(v) => v,
        None => return Err(owned("No data returned from Graph query")),
    };
    if object.as_object().is_none() {
        return Err(owned("No data returned from Graph query"));
    }
    Ok(object)
}

/// The contracts a nibble's answer lists, each to be read as a name and an
/// address; an answer without a list of them is refused.
pub fn listed_contracts(object: &JsonValue) -> (res: Result<&Vec<JsonValue>, String>)
    ensures
        match res {
            Ok(items) => object@.array_at("contracts"@) == Some(values_data(items@)),
            Err(e) => match object@.get("contracts"@) {
                None => e@ == "Missing contracts"@,
                Some(c) => c.as_array() is None && e@ == "Contracts should be an array"@,
            },
        },
{
    match object.get("contracts") {
        None => Err(owned("Missing contracts")),
        Some(c) => match c.as_array() {
            Some(items) => Ok(items),
            None => Err(owned("Contracts should be an array")),
        },
    }
}

/// The 256-bit number a hexadecimal text spells (optionally after `0x`).
pub uninterp spec fn u256_of_hex_text(s: Seq<char>) -> Option<Seq<u64>>;

/// The text of the error that reading a text as a 256-bit number gives.
pub uninterp spec fn u256_error_text(s: Seq<char>) -> Seq<char>;

/// Reads a 256-bit number from hexadecimal (`ethers::types::U256` `FromStr`,
/// which reads hexadecimal); trusted to depend on the text alone.
#[verifier::external_body]
fn parse_u256(s: &str) -> (res: Option<U256Words>)
    ensures
        match res {
            Some(w) => u256_of_hex_text(s@) == Some(w@),
            None => u256_of_hex_text(s@) is None,
        },
{
    match s.parse::<ethers::types::U256>() {
        Ok(n) => Some(n.0),
        Err(_) => None,
    }
}

/// The error of reading a text that spells no 256-bit number
/// (`ethers::types::U256` `FromStr`, its error shown by `Display`); trusted to
/// depend on the text alone.
#[verifier::external_body]
fn u256_parse_error(s: &str) -> (res: String)
    ensures
        u256_of_hex_text(s@) is None ==> res@ == u256_error_text(s@),
{
    match s.parse::<ethers::types::U256>() {
        Ok(_) => String::new(),
        Err(e) => e.to_string(),
    }
}

/// The count of adapters a nibble's answer gives: its `count` text read as a
/// hexadecimal 256-bit number.
pub fn answer_count(object: &JsonValue) -> (res: Result<U256Words, String>)
    ensures
        match res {
            Ok(w) => object@.str_at("count"@) is Some && u256_of_hex_text(object@.str_at("count"@).unwrap()) == Some(w@),
            Err(e) => match object@.str_at("count"@) {
                None => e@ == "Missing count"@,
                Some(c) => u256_of_hex_text(c) is None && e@ == u256_error_text(c),
            },
        },
{
    match object.str_member("count") {
        None => Err(owned("Missing count")),
        Some(c) => match parse_u256(c) {
            Some(w) => Ok(w),
            None => Err(u256_parse_error(c)),
        },
    }
}

} // verus!
