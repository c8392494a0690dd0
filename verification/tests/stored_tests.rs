use npc_workbench::adapters::links::conditions::{ConditionType, TimeComparisonType};
use npc_workbench::adapters::links::evaluations::{EvaluationResponseType, EvaluationType};
use npc_workbench::adapters::links::listeners::ListenerType;
use npc_workbench::adapters::nodes::agents::{llm_request, ollama_answer, read_body, FloatParam, LLMModel, LlmBody};
use npc_workbench::string_map::StringMap;
use npc_workbench::adapters::nodes::connectors::off_chain::ConnectorType;
use npc_workbench::execution::Timestamp;
use npc_workbench::function_ref::FunctionRef;
use npc_workbench::json::{JsonNumber, JsonValue};
use npc_workbench::stored::{
    agent_from_metadata, answer_count, answer_object, condition_from_metadata, evaluation_from_metadata,
    gate_from_metadata, listed_items, listener_from_metadata, offchain_from_metadata, read_agent_entry, read_entry,
    workflow_from_answer,
};
use npc_workbench::utils::ModelFloats;

fn conv(v: &serde_json::Value) -> JsonValue {
    match v {
        serde_json::Value::Null => JsonValue::Null,
        serde_json::Value::Bool(b) => JsonValue::Bool(*b),
        serde_json::Value::Number(n) => {
            if let Some(u) = n.as_u64() {
                JsonValue::Number(JsonNumber::PosInt(u))
            } else if let Some(i) = n.as_i64() {
                JsonValue::Number(JsonNumber::NegInt(i))
            } else {
                JsonValue::Number(JsonNumber::Float(n.as_f64().unwrap().to_bits()))
            }
        },
        serde_json::Value::String(s) => JsonValue::String(s.clone()),
        serde_json::Value::Array(a) => JsonValue::Array(a.iter().map(conv).collect()),
        serde_json::Value::Object(o) => JsonValue::Object(o.iter().map(|(k, v)| (k.clone(), conv(v))).collect()),
    }
}

fn j(text: &str) -> JsonValue {
    conv(&serde_json::from_str::<serde_json::Value>(text).unwrap())
}

fn float(x: f64) -> FloatParam {
    FloatParam { display: x.to_string(), json: JsonValue::Number(JsonNumber::Float(x.to_bits())) }
}

fn floats() -> ModelFloats {
    ModelFloats { temperature: float(0.7), top_p: float(1.0), frequency_penalty: float(0.0), presence_penalty: float(0.0) }
}

#[test]
fn entries_need_a_metadata_hash() {
    let e = read_entry(&j(r#"{"id": "0a0b", "metadata": "QmX", "encrypted": true}"#)).unwrap();
    assert_eq!(e.id, vec![10, 11]);
    assert_eq!(e.metadata_hash, "QmX");
    assert!(e.encrypted);
    let bad_id = read_entry(&j(r#"{"id": "zz", "metadata": "QmX"}"#)).unwrap();
    assert!(bad_id.id.is_empty());
    assert!(!bad_id.encrypted);
    assert_eq!(read_entry(&j(r#"{"id": "0a"}"#)).err(), Some("Missing metadata".to_string()));
}

#[test]
fn agent_entries_need_a_wallet() {
    let e = read_agent_entry(&j(r#"{"metadata": "Qm", "wallet": "k", "writer": true}"#)).unwrap();
    assert_eq!(e.wallet_key, "k");
    assert!(e.write_role);
    assert!(!e.admin_role);
    assert_eq!(read_agent_entry(&j(r#"{"metadata": "Qm"}"#)).err(), Some("Missing wallet".to_string()));
}

#[test]
fn listed_items_of_non_array_is_empty() {
    assert!(listed_items(&j(r#"{"a": 1}"#)).is_empty());
    assert_eq!(listed_items(&j(r#"[1, 2]"#)).len(), 2);
}

#[test]
fn stored_condition_kinds() {
    let c = condition_from_metadata(&j(r#"{"condition_type": "OffChain", "api_url": "http://x"}"#), vec![1], false).unwrap();
    assert_eq!(c.name, "Unnamed Condition");
    assert_eq!(c.check.condition_fn, FunctionRef::AcceptAll);
    match c.condition_type {
        ConditionType::OffChain { api_url } => assert_eq!(api_url, "http://x"),
        _ => panic!("wrong kind"),
    }
    let t = condition_from_metadata(
        &j(r#"{"name": "t", "condition_type": "TimeBased", "comparison_time": "08:30:00", "comparison_type": "Before", "expected_value": 3}"#),
        vec![],
        true,
    )
    .unwrap();
    assert_eq!(t.name, "t");
    assert_eq!(t.check.expected_value, Some(JsonValue::Number(JsonNumber::PosInt(3))));
    match t.condition_type {
        ConditionType::TimeBased { comparison_time, comparison_type } => {
            assert_eq!(comparison_time.secs(), 8 * 3600 + 30 * 60);
            assert_eq!(comparison_type, TimeComparisonType::Before);
        },
        _ => panic!("wrong kind"),
    }
}

#[test]
fn stored_condition_errors() {
    let err = |v: &str| condition_from_metadata(&j(v), vec![], false).err().unwrap();
    assert_eq!(err(r#"{}"#), "Missing condition_type");
    assert_eq!(err(r#"{"condition_type": "Other"}"#), "Invalid condition_type");
    assert_eq!(err(r#"{"condition_type": "OnChain"}"#), "Missing contract_address");
    assert_eq!(err(r#"{"condition_type": "TimeBased"}"#), "Missing comparison_time");
    assert_eq!(
        err(r#"{"condition_type": "TimeBased", "comparison_time": "10:00:00", "comparison_type": "Around"}"#),
        "Invalid comparison_type"
    );
    assert!(!err(r#"{"condition_type": "OnChain", "contract_address": "0x12"}"#).is_empty());
}

#[test]
fn stored_listener_kinds() {
    let l = listener_from_metadata(&j(r#"{"listener_type": "Timer", "interval": 5}"#), vec![2], false, "p", "w").unwrap();
    assert_eq!(l.name, "Unnamed Listener");
    match l.listener_type {
        ListenerType::Timer { interval } => assert_eq!(interval, "5s"),
        _ => panic!("wrong kind"),
    }
    let on = listener_from_metadata(
        &j(r#"{"listener_type": "OnChain", "contract_address": "0x0000000000000000000000000000000000000001", "abi": "[]", "chain": "mainnet"}"#),
        vec![],
        false,
        "provider",
        "wallet",
    )
    .unwrap();
    match on.listener_type {
        ListenerType::OnChain { contract_address, chain, provider, wallet, .. } => {
            let mut one = [0u8; 20];
            one[19] = 1;
            assert_eq!(contract_address, one);
            assert_eq!(chain, "Mainnet");
            assert_eq!(provider, "provider");
            assert_eq!(wallet, "wallet");
        },
        _ => panic!("wrong kind"),
    }
    let bad = listener_from_metadata(
        &j(r#"{"listener_type": "OnChain", "contract_address": "0x0000000000000000000000000000000000000001", "abi": "[]", "chain": "nowhere"}"#),
        vec![],
        false,
        "p",
        "w",
    );
    assert_eq!(bad.err(), Some("Matching variant not found".to_string()));
    let missing = listener_from_metadata(&j(r#"{"listener_type": "Timer"}"#), vec![], false, "p", "w");
    assert_eq!(missing.err(), Some("Missing interval".to_string()));
}

#[test]
fn stored_evaluation_kinds() {
    let h = evaluation_from_metadata(&j(r#"{"evaluation_type": "HumanJudge", "timeout": "30", "endpoint": "http://j"}"#), vec![], false, floats(), 0).unwrap();
    match h.evaluation_type {
        EvaluationType::HumanJudge { timeout_secs, default, endpoint, auth_key, .. } => {
            assert_eq!(timeout_secs, 30);
            assert!(!default);
            assert_eq!(endpoint, "http://j");
            assert_eq!(auth_key, Some(String::new()));
        },
        _ => panic!("wrong kind"),
    }
    let a = evaluation_from_metadata(&j(r#"{"evaluation_type": "AgentJudge", "response_type": 0.5}"#), vec![], false, floats(), 0.5f64.to_bits()).unwrap();
    match a.evaluation_type {
        EvaluationType::AgentJudge { agent_id, response_type, .. } => {
            assert_eq!(agent_id, "\u{0}");
            assert_eq!(response_type, EvaluationResponseType::Score { threshold: 0.5f64.to_bits() });
        },
        _ => panic!("wrong kind"),
    }
    let e = evaluation_from_metadata(&j(r#"{"evaluation_type": "LLMJudge"}"#), vec![], false, floats(), 0);
    assert_eq!(e.err(), Some("Missing model_type".to_string()));
    let e = evaluation_from_metadata(&j(r#"{"evaluation_type": "Crowd"}"#), vec![], false, floats(), 0);
    assert_eq!(e.err(), Some("Invalid evaluation_type".to_string()));
}

#[test]
fn stored_gate_reads_contract_from_entry() {
    let list: Vec<String> = (0..20).map(|k: u64| (k + 250).to_string()).collect();
    let entry = format!("{{\"contract_address\": [{}], \"chain\": \"nowhere\"}}", list.join(","));
    let g = gate_from_metadata(&j(r#"{"name": "g", "key": "k"}"#), &j(&entry), vec![4], true).unwrap();
    assert_eq!(g.name, "g");
    assert_eq!(g.contract_address[0], 250);
    assert_eq!(g.contract_address[6], 0);
    assert_eq!(g.operation, "Unnamed Operation");
    assert_eq!(g.chain, "Mainnet");
    let bad = gate_from_metadata(&j(r#"{}"#), &j(r#"{"contract_address": [1, 2]}"#), vec![], false);
    assert_eq!(bad.err(), Some("Invalid or missing contract address".to_string()));
}

#[test]
fn stored_agent_gets_wallet_from_key() {
    let entry = read_agent_entry(&j(r#"{"metadata": "Qm", "wallet": "0x0000000000000000000000000000000000000000000000000000000000000001", "admin": true}"#)).unwrap();
    let meta = r#"{"name": "A", "role": "r", "model_type": "Ollama", "objectives": [
        {"description": "d1", "priority": 3, "generated": false},
        {"description": "bad"}
    ]}"#;
    let a = agent_from_metadata(&j(meta), &entry, floats()).unwrap();
    assert_eq!(a.name, "A");
    assert!(a.admin_role);
    assert_eq!(a.objectives.len(), 1);
    assert_eq!(a.lens_account, Some(String::new()));
    let expected = npc_workbench::ethereum::parse_address("0x7E5F4552091A69125d5DfCb7b8C2659029395Bdf").unwrap();
    assert_eq!(a.wallet_address, expected);
    let no_model = agent_from_metadata(&j(r#"{}"#), &entry, floats());
    assert_eq!(no_model.err(), Some("Missing model_type".to_string()));
    let bad_key = read_agent_entry(&j(r#"{"metadata": "Qm", "wallet": "nothex"}"#)).unwrap();
    assert!(agent_from_metadata(&j(meta), &bad_key, floats()).is_err());
}

#[test]
fn stored_offchain_connector() {
    let c = offchain_from_metadata(
        &j(r#"{"api_url": "http://api", "http_method": "PUT", "headers": {"a": "1", "b": 2}, "connector_type": "REST", "base_payload": null}"#),
        vec![],
        false,
    )
    .unwrap();
    assert_eq!(c.http_method, "PUT");
    assert_eq!(c.headers.as_ref().unwrap().entries, vec![("a".to_string(), "1".to_string())]);
    assert_eq!(c.result_processing_fn, Some(FunctionRef::GiveNull));
    match c.connector_type {
        ConnectorType::REST { base_payload } => assert!(base_payload.is_none()),
        _ => panic!("wrong kind"),
    }
    let g = offchain_from_metadata(&j(r#"{"api_url": "u", "connector_type": "GraphQL"}"#), vec![], false);
    assert_eq!(g.err(), Some("Missing query for GraphQL connector".to_string()));
    let m = offchain_from_metadata(&j(r#"{"connector_type": "REST"}"#), vec![], false);
    assert_eq!(m.err(), Some("Missing api_url".to_string()));
    let d = offchain_from_metadata(&j(r#"{"api_url": "u", "http_method": "PATCH", "connector_type": "REST"}"#), vec![], false).unwrap();
    assert_eq!(d.http_method, "GET");
}

#[test]
fn stored_workflow_from_answer() {
    let now = Timestamp { secs: 100, nanos: 0 };
    let answer = r#"{"data": {"nibble": {"id": "AQI=", "name": "w", "encrypted": false, "nodes": [], "links": [], "execution_history": []}}}"#;
    let w = workflow_from_answer(&j(answer), now).unwrap();
    assert_eq!(w.id, vec![1, 2]);
    assert_eq!(w.name, "w");
    assert!(w.nodes.is_empty());
    let bad = r#"{"data": {"nibble": {"id": "!!", "name": "w", "encrypted": false, "nodes": [], "links": [], "execution_history": []}}}"#;
    assert_eq!(workflow_from_answer(&j(bad), now).err(), Some("Failed to decode id".to_string()));
    let none = r#"{"data": {}}"#;
    assert_eq!(workflow_from_answer(&j(none), now).err(), Some("No data returned from Graph query".to_string()));
}

#[test]
fn nibble_answer_count_is_hexadecimal() {
    let answer = j(r#"{"data": {"nibble": {"count": "0x10"}}}"#);
    let o = answer_object(&answer).unwrap();
    assert_eq!(answer_count(o), Ok([16, 0, 0, 0]));
    let missing = j(r#"{"data": {"nibble": {}}}"#);
    assert_eq!(answer_count(answer_object(&missing).unwrap()), Err("Missing count".to_string()));
}

#[test]
fn stored_timer_intervals_read_as_durations_show() {
    for secs in [0u64, 1, 1200, 86_400] {
        let text = format!(r#"{{"listener_type": "Timer", "interval": {}}}"#, secs);
        let l = listener_from_metadata(&j(&text), vec![], false, "p", "w").unwrap();
        match l.listener_type {
            ListenerType::Timer { interval } => assert_eq!(interval, format!("{:?}", std::time::Duration::from_secs(secs))),
            _ => panic!("wrong kind"),
        }
    }
}

#[test]
fn configured_service_sends_its_body_as_json() {
    let mut config = StringMap::new();
    config.insert("url".to_string(), "https://svc.example/run".to_string());
    config.insert("method".to_string(), "PUT".to_string());
    config.insert("header_X-Key".to_string(), "k".to_string());
    config.insert("body".to_string(), r#"{"a": [1, true]}"#.to_string());
    let model = LLMModel::Other { config };
    let request = llm_request(&model, "hi").unwrap();
    assert_eq!(request.method, "PUT");
    assert_eq!(request.url, "https://svc.example/run");
    assert_eq!(request.headers, vec![("X-Key".to_string(), "k".to_string())]);
    let text = match &request.body {
        LlmBody::JsonText(t) => t.clone(),
        _ => panic!("the configured body is JSON text to read"),
    };
    assert_eq!(text, r#"{"a": [1, true]}"#);
    let read = read_body(request, Ok(j(&text))).unwrap();
    match read.body {
        LlmBody::Json(v) => assert_eq!(v, j(r#"{"a": [1, true]}"#)),
        _ => panic!("the body is read"),
    }
    assert_eq!(read.method, "PUT");
    let again = llm_request(&model, "hi").unwrap();
    assert_eq!(read_body(again, Err("expected value".to_string())).err(), Some("expected value".to_string()));
}

#[test]
fn configured_service_needs_url_and_known_method() {
    let mut config = StringMap::new();
    config.insert("method".to_string(), "POST".to_string());
    assert_eq!(
        llm_request(&LLMModel::Other { config: config.copy() }, "p").err(),
        Some("Missing 'url' in configuration.".to_string())
    );
    config.insert("url".to_string(), "u".to_string());
    config.insert("method".to_string(), "PATCH".to_string());
    assert_eq!(
        llm_request(&LLMModel::Other { config: config.copy() }, "p").err(),
        Some("Unsupported HTTP method: PATCH".to_string())
    );
    config.insert("method".to_string(), "GET".to_string());
    config.insert("body".to_string(), "not json".to_string());
    let expected = serde_json::from_str::<serde_json::Value>("not json").unwrap_err().to_string();
    assert_eq!(llm_request(&LLMModel::Other { config }, "p").err(), Some(expected));
}

#[test]
fn ollama_answers_join_their_responses_or_name_the_failure() {
    let chunks = vec![Some(j(r#"{"response": "Hel"}"#)), None, Some(j(r#"{"done": true}"#)), Some(j(r#"{"response": "lo"}"#))];
    assert_eq!(ollama_answer(true, "ignored", &chunks), Ok("Hello".to_string()));
    assert_eq!(ollama_answer(false, "boom", &chunks), Err("Error en Ollama response: boom".to_string()));
}
