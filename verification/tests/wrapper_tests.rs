use npc_workbench::adapters::links::evaluations::human_judge_verdict;
use npc_workbench::execution::Timestamp;
use npc_workbench::ipfs::{IPFSClient, IPFSClientFactory, IPFSProvider};
use npc_workbench::json::JsonValue;
use npc_workbench::stored::{agent_from_metadata, answer_count, read_agent_entry};
use npc_workbench::string_map::StringMap;
use npc_workbench::tools::context::{ContextParse, ContextStep};
use npc_workbench::utils::{build_execution_history, ModelFloats};
use npc_workbench::workflow::compose::timestamp_rfc3339;
use npc_workbench::adapters::nodes::agents::FloatParam;
use npc_workbench::json::JsonNumber;

fn obj(entries: Vec<(&str, JsonValue)>) -> JsonValue {
    JsonValue::Object(entries.into_iter().map(|(k, v)| (k.to_string(), v)).collect())
}

fn text(s: &str) -> JsonValue {
    JsonValue::String(s.to_string())
}

#[test]
fn human_answers_are_trimmed_and_lowercased() {
    assert!(human_judge_verdict(Some("  YES \n"), false));
    assert!(!human_judge_verdict(Some("No"), true));
    assert!(human_judge_verdict(Some("maybe"), true));
    assert!(!human_judge_verdict(None, false));
}

#[test]
fn infura_requests_carry_basic_authorization() {
    let mut c = StringMap::new();
    c.insert_str("project_id", "id");
    c.insert_str("project_secret", "secret");
    let client = IPFSClientFactory::create_client(IPFSProvider::Infura, c).ok().unwrap();
    let req = client.upload_request(vec![1, 2, 3]);
    assert_eq!(req.url, "https://ipfs.infura.io:5001/api/v0/add");
    assert_eq!(req.headers.get("Authorization"), Some(&"Basic aWQ6c2VjcmV0".to_string()));
    assert_eq!(req.body, vec![1, 2, 3]);
    let reply = obj(vec![("Hash", text("QmZ"))]);
    assert_eq!(client.upload_result(&reply), "ipfs://QmZ");
}

#[test]
fn missing_fields_are_listed_as_debug_text() {
    let tool = ContextParse::ParseFields {
        expected_format: vec![("a".to_string(), JsonValue::Null)],
        required_fields: vec!["a".to_string(), "b".to_string()],
    };
    match tool.process(obj(vec![("c", JsonValue::Bool(true))])) {
        ContextStep::Parsed(Err(e)) => assert_eq!(e, "Required Field Not Found: [\"a\", \"b\"]"),
        _ => panic!("expected a refusal"),
    }
    match tool.process(obj(vec![("a", text("x")), ("b", text("y"))])) {
        ContextStep::Parsed(Ok(v)) => assert_eq!(v, obj(vec![("a", text("x"))])),
        _ => panic!("expected the kept fields"),
    }
}

#[test]
fn history_timestamps_are_read_or_default_to_now() {
    let now = Timestamp { secs: 7, nanos: 0 };
    let data = JsonValue::Array(vec![
        obj(vec![("element_id", text("0a")), ("element_type", text("Agent")), ("timestamp", text("1970-01-01T00:01:40Z"))]),
        obj(vec![("timestamp", text("garbage"))]),
    ]);
    let h = build_execution_history(&data, now);
    assert_eq!(h.len(), 2);
    assert_eq!(h[0].timestamp, Timestamp { secs: 100, nanos: 0 });
    assert_eq!(h[0].element_id, vec![10]);
    assert_eq!(h[0].element_type, "Agent");
    assert_eq!(h[1].timestamp, now);
    assert_eq!(h[1].element_type, "Unknown");
}

#[test]
fn timestamps_shown_as_rfc3339() {
    assert_eq!(timestamp_rfc3339(Timestamp { secs: 100, nanos: 0 }), Some("1970-01-01T00:01:40+00:00".to_string()));
}

#[test]
fn wrong_count_and_wallet_texts_give_their_errors() {
    let answer = obj(vec![("count", text("zz"))]);
    let e = answer_count(&answer).unwrap_err();
    assert!(!e.is_empty() && e != "Missing count");
    let entry = read_agent_entry(&obj(vec![("metadata", text("Qm")), ("wallet", text("nothex"))])).ok().unwrap();
    let f = |x: f64| FloatParam { display: x.to_string(), json: JsonValue::Number(JsonNumber::Float(x.to_bits())) };
    let floats = ModelFloats { temperature: f(0.7), top_p: f(1.0), frequency_penalty: f(0.0), presence_penalty: f(0.0) };
    let err = agent_from_metadata(&obj(vec![("model_type", text("Ollama"))]), &entry, floats).err().unwrap();
    assert!(!err.is_empty() && err != "Missing model_type");
}
