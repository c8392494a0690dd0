use npc_workbench::adapters::nodes::agents::{Agent, FloatParam, Objective};
use npc_workbench::adapters::nodes::objectives::objectives_from_answer;
use npc_workbench::json::{JsonNumber, JsonValue};
use npc_workbench::utils::{parse_llm_model, ModelFloats};

fn float(x: f64) -> FloatParam {
    FloatParam { display: x.to_string(), json: JsonValue::Number(JsonNumber::Float(x.to_bits())) }
}

fn agent() -> Agent {
    let meta = JsonValue::Object(vec![("model_type".to_string(), JsonValue::String("Ollama".to_string()))]);
    let floats = ModelFloats { temperature: float(0.7), top_p: float(1.0), frequency_penalty: float(0.0), presence_penalty: float(0.0) };
    Agent {
        name: "MemeMaster".to_string(),
        id: vec![1],
        role: "Creative Storyteller".to_string(),
        personality: "witty".to_string(),
        system: "s".to_string(),
        model: parse_llm_model(&meta, floats).unwrap(),
        wallet_address: [1u8; 20],
        write_role: true,
        admin_role: false,
        encrypted: false,
        lens_account: Some("lens1".to_string()),
        farcaster_account: Some("farcaster1".to_string()),
        objectives: vec![],
    }
}

fn priorities(a: &Agent) -> Vec<u8> {
    a.objectives.iter().map(|o| o.priority).collect()
}

#[test]
fn objectives_stay_ordered_by_priority() {
    let mut a = agent();
    a.add_objective("low", 2, false);
    a.add_objective("high", 9, false);
    a.add_objective("mid", 5, false);
    a.add_objective("high too", 9, true);
    assert_eq!(priorities(&a), vec![9, 9, 5, 2]);
    assert_eq!(a.objectives[0].description, "high");
    assert_eq!(a.objectives[1].description, "high too");
}

#[test]
fn objective_from_json() {
    let ok = JsonValue::Object(vec![
        ("description".to_string(), JsonValue::String("grow".to_string())),
        ("priority".to_string(), JsonValue::Number(JsonNumber::PosInt(300))),
        ("generated".to_string(), JsonValue::Bool(true)),
    ]);
    let o = Objective::try_from(&ok).unwrap();
    assert_eq!(o.description, "grow");
    assert_eq!(o.priority, 44);
    assert!(o.generated);
    let missing = JsonValue::Object(vec![("description".to_string(), JsonValue::String("x".to_string()))]);
    assert_eq!(Objective::try_from(&missing).err(), Some("Missing or invalid 'priority' field".to_string()));
}

#[test]
fn objectives_question() {
    let a = agent();
    let q = a.objectives_prompt("memes");
    assert!(q.starts_with("As a Creative Storyteller with the personality 'witty', what objectives should you focus on given the following context: memes."));
    assert!(q.ends_with("Format: Objective: <description>, Priority: <1-10>."));
}

#[test]
fn objectives_read_from_answer() {
    let found = objectives_from_answer("Objective: Grow the audience, Priority: 8\nGoal: Post daily; priority 300");
    assert_eq!(found, vec![("Grow the audience".to_string(), 8), ("Post daily".to_string(), 1)]);
}

#[test]
fn objectives_read_line_by_line_as_fallback() {
    let found = objectives_from_answer("launch token 7\nnothing here\n42\n  write thread 3 ");
    assert_eq!(found, vec![("launch token".to_string(), 7), ("write thread".to_string(), 3)]);
}

#[test]
fn generated_objectives_are_added_in_order_of_priority() {
    let mut a = agent();
    a.add_objective("existing", 5, false);
    a.add_generated_objectives("Objective: A, Priority: 2\nObjective: B, Priority: 9");
    assert_eq!(priorities(&a), vec![9, 5, 2]);
    assert!(a.objectives[0].generated);
    assert!(!a.objectives[1].generated);
    assert_eq!(a.name, "MemeMaster");
}

#[test]
fn agent_json_has_its_settings() {
    let a = agent();
    let j = a.to_json();
    assert_eq!(j.str_member("name"), Some("MemeMaster"));
    assert_eq!(j.str_member("role"), Some("Creative Storyteller"));
}

#[test]
fn configured_service_model_keeps_its_body_as_json() {
    let meta = JsonValue::Object(vec![
        ("model_type".to_string(), JsonValue::String("Mine".to_string())),
        ("url".to_string(), JsonValue::String("https://svc".to_string())),
        (
            "body".to_string(),
            JsonValue::Object(vec![
                ("q".to_string(), JsonValue::String("x".to_string())),
                ("n".to_string(), JsonValue::Number(JsonNumber::PosInt(3))),
            ]),
        ),
    ]);
    let floats = ModelFloats { temperature: float(0.7), top_p: float(1.0), frequency_penalty: float(0.0), presence_penalty: float(0.0) };
    match parse_llm_model(&meta, floats).unwrap() {
        npc_workbench::adapters::nodes::agents::LLMModel::Other { config } => {
            assert_eq!(config.get("url"), Some(&"https://svc".to_string()));
            let body: serde_json::Value = serde_json::from_str(config.get("body").unwrap()).unwrap();
            let expected: serde_json::Value = serde_json::from_str(r#"{"q": "x", "n": ""}"#).unwrap();
            assert_eq!(body, expected);
        }
        _ => panic!("an unknown model type is a configured service"),
    }
}
