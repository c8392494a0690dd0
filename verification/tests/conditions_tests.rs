use npc_workbench::adapters::links::condition_check::{
    build_fetch_url, combine_results, CheckPlan, Probe,
};
use npc_workbench::adapters::links::conditions::{
    check_time, Condition, ConditionCheck, ConditionType, LogicalOperator, TimeComparisonType, TimeOfDay,
};
use npc_workbench::function_ref::FunctionRef;
use npc_workbench::json::JsonValue;

fn condition(t: ConditionType) -> Condition {
    Condition {
        name: "c".to_string(),
        condition_type: t,
        check: ConditionCheck { condition_fn: FunctionRef::AcceptAll, expected_value: None },
        encrypted: false,
        id: vec![7],
    }
}

fn noon() -> TimeOfDay {
    TimeOfDay::new(12 * 3600, 0).unwrap()
}

fn text(s: &str) -> JsonValue {
    JsonValue::String(s.to_string())
}

#[test]
fn logical_operator_names() {
    assert_eq!(LogicalOperator::parse("And"), Ok(LogicalOperator::And));
    assert_eq!(LogicalOperator::parse("Or"), Ok(LogicalOperator::Or));
    assert_eq!(LogicalOperator::parse("Not"), Ok(LogicalOperator::Not));
    assert!(LogicalOperator::parse("and").is_err());
    assert_eq!(LogicalOperator::Or.name(), "Or");
}

#[test]
fn time_comparison_names() {
    assert_eq!(TimeComparisonType::parse("Before"), Ok(TimeComparisonType::Before));
    assert_eq!(TimeComparisonType::parse("After"), Ok(TimeComparisonType::After));
    assert!(TimeComparisonType::parse("Later").is_err());
}

#[test]
fn time_of_day_bounds() {
    assert!(TimeOfDay::new(86_399, 999_999_999).is_some());
    assert!(TimeOfDay::new(86_400, 0).is_none());
    assert!(TimeOfDay::new(59, 1_500_000_000).is_some());
    assert!(TimeOfDay::new(58, 1_500_000_000).is_none());
}

#[test]
fn time_of_day_parse_and_show() {
    let t = TimeOfDay::parse("13:45:10").unwrap();
    assert_eq!(t.secs(), 13 * 3600 + 45 * 60 + 10);
    assert_eq!(t.hms(), "13:45:10");
    assert!(TimeOfDay::parse("not a time").is_none());
    assert!(!TimeOfDay::parse_error("not a time").is_empty());
}

#[test]
fn time_checks() {
    let morning = TimeOfDay::new(9 * 3600, 0).unwrap();
    let evening = TimeOfDay::new(18 * 3600, 0).unwrap();
    assert!(check_time(&morning, &noon(), TimeComparisonType::Before));
    assert!(!check_time(&evening, &noon(), TimeComparisonType::Before));
    assert!(check_time(&evening, &noon(), TimeComparisonType::After));
    assert!(!check_time(&noon(), &noon(), TimeComparisonType::After));
}

#[test]
fn combine_and_or_not() {
    assert_eq!(combine_results(LogicalOperator::And, &vec![true, true]), Ok(true));
    assert_eq!(combine_results(LogicalOperator::And, &vec![true, false]), Ok(false));
    assert_eq!(combine_results(LogicalOperator::And, &vec![]), Ok(true));
    assert_eq!(combine_results(LogicalOperator::Or, &vec![false, true]), Ok(true));
    assert_eq!(combine_results(LogicalOperator::Or, &vec![]), Ok(false));
    assert_eq!(combine_results(LogicalOperator::Not, &vec![false]), Ok(true));
    assert_eq!(
        combine_results(LogicalOperator::Not, &vec![true, false]),
        Err("Not operator must have exactly one sub-condition".to_string())
    );
}

#[test]
fn fetch_url_with_object_parameters() {
    let params = JsonValue::Object(vec![
        ("a".to_string(), text("1")),
        ("b".to_string(), JsonValue::Bool(true)),
    ]);
    assert_eq!(build_fetch_url(&"http://x/api".to_string(), &Some(params)), "http://x/api?a=1&b=");
    assert_eq!(build_fetch_url(&"http://x/api".to_string(), &None), "http://x/api");
    assert_eq!(build_fetch_url(&"http://x/api".to_string(), &Some(text("q"))), "http://x/api");
    assert_eq!(build_fetch_url(&"http://x".to_string(), &Some(JsonValue::Object(vec![]))), "http://x?");
}

#[test]
fn context_condition_needs_context() {
    let c = condition(ConditionType::ContextBased);
    match c.plan_check(&None, &None, &noon()) {
        Err(e) => assert_eq!(e, "No context provided from the previous node to evaluate condition."),
        Ok(_) => panic!("expected an error"),
    }
    match c.plan_sub_check(&None, &None, &noon()) {
        Err(e) => assert_eq!(e, "No context provided for ContextBased condition"),
        Ok(_) => panic!("expected an error"),
    }
    match c.plan_check(&Some(text("v")), &None, &noon()) {
        Ok(CheckPlan::Probe(Probe::Judge { value })) => assert_eq!(value, text("v")),
        _ => panic!("expected a judge probe"),
    }
}

#[test]
fn on_chain_condition_needs_array_parameters() {
    let c = condition(ConditionType::OnChain { contract_address: [1u8; 20], function_signature: "f()".to_string() });
    match c.plan_check(&None, &Some(text("x")), &noon()) {
        Err(e) => assert_eq!(e, "dynamic_params must be an array"),
        Ok(_) => panic!("expected an error"),
    }
    match c.plan_check(&None, &Some(JsonValue::Array(vec![text("p")])), &noon()) {
        Ok(CheckPlan::Probe(Probe::Call { contract_address, function_signature, params })) => {
            assert_eq!(contract_address, [1u8; 20]);
            assert_eq!(function_signature, "f()");
            assert_eq!(params, vec![text("p")]);
        },
        _ => panic!("expected a call probe"),
    }
}

#[test]
fn time_condition_is_decided_here() {
    let c = condition(ConditionType::TimeBased { comparison_time: noon(), comparison_type: TimeComparisonType::After });
    let later = TimeOfDay::new(13 * 3600, 0).unwrap();
    match c.plan_check(&None, &None, &later) {
        Ok(CheckPlan::Probe(Probe::Decided { verdict })) => assert!(verdict),
        _ => panic!("expected a verdict"),
    }
}

#[test]
fn composite_condition_probes_each_sub_condition() {
    let c = condition(ConditionType::Composite { operator: LogicalOperator::Or, sub_conditions: vec![] });
    match c.plan_check(&None, &None, &noon()) {
        Ok(CheckPlan::EachSubCondition { operator }) => assert_eq!(operator, LogicalOperator::Or),
        _ => panic!("expected a composite plan"),
    }
    match c.plan_sub_check(&None, &None, &noon()) {
        Err(e) => assert_eq!(e, "Unsupported sub-condition type"),
        Ok(_) => panic!("a composite sub-condition is refused"),
    }
}

#[test]
fn condition_to_json_describes_it() {
    let c = condition(ConditionType::OffChain { api_url: "http://x".to_string() });
    let j = c.to_json();
    assert_eq!(j.str_member("name"), Some("c"));
    assert_eq!(j.bool_member("public"), Some(false));
    assert!(j.get("condition_type").is_some());
}

#[test]
fn condition_from_tagged_json() {
    let j = JsonValue::Object(vec![
        ("name".to_string(), text("n")),
        (
            "condition_type".to_string(),
            JsonValue::Object(vec![(
                "OffChain".to_string(),
                JsonValue::Object(vec![("api_url".to_string(), text("http://y"))]),
            )]),
        ),
        ("check".to_string(), JsonValue::Object(vec![])),
        ("encrypted".to_string(), JsonValue::Bool(true)),
        ("id".to_string(), JsonValue::Array(vec![JsonValue::Number(npc_workbench::json::JsonNumber::PosInt(258))])),
    ]);
    let c = Condition::from_json(&j).expect("reads");
    assert_eq!(c.name, "n");
    assert!(c.encrypted);
    assert_eq!(c.id, vec![2]);
    match &c.condition_type {
        ConditionType::OffChain { api_url } => assert_eq!(api_url, "http://y"),
        _ => panic!("wrong kind"),
    }
    let untagged = c.to_json();
    assert!(Condition::from_json(&untagged).is_err());
}

#[test]
fn times_of_day_show_as_chrono_formats_them() {
    for (secs, frac) in [(0u32, 0u32), (5 * 3600 + 7, 999_999_999), (86_399, 0), (59, 1_500_000_000)] {
        let t = TimeOfDay::new(secs, frac).unwrap();
        let chrono_time = chrono::NaiveTime::from_num_seconds_from_midnight_opt(secs, frac).unwrap();
        assert_eq!(t.hms(), chrono_time.format("%H:%M:%S").to_string());
    }
    assert_eq!(TimeOfDay::new(59, 1_500_000_000).unwrap().hms(), "00:00:60");
}
