use npc_workbench::execution::Timestamp;
use npc_workbench::json::JsonValue;
use npc_workbench::workflow::node_step::{NodeOutcome, NodePlan};
use npc_workbench::workflow::run::{NextElement, RunState};
use npc_workbench::workflow::run::Repetitions;
use npc_workbench::workflow::{LinkAdapter, NodeAdapter, Workflow};

fn plain_node(wf: &mut Workflow, id: &[u8], adapter: &[u8]) {
    wf.add_node(id.to_vec(), adapter.to_vec(), NodeAdapter::Agent, None, None, None, None, None);
}

fn plain_link(wf: &mut Workflow, id: &[u8], from: &[u8]) {
    wf.add_link(id.to_vec(), from.to_vec(), LinkAdapter::Condition, None, None, None, None, None, None);
}

#[test]
fn new_workflow_is_empty() {
    let wf = Workflow::new(vec![1, 2], "flow".to_string(), true);
    assert_eq!(wf.id, vec![1, 2]);
    assert_eq!(wf.name, "flow");
    assert!(wf.encrypted);
    assert!(wf.nodes.is_empty());
    assert!(wf.links.is_empty());
    assert!(wf.get_execution_history().is_empty());
}

#[test]
fn add_node_then_find_it() {
    let mut wf = Workflow::new(vec![0], "flow".to_string(), false);
    plain_node(&mut wf, b"n1", b"a1");
    plain_node(&mut wf, b"n2", b"a2");
    assert_eq!(wf.find_node(b"n2"), Some(1));
    assert_eq!(wf.find_node(b"n1"), Some(0));
    assert_eq!(wf.find_node(b"zz"), None);
}

#[test]
fn add_node_under_same_id_replaces() {
    let mut wf = Workflow::new(vec![0], "flow".to_string(), false);
    plain_node(&mut wf, b"n1", b"a1");
    plain_node(&mut wf, b"n1", b"a9");
    assert_eq!(wf.nodes.len(), 1);
    assert_eq!(wf.nodes[0].adapter_id, b"a9".to_vec());
}

#[test]
fn add_link_under_same_id_replaces() {
    let mut wf = Workflow::new(vec![0], "flow".to_string(), false);
    plain_node(&mut wf, b"n1", b"a1");
    plain_link(&mut wf, b"l1", b"n1");
    plain_link(&mut wf, b"l1", b"n1");
    assert_eq!(wf.links.len(), 1);
    assert_eq!(wf.find_link(b"l1"), Some(0));
}

#[test]
fn topological_order_puts_links_after_their_element() {
    let mut wf = Workflow::new(vec![0], "flow".to_string(), false);
    plain_node(&mut wf, b"n1", b"a1");
    plain_node(&mut wf, b"n2", b"a2");
    plain_link(&mut wf, b"l1", b"n1");
    plain_link(&mut wf, b"l2", b"l1");
    let order = wf.topological_sort().expect("an order");
    assert_eq!(order.len(), 4);
    let pos = |id: &[u8]| order.iter().position(|x| x.as_slice() == id).unwrap();
    assert!(pos(b"n1") < pos(b"l1"));
    assert!(pos(b"l1") < pos(b"l2"));
    assert!(order.iter().any(|x| x.as_slice() == b"n2"));
}

#[test]
fn topological_sort_of_empty_workflow() {
    let wf = Workflow::new(vec![0], "flow".to_string(), false);
    assert_eq!(wf.topological_sort(), Ok(vec![]));
}

#[test]
fn topological_sort_refuses_dangling_link() {
    let mut wf = Workflow::new(vec![0], "flow".to_string(), false);
    plain_node(&mut wf, b"n1", b"a1");
    plain_link(&mut wf, b"l1", b"missing");
    let err = wf.topological_sort().unwrap_err();
    assert_eq!(err, "Cyclic dependency detected in the workflow");
}

#[test]
fn topological_sort_refuses_cycle_of_links() {
    let mut wf = Workflow::new(vec![0], "flow".to_string(), false);
    plain_node(&mut wf, b"n1", b"a1");
    plain_link(&mut wf, b"l1", b"l2");
    plain_link(&mut wf, b"l2", b"l1");
    assert!(wf.topological_sort().is_err());
}

#[test]
fn repetitions_count_all_runs() {
    let mut r = Repetitions::new(Some(2), false);
    assert!(r.should_continue());
    r.record(false);
    assert!(r.should_continue());
    r.record(true);
    assert!(!r.should_continue());
    assert_eq!(r.total, 2);
    assert_eq!(r.successful, 0);
}

#[test]
fn repetitions_count_successes_only() {
    let mut r = Repetitions::new(Some(1), true);
    r.record(false);
    assert!(r.should_continue());
    r.record(true);
    assert!(!r.should_continue());
    assert_eq!(r.total, 2);
    assert_eq!(r.successful, 1);
}

#[test]
fn repetitions_without_limit_go_on() {
    let mut r = Repetitions::new(None, false);
    for _ in 0..10 {
        r.record(true);
    }
    assert!(r.should_continue());
}

fn registry_with_agent(id: &[u8]) -> npc_workbench::nibble::Registry {
    npc_workbench::nibble::Registry {
        agents: vec![id.to_vec()],
        conditions: vec![],
        listeners: vec![],
        fhe_gates: vec![],
        evaluations: vec![],
        onchain_connectors: vec![],
        offchain_connectors: vec![],
    }
}

#[test]
fn agent_node_is_planned_run_and_recorded() {
    let mut wf = Workflow::new(vec![0], "flow".to_string(), false);
    wf.add_node(b"n1".to_vec(), b"agent".to_vec(), NodeAdapter::Agent, None, Some(JsonValue::String("hello".to_string())), None, None, None);
    let now = Timestamp { secs: 1, nanos: 0 };
    match wf.plan_node(0, &registry_with_agent(b"agent"), None, true, now) {
        NodePlan::RunAgent { input } => assert_eq!(input, "hello"),
        _ => panic!("expected an agent run"),
    }
    assert!(wf.execution_history.is_empty());
    let out = wf.finish_node(0, NodeOutcome::Produced(JsonValue::String("done".to_string())), now);
    assert_eq!(out, Some(JsonValue::String("done".to_string())));
    assert_eq!(wf.execution_history.len(), 1);
    assert_eq!(wf.execution_history[0].element_type, "Agent");
    assert_eq!(wf.execution_history[0].element_id, b"n1".to_vec());
}

#[test]
fn node_of_unknown_agent_stops_and_records_failure() {
    let mut wf = Workflow::new(vec![0], "flow".to_string(), false);
    plain_node(&mut wf, b"n1", b"nobody");
    let now = Timestamp { secs: 1, nanos: 0 };
    match wf.plan_node(0, &registry_with_agent(b"agent"), None, true, now) {
        NodePlan::Stop => {},
        _ => panic!("expected a stop"),
    }
    assert_eq!(wf.execution_history.len(), 1);
    assert_eq!(wf.execution_history[0].result, None);
}

#[test]
fn run_state_walks_the_order() {
    let mut wf = Workflow::new(vec![0], "flow".to_string(), false);
    plain_node(&mut wf, b"n1", b"a1");
    plain_link(&mut wf, b"l1", b"n1");
    let order = wf.topological_sort().unwrap();
    let mut state = RunState::start(order);
    assert!(matches!(state.next_element(&wf), NextElement::Node(0)));
    state.after_node(Some(JsonValue::Bool(true)));
    assert!(matches!(state.next_element(&wf), NextElement::Link(0)));
    state.after_link(None);
    assert!(state.stopped);
    assert!(state.current_success);
    assert!(matches!(state.next_element(&wf), NextElement::Finished));
}

#[test]
fn a_link_step_keeps_the_workflow_and_only_appends_history() {
    let mut wf = Workflow::new(vec![0], "flow".to_string(), false);
    plain_node(&mut wf, b"n1", b"a1");
    wf.add_link(b"l1".to_vec(), b"n1".to_vec(), LinkAdapter::Listener, None, None, None, None, None, None);
    let registry = npc_workbench::nibble::Registry {
        agents: vec![],
        conditions: vec![],
        listeners: vec![],
        fhe_gates: vec![],
        evaluations: vec![],
        onchain_connectors: vec![],
        offchain_connectors: vec![],
    };
    let now = Timestamp { secs: 1, nanos: 0 };
    let mut success = true;
    let plan = wf.plan_link(0, &registry, None, &mut success, now);
    assert!(matches!(plan, npc_workbench::workflow::link_step::LinkPlan::Stop));
    assert!(!success);
    assert_eq!(wf.get_execution_history().len(), 1);
    assert_eq!(wf.get_execution_history()[0].element_id, b"l1".to_vec());
    assert_eq!(wf.get_execution_history()[0].result, None);
    let out = wf.close_link(0, None, now);
    assert_eq!(out, None);
    assert!(!success);
    assert_eq!(wf.get_execution_history().len(), 2);
    assert_eq!(wf.get_execution_history()[0].element_id, b"l1".to_vec());
    assert_eq!(wf.nodes.len(), 1);
    assert_eq!(wf.links.len(), 1);
    assert_eq!(wf.name, "flow");
}
