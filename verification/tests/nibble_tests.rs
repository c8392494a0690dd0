use npc_workbench::adapters::links::conditions::{Condition, ConditionCheck, ConditionType};
use npc_workbench::adapters::links::listeners::{Listener, ListenerType};
use npc_workbench::function_ref::FunctionRef;
use npc_workbench::adapters::nodes::connectors::on_chain::{ConnectorAction, GasOptions, OnChainConnector};
use npc_workbench::nibble::{contains_id, Adaptable, Adapter, Nibble};

fn condition(name: &str, id: u8, encrypted: bool) -> Condition {
    Condition {
        name: name.to_string(),
        condition_type: ConditionType::ContextBased,
        check: ConditionCheck { condition_fn: FunctionRef::AcceptAll, expected_value: None },
        encrypted,
        id: vec![id],
    }
}

fn listener(name: &str, id: u8) -> Listener {
    Listener {
        name: name.to_string(),
        id: vec![id],
        listener_type: ListenerType::OffChain { webhook_url: "http://hook".to_string(), sns_verification: false },
        encrypted: false,
    }
}

fn deployed() -> Nibble {
    let mut n = Nibble::new([9u8; 20], "PolygonAmoy".to_string(), None);
    let mut addresses = [[0u8; 20]; 9];
    for (k, a) in addresses.iter_mut().enumerate() {
        *a = [k as u8 + 1; 20];
    }
    n.install_deployment(addresses, vec![0xab], [5, 0, 0, 0]);
    n
}

#[test]
fn new_nibble_has_nothing() {
    let n = Nibble::new([9u8; 20], "Mainnet".to_string(), Some("key".to_string()));
    assert_eq!(n.owner_address, [9u8; 20]);
    assert!(n.agents.is_empty() && n.conditions.is_empty() && n.contracts.is_empty());
    assert_eq!(n.id, None);
    assert_eq!(n.count, [0, 0, 0, 0]);
}

#[test]
fn storage_contract_needs_contracts() {
    let n = Nibble::new([9u8; 20], "Mainnet".to_string(), None);
    assert_eq!(n.storage_contract(), Err("No contracts found. Load or create a Nibble.".to_string()));
    let d = deployed();
    assert_eq!(d.storage_contract(), Ok([1u8; 20]));
    assert_eq!(d.contracts.len(), 9);
    assert_eq!(d.contracts[8].name, "NibbleWorkflows");
    assert_eq!(d.id, Some(vec![0xab]));
}

#[test]
fn adapter_targets() {
    let d = deployed();
    let t = d.adapter_target(Adapter::Agent, true).unwrap();
    assert_eq!(t.contract_address, [5u8; 20]);
    assert_eq!(t.method, "addOrModifyAgentsBatch");
    let r = d.adapter_target(Adapter::OffChainConnector, false).unwrap();
    assert_eq!(r.contract_address, [6u8; 20]);
    assert_eq!(r.method, "removeConnectorsBatch");
    let n = Nibble::new([9u8; 20], "Mainnet".to_string(), None);
    match n.adapter_target(Adapter::Condition, true) {
        Err(e) => assert_eq!(e, "Condition contract not found"),
        Ok(_) => panic!("no contracts yet"),
    }
}

#[test]
fn adapter_names() {
    assert_eq!(Adapter::FHEGate.to_string(), "FHEGate");
    assert_eq!(Adapter::OnChainConnector.to_string(), "OnChainConnector");
}

#[test]
fn remove_batch_lists_pending_ids() {
    let mut n = deployed();
    n.add_condition(condition("a", 1, false));
    n.add_condition(condition("b", 2, false));
    n.add_listener(listener("l", 3));
    let r = n.build_remove_adapters();
    assert_eq!(r.conditions, vec![vec![1], vec![2]]);
    assert_eq!(r.listeners, vec![vec![3]]);
    assert!(r.connectors.is_empty() && r.agents.is_empty() && r.evaluations.is_empty());
    assert!(contains_id(&r.conditions, &[2]));
    assert!(!contains_id(&r.conditions, &[3]));
}

#[test]
fn drop_pending_removes_first_of_name() {
    let mut n = deployed();
    n.add_condition(condition("a", 1, false));
    n.add_condition(condition("b", 2, false));
    n.add_condition(condition("a", 3, false));
    n.drop_pending(Adapter::Condition, "a");
    let ids: Vec<Vec<u8>> = n.conditions.iter().map(|c| c.id.clone()).collect();
    assert_eq!(ids, vec![vec![2], vec![3]]);
    n.clear_pending();
    assert!(n.conditions.is_empty());
}

#[test]
fn batch_uploads_and_records_follow_the_pending_adapters() {
    let mut n = deployed();
    n.add_condition(condition("a", 1, true));
    n.add_listener(listener("l", 3));
    let uploads = n.pending_uploads();
    assert_eq!(uploads.len(), 2);
    assert!(uploads[0].encrypted);
    assert_eq!(uploads[0].metadata.str_member("name"), Some("a"));
    assert!(!uploads[1].encrypted);
    assert_eq!(uploads[1].metadata.str_member("name"), Some("l"));
    let batch = n.modify_adapters(&vec!["QmA".to_string(), "QmB".to_string()]);
    assert_eq!(batch.conditions.len(), 1);
    assert_eq!(batch.conditions[0].id, vec![1]);
    assert_eq!(batch.conditions[0].metadata, "QmA");
    assert!(batch.conditions[0].encrypted);
    assert_eq!(batch.listeners[0].metadata, "QmB");
    assert!(batch.connectors.is_empty() && batch.agents.is_empty() && batch.evaluations.is_empty());
}

#[test]
fn registry_lists_ids_by_kind() {
    let mut n = deployed();
    n.add_condition(condition("a", 1, false));
    let r = n.registry();
    assert_eq!(r.conditions, vec![vec![1]]);
    assert!(r.agents.is_empty());
}

#[test]
fn configured_adapters_get_ids_of_their_owner() {
    let owner = [3u8; 20];
    let digest = <sha2::Sha256 as sha2::Digest>::digest(owner);
    let c = npc_workbench::adapters::links::conditions::configure_new_condition(
        "cond",
        ConditionType::ContextBased,
        FunctionRef::At(0x10),
        None,
        true,
        &owner,
    )
    .unwrap();
    assert_eq!(c.name, "cond");
    assert_eq!(c.check.condition_fn, FunctionRef::At(0x10));
    assert!(c.encrypted);
    assert_eq!(c.id.len(), 20);
    assert_eq!(&c.id[12..20], &digest[0..8]);
    let l = npc_workbench::adapters::links::listeners::configure_new_listener(
        "lst",
        ListenerType::Timer { interval: "5s".to_string() },
        false,
        &owner,
    )
    .unwrap();
    assert_eq!(l.name, "lst");
    assert_eq!(&l.id[12..20], &digest[0..8]);
    let g = npc_workbench::adapters::links::fhe_gates::configure_new_gate("g", "k", false, &owner, &[1u8; 20], "op", "Mainnet".to_string()).unwrap();
    assert_eq!(g.contract_address, [1u8; 20]);
    assert_eq!(g.operation, "op");
}

#[test]
fn created_workflows_are_empty_and_owned() {
    let n = deployed();
    let w = n.create_workflow("flow", true).unwrap();
    assert_eq!(w.name, "flow");
    assert!(w.encrypted);
    assert!(w.nodes.is_empty() && w.links.is_empty());
    let digest = <sha2::Sha256 as sha2::Digest>::digest([9u8; 20]);
    assert_eq!(&w.id[12..20], &digest[0..8]);
    let c = condition("named", 4, false);
    assert_eq!(c.name(), "named");
    assert_eq!(c.id(), &vec![4]);
}

#[test]
fn adding_an_agent_swaps_its_social_accounts_and_hands_back_its_id() {
    let mut n = deployed();
    n.add_condition(condition("a", 1, false));
    let h = n
        .add_agent(
            "agent",
            "role",
            "calm",
            "system",
            true,
            false,
            npc_workbench::adapters::nodes::agents::LLMModel::Other { config: npc_workbench::string_map::StringMap::new() },
            true,
            [4u8; 20],
            Some("lens"),
            Some("farcaster"),
            vec![npc_workbench::adapters::nodes::agents::Objective { description: "win".to_string(), priority: 1, generated: false }],
        )
        .unwrap();
    assert_eq!(n.agents.len(), 1);
    assert_eq!(n.conditions.len(), 1);
    let a = &n.agents[0];
    assert_eq!(h.adapter_type, Adapter::Agent);
    assert_eq!(h.name, "agent");
    assert_eq!(h.id, a.id);
    assert_eq!(a.lens_account.as_deref(), Some("farcaster"));
    assert_eq!(a.farcaster_account.as_deref(), Some("lens"));
    assert_eq!(a.wallet_address, [4u8; 20]);
    assert!(a.write_role && !a.admin_role && a.encrypted);
    let digest = <sha2::Sha256 as sha2::Digest>::digest([9u8; 20]);
    assert_eq!(&a.id[12..20], &digest[0..8]);
}

#[test]
fn adding_off_chain_connectors_keeps_the_other_lists() {
    let mut n = deployed();
    n.add_listener(listener("l", 3));
    let owner = [7u8; 20];
    for name in ["one", "two", "three"] {
        let h = n
            .add_offchain_connector(
                name,
                npc_workbench::adapters::nodes::connectors::off_chain::ConnectorType::REST { base_payload: None },
                "https://api.example",
                false,
                "POST".to_string(),
                None,
                None,
                None,
                None,
                &owner,
                None,
            )
            .unwrap();
        assert_eq!(h.adapter_type, Adapter::OffChainConnector);
        assert_eq!(h.name, name);
        assert_eq!(h.id, n.offchain_connectors.last().unwrap().id);
    }
    assert_eq!(n.offchain_connectors.len(), 3);
    assert_eq!(n.offchain_connectors[1].name, "two");
    assert_eq!(n.offchain_connectors[2].api_url, "https://api.example");
    assert_eq!(n.listeners.len(), 1);
    let digest = <sha2::Sha256 as sha2::Digest>::digest(owner);
    assert_eq!(&n.offchain_connectors[0].id[12..20], &digest[0..8]);
}

#[test]
fn a_connector_call_is_planned_on_its_chain_with_default_fees() {
    let c = OnChainConnector {
        name: "c".to_string(),
        id: vec![1],
        address: Some([2u8; 20]),
        encrypted: false,
        abi: Some("[]".to_string()),
        bytecode: None,
        chain: "PolygonAmoy".to_string(),
        gas_options: Some(GasOptions { gas_limit: Some([21_000, 0, 0, 0]), ..GasOptions::default() }),
    };
    match c.plan(Some("mint")).unwrap() {
        ConnectorAction::Call { method, address, chain, fees } => {
            assert_eq!(method, "mint");
            assert_eq!(address, [2u8; 20]);
            assert_eq!(chain, "PolygonAmoy");
            assert_eq!(fees.gas, Some([21_000, 0, 0, 0]));
            assert_eq!(fees.max_fee_per_gas, [100_000_000_000, 0, 0, 0]);
            assert_eq!(fees.max_priority_fee_per_gas, [2_000_000_000, 0, 0, 0]);
            assert_eq!(fees.nonce, None);
        }
        ConnectorAction::Deploy { .. } => panic!("a method name plans a call"),
    }
    match c.plan(None) {
        Err(e) => assert_eq!(e, "ABI or Bytecode is missing for contract deployment"),
        Ok(_) => panic!("a connector without bytecode cannot deploy"),
    }
}

#[test]
fn creating_hands_back_a_copy_with_nothing_stored() {
    let mut n = Nibble::new([9u8; 20], "PolygonAmoy".to_string(), Some("graph".to_string()));
    n.add_condition(condition("a", 1, true));
    n.add_listener(listener("l", 3));
    let mut addresses = [[0u8; 20]; 9];
    for (k, a) in addresses.iter_mut().enumerate() {
        *a = [k as u8 + 1; 20];
    }
    let created = n.install_deployment(addresses, vec![0xab, 0xcd], [7, 0, 0, 0]);
    assert_eq!(created.conditions.len(), 1);
    assert_eq!(created.conditions[0].name, "a");
    assert_eq!(created.conditions[0].id, n.conditions[0].id);
    assert!(created.conditions[0].encrypted);
    assert_eq!(created.listeners.len(), 1);
    assert_eq!(created.listeners[0].id, vec![3]);
    assert_eq!(created.contracts.len(), 9);
    assert_eq!(created.contracts[8].name, "NibbleWorkflows");
    assert_eq!(created.contracts[8].address, [9u8; 20]);
    assert_eq!(created.id, Some(vec![0xab, 0xcd]));
    assert_eq!(n.id, Some(vec![0xab, 0xcd]));
    assert_eq!(created.count, [7, 0, 0, 0]);
    assert_eq!(created.chain, "PolygonAmoy");
    assert_eq!(created.graph_api_key, Some("graph".to_string()));
    assert!(created.saved_conditions.is_empty() && created.saved_listeners.is_empty());
    assert_eq!(n.conditions.len(), 1);
}

#[test]
fn loading_hands_back_the_pending_adapters_as_stored() {
    let mut n = deployed();
    n.add_condition(condition("a", 1, false));
    let loaded = n.install_loaded(
        Vec::new(),
        Vec::new(),
        vec![condition("stored", 5, false)],
        Vec::new(),
        Vec::new(),
        Vec::new(),
        Vec::new(),
        Vec::new(),
        [3, 0, 0, 0],
    );
    assert_eq!(n.saved_conditions.len(), 1);
    assert_eq!(n.saved_conditions[0].name, "stored");
    assert_eq!(n.conditions.len(), 1);
    assert!(loaded.conditions.is_empty());
    assert_eq!(loaded.saved_conditions.len(), 1);
    assert_eq!(loaded.saved_conditions[0].name, "a");
    assert_eq!(loaded.count, [3, 0, 0, 0]);
    assert_eq!(loaded.id, Some(vec![0xab]));
    assert!(loaded.contracts.is_empty());
}

#[test]
fn an_auth_subflow_needs_a_manager() {
    let mut n = deployed();
    let w = n.create_workflow("auth", false).unwrap();
    for subflow in [None, Some(w)] {
        let has = subflow.is_some();
        n.add_offchain_connector(
            "c",
            npc_workbench::adapters::nodes::connectors::off_chain::ConnectorType::REST { base_payload: None },
            "https://api.example",
            false,
            "GET".to_string(),
            None,
            None,
            None,
            None,
            &[1u8; 20],
            subflow,
        )
        .unwrap();
        let c = n.offchain_connectors.last().unwrap();
        assert_eq!(c.needs_auth_run(true), Ok(has));
        if has {
            assert_eq!(c.needs_auth_run(false), Err("SubflowManager is required to execute auth subflows".to_string()));
        } else {
            assert_eq!(c.needs_auth_run(false), Ok(false));
        }
    }
}

#[test]
fn a_deployment_answers_with_the_contract_address_as_displayed() {
    let mut a = [0u8; 20];
    a[0] = 0x12;
    a[1] = 0x34;
    a[18] = 0xab;
    a[19] = 0xcd;
    let shown = npc_workbench::adapters::nodes::connectors::on_chain::deploy_result(Some(a)).unwrap();
    assert_eq!(shown, npc_workbench::json::JsonValue::String("0x1234…abcd".to_string()));
    assert_eq!(shown, npc_workbench::json::JsonValue::String(ethers::types::Address::from(a).to_string()));
    assert_eq!(
        npc_workbench::adapters::nodes::connectors::on_chain::deploy_result(None).err(),
        Some("Error getting contract address".to_string())
    );
}
