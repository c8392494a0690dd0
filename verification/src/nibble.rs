//! A nibble: the set of adapters an owner registers, and the workflows built on them.

use vstd::prelude::*;
use crate::adapters::links::conditions::Condition;
use crate::adapters::links::evaluations::Evaluation;
use crate::adapters::links::fhe_gates::FHEGate;
use crate::adapters::links::listeners::Listener;
use crate::adapters::nodes::agents::{configure_new_agent, Agent, LLMModel, Objective};
use crate::adapters::nodes::connectors::off_chain::{configure_new_offchain_connector, ConnectorType, OffChainConnector};
use crate::adapters::nodes::connectors::on_chain::{OnChainConnector, U256Words};
use crate::ethereum::Address;
use crate::text::{bytes_eq, owned, str_eq};
use crate::json::{clone_bytes, JsonValue};
use crate::function_ref::FunctionRef;
use crate::string_map::StringMap;
use crate::workflow::{byte_seqs, Workflow};
use crate::copies::{
    copy_agents, copy_conditions, copy_evaluations, copy_gates, copy_listeners, copy_offchain_connectors,
    copy_onchain_connectors, copy_opt_string, opt_seq, same_agent, same_evaluation, same_gate, same_listener,
    same_offchain_connector, same_onchain_connector,
};

verus! {

/// The kinds of adapter a nibble holds.
#[derive(PartialEq, Eq, Structural, Clone, Copy, Debug)]
pub enum Adapter {
    Condition,
    OffChainConnector,
    OnChainConnector,
    Listener,
    FHEGate,
    Agent,
    Evaluation,
}

pub open spec fn adapter_name(a: Adapter) -> Seq<char> {
    match a {
        Adapter::Condition => "Condition"@,
        Adapter::OffChainConnector => "OffChainConnector"@,
        Adapter::OnChainConnector => "OnChainConnector"@,
        Adapter::Listener => "Listener"@,
        Adapter::FHEGate => "FHEGate"@,
        Adapter::Agent => "Agent"@,
        Adapter::Evaluation => "Evaluation"@,
    }
}

impl Adapter {
    /// The adapter kind's name, as recorded in a run's history.
    pub fn to_string(&self) -> (res: String)
        ensures
            res@ == adapter_name(*self),
    {
        match self {
            Adapter::Condition => owned("Condition"),
            Adapter::OffChainConnector => owned("OffChainConnector"),
            Adapter::OnChainConnector => owned("OnChainConnector"),
            Adapter::Listener => owned("Listener"),
            Adapter::FHEGate => owned("FHEGate"),
            Adapter::Agent => owned("Agent"),
            Adapter::Evaluation => owned("Evaluation"),
        }
    }
}

/// What every adapter has: a name and an id.
pub trait Adaptable {
    spec fn spec_name(&self) -> Seq<char>;

    spec fn spec_id(&self) -> Seq<u8>;

    fn name(&self) -> (res: &str)
        ensures
            res@ == self.spec_name();

    fn id(&self) -> (res: &Vec<u8>)
        ensures
            res@ == self.spec_id();
}

impl Adaptable for Agent {
    open spec fn spec_name(&self) -> Seq<char> { self.name@ }
    open spec fn spec_id(&self) -> Seq<u8> { self.id@ }
    fn name(&self) -> (res: &str) { self.name.as_str() }
    fn id(&self) -> (res: &Vec<u8>) { &self.id }
}

impl Adaptable for Condition {
    open spec fn spec_name(&self) -> Seq<char> { self.name@ }
    open spec fn spec_id(&self) -> Seq<u8> { self.id@ }
    fn name(&self) -> (res: &str) { self.name.as_str() }
    fn id(&self) -> (res: &Vec<u8>) { &self.id }
}

impl Adaptable for Listener {
    open spec fn spec_name(&self) -> Seq<char> { self.name@ }
    open spec fn spec_id(&self) -> Seq<u8> { self.id@ }
    fn name(&self) -> (res: &str) { self.name.as_str() }
    fn id(&self) -> (res: &Vec<u8>) { &self.id }
}

impl Adaptable for FHEGate {
    open spec fn spec_name(&self) -> Seq<char> { self.name@ }
    open spec fn spec_id(&self) -> Seq<u8> { self.id@ }
    fn name(&self) -> (res: &str) { self.name.as_str() }
    fn id(&self) -> (res: &Vec<u8>) { &self.id }
}

impl Adaptable for Evaluation {
    open spec fn spec_name(&self) -> Seq<char> { self.name@ }
    open spec fn spec_id(&self) -> Seq<u8> { self.id@ }
    fn name(&self) -> (res: &str) { self.name.as_str() }
    fn id(&self) -> (res: &Vec<u8>) { &self.id }
}

impl Adaptable for OnChainConnector {
    open spec fn spec_name(&self) -> Seq<char> { self.name@ }
    open spec fn spec_id(&self) -> Seq<u8> { self.id@ }
    fn name(&self) -> (res: &str) { self.name.as_str() }
    fn id(&self) -> (res: &Vec<u8>) { &self.id }
}

impl Adaptable for OffChainConnector {
    open spec fn spec_name(&self) -> Seq<char> { self.name@ }
    open spec fn spec_id(&self) -> Seq<u8> { self.id@ }
    fn name(&self) -> (res: &str) { self.name.as_str() }
    fn id(&self) -> (res: &Vec<u8>) { &self.id }
}

/// The ids of the adapters a nibble holds, by kind.
pub struct Registry {
    pub agents: Vec<Vec<u8>>,
    pub conditions: Vec<Vec<u8>>,
    pub listeners: Vec<Vec<u8>>,
    pub fhe_gates: Vec<Vec<u8>>,
    pub evaluations: Vec<Vec<u8>>,
    pub onchain_connectors: Vec<Vec<u8>>,
    pub offchain_connectors: Vec<Vec<u8>>,
}

/// Whether `id` is among `ids`.
pub fn contains_id(ids: &Vec<Vec<u8>>, id: &[u8]) -> (res: bool)
    ensures
        res == byte_seqs(ids@).contains(id@),
{
    let mut i: usize = 0;
    while i < ids.len()
        invariant
            0 <= i <= ids@.len(),
            forall|k: int| 0 <= k < i ==> ids@[k]@ != id@,
        decreases ids@.len() - i,
    {
        if bytes_eq(ids[i].as_slice(), id) {
            assert(byte_seqs(ids@)[i as int] == id@);
            return true;
        }
        i = i + 1;
    }
    proof {
        if byte_seqs(ids@).contains(id@) {
            let k = choose|k: int| 0 <= k < byte_seqs(ids@).len() && byte_seqs(ids@)[k] == id@;
            assert(ids@[k]@ == id@);
        }
    }
    false
}

/// A contract the nibble works with, by name.
pub struct ContractInfo {
    pub name: String,
    pub address: Address,
}

/// A nibble: the adapters added and not yet stored, those stored, its
/// contracts, its owner (by address) and its id and count once deployed.
/// The owner's wallet, the provider and the IPFS client stay with the caller.
pub struct Nibble {
    pub agents: Vec<Agent>,
    pub conditions: Vec<Condition>,
    pub listeners: Vec<Listener>,
    pub fhe_gates: Vec<FHEGate>,
    pub evaluations: Vec<Evaluation>,
    pub onchain_connectors: Vec<OnChainConnector>,
    pub offchain_connectors: Vec<OffChainConnector>,
    pub saved_agents: Vec<Agent>,
    pub saved_conditions: Vec<Condition>,
    pub saved_listeners: Vec<Listener>,
    pub saved_fhe_gates: Vec<FHEGate>,
    pub saved_evaluations: Vec<Evaluation>,
    pub saved_onchain_connectors: Vec<OnChainConnector>,
    pub saved_offchain_connectors: Vec<OffChainConnector>,
    pub contracts: Vec<ContractInfo>,
    pub owner_address: Address,
    pub id: Option<Vec<u8>>,
    pub count: U256Words,
    pub chain: String,
    pub graph_api_key: Option<String>,
}

/// Whether two nibbles agree in all but their pending adapters: stored
/// adapters, contracts, owner, id, count, chain and subgraph key.
pub open spec fn same_setup(a: Nibble, b: Nibble) -> bool {
    &&& a.saved_agents == b.saved_agents
    &&& a.saved_conditions == b.saved_conditions
    &&& a.saved_listeners == b.saved_listeners
    &&& a.saved_fhe_gates == b.saved_fhe_gates
    &&& a.saved_evaluations == b.saved_evaluations
    &&& a.saved_onchain_connectors == b.saved_onchain_connectors
    &&& a.saved_offchain_connectors == b.saved_offchain_connectors
    &&& a.contracts == b.contracts
    &&& a.owner_address == b.owner_address
    &&& a.id == b.id
    &&& a.count == b.count
    &&& a.chain == b.chain
    &&& a.graph_api_key == b.graph_api_key
}

/// Whether `b`'s pending adapters are copies of `a`'s, kind by kind and in order.
pub open spec fn same_pending(a: Nibble, b: Nibble) -> bool {
    &&& a.agents@.len() == b.agents@.len()
    &&& forall|j: int| 0 <= j < a.agents@.len() ==> same_agent(a.agents@[j], #[trigger] b.agents@[j])
    &&& a.conditions@.len() == b.conditions@.len()
    &&& forall|j: int| 0 <= j < a.conditions@.len() ==> (#[trigger] b.conditions@[j]).data() == a.conditions@[j].data()
    &&& a.listeners@.len() == b.listeners@.len()
    &&& forall|j: int| 0 <= j < a.listeners@.len() ==> same_listener(a.listeners@[j], #[trigger] b.listeners@[j])
    &&& a.fhe_gates@.len() == b.fhe_gates@.len()
    &&& forall|j: int| 0 <= j < a.fhe_gates@.len() ==> same_gate(a.fhe_gates@[j], #[trigger] b.fhe_gates@[j])
    &&& a.evaluations@.len() == b.evaluations@.len()
    &&& forall|j: int| 0 <= j < a.evaluations@.len() ==> same_evaluation(a.evaluations@[j], #[trigger] b.evaluations@[j])
    &&& a.onchain_connectors@.len() == b.onchain_connectors@.len()
    &&& forall|j: int| 0 <= j < a.onchain_connectors@.len()
        ==> same_onchain_connector(a.onchain_connectors@[j], #[trigger] b.onchain_connectors@[j])
    &&& a.offchain_connectors@.len() == b.offchain_connectors@.len()
    &&& forall|j: int| 0 <= j < a.offchain_connectors@.len()
        ==> same_offchain_connector(a.offchain_connectors@[j], #[trigger] b.offchain_connectors@[j])
}

/// Whether `b`'s stored adapters are copies of `a`'s pending ones, kind by
/// kind and in order.
pub open spec fn pending_copied_as_saved(a: Nibble, b: Nibble) -> bool {
    &&& a.agents@.len() == b.saved_agents@.len()
    &&& forall|j: int| 0 <= j < a.agents@.len() ==> same_agent(a.agents@[j], #[trigger] b.saved_agents@[j])
    &&& a.conditions@.len() == b.saved_conditions@.len()
    &&& forall|j: int| 0 <= j < a.conditions@.len() ==> (#[trigger] b.saved_conditions@[j]).data() == a.conditions@[j].data()
    &&& a.listeners@.len() == b.saved_listeners@.len()
    &&& forall|j: int| 0 <= j < a.listeners@.len() ==> same_listener(a.listeners@[j], #[trigger] b.saved_listeners@[j])
    &&& a.fhe_gates@.len() == b.saved_fhe_gates@.len()
    &&& forall|j: int| 0 <= j < a.fhe_gates@.len() ==> same_gate(a.fhe_gates@[j], #[trigger] b.saved_fhe_gates@[j])
    &&& a.evaluations@.len() == b.saved_evaluations@.len()
    &&& forall|j: int| 0 <= j < a.evaluations@.len() ==> same_evaluation(a.evaluations@[j], #[trigger] b.saved_evaluations@[j])
    &&& a.onchain_connectors@.len() == b.saved_onchain_connectors@.len()
    &&& forall|j: int| 0 <= j < a.onchain_connectors@.len()
        ==> same_onchain_connector(a.onchain_connectors@[j], #[trigger] b.saved_onchain_connectors@[j])
    &&& a.offchain_connectors@.len() == b.saved_offchain_connectors@.len()
    &&& forall|j: int| 0 <= j < a.offchain_connectors@.len()
        ==> same_offchain_connector(a.offchain_connectors@[j], #[trigger] b.saved_offchain_connectors@[j])
}

/// A list of contracts, copied.
fn copy_contracts(v: &Vec<ContractInfo>) -> (res: Vec<ContractInfo>)
    ensures
        res@ == v@,
{
    let mut out: Vec<ContractInfo> = Vec::new();
    let mut i: usize = 0;
    while i < v.len()
        invariant
            0 <= i <= v@.len(),
            out@ == v@.take(i as int),
        decreases v@.len() - i,
    {
        out.push(ContractInfo { name: v[i].name.clone(), address: v[i].address });
        assert(v@.take(i + 1) =~= v@.take(i as int).push(v@[i as int]));
        i = i + 1;
    }
    assert(v@.take(v@.len() as int) =~= v@);
    out
}

/// What adding an adapter hands back to store or remove it on its own later:
/// its kind, its name and its id.
pub struct AdapterHandle {
    pub adapter_type: Adapter,
    pub name: String,
    pub id: Vec<u8>,
}

/// The names of a nibble's deployed contracts, in the order the factory returns their addresses.
pub open spec fn contract_names() -> Seq<Seq<char>> {
    seq![
        "NibbleStorage"@,
        "NibbleListeners"@,
        "NibbleConditions"@,
        "NibbleEvaluations"@,
        "NibbleAgents"@,
        "NibbleConnectors"@,
        "NibbleFHEGates"@,
        "NibbleAccessControl"@,
        "NibbleWorkflows"@,
    ]
}

/// The first contract with the given name.
pub open spec fn contract_named(contracts: Seq<ContractInfo>, name: Seq<char>, i: int) -> Option<Address>
    decreases contracts.len() - i,
{
    if i < 0 || i >= contracts.len() {
        None
    } else if contracts[i].name@ == name {
        Some(contracts[i].address)
    } else {
        contract_named(contracts, name, i + 1)
    }
}

/// Whether contracts are those a deployment installs: the nine names in
/// order, each with the address the factory returned in its place.
pub open spec fn deployed_contracts(contracts: Seq<ContractInfo>, addresses: Seq<Address>) -> bool {
    &&& contracts.len() == 9
    &&& addresses.len() == 9
    &&& forall|k: int| 0 <= k < 9 ==> (#[trigger] contracts[k]).name@ == contract_names()[k] && contracts[k].address == addresses[k]
}

/// The contracts a deployment installs, from the nine addresses the factory returned.
fn contracts_at(addresses: &[Address; 9]) -> (res: Vec<ContractInfo>)
    ensures
        deployed_contracts(res@, addresses@),
{
    let mut contracts: Vec<ContractInfo> = Vec::new();
    contracts.push(ContractInfo { name: owned("NibbleStorage"), address: addresses[0] });
    contracts.push(ContractInfo { name: owned("NibbleListeners"), address: addresses[1] });
    contracts.push(ContractInfo { name: owned("NibbleConditions"), address: addresses[2] });
    contracts.push(ContractInfo { name: owned("NibbleEvaluations"), address: addresses[3] });
    contracts.push(ContractInfo { name: owned("NibbleAgents"), address: addresses[4] });
    contracts.push(ContractInfo { name: owned("NibbleConnectors"), address: addresses[5] });
    contracts.push(ContractInfo { name: owned("NibbleFHEGates"), address: addresses[6] });
    contracts.push(ContractInfo { name: owned("NibbleAccessControl"), address: addresses[7] });
    contracts.push(ContractInfo { name: owned("NibbleWorkflows"), address: addresses[8] });
    contracts
}

proof fn lemma_contract_names_distinct(j: int, k: int)
    requires
        0 <= j < k < 9,
    ensures
        contract_names()[j] != contract_names()[k],
{
    reveal_strlit("NibbleStorage");
    reveal_strlit("NibbleListeners");
    reveal_strlit("NibbleConditions");
    reveal_strlit("NibbleEvaluations");
    reveal_strlit("NibbleAgents");
    reveal_strlit("NibbleConnectors");
    reveal_strlit("NibbleFHEGates");
    reveal_strlit("NibbleAccessControl");
    reveal_strlit("NibbleWorkflows");
    let a = contract_names()[j];
    let b = contract_names()[k];
    if a.len() == b.len() {
        assert(a[6] != b[6] || a[9] != b[9]);
    }
}

proof fn lemma_named_from(contracts: Seq<ContractInfo>, addresses: Seq<Address>, k: int, i: int)
    requires
        deployed_contracts(contracts, addresses),
        0 <= i <= k < 9,
    ensures
        contract_named(contracts, contract_names()[k], i) == Some(addresses[k]),
    decreases k - i,
{
    assert(contracts[i].name@ == contract_names()[i]);
    if i < k {
        lemma_contract_names_distinct(i, k);
        lemma_named_from(contracts, addresses, k, i + 1);
    }
}

/// Once a nibble is deployed, each of its contracts is found under its name at
/// the address the factory returned for it; in particular the contract that
/// stores each kind of adapter.
pub proof fn law_contracts_after_deployment(contracts: Seq<ContractInfo>, addresses: Seq<Address>, k: int)
    requires
        deployed_contracts(contracts, addresses),
        0 <= k < 9,
    ensures
        contract_named(contracts, contract_names()[k], 0) == Some(addresses[k]),
{
    lemma_named_from(contracts, addresses, k, 0);
}

/// The contract that stores adapters of a kind.
pub open spec fn adapter_contract(a: Adapter) -> Seq<char> {
    match a {
        Adapter::Condition => "NibbleConditions"@,
        Adapter::Listener => "NibbleListeners"@,
        Adapter::FHEGate => "NibbleFHEGates"@,
        Adapter::Evaluation => "NibbleEvaluations"@,
        Adapter::OnChainConnector => "NibbleConnectors"@,
        Adapter::OffChainConnector => "NibbleConnectors"@,
        Adapter::Agent => "NibbleAgents"@,
    }
}

/// The method that stores adapters of a kind.
pub open spec fn persist_method(a: Adapter) -> Seq<char> {
    match a {
        Adapter::Condition => "addOrModifyConditionsBatch"@,
        Adapter::Listener => "addOrModifyListenersBatch"@,
        Adapter::FHEGate => "addOrModifyFHEGatesBatch"@,
        Adapter::Evaluation => "addOrModifyEvaluationsBatch"@,
        Adapter::OnChainConnector => "addOrModifyConnectorsBatch"@,
        Adapter::OffChainConnector => "addOrModifyConnectorsBatch"@,
        Adapter::Agent => "addOrModifyAgentsBatch"@,
    }
}

/// The method that removes stored adapters of a kind (conditions go through
/// the listeners' method).
pub open spec fn remove_method(a: Adapter) -> Seq<char> {
    match a {
        Adapter::Condition => "removeListenersBatch"@,
        Adapter::Listener => "removeListenersBatch"@,
        Adapter::FHEGate => "removeFHEGatesBatch"@,
        Adapter::Evaluation => "removeEvaluationsBatch"@,
        Adapter::OnChainConnector => "removeConnectorsBatch"@,
        Adapter::OffChainConnector => "removeConnectorsBatch"@,
        Adapter::Agent => "removeAgentsBatch"@,
    }
}

/// Where a single adapter is stored or removed: the contract's address and the method.
pub struct AdapterTarget {
    pub contract_address: Address,
    pub method: String,
}

fn contract_name_text(a: Adapter) -> (res: String)
    ensures
        res@ == adapter_contract(a),
{
    match a {
        Adapter::Condition => owned("NibbleConditions"),
        Adapter::Listener => owned("NibbleListeners"),
        Adapter::FHEGate => owned("NibbleFHEGates"),
        Adapter::Evaluation => owned("NibbleEvaluations"),
        Adapter::OnChainConnector => owned("NibbleConnectors"),
        Adapter::OffChainConnector => owned("NibbleConnectors"),
        Adapter::Agent => owned("NibbleAgents"),
    }
}

fn persist_method_text(a: Adapter) -> (res: String)
    ensures
        res@ == persist_method(a),
{
    match a {
        Adapter::Condition => owned("addOrModifyConditionsBatch"),
        Adapter::Listener => owned("addOrModifyListenersBatch"),
        Adapter::FHEGate => owned("addOrModifyFHEGatesBatch"),
        Adapter::Evaluation => owned("addOrModifyEvaluationsBatch"),
        Adapter::OnChainConnector => owned("addOrModifyConnectorsBatch"),
        Adapter::OffChainConnector => owned("addOrModifyConnectorsBatch"),
        Adapter::Agent => owned("addOrModifyAgentsBatch"),
    }
}

fn remove_method_text(a: Adapter) -> (res: String)
    ensures
        res@ == remove_method(a),
{
    match a {
        Adapter::Condition => owned("removeListenersBatch"),
        Adapter::Listener => owned("removeListenersBatch"),
        Adapter::FHEGate => owned("removeFHEGatesBatch"),
        Adapter::Evaluation => owned("removeEvaluationsBatch"),
        Adapter::OnChainConnector => owned("removeConnectorsBatch"),
        Adapter::OffChainConnector => owned("removeConnectorsBatch"),
        Adapter::Agent => owned("removeAgentsBatch"),
    }
}

/// The first contract with the given name, if any.
pub fn find_contract(contracts: &Vec<ContractInfo>, name: &str) -> (res: Option<Address>)
    ensures
        res == contract_named(contracts@, name@, 0),
{
    let mut i: usize = 0;
    while i < contracts.len()
        invariant
            0 <= i <= contracts@.len(),
            contract_named(contracts@, name@, 0) == contract_named(contracts@, name@, i as int),
        decreases contracts@.len() - i,
    {
        if str_eq(contracts[i].name.as_str(), name) {
            return Some(contracts[i].address);
        }
        i = i + 1;
    }
    None
}

pub open spec fn missing_contract_message(a: Adapter) -> Seq<char> {
    adapter_name(a) + " contract not found"@
}

/// The first adapter in a list with the given name.
pub open spec fn first_named(names: Seq<Seq<char>>, name: Seq<char>, i: int) -> Option<int>
    decreases names.len() - i,
{
    if i < 0 || i >= names.len() {
        None
    } else if names[i] == name {
        Some(i)
    } else {
        first_named(names, name, i + 1)
    }
}

/// The list with its first adapter named `name` removed (unchanged when none is).
pub open spec fn without_first_named<T>(items: Seq<T>, names: Seq<Seq<char>>, name: Seq<char>) -> Seq<T> {
    match first_named(names, name, 0) {
        Some(k) => items.remove(k),
        None => items,
    }
}

pub open spec fn agent_names(s: Seq<Agent>) -> Seq<Seq<char>> { Seq::new(s.len(), |i: int| s[i].name@) }
pub open spec fn condition_names(s: Seq<Condition>) -> Seq<Seq<char>> { Seq::new(s.len(), |i: int| s[i].name@) }
pub open spec fn listener_names(s: Seq<Listener>) -> Seq<Seq<char>> { Seq::new(s.len(), |i: int| s[i].name@) }
pub open spec fn gate_names(s: Seq<FHEGate>) -> Seq<Seq<char>> { Seq::new(s.len(), |i: int| s[i].name@) }
pub open spec fn evaluation_names(s: Seq<Evaluation>) -> Seq<Seq<char>> { Seq::new(s.len(), |i: int| s[i].name@) }
pub open spec fn onchain_names(s: Seq<OnChainConnector>) -> Seq<Seq<char>> { Seq::new(s.len(), |i: int| s[i].name@) }
pub open spec fn offchain_names(s: Seq<OffChainConnector>) -> Seq<Seq<char>> { Seq::new(s.len(), |i: int| s[i].name@) }

/// The position of the first name equal to `name`.
fn position_of(names: &Vec<String>, name: &str) -> (res: Option<usize>)
    ensures
        match res {
            Some(k) => first_named(Seq::new(names@.len(), |i: int| names@[i]@), name@, 0) == Some(k as int) && k < names@.len(),
            None => first_named(Seq::new(names@.len(), |i: int| names@[i]@), name@, 0) is None,
        },
{
    let ghost ns = Seq::new(names@.len(), |i: int| names@[i]@);
    let mut i: usize = 0;
    while i < names.len()
        invariant
            0 <= i <= names@.len(),
            ns == Seq::new(names@.len(), |i: int| names@[i]@),
            first_named(ns, name@, 0) == first_named(ns, name@, i as int),
        decreases names@.len() - i,
    {
        if str_eq(names[i].as_str(), name) {
            return Some(i);
        }
        i = i + 1;
    }
    None
}

/// What removing adapters in one batch sends: the ids of the pending
/// conditions, listeners, connectors (on-chain, then off-chain), agents and
/// evaluations.
pub struct RemoveAdapters {
    pub conditions: Vec<Vec<u8>>,
    pub listeners: Vec<Vec<u8>>,
    pub connectors: Vec<Vec<u8>>,
    pub agents: Vec<Vec<u8>>,
    pub evaluations: Vec<Vec<u8>>,
}

pub open spec fn ids_of_conditions(s: Seq<Condition>) -> Seq<Seq<u8>> { Seq::new(s.len(), |i: int| s[i].id@) }
pub open spec fn ids_of_listeners(s: Seq<Listener>) -> Seq<Seq<u8>> { Seq::new(s.len(), |i: int| s[i].id@) }
pub open spec fn ids_of_agents(s: Seq<Agent>) -> Seq<Seq<u8>> { Seq::new(s.len(), |i: int| s[i].id@) }
pub open spec fn ids_of_evaluations(s: Seq<Evaluation>) -> Seq<Seq<u8>> { Seq::new(s.len(), |i: int| s[i].id@) }
pub open spec fn ids_of_onchain(s: Seq<OnChainConnector>) -> Seq<Seq<u8>> { Seq::new(s.len(), |i: int| s[i].id@) }
pub open spec fn ids_of_offchain(s: Seq<OffChainConnector>) -> Seq<Seq<u8>> { Seq::new(s.len(), |i: int| s[i].id@) }

impl Nibble {
    /// A nibble of the owner with this address, with nothing added or stored.
    pub fn new(owner_address: Address, chain: String, graph_api_key: Option<String>) -> (res: Nibble)
        ensures
            res.owner_address == owner_address,
            res.chain@ == chain@,
            res.agents@.len() == 0 && res.conditions@.len() == 0 && res.listeners@.len() == 0,
            res.fhe_gates@.len() == 0 && res.evaluations@.len() == 0,
            res.onchain_connectors@.len() == 0 && res.offchain_connectors@.len() == 0,
            res.contracts@.len() == 0,
            res.id is None,
            res.count@ == seq![0u64, 0u64, 0u64, 0u64],
    {
        Nibble {
            agents: Vec::new(),
            conditions: Vec::new(),
            listeners: Vec::new(),
            fhe_gates: Vec::new(),
            evaluations: Vec::new(),
            onchain_connectors: Vec::new(),
            offchain_connectors: Vec::new(),
            saved_agents: Vec::new(),
            saved_conditions: Vec::new(),
            saved_listeners: Vec::new(),
            saved_fhe_gates: Vec::new(),
            saved_evaluations: Vec::new(),
            saved_onchain_connectors: Vec::new(),
            saved_offchain_connectors: Vec::new(),
            contracts: Vec::new(),
            owner_address,
            id: None,
            count: [0u64, 0u64, 0u64, 0u64],
            chain,
            graph_api_key,
        }
    }

    /// Takes in what the factory returned on deployment: the addresses of the
    /// nine contracts (named in order), the nibble's id and its count;
    /// everything else stays. Returns the nibble as created: copies of the
    /// pending adapters, the new contracts, id and count, the same owner,
    /// chain and subgraph key, and nothing stored yet.
    pub fn install_deployment(&mut self, addresses: [Address; 9], id: Vec<u8>, count: U256Words) -> (created: Nibble)
        ensures
            final(self).contracts@.len() == 9,
            forall|k: int| 0 <= k < 9 ==> (#[trigger] final(self).contracts@[k]).name@ == contract_names()[k]
                && final(self).contracts@[k].address == addresses@[k],
            deployed_contracts(final(self).contracts@, addresses@),
            final(self).id matches Some(i) && i@ == id@,
            final(self).count == count,
            final(self).agents == old(self).agents,
            final(self).conditions == old(self).conditions,
            final(self).listeners == old(self).listeners,
            final(self).fhe_gates == old(self).fhe_gates,
            final(self).evaluations == old(self).evaluations,
            final(self).onchain_connectors == old(self).onchain_connectors,
            final(self).offchain_connectors == old(self).offchain_connectors,
            final(self).saved_agents == old(self).saved_agents,
            final(self).saved_conditions == old(self).saved_conditions,
            final(self).saved_listeners == old(self).saved_listeners,
            final(self).saved_fhe_gates == old(self).saved_fhe_gates,
            final(self).saved_evaluations == old(self).saved_evaluations,
            final(self).saved_onchain_connectors == old(self).saved_onchain_connectors,
            final(self).saved_offchain_connectors == old(self).saved_offchain_connectors,
            final(self).owner_address == old(self).owner_address,
            final(self).chain == old(self).chain,
            final(self).graph_api_key == old(self).graph_api_key,
            same_pending(*old(self), created),
            deployed_contracts(created.contracts@, addresses@),
            created.id matches Some(i) && i@ == id@,
            created.count == count,
            created.owner_address == old(self).owner_address,
            created.chain == old(self).chain,
            created.graph_api_key == old(self).graph_api_key,
            created.saved_agents@.len() == 0 && created.saved_conditions@.len() == 0,
            created.saved_listeners@.len() == 0 && created.saved_fhe_gates@.len() == 0,
            created.saved_evaluations@.len() == 0 && created.saved_onchain_connectors@.len() == 0,
            created.saved_offchain_connectors@.len() == 0,
    {
        let created_id = clone_bytes(&id);
        self.contracts = contracts_at(&addresses);
        self.id = Some(id);
        self.count = count;
        Nibble {
            agents: copy_agents(&self.agents),
            conditions: copy_conditions(&self.conditions),
            listeners: copy_listeners(&self.listeners),
            fhe_gates: copy_gates(&self.fhe_gates),
            evaluations: copy_evaluations(&self.evaluations),
            onchain_connectors: copy_onchain_connectors(&self.onchain_connectors),
            offchain_connectors: copy_offchain_connectors(&self.offchain_connectors),
            saved_agents: Vec::new(),
            saved_conditions: Vec::new(),
            saved_listeners: Vec::new(),
            saved_fhe_gates: Vec::new(),
            saved_evaluations: Vec::new(),
            saved_onchain_connectors: Vec::new(),
            saved_offchain_connectors: Vec::new(),
            contracts: contracts_at(&addresses),
            owner_address: self.owner_address,
            id: Some(created_id),
            count: self.count,
            chain: self.chain.clone(),
            graph_api_key: copy_opt_string(&self.graph_api_key),
        }
    }

    /// The storage contract, for storing or removing adapters in one batch:
    /// refused before the nibble has contracts, or when none is named
    /// `NibbleStorage`.
    pub fn storage_contract(&self) -> (res: Result<Address, String>)
        ensures
            match res {
                Ok(a) => self.contracts@.len() >= 1 && contract_named(self.contracts@, "NibbleStorage"@, 0) == Some(a),
                Err(e) => if self.contracts@.len() < 1 {
                    e@ == "No contracts found. Load or create a Nibble."@
                } else {
                    contract_named(self.contracts@, "NibbleStorage"@, 0) is None && e@ == "NibbleStorage contract not found"@
                },
            },
    {
        if self.contracts.len() < 1 {
            return Err(owned("No contracts found. Load or create a Nibble."));
        }
        match find_contract(&self.contracts, "NibbleStorage") {
            Some(a) => Ok(a),
            None => Err(owned("NibbleStorage contract not found")),
        }
    }

    /// Where a single adapter of a kind is stored (`persist`) or removed.
    pub fn adapter_target(&self, kind: Adapter, persist: bool) -> (res: Result<AdapterTarget, String>)
        ensures
            match res {
                Ok(t) => contract_named(self.contracts@, adapter_contract(kind), 0) == Some(t.contract_address)
                    && t.method@ == (if persist { persist_method(kind) } else { remove_method(kind) }),
                Err(e) => contract_named(self.contracts@, adapter_contract(kind), 0) is None
                    && e@ == missing_contract_message(kind),
            },
    {
        let name = contract_name_text(kind);
        match find_contract(&self.contracts, name.as_str()) {
            Some(a) => {
                let method = if persist {
                    persist_method_text(kind)
                } else {
                    remove_method_text(kind)
                };
                Ok(AdapterTarget { contract_address: a, method })
            },
            None => {
                let mut e = kind.to_string();
                e.append(" contract not found");
                Err(e)
            },
        }
    }

    /// Once a single adapter is stored or removed: the first pending adapter
    /// of its kind with its name leaves the pending list.
    pub fn drop_pending(&mut self, kind: Adapter, name: &str)
        ensures
            kind == Adapter::Agent ==> final(self).agents@ == without_first_named(old(self).agents@, agent_names(old(self).agents@), name@),
            kind != Adapter::Agent ==> final(self).agents == old(self).agents,
            kind == Adapter::Condition ==> final(self).conditions@ == without_first_named(old(self).conditions@, condition_names(old(self).conditions@), name@),
            kind != Adapter::Condition ==> final(self).conditions == old(self).conditions,
            kind == Adapter::Listener ==> final(self).listeners@ == without_first_named(old(self).listeners@, listener_names(old(self).listeners@), name@),
            kind != Adapter::Listener ==> final(self).listeners == old(self).listeners,
            kind == Adapter::FHEGate ==> final(self).fhe_gates@ == without_first_named(old(self).fhe_gates@, gate_names(old(self).fhe_gates@), name@),
            kind != Adapter::FHEGate ==> final(self).fhe_gates == old(self).fhe_gates,
            kind == Adapter::Evaluation ==> final(self).evaluations@ == without_first_named(old(self).evaluations@, evaluation_names(old(self).evaluations@), name@),
            kind != Adapter::Evaluation ==> final(self).evaluations == old(self).evaluations,
            kind == Adapter::OnChainConnector ==> final(self).onchain_connectors@ == without_first_named(old(self).onchain_connectors@, onchain_names(old(self).onchain_connectors@), name@),
            kind != Adapter::OnChainConnector ==> final(self).onchain_connectors == old(self).onchain_connectors,
            kind == Adapter::OffChainConnector ==> final(self).offchain_connectors@ == without_first_named(old(self).offchain_connectors@, offchain_names(old(self).offchain_connectors@), name@),
            kind != Adapter::OffChainConnector ==> final(self).offchain_connectors == old(self).offchain_connectors,
            final(self).contracts == old(self).contracts,
            final(self).owner_address == old(self).owner_address,
    {
        match kind {
            Adapter::Agent => {
                let mut names: Vec<String> = Vec::new();
                let mut i: usize = 0;
                while i < self.agents.len()
                    invariant
                        0 <= i <= self.agents@.len(),
                        names@.len() == i,
                        forall|k: int| 0 <= k < i ==> (#[trigger] names@[k])@ == self.agents@[k].name@,
                    decreases self.agents@.len() - i,
                {
                    names.push(self.agents[i].name.clone());
                    i = i + 1;
                }
                assert(Seq::new(names@.len(), |k: int| names@[k]@) =~= agent_names(self.agents@));
                match position_of(&names, name) {
                    Some(k) => {
                        self.agents.remove(k);
                    },
                    None => {},
                }
            },
            Adapter::Condition => {
                let mut names: Vec<String> = Vec::new();
                let mut i: usize = 0;
                while i < self.conditions.len()
                    invariant
                        0 <= i <= self.conditions@.len(),
                        names@.len() == i,
                        forall|k: int| 0 <= k < i ==> (#[trigger] names@[k])@ == self.conditions@[k].name@,
                    decreases self.conditions@.len() - i,
                {
                    names.push(self.conditions[i].name.clone());
                    i = i + 1;
                }
                assert(Seq::new(names@.len(), |k: int| names@[k]@) =~= condition_names(self.conditions@));
                match position_of(&names, name) {
                    Some(k) => {
                        self.conditions.remove(k);
                    },
                    None => {},
                }
            },
            Adapter::Listener => {
                let mut names: Vec<String> = Vec::new();
                let mut i: usize = 0;
                while i < self.listeners.len()
                    invariant
                        0 <= i <= self.listeners@.len(),
                        names@.len() == i,
                        forall|k: int| 0 <= k < i ==> (#[trigger] names@[k])@ == self.listeners@[k].name@,
                    decreases self.listeners@.len() - i,
                {
                    names.push(self.listeners[i].name.clone());
                    i = i + 1;
                }
                assert(Seq::new(names@.len(), |k: int| names@[k]@) =~= listener_names(self.listeners@));
                match position_of(&names, name) {
                    Some(k) => {
                        self.listeners.remove(k);
                    },
                    None => {},
                }
            },
            Adapter::FHEGate => {
                let mut names: Vec<String> = Vec::new();
                let mut i: usize = 0;
                while i < self.fhe_gates.len()
                    invariant
                        0 <= i <= self.fhe_gates@.len(),
                        names@.len() == i,
                        forall|k: int| 0 <= k < i ==> (#[trigger] names@[k])@ == self.fhe_gates@[k].name@,
                    decreases self.fhe_gates@.len() - i,
                {
                    names.push(self.fhe_gates[i].name.clone());
                    i = i + 1;
                }
                assert(Seq::new(names@.len(), |k: int| names@[k]@) =~= gate_names(self.fhe_gates@));
                match position_of(&names, name) {
                    Some(k) => {
                        self.fhe_gates.remove(k);
                    },
                    None => {},
                }
            },
            Adapter::Evaluation => {
                let mut names: Vec<String> = Vec::new();
                let mut i: usize = 0;
                while i < self.evaluations.len()
                    invariant
                        0 <= i <= self.evaluations@.len(),
                        names@.len() == i,
                        forall|k: int| 0 <= k < i ==> (#[trigger] names@[k])@ == self.evaluations@[k].name@,
                    decreases self.evaluations@.len() - i,
                {
                    names.push(self.evaluations[i].name.clone());
                    i = i + 1;
                }
                assert(Seq::new(names@.len(), |k: int| names@[k]@) =~= evaluation_names(self.evaluations@));
                match position_of(&names, name) {
                    Some(k) => {
                        self.evaluations.remove(k);
                    },
                    None => {},
                }
            },
            Adapter::OnChainConnector => {
                let mut names: Vec<String> = Vec::new();
                let mut i: usize = 0;
                while i < self.onchain_connectors.len()
                    invariant
                        0 <= i <= self.onchain_connectors@.len(),
                        names@.len() == i,
                        forall|k: int| 0 <= k < i ==> (#[trigger] names@[k])@ == self.onchain_connectors@[k].name@,
                    decreases self.onchain_connectors@.len() - i,
                {
                    names.push(self.onchain_connectors[i].name.clone());
                    i = i + 1;
                }
                assert(Seq::new(names@.len(), |k: int| names@[k]@) =~= onchain_names(self.onchain_connectors@));
                match position_of(&names, name) {
                    Some(k) => {
                        self.onchain_connectors.remove(k);
                    },
                    None => {},
                }
            },
            Adapter::OffChainConnector => {
                let mut names: Vec<String> = Vec::new();
                let mut i: usize = 0;
                while i < self.offchain_connectors.len()
                    invariant
                        0 <= i <= self.offchain_connectors@.len(),
                        names@.len() == i,
                        forall|k: int| 0 <= k < i ==> (#[trigger] names@[k])@ == self.offchain_connectors@[k].name@,
                    decreases self.offchain_connectors@.len() - i,
                {
                    names.push(self.offchain_connectors[i].name.clone());
                    i = i + 1;
                }
                assert(Seq::new(names@.len(), |k: int| names@[k]@) =~= offchain_names(self.offchain_connectors@));
                match position_of(&names, name) {
                    Some(k) => {
                        self.offchain_connectors.remove(k);
                    },
                    None => {},
                }
            },
        }
    }

    /// Once the pending adapters are stored or removed in one batch: none is pending.
    pub fn clear_pending(&mut self)
        ensures
            final(self).agents@.len() == 0 && final(self).conditions@.len() == 0 && final(self).listeners@.len() == 0,
            final(self).fhe_gates@.len() == 0 && final(self).evaluations@.len() == 0,
            final(self).onchain_connectors@.len() == 0 && final(self).offchain_connectors@.len() == 0,
            final(self).contracts == old(self).contracts,
            final(self).owner_address == old(self).owner_address,
            final(self).id == old(self).id,
    {
        self.agents = Vec::new();
        self.conditions = Vec::new();
        self.listeners = Vec::new();
        self.fhe_gates = Vec::new();
        self.evaluations = Vec::new();
        self.onchain_connectors = Vec::new();
        self.offchain_connectors = Vec::new();
    }

    /// What removing the pending adapters in one batch sends.
    pub fn build_remove_adapters(&self) -> (res: RemoveAdapters)
        ensures
            byte_seqs(res.conditions@) == ids_of_conditions(self.conditions@),
            byte_seqs(res.listeners@) == ids_of_listeners(self.listeners@),
            byte_seqs(res.connectors@) == ids_of_onchain(self.onchain_connectors@) + ids_of_offchain(self.offchain_connectors@),
            byte_seqs(res.agents@) == ids_of_agents(self.agents@),
            byte_seqs(res.evaluations@) == ids_of_evaluations(self.evaluations@),
    {
        let mut conditions: Vec<Vec<u8>> = Vec::new();
        let mut i: usize = 0;
        while i < self.conditions.len()
            invariant
                0 <= i <= self.conditions@.len(),
                conditions@.len() == i,
                forall|k: int| 0 <= k < i ==> (#[trigger] conditions@[k])@ == ids_of_conditions(self.conditions@)[k],
            decreases self.conditions@.len() - i,
        {
            conditions.push(crate::json::clone_bytes(&self.conditions[i].id));
            i = i + 1;
        }
        let mut listeners: Vec<Vec<u8>> = Vec::new();
        let mut i: usize = 0;
        while i < self.listeners.len()
            invariant
                0 <= i <= self.listeners@.len(),
                listeners@.len() == i,
                forall|k: int| 0 <= k < i ==> (#[trigger] listeners@[k])@ == ids_of_listeners(self.listeners@)[k],
            decreases self.listeners@.len() - i,
        {
            listeners.push(crate::json::clone_bytes(&self.listeners[i].id));
            i = i + 1;
        }
        let mut connectors: Vec<Vec<u8>> = Vec::new();
        let mut i: usize = 0;
        while i < self.onchain_connectors.len()
            invariant
                0 <= i <= self.onchain_connectors@.len(),
                connectors@.len() == i,
                forall|k: int| 0 <= k < i ==> (#[trigger] connectors@[k])@ == ids_of_onchain(self.onchain_connectors@)[k],
            decreases self.onchain_connectors@.len() - i,
        {
            connectors.push(crate::json::clone_bytes(&self.onchain_connectors[i].id));
            i = i + 1;
        }
        let ghost on = ids_of_onchain(self.onchain_connectors@);
        assert(byte_seqs(connectors@) =~= on);
        let mut i: usize = 0;
        while i < self.offchain_connectors.len()
            invariant
                0 <= i <= self.offchain_connectors@.len(),
                on == ids_of_onchain(self.onchain_connectors@),
                connectors@.len() == on.len() + i,
                forall|k: int| 0 <= k < on.len() ==> (#[trigger] connectors@[k])@ == on[k],
                forall|k: int| 0 <= k < i ==> (#[trigger] connectors@[on.len() + k])@ == ids_of_offchain(self.offchain_connectors@)[k],
            decreases self.offchain_connectors@.len() - i,
        {
            connectors.push(crate::json::clone_bytes(&self.offchain_connectors[i].id));
            i = i + 1;
        }
        let mut agents: Vec<Vec<u8>> = Vec::new();
        let mut i: usize = 0;
        while i < self.agents.len()
            invariant
                0 <= i <= self.agents@.len(),
                agents@.len() == i,
                forall|k: int| 0 <= k < i ==> (#[trigger] agents@[k])@ == ids_of_agents(self.agents@)[k],
            decreases self.agents@.len() - i,
        {
            agents.push(crate::json::clone_bytes(&self.agents[i].id));
            i = i + 1;
        }
        let mut evaluations: Vec<Vec<u8>> = Vec::new();
        let mut i: usize = 0;
        while i < self.evaluations.len()
            invariant
                0 <= i <= self.evaluations@.len(),
                evaluations@.len() == i,
                forall|k: int| 0 <= k < i ==> (#[trigger] evaluations@[k])@ == ids_of_evaluations(self.evaluations@)[k],
            decreases self.evaluations@.len() - i,
        {
            evaluations.push(crate::json::clone_bytes(&self.evaluations[i].id));
            i = i + 1;
        }
        proof {
            assert(byte_seqs(conditions@) =~= ids_of_conditions(self.conditions@));
            assert(byte_seqs(listeners@) =~= ids_of_listeners(self.listeners@));
            let off = ids_of_offchain(self.offchain_connectors@);
            assert forall|k: int| 0 <= k < connectors@.len() implies #[trigger] byte_seqs(connectors@)[k] == (on + off)[k] by {
                if k >= on.len() {
                    let j = k - on.len();
                    assert(connectors@[on.len() + j]@ == off[j]);
                }
            }
            assert(byte_seqs(connectors@) =~= on + off);
            assert(byte_seqs(agents@) =~= ids_of_agents(self.agents@));
            assert(byte_seqs(evaluations@) =~= ids_of_evaluations(self.evaluations@));
        }
        RemoveAdapters { conditions, listeners, connectors, agents, evaluations }
    }

    /// Adds an agent of the owner to the pending adapters, under a fresh id,
    /// acting with the wallet at `agent_wallet` (one the caller has just made).
    /// The Lens account is recorded as the agent's Farcaster account and the
    /// Farcaster account as its Lens account.
    pub fn add_agent(
        &mut self,
        name: &str,
        role: &str,
        personality: &str,
        system: &str,
        write_role: bool,
        admin_role: bool,
        model: LLMModel,
        encrypted: bool,
        agent_wallet: Address,
        lens_account: Option<&str>,
        farcaster_account: Option<&str>,
        objectives: Vec<Objective>,
    ) -> (res: Result<AdapterHandle, String>)
        ensures
            match res {
                Ok(h) => {
                    let a = final(self).agents@.last();
                    &&& final(self).agents@.len() == old(self).agents@.len() + 1
                    &&& final(self).agents@.drop_last() == old(self).agents@
                    &&& a.name@ == name@ && a.role@ == role@ && a.personality@ == personality@ && a.system@ == system@
                    &&& a.write_role == write_role && a.admin_role == admin_role && a.encrypted == encrypted
                    &&& a.model == model && a.wallet_address == agent_wallet && a.objectives == objectives
                    &&& (match farcaster_account { Some(f) => a.lens_account matches Some(x) && x@ == f@, None => a.lens_account is None })
                    &&& (match lens_account { Some(l) => a.farcaster_account matches Some(x) && x@ == l@, None => a.farcaster_account is None })
                    &&& crate::utils::owner_id(a.id@, old(self).owner_address@)
                    &&& h.adapter_type == Adapter::Agent && h.name@ == name@ && h.id@ == a.id@
                },
                Err(e) => e@ == "Invalid timestamp"@ && final(self).agents == old(self).agents,
            },
            final(self).conditions == old(self).conditions,
            final(self).listeners == old(self).listeners,
            final(self).fhe_gates == old(self).fhe_gates,
            final(self).evaluations == old(self).evaluations,
            final(self).onchain_connectors == old(self).onchain_connectors,
            final(self).offchain_connectors == old(self).offchain_connectors,
            same_setup(*old(self), *final(self)),
    {
        let agent = configure_new_agent(
            name,
            role,
            personality,
            system,
            write_role,
            admin_role,
            encrypted,
            model,
            &self.owner_address,
            agent_wallet,
            farcaster_account,
            lens_account,
            objectives,
        )?;
        let handle = AdapterHandle { adapter_type: Adapter::Agent, name: agent.name.clone(), id: clone_bytes(&agent.id) };
        let ghost before = self.agents@;
        self.agents.push(agent);
        assert(self.agents@.drop_last() =~= before);
        Ok(handle)
    }

    /// Adds a Condition to the pending adapters; nothing else changes.
    pub fn add_condition(&mut self, condition: Condition)
        ensures
            final(self).conditions@ == old(self).conditions@.push(condition),
            final(self).agents == old(self).agents,
            final(self).listeners == old(self).listeners,
            final(self).fhe_gates == old(self).fhe_gates,
            final(self).evaluations == old(self).evaluations,
            final(self).onchain_connectors == old(self).onchain_connectors,
            final(self).offchain_connectors == old(self).offchain_connectors,
            same_setup(*old(self), *final(self)),
    {
        self.conditions.push(condition);
    }

    /// Adds a Listener to the pending adapters; nothing else changes.
    pub fn add_listener(&mut self, listener: Listener)
        ensures
            final(self).listeners@ == old(self).listeners@.push(listener),
            final(self).agents == old(self).agents,
            final(self).conditions == old(self).conditions,
            final(self).fhe_gates == old(self).fhe_gates,
            final(self).evaluations == old(self).evaluations,
            final(self).onchain_connectors == old(self).onchain_connectors,
            final(self).offchain_connectors == old(self).offchain_connectors,
            same_setup(*old(self), *final(self)),
    {
        self.listeners.push(listener);
    }

    /// Adds a FHE gate to the pending adapters; nothing else changes.
    pub fn add_fhe_gate(&mut self, gate: FHEGate)
        ensures
            final(self).fhe_gates@ == old(self).fhe_gates@.push(gate),
            final(self).agents == old(self).agents,
            final(self).conditions == old(self).conditions,
            final(self).listeners == old(self).listeners,
            final(self).evaluations == old(self).evaluations,
            final(self).onchain_connectors == old(self).onchain_connectors,
            final(self).offchain_connectors == old(self).offchain_connectors,
            same_setup(*old(self), *final(self)),
    {
        self.fhe_gates.push(gate);
    }

    /// Adds an evaluation to the pending adapters; nothing else changes.
    pub fn add_evaluation(&mut self, evaluation: Evaluation)
        ensures
            final(self).evaluations@ == old(self).evaluations@.push(evaluation),
            final(self).agents == old(self).agents,
            final(self).conditions == old(self).conditions,
            final(self).listeners == old(self).listeners,
            final(self).fhe_gates == old(self).fhe_gates,
            final(self).onchain_connectors == old(self).onchain_connectors,
            final(self).offchain_connectors == old(self).offchain_connectors,
            same_setup(*old(self), *final(self)),
    {
        self.evaluations.push(evaluation);
    }

    /// Adds an on-chain connector to the pending adapters; nothing else changes.
    pub fn add_onchain_connector(&mut self, connector: OnChainConnector)
        ensures
            final(self).onchain_connectors@ == old(self).onchain_connectors@.push(connector),
            final(self).agents == old(self).agents,
            final(self).conditions == old(self).conditions,
            final(self).listeners == old(self).listeners,
            final(self).fhe_gates == old(self).fhe_gates,
            final(self).evaluations == old(self).evaluations,
            final(self).offchain_connectors == old(self).offchain_connectors,
            same_setup(*old(self), *final(self)),
    {
        self.onchain_connectors.push(connector);
    }

    /// Adds an off-chain connector to the pending adapters, under a fresh id
    /// of the owner with address `address`; nothing else changes.
    pub fn add_offchain_connector(
        &mut self,
        name: &str,
        connector_type: ConnectorType,
        api_url: &str,
        encrypted: bool,
        http_method: String,
        headers: Option<StringMap>,
        params: Option<StringMap>,
        auth_tokens: Option<JsonValue>,
        result_processing_fn: Option<FunctionRef>,
        address: &Address,
        auth_subflow: Option<Workflow>,
    ) -> (res: Result<AdapterHandle, String>)
        ensures
            match res {
                Ok(h) => {
                    let c = final(self).offchain_connectors@.last();
                    &&& final(self).offchain_connectors@.len() == old(self).offchain_connectors@.len() + 1
                    &&& final(self).offchain_connectors@.drop_last() == old(self).offchain_connectors@
                    &&& c.name@ == name@ && c.connector_type == connector_type && c.api_url@ == api_url@
                    &&& c.encrypted == encrypted && c.http_method == http_method && c.headers == headers
                    &&& c.params == params && c.auth_tokens == auth_tokens && c.result_processing_fn == result_processing_fn
                    &&& c.auth_subflow == (match auth_subflow { Some(w) => Some(Box::new(w)), None => None })
                    &&& crate::utils::owner_id(c.id@, address@)
                    &&& h.adapter_type == Adapter::OffChainConnector && h.name@ == name@ && h.id@ == c.id@
                },
                Err(e) => e@ == "Invalid timestamp"@ && final(self).offchain_connectors == old(self).offchain_connectors,
            },
            final(self).agents == old(self).agents,
            final(self).conditions == old(self).conditions,
            final(self).listeners == old(self).listeners,
            final(self).fhe_gates == old(self).fhe_gates,
            final(self).evaluations == old(self).evaluations,
            final(self).onchain_connectors == old(self).onchain_connectors,
            same_setup(*old(self), *final(self)),
    {
        let connector = configure_new_offchain_connector(
            name,
            connector_type,
            api_url,
            encrypted,
            http_method,
            headers,
            params,
            auth_tokens,
            result_processing_fn,
            address,
            auth_subflow,
        )?;
        let handle = AdapterHandle {
            adapter_type: Adapter::OffChainConnector,
            name: connector.name.clone(),
            id: clone_bytes(&connector.id),
        };
        let ghost before = self.offchain_connectors@;
        self.offchain_connectors.push(connector);
        assert(self.offchain_connectors@.drop_last() =~= before);
        Ok(handle)
    }

    /// Takes in what loading the nibble from the subgraph gave: its contracts,
    /// its stored adapters and its count; the pending adapters stay. Returns
    /// a nibble with the loaded contracts and count and this nibble's owner,
    /// id, chain and subgraph key, which holds nothing pending and, as
    /// stored, copies of this nibble's pending adapters.
    pub fn install_loaded(
        &mut self,
        contracts: Vec<ContractInfo>,
        agents: Vec<Agent>,
        conditions: Vec<Condition>,
        listeners: Vec<Listener>,
        fhe_gates: Vec<FHEGate>,
        evaluations: Vec<Evaluation>,
        onchain_connectors: Vec<OnChainConnector>,
        offchain_connectors: Vec<OffChainConnector>,
        count: U256Words,
    ) -> (loaded: Nibble)
        ensures
            final(self).contracts == contracts,
            final(self).saved_agents == agents,
            final(self).saved_conditions == conditions,
            final(self).saved_listeners == listeners,
            final(self).saved_fhe_gates == fhe_gates,
            final(self).saved_evaluations == evaluations,
            final(self).saved_onchain_connectors == onchain_connectors,
            final(self).saved_offchain_connectors == offchain_connectors,
            final(self).count == count,
            final(self).agents == old(self).agents,
            final(self).conditions == old(self).conditions,
            final(self).listeners == old(self).listeners,
            final(self).fhe_gates == old(self).fhe_gates,
            final(self).evaluations == old(self).evaluations,
            final(self).onchain_connectors == old(self).onchain_connectors,
            final(self).offchain_connectors == old(self).offchain_connectors,
            final(self).owner_address == old(self).owner_address,
            final(self).id == old(self).id,
            final(self).chain == old(self).chain,
            final(self).graph_api_key == old(self).graph_api_key,
            pending_copied_as_saved(*old(self), loaded),
            loaded.agents@.len() == 0 && loaded.conditions@.len() == 0 && loaded.listeners@.len() == 0,
            loaded.fhe_gates@.len() == 0 && loaded.evaluations@.len() == 0,
            loaded.onchain_connectors@.len() == 0 && loaded.offchain_connectors@.len() == 0,
            loaded.contracts@ == contracts@,
            loaded.count == count,
            loaded.owner_address == old(self).owner_address,
            opt_seq(loaded.id) == opt_seq(old(self).id),
            loaded.chain == old(self).chain,
            loaded.graph_api_key == old(self).graph_api_key,
    {
        let id = match &self.id {
            Some(i) => Some(clone_bytes(i)),
            None => None,
        };
        let loaded = Nibble {
            agents: Vec::new(),
            conditions: Vec::new(),
            listeners: Vec::new(),
            fhe_gates: Vec::new(),
            evaluations: Vec::new(),
            onchain_connectors: Vec::new(),
            offchain_connectors: Vec::new(),
            saved_agents: copy_agents(&self.agents),
            saved_conditions: copy_conditions(&self.conditions),
            saved_listeners: copy_listeners(&self.listeners),
            saved_fhe_gates: copy_gates(&self.fhe_gates),
            saved_evaluations: copy_evaluations(&self.evaluations),
            saved_onchain_connectors: copy_onchain_connectors(&self.onchain_connectors),
            saved_offchain_connectors: copy_offchain_connectors(&self.offchain_connectors),
            contracts: copy_contracts(&contracts),
            owner_address: self.owner_address,
            id,
            count,
            chain: self.chain.clone(),
            graph_api_key: copy_opt_string(&self.graph_api_key),
        };
        self.contracts = contracts;
        self.saved_agents = agents;
        self.saved_conditions = conditions;
        self.saved_listeners = listeners;
        self.saved_fhe_gates = fhe_gates;
        self.saved_evaluations = evaluations;
        self.saved_onchain_connectors = onchain_connectors;
        self.saved_offchain_connectors = offchain_connectors;
        self.count = count;
        loaded
    }

    /// A new, empty workflow of this nibble's owner, under a fresh id.
    pub fn create_workflow(&self, name: &str, encrypted: bool) -> (res: Result<Workflow, String>)
        ensures
            match res {
                Ok(w) => {
                    &&& crate::utils::owner_id(w.id@, self.owner_address@)
                    &&& w.name@ == name@
                    &&& w.encrypted == encrypted
                    &&& w.nodes@.len() == 0 && w.links@.len() == 0 && w.execution_history@.len() == 0
                },
                Err(e) => e@ == "Invalid timestamp"@,
            },
    {
        let id = crate::utils::fresh_id(&self.owner_address)?;
        Ok(Workflow::new(id, owned(name), encrypted))
    }

    /// The registry of adapter ids a workflow run looks adapters up in: the
    /// pending adapters of each kind.
    pub fn registry(&self) -> (res: Registry)
        ensures
            byte_seqs(res.agents@) == ids_of_agents(self.agents@),
            byte_seqs(res.conditions@) == ids_of_conditions(self.conditions@),
            byte_seqs(res.listeners@) == ids_of_listeners(self.listeners@),
            byte_seqs(res.evaluations@) == ids_of_evaluations(self.evaluations@),
            byte_seqs(res.onchain_connectors@) == ids_of_onchain(self.onchain_connectors@),
            byte_seqs(res.offchain_connectors@) == ids_of_offchain(self.offchain_connectors@),
            res.fhe_gates@.len() == self.fhe_gates@.len(),
            forall|k: int| 0 <= k < self.fhe_gates@.len() ==> (#[trigger] res.fhe_gates@[k])@ == self.fhe_gates@[k].id@,
    {
        let r = self.build_remove_adapters();
        let mut gates: Vec<Vec<u8>> = Vec::new();
        let mut i: usize = 0;
        while i < self.fhe_gates.len()
            invariant
                0 <= i <= self.fhe_gates@.len(),
                gates@.len() == i,
                forall|k: int| 0 <= k < i ==> (#[trigger] gates@[k])@ == self.fhe_gates@[k].id@,
            decreases self.fhe_gates@.len() - i,
        {
            gates.push(crate::json::clone_bytes(&self.fhe_gates[i].id));
            i = i + 1;
        }
        let mut onchain: Vec<Vec<u8>> = Vec::new();
        let mut i: usize = 0;
        while i < self.onchain_connectors.len()
            invariant
                0 <= i <= self.onchain_connectors@.len(),
                onchain@.len() == i,
                forall|k: int| 0 <= k < i ==> (#[trigger] onchain@[k])@ == ids_of_onchain(self.onchain_connectors@)[k],
            decreases self.onchain_connectors@.len() - i,
        {
            onchain.push(crate::json::clone_bytes(&self.onchain_connectors[i].id));
            i = i + 1;
        }
        let mut offchain: Vec<Vec<u8>> = Vec::new();
        let mut i: usize = 0;
        while i < self.offchain_connectors.len()
            invariant
                0 <= i <= self.offchain_connectors@.len(),
                offchain@.len() == i,
                forall|k: int| 0 <= k < i ==> (#[trigger] offchain@[k])@ == ids_of_offchain(self.offchain_connectors@)[k],
            decreases self.offchain_connectors@.len() - i,
        {
            offchain.push(crate::json::clone_bytes(&self.offchain_connectors[i].id));
            i = i + 1;
        }
        proof {
            assert(byte_seqs(onchain@) =~= ids_of_onchain(self.onchain_connectors@));
            assert(byte_seqs(offchain@) =~= ids_of_offchain(self.offchain_connectors@));
        }
        Registry {
            agents: r.agents,
            conditions: r.conditions,
            listeners: r.listeners,
            fhe_gates: gates,
            evaluations: r.evaluations,
            onchain_connectors: onchain,
            offchain_connectors: offchain,
        }
    }
}

} // verus!
