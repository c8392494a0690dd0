//! Copies of adapters, field by field, and what each copy keeps: the same
//! texts, ids, settings and nested values, by their contents.

use vstd::prelude::*;
use crate::adapters::links::conditions::{conditions_data, lemma_composite_data, Condition, ConditionCheck, ConditionType};
use crate::adapters::links::evaluations::{Evaluation, EvaluationType};
use crate::adapters::links::fhe_gates::FHEGate;
use crate::adapters::links::listeners::{Listener, ListenerType};
use crate::adapters::nodes::agents::{Agent, FloatParam, LLMModel, Objective};
use crate::adapters::nodes::connectors::off_chain::{ConnectorType, OffChainConnector};
use crate::adapters::nodes::connectors::on_chain::OnChainConnector;
use crate::execution::{history_view, ExecutionHistory};
use crate::function_ref::FunctionRef;
use crate::tools::context::ContextParse;
use crate::tools::history::HistoryParse;
use crate::workflow::{LinkTarget, NodeAdapter, Workflow, WorkflowLink, WorkflowNode};
use crate::json::{clone_bytes, clone_entries, clone_opt, clone_values, entries_data, opt_data, values_data, JsonValue};
use crate::string_map::StringMap;

verus! {

/// An optional text, copied.
pub fn copy_opt_string(s: &Option<String>) -> (res: Option<String>)
    ensures
        res == *s,
{
    match s {
        Some(t) => Some(t.clone()),
        None => None,
    }
}

/// A list of texts, copied.
pub fn copy_strings(items: &Vec<String>) -> (res: Vec<String>)
    ensures
        res@ == items@,
{
    let mut out: Vec<String> = Vec::new();
    let mut i: usize = 0;
    while i < items.len()
        invariant
            0 <= i <= items@.len(),
            out@ == items@.take(i as int),
        decreases items@.len() - i,
    {
        out.push(items[i].clone());
        assert(items@.take(i + 1) =~= items@.take(i as int).push(items@[i as int]));
        i = i + 1;
    }
    assert(items@.take(items@.len() as int) =~= items@);
    out
}

/// The contents of an optional list.
pub open spec fn opt_seq<T>(v: Option<Vec<T>>) -> Option<Seq<T>> {
    match v {
        Some(x) => Some(x@),
        None => None,
    }
}

/// The contents of an optional list of JSON values.
pub open spec fn opt_values(v: Option<Vec<JsonValue>>) -> Option<Seq<crate::json::JsonData>> {
    match v {
        Some(x) => Some(values_data(x@)),
        None => None,
    }
}

/// The contents of an optional table of texts.
pub open spec fn opt_table(m: Option<StringMap>) -> Option<Seq<(Seq<char>, Seq<char>)>> {
    match m {
        Some(x) => Some(x@),
        None => None,
    }
}

fn copy_opt_strings(v: &Option<Vec<String>>) -> (res: Option<Vec<String>>)
    ensures
        opt_seq(res) == opt_seq(*v),
{
    match v {
        Some(x) => Some(copy_strings(x)),
        None => None,
    }
}

fn copy_opt_numbers(v: &Option<Vec<u32>>) -> (res: Option<Vec<u32>>)
    ensures
        opt_seq(res) == opt_seq(*v),
{
    match v {
        Some(x) => {
            let mut out: Vec<u32> = Vec::new();
            let mut i: usize = 0;
            while i < x.len()
                invariant
                    0 <= i <= x@.len(),
                    out@ == x@.take(i as int),
                decreases x@.len() - i,
            {
                out.push(x[i]);
                assert(x@.take(i + 1) =~= x@.take(i as int).push(x@[i as int]));
                i = i + 1;
            }
            assert(x@.take(x@.len() as int) =~= x@);
            Some(out)
        },
        None => None,
    }
}

fn copy_opt_values(v: &Option<Vec<JsonValue>>) -> (res: Option<Vec<JsonValue>>)
    ensures
        opt_values(res) == opt_values(*v),
{
    match v {
        Some(x) => Some(clone_values(x)),
        None => None,
    }
}

/// An optional table of texts, copied.
pub fn copy_opt_table(m: &Option<StringMap>) -> (res: Option<StringMap>)
    ensures
        opt_table(res) == opt_table(*m),
{
    match m {
        Some(x) => Some(x.copy()),
        None => None,
    }
}

/// Whether two floating-point settings show and serialise alike.
pub open spec fn same_float(a: FloatParam, b: FloatParam) -> bool {
    a.display == b.display && a.json@ == b.json@
}

fn copy_float(f: &FloatParam) -> (res: FloatParam)
    ensures
        same_float(res, *f),
{
    FloatParam { display: f.display.clone(), json: f.json.deep_clone() }
}

/// Whether two models are the same model with the same settings.
pub open spec fn same_model(a: LLMModel, b: LLMModel) -> bool {
    match (a, b) {
        (
            LLMModel::OpenAI {
                api_key: k1, model: m1, temperature: t1, max_completion_tokens: x1, top_p: p1,
                frequency_penalty: f1, presence_penalty: r1, system_prompt: s1, store: st1, metadata: md1,
                logit_bias: lb1, logprobs: lp1, top_logprobs: tl1, modalities: mo1, stop: so1,
                response_format: rf1, stream: sr1, parallel_tool_calls: pc1, user: u1,
            },
            LLMModel::OpenAI {
                api_key: k2, model: m2, temperature: t2, max_completion_tokens: x2, top_p: p2,
                frequency_penalty: f2, presence_penalty: r2, system_prompt: s2, store: st2, metadata: md2,
                logit_bias: lb2, logprobs: lp2, top_logprobs: tl2, modalities: mo2, stop: so2,
                response_format: rf2, stream: sr2, parallel_tool_calls: pc2, user: u2,
            },
        ) => {
            &&& k1 == k2 && m1 == m2 && same_float(t1, t2) && x1 == x2 && same_float(p1, p2)
            &&& same_float(f1, f2) && same_float(r1, r2) && s1 == s2 && st1 == st2
            &&& opt_data(md1) == opt_data(md2) && opt_data(lb1) == opt_data(lb2) && lp1 == lp2 && tl1 == tl2
            &&& opt_seq(mo1) == opt_seq(mo2) && opt_seq(so1) == opt_seq(so2)
            &&& opt_data(rf1) == opt_data(rf2) && sr1 == sr2 && pc1 == pc2 && u1 == u2
        },
        (
            LLMModel::Anthropic {
                api_key: k1, model: m1, temperature: t1, max_tokens: x1, top_k: tk1, top_p: p1,
                system_prompt: s1, version: v1, stop_sequences: ss1, stream: sr1, metadata: md1,
                tool_choice: tc1, tools: to1,
            },
            LLMModel::Anthropic {
                api_key: k2, model: m2, temperature: t2, max_tokens: x2, top_k: tk2, top_p: p2,
                system_prompt: s2, version: v2, stop_sequences: ss2, stream: sr2, metadata: md2,
                tool_choice: tc2, tools: to2,
            },
        ) => {
            &&& k1 == k2 && m1 == m2 && same_float(t1, t2) && x1 == x2 && tk1 == tk2 && same_float(p1, p2)
            &&& s1 == s2 && v1 == v2 && opt_seq(ss1) == opt_seq(ss2) && sr1 == sr2
            &&& opt_data(md1) == opt_data(md2) && opt_data(tc1) == opt_data(tc2) && opt_values(to1) == opt_values(to2)
        },
        (
            LLMModel::Ollama {
                model: m1, temperature: t1, max_tokens: x1, top_p: p1, frequency_penalty: f1,
                presence_penalty: r1, format: fo1, suffix: su1, system: sy1, template: te1, context: c1,
                stream: sr1, raw: ra1, keep_alive: ka1, options: op1, images: im1,
            },
            LLMModel::Ollama {
                model: m2, temperature: t2, max_tokens: x2, top_p: p2, frequency_penalty: f2,
                presence_penalty: r2, format: fo2, suffix: su2, system: sy2, template: te2, context: c2,
                stream: sr2, raw: ra2, keep_alive: ka2, options: op2, images: im2,
            },
        ) => {
            &&& m1 == m2 && same_float(t1, t2) && x1 == x2 && same_float(p1, p2) && same_float(f1, f2)
            &&& same_float(r1, r2) && fo1 == fo2 && su1 == su2 && sy1 == sy2 && te1 == te2
            &&& opt_seq(c1) == opt_seq(c2) && sr1 == sr2 && ra1 == ra2 && ka1 == ka2
            &&& opt_data(op1) == opt_data(op2) && opt_seq(im1) == opt_seq(im2)
        },
        (LLMModel::Other { config: c1 }, LLMModel::Other { config: c2 }) => c1@ == c2@,
        _ => false,
    }
}

/// A model, copied.
pub fn copy_model(m: &LLMModel) -> (res: LLMModel)
    ensures
        same_model(*m, res),
{
    match m {
        LLMModel::OpenAI {
            api_key, model, temperature, max_completion_tokens, top_p, frequency_penalty, presence_penalty,
            system_prompt, store, metadata, logit_bias, logprobs, top_logprobs, modalities, stop,
            response_format, stream, parallel_tool_calls, user,
        } => LLMModel::OpenAI {
            api_key: api_key.clone(),
            model: model.clone(),
            temperature: copy_float(temperature),
            max_completion_tokens: *max_completion_tokens,
            top_p: copy_float(top_p),
            frequency_penalty: copy_float(frequency_penalty),
            presence_penalty: copy_float(presence_penalty),
            system_prompt: copy_opt_string(system_prompt),
            store: *store,
            metadata: clone_opt(metadata),
            logit_bias: clone_opt(logit_bias),
            logprobs: *logprobs,
            top_logprobs: *top_logprobs,
            modalities: copy_opt_strings(modalities),
            stop: copy_opt_strings(stop),
            response_format: clone_opt(response_format),
            stream: *stream,
            parallel_tool_calls: *parallel_tool_calls,
            user: copy_opt_string(user),
        },
        LLMModel::Anthropic {
            api_key, model, temperature, max_tokens, top_k, top_p, system_prompt, version,
            stop_sequences, stream, metadata, tool_choice, tools,
        } => LLMModel::Anthropic {
            api_key: api_key.clone(),
            model: model.clone(),
            temperature: copy_float(temperature),
            max_tokens: *max_tokens,
            top_k: *top_k,
            top_p: copy_float(top_p),
            system_prompt: copy_opt_string(system_prompt),
            version: version.clone(),
            stop_sequences: copy_opt_strings(stop_sequences),
            stream: *stream,
            metadata: clone_opt(metadata),
            tool_choice: clone_opt(tool_choice),
            tools: copy_opt_values(tools),
        },
        LLMModel::Ollama {
            model, temperature, max_tokens, top_p, frequency_penalty, presence_penalty, format, suffix,
            system, template, context, stream, raw, keep_alive, options, images,
        } => LLMModel::Ollama {
            model: model.clone(),
            temperature: copy_float(temperature),
            max_tokens: *max_tokens,
            top_p: copy_float(top_p),
            frequency_penalty: copy_float(frequency_penalty),
            presence_penalty: copy_float(presence_penalty),
            format: copy_opt_string(format),
            suffix: copy_opt_string(suffix),
            system: copy_opt_string(system),
            template: copy_opt_string(template),
            context: copy_opt_numbers(context),
            stream: *stream,
            raw: *raw,
            keep_alive: copy_opt_string(keep_alive),
            options: clone_opt(options),
            images: copy_opt_strings(images),
        },
        LLMModel::Other { config } => LLMModel::Other { config: config.copy() },
    }
}

/// Whether two agents are the same agent: the same texts, id, model,
/// wallet, roles, accounts and objectives.
pub open spec fn same_agent(a: Agent, b: Agent) -> bool {
    &&& a.name == b.name && a.id@ == b.id@ && a.role == b.role && a.personality == b.personality
    &&& a.system == b.system && same_model(a.model, b.model) && a.wallet_address == b.wallet_address
    &&& a.write_role == b.write_role && a.admin_role == b.admin_role && a.encrypted == b.encrypted
    &&& a.lens_account == b.lens_account && a.farcaster_account == b.farcaster_account
    &&& a.objectives@.len() == b.objectives@.len()
    &&& forall|i: int| 0 <= i < a.objectives@.len() ==> (#[trigger] a.objectives@[i])@ == b.objectives@[i]@
}

/// An agent, copied.
pub fn copy_agent(a: &Agent) -> (res: Agent)
    ensures
        same_agent(*a, res),
{
    let mut objectives: Vec<Objective> = Vec::new();
    let mut i: usize = 0;
    while i < a.objectives.len()
        invariant
            0 <= i <= a.objectives@.len(),
            objectives@.len() == i,
            forall|j: int| 0 <= j < i ==> (#[trigger] objectives@[j])@ == a.objectives@[j]@,
        decreases a.objectives@.len() - i,
    {
        let o = &a.objectives[i];
        objectives.push(Objective { description: o.description.clone(), priority: o.priority, generated: o.generated });
        i = i + 1;
    }
    Agent {
        name: a.name.clone(),
        id: clone_bytes(&a.id),
        role: a.role.clone(),
        personality: a.personality.clone(),
        system: a.system.clone(),
        model: copy_model(&a.model),
        wallet_address: a.wallet_address,
        write_role: a.write_role,
        admin_role: a.admin_role,
        encrypted: a.encrypted,
        lens_account: copy_opt_string(&a.lens_account),
        farcaster_account: copy_opt_string(&a.farcaster_account),
        objectives,
    }
}

/// A condition's kind, copied (with each sub-condition of a composite one).
pub fn copy_condition_type(t: &ConditionType) -> (res: ConditionType)
    ensures
        res.data() == t.data(),
    decreases t, 0int,
{
    match t {
        ConditionType::OnChain { contract_address, function_signature } => ConditionType::OnChain {
            contract_address: *contract_address,
            function_signature: function_signature.clone(),
        },
        ConditionType::OffChain { api_url } => ConditionType::OffChain { api_url: api_url.clone() },
        ConditionType::ContextBased => ConditionType::ContextBased,
        ConditionType::TimeBased { comparison_time, comparison_type } => ConditionType::TimeBased {
            comparison_time: *comparison_time,
            comparison_type: *comparison_type,
        },
        ConditionType::Composite { operator, sub_conditions } => {
            proof { lemma_composite_data(*operator, *sub_conditions); }
            let mut out: Vec<Condition> = Vec::new();
            let mut i: usize = 0;
            while i < sub_conditions.len()
                invariant
                    *t == (ConditionType::Composite { operator: *operator, sub_conditions: *sub_conditions }),
                    0 <= i <= sub_conditions@.len(),
                    out@.len() == i,
                    forall|j: int| 0 <= j < i ==> (#[trigger] out@[j]).data() == sub_conditions@[j].data(),
                decreases sub_conditions@.len() - i,
            {
                assert(decreases_to!(*t => (*t)->Composite_sub_conditions));
                assert(decreases_to!(*sub_conditions => sub_conditions@));
                assert(decreases_to!(sub_conditions@ => sub_conditions@[i as int]));
                out.push(copy_condition(&sub_conditions[i]));
                i = i + 1;
            }
            proof { lemma_composite_data(*operator, out); }
            assert(conditions_data(out@) =~= conditions_data(sub_conditions@));
            ConditionType::Composite { operator: *operator, sub_conditions: out }
        },
    }
}

/// A condition, copied.
pub fn copy_condition(c: &Condition) -> (res: Condition)
    ensures
        res.data() == c.data(),
    decreases c, 1int,
{
    Condition {
        name: c.name.clone(),
        condition_type: copy_condition_type(&c.condition_type),
        check: ConditionCheck { condition_fn: c.check.condition_fn, expected_value: clone_opt(&c.check.expected_value) },
        encrypted: c.encrypted,
        id: clone_bytes(&c.id),
    }
}

/// Whether two listeners are the same listener.
pub open spec fn same_listener(a: Listener, b: Listener) -> bool {
    a.name == b.name && a.id@ == b.id@ && a.listener_type == b.listener_type && a.encrypted == b.encrypted
}

/// A listener, copied.
pub fn copy_listener(l: &Listener) -> (res: Listener)
    ensures
        same_listener(*l, res),
{
    let listener_type = match &l.listener_type {
        ListenerType::OnChain { contract_address, event_signature, abi, provider, wallet, chain } => ListenerType::OnChain {
            contract_address: *contract_address,
            event_signature: event_signature.clone(),
            abi: abi.clone(),
            provider: provider.clone(),
            wallet: wallet.clone(),
            chain: chain.clone(),
        },
        ListenerType::OffChain { webhook_url, sns_verification } => ListenerType::OffChain {
            webhook_url: webhook_url.clone(),
            sns_verification: *sns_verification,
        },
        ListenerType::Timer { interval } => ListenerType::Timer { interval: interval.clone() },
    };
    Listener { name: l.name.clone(), id: clone_bytes(&l.id), listener_type, encrypted: l.encrypted }
}

/// Whether two FHE gates are the same gate.
pub open spec fn same_gate(a: FHEGate, b: FHEGate) -> bool {
    &&& a.name == b.name && a.id@ == b.id@ && a.key == b.key && a.encrypted == b.encrypted
    &&& a.contract_address == b.contract_address && a.operation == b.operation && a.chain == b.chain
}

/// An FHE gate, copied.
pub fn copy_gate(g: &FHEGate) -> (res: FHEGate)
    ensures
        same_gate(*g, res),
{
    FHEGate {
        name: g.name.clone(),
        id: clone_bytes(&g.id),
        key: g.key.clone(),
        encrypted: g.encrypted,
        contract_address: g.contract_address,
        operation: g.operation.clone(),
        chain: g.chain.clone(),
    }
}

/// Whether two judges are the same judge with the same settings.
pub open spec fn same_judge(a: EvaluationType, b: EvaluationType) -> bool {
    match (a, b) {
        (
            EvaluationType::LLMJudge { model_type: m1, prompt: p1, response_type: r1 },
            EvaluationType::LLMJudge { model_type: m2, prompt: p2, response_type: r2 },
        ) => same_model(m1, m2) && p1 == p2 && r1 == r2,
        (EvaluationType::LLMJudge { .. }, _) => false,
        (_, EvaluationType::LLMJudge { .. }) => false,
        _ => a == b,
    }
}

/// Whether two evaluations are the same evaluation.
pub open spec fn same_evaluation(a: Evaluation, b: Evaluation) -> bool {
    a.name == b.name && a.encrypted == b.encrypted && a.id@ == b.id@ && same_judge(a.evaluation_type, b.evaluation_type)
}

/// An evaluation, copied.
pub fn copy_evaluation(e: &Evaluation) -> (res: Evaluation)
    ensures
        same_evaluation(*e, res),
{
    let evaluation_type = match &e.evaluation_type {
        EvaluationType::HumanJudge { timeout_secs, timeout_nanos, default, endpoint, auth_key } => EvaluationType::HumanJudge {
            timeout_secs: *timeout_secs,
            timeout_nanos: *timeout_nanos,
            default: *default,
            endpoint: endpoint.clone(),
            auth_key: copy_opt_string(auth_key),
        },
        EvaluationType::LLMJudge { model_type, prompt, response_type } => EvaluationType::LLMJudge {
            model_type: copy_model(model_type),
            prompt: prompt.clone(),
            response_type: *response_type,
        },
        EvaluationType::AgentJudge { agent_id, prompt, response_type } => EvaluationType::AgentJudge {
            agent_id: agent_id.clone(),
            prompt: prompt.clone(),
            response_type: *response_type,
        },
    };
    Evaluation { name: e.name.clone(), encrypted: e.encrypted, id: clone_bytes(&e.id), evaluation_type }
}

/// Whether two on-chain connectors are the same connector.
pub open spec fn same_onchain_connector(a: OnChainConnector, b: OnChainConnector) -> bool {
    &&& a.name == b.name && a.id@ == b.id@ && a.address == b.address && a.encrypted == b.encrypted
    &&& a.abi == b.abi && opt_seq(a.bytecode) == opt_seq(b.bytecode) && a.chain == b.chain
    &&& a.gas_options == b.gas_options
}

/// An on-chain connector, copied.
pub fn copy_onchain_connector(c: &OnChainConnector) -> (res: OnChainConnector)
    ensures
        same_onchain_connector(*c, res),
{
    let bytecode = match &c.bytecode {
        Some(b) => Some(clone_bytes(b)),
        None => None,
    };
    OnChainConnector {
        name: c.name.clone(),
        id: clone_bytes(&c.id),
        address: c.address,
        encrypted: c.encrypted,
        abi: copy_opt_string(&c.abi),
        bytecode,
        chain: c.chain.clone(),
        gas_options: c.gas_options,
    }
}

/// Whether two context tools reshape a context alike.
pub open spec fn same_context_tool(a: Option<ContextParse>, b: Option<ContextParse>) -> bool {
    match (a, b) {
        (
            Some(ContextParse::ParseFields { expected_format: f1, required_fields: r1 }),
            Some(ContextParse::ParseFields { expected_format: f2, required_fields: r2 }),
        ) => entries_data(f1@) == entries_data(f2@) && r1@ == r2@,
        (Some(ContextParse::CustomProcessor), Some(ContextParse::CustomProcessor)) => true,
        (None, None) => true,
        _ => false,
    }
}

fn copy_context_tool(t: &Option<ContextParse>) -> (res: Option<ContextParse>)
    ensures
        same_context_tool(*t, res),
{
    match t {
        Some(ContextParse::ParseFields { expected_format, required_fields }) => Some(ContextParse::ParseFields {
            expected_format: clone_entries(expected_format),
            required_fields: copy_strings(required_fields),
        }),
        Some(ContextParse::CustomProcessor) => Some(ContextParse::CustomProcessor),
        None => None,
    }
}

/// Whether two history tools read a history alike.
pub open spec fn same_history_tool(a: Option<HistoryParse>, b: Option<HistoryParse>) -> bool {
    match (a, b) {
        (
            Some(HistoryParse::ExtractField { index: i1, field_path: p1 }),
            Some(HistoryParse::ExtractField { index: i2, field_path: p2 }),
        ) => i1 == i2 && p1@ == p2@,
        (Some(HistoryParse::CustomProcessor), Some(HistoryParse::CustomProcessor)) => true,
        (Some(HistoryParse::InvalidConfig), Some(HistoryParse::InvalidConfig)) => true,
        (None, None) => true,
        _ => false,
    }
}

fn copy_history_tool(t: &Option<HistoryParse>) -> (res: Option<HistoryParse>)
    ensures
        same_history_tool(*t, res),
{
    match t {
        Some(HistoryParse::ExtractField { index, field_path }) => Some(HistoryParse::ExtractField {
            index: *index,
            field_path: copy_strings(field_path),
        }),
        Some(HistoryParse::CustomProcessor) => Some(HistoryParse::CustomProcessor),
        Some(HistoryParse::InvalidConfig) => Some(HistoryParse::InvalidConfig),
        None => None,
    }
}

/// Whether two link targets send the run to the same nodes.
pub open spec fn same_target(a: Option<LinkTarget>, b: Option<LinkTarget>) -> bool {
    match (a, b) {
        (Some(x), Some(y)) => x.true_target_id@ == y.true_target_id@ && x.false_target_id@ == y.false_target_id@
            && opt_seq(x.generated_target_id) == opt_seq(y.generated_target_id),
        (None, None) => true,
        _ => false,
    }
}

fn copy_opt_bytes(b: &Option<Vec<u8>>) -> (res: Option<Vec<u8>>)
    ensures
        opt_seq(res) == opt_seq(*b),
{
    match b {
        Some(x) => Some(clone_bytes(x)),
        None => None,
    }
}

fn copy_target(t: &Option<LinkTarget>) -> (res: Option<LinkTarget>)
    ensures
        same_target(*t, res),
{
    match t {
        Some(x) => Some(LinkTarget {
            true_target_id: clone_bytes(&x.true_target_id),
            false_target_id: clone_bytes(&x.false_target_id),
            generated_target_id: copy_opt_bytes(&x.generated_target_id),
        }),
        None => None,
    }
}

/// Whether two links are the same link.
pub open spec fn same_link(a: WorkflowLink, b: WorkflowLink) -> bool {
    &&& a.id@ == b.id@ && a.adapter_id@ == b.adapter_id@ && a.adapter_type == b.adapter_type
    &&& a.repetitions == b.repetitions && opt_data(a.context) == opt_data(b.context)
    &&& same_target(a.target, b.target) && a.description == b.description
    &&& same_context_tool(a.context_tool, b.context_tool) && same_history_tool(a.history_tool, b.history_tool)
}

fn copy_link(l: &WorkflowLink) -> (res: WorkflowLink)
    ensures
        same_link(*l, res),
{
    WorkflowLink {
        id: clone_bytes(&l.id),
        adapter_id: clone_bytes(&l.adapter_id),
        adapter_type: l.adapter_type,
        repetitions: l.repetitions,
        context: clone_opt(&l.context),
        target: copy_target(&l.target),
        description: copy_opt_string(&l.description),
        context_tool: copy_context_tool(&l.context_tool),
        history_tool: copy_history_tool(&l.history_tool),
    }
}

fn copy_history_entry(h: &ExecutionHistory) -> (res: ExecutionHistory)
    ensures
        res@ == h@,
{
    ExecutionHistory {
        element_id: clone_bytes(&h.element_id),
        element_type: h.element_type.clone(),
        result: clone_opt(&h.result),
        description: copy_opt_string(&h.description),
        timestamp: h.timestamp,
    }
}

/// Whether two node adapters run the same thing (a subflow: the same
/// workflow, run alike).
pub open spec fn same_node_adapter(a: NodeAdapter, b: NodeAdapter) -> bool
    decreases a, 0int,
{
    match (a, b) {
        (
            NodeAdapter::SubFlow { subflow: w1, blocking: b1, repetitions: r1, count_successes: c1 },
            NodeAdapter::SubFlow { subflow: w2, blocking: b2, repetitions: r2, count_successes: c2 },
        ) => same_workflow(*w1, *w2) && b1 == b2 && r1 == r2 && c1 == c2,
        (NodeAdapter::OffChainConnector, NodeAdapter::OffChainConnector) => true,
        (NodeAdapter::OnChainConnector, NodeAdapter::OnChainConnector) => true,
        (NodeAdapter::Agent, NodeAdapter::Agent) => true,
        _ => false,
    }
}

/// Whether two nodes are the same node.
pub open spec fn same_node(a: WorkflowNode, b: WorkflowNode) -> bool
    decreases a, 1int,
{
    &&& a.id@ == b.id@ && a.adapter_id@ == b.adapter_id@ && same_node_adapter(a.adapter_type, b.adapter_type)
    &&& opt_data(a.context) == opt_data(b.context) && a.repetitions == b.repetitions && a.description == b.description
    &&& same_context_tool(a.context_tool, b.context_tool) && same_history_tool(a.history_tool, b.history_tool)
}

/// Whether two workflows are the same workflow: id, name, nodes, links,
/// encryption and history.
pub open spec fn same_workflow(a: Workflow, b: Workflow) -> bool
    decreases a, 2int,
{
    &&& a.id@ == b.id@ && a.name == b.name && a.encrypted == b.encrypted
    &&& history_view(a.execution_history@) == history_view(b.execution_history@)
    &&& a.nodes@.len() == b.nodes@.len()
    &&& forall|i: int| 0 <= i < a.nodes@.len() ==> same_node(#[trigger] a.nodes@[i], b.nodes@[i])
    &&& a.links@.len() == b.links@.len()
    &&& forall|i: int| 0 <= i < a.links@.len() ==> same_link(#[trigger] a.links@[i], b.links@[i])
}

fn copy_node_adapter(a: &NodeAdapter) -> (res: NodeAdapter)
    ensures
        same_node_adapter(*a, res),
    decreases a, 0int,
{
    match a {
        NodeAdapter::SubFlow { subflow, blocking, repetitions, count_successes } => {
            assert(decreases_to!(*a => (*a)->SubFlow_subflow));
            NodeAdapter::SubFlow {
                subflow: Box::new(copy_workflow(subflow)),
                blocking: *blocking,
                repetitions: *repetitions,
                count_successes: *count_successes,
            }
        },
        NodeAdapter::OffChainConnector => NodeAdapter::OffChainConnector,
        NodeAdapter::OnChainConnector => NodeAdapter::OnChainConnector,
        NodeAdapter::Agent => NodeAdapter::Agent,
    }
}

fn copy_node(n: &WorkflowNode) -> (res: WorkflowNode)
    ensures
        same_node(*n, res),
    decreases n, 1int,
{
    WorkflowNode {
        id: clone_bytes(&n.id),
        adapter_id: clone_bytes(&n.adapter_id),
        adapter_type: copy_node_adapter(&n.adapter_type),
        context: clone_opt(&n.context),
        repetitions: n.repetitions,
        description: copy_opt_string(&n.description),
        context_tool: copy_context_tool(&n.context_tool),
        history_tool: copy_history_tool(&n.history_tool),
    }
}

/// A workflow, copied, with the workflows of its subflow nodes.
pub fn copy_workflow(w: &Workflow) -> (res: Workflow)
    ensures
        same_workflow(*w, res),
    decreases w, 2int,
{
    let mut nodes: Vec<WorkflowNode> = Vec::new();
    let mut i: usize = 0;
    while i < w.nodes.len()
        invariant
            0 <= i <= w.nodes@.len(),
            nodes@.len() == i,
            forall|j: int| 0 <= j < i ==> same_node(#[trigger] w.nodes@[j], nodes@[j]),
        decreases w.nodes@.len() - i,
    {
        assert(decreases_to!(*w => w.nodes));
        assert(decreases_to!(w.nodes => w.nodes@));
        assert(decreases_to!(w.nodes@ => w.nodes@[i as int]));
        nodes.push(copy_node(&w.nodes[i]));
        i = i + 1;
    }
    let mut links: Vec<WorkflowLink> = Vec::new();
    let mut k: usize = 0;
    while k < w.links.len()
        invariant
            0 <= k <= w.links@.len(),
            links@.len() == k,
            forall|j: int| 0 <= j < k ==> same_link(#[trigger] w.links@[j], links@[j]),
        decreases w.links@.len() - k,
    {
        links.push(copy_link(&w.links[k]));
        k = k + 1;
    }
    let mut history: Vec<ExecutionHistory> = Vec::new();
    let mut m: usize = 0;
    while m < w.execution_history.len()
        invariant
            0 <= m <= w.execution_history@.len(),
            history@.len() == m,
            forall|j: int| 0 <= j < m ==> (#[trigger] history@[j])@ == w.execution_history@[j]@,
        decreases w.execution_history@.len() - m,
    {
        history.push(copy_history_entry(&w.execution_history[m]));
        m = m + 1;
    }
    assert(history_view(history@) =~= history_view(w.execution_history@));
    Workflow { id: clone_bytes(&w.id), name: w.name.clone(), nodes, links, encrypted: w.encrypted, execution_history: history }
}

/// Whether two off-chain connectors are the same connector.
pub open spec fn same_offchain_connector(a: OffChainConnector, b: OffChainConnector) -> bool {
    &&& a.name == b.name && a.id@ == b.id@ && a.api_url == b.api_url && a.encrypted == b.encrypted
    &&& a.http_method == b.http_method && opt_table(a.headers) == opt_table(b.headers)
    &&& opt_table(a.params) == opt_table(b.params) && opt_data(a.auth_tokens) == opt_data(b.auth_tokens)
    &&& a.result_processing_fn == b.result_processing_fn
    &&& match (a.connector_type, b.connector_type) {
        (ConnectorType::REST { base_payload: p1 }, ConnectorType::REST { base_payload: p2 }) => opt_data(p1) == opt_data(p2),
        (ConnectorType::GraphQL { query: q1, variables: v1 }, ConnectorType::GraphQL { query: q2, variables: v2 }) =>
            q1 == q2 && opt_table(v1) == opt_table(v2),
        _ => false,
    }
    &&& match (a.auth_subflow, b.auth_subflow) {
        (Some(w1), Some(w2)) => same_workflow(*w1, *w2),
        (None, None) => true,
        _ => false,
    }
}

/// An off-chain connector, copied, with its authentication subflow.
pub fn copy_offchain_connector(c: &OffChainConnector) -> (res: OffChainConnector)
    ensures
        same_offchain_connector(*c, res),
{
    let connector_type = match &c.connector_type {
        ConnectorType::REST { base_payload } => ConnectorType::REST { base_payload: clone_opt(base_payload) },
        ConnectorType::GraphQL { query, variables } => ConnectorType::GraphQL {
            query: query.clone(),
            variables: copy_opt_table(variables),
        },
    };
    let auth_subflow = match &c.auth_subflow {
        Some(w) => Some(Box::new(copy_workflow(w))),
        None => None,
    };
    let result_processing_fn: Option<FunctionRef> = c.result_processing_fn;
    OffChainConnector {
        name: c.name.clone(),
        id: clone_bytes(&c.id),
        connector_type,
        api_url: c.api_url.clone(),
        encrypted: c.encrypted,
        http_method: c.http_method.clone(),
        headers: copy_opt_table(&c.headers),
        params: copy_opt_table(&c.params),
        auth_tokens: clone_opt(&c.auth_tokens),
        auth_subflow,
        result_processing_fn,
    }
}

/// A list of agents, copied one by one.
pub fn copy_agents(v: &Vec<Agent>) -> (res: Vec<Agent>)
    ensures
        res@.len() == v@.len(),
        forall|j: int| 0 <= j < v@.len() ==> same_agent(v@[j], #[trigger] res@[j]),
{
    let mut out: Vec<Agent> = Vec::new();
    let mut i: usize = 0;
    while i < v.len()
        invariant
            0 <= i <= v@.len(),
            out@.len() == i,
            forall|j: int| 0 <= j < i ==> same_agent(v@[j], #[trigger] out@[j]),
        decreases v@.len() - i,
    {
        out.push(copy_agent(&v[i]));
        i = i + 1;
    }
    out
}

/// A list of conditions, copied one by one.
pub fn copy_conditions(v: &Vec<Condition>) -> (res: Vec<Condition>)
    ensures
        res@.len() == v@.len(),
        forall|j: int| 0 <= j < v@.len() ==> (#[trigger] res@[j]).data() == v@[j].data(),
{
    let mut out: Vec<Condition> = Vec::new();
    let mut i: usize = 0;
    while i < v.len()
        invariant
            0 <= i <= v@.len(),
            out@.len() == i,
            forall|j: int| 0 <= j < i ==> (#[trigger] out@[j]).data() == v@[j].data(),
        decreases v@.len() - i,
    {
        out.push(copy_condition(&v[i]));
        i = i + 1;
    }
    out
}

/// A list of listeners, copied one by one.
pub fn copy_listeners(v: &Vec<Listener>) -> (res: Vec<Listener>)
    ensures
        res@.len() == v@.len(),
        forall|j: int| 0 <= j < v@.len() ==> same_listener(v@[j], #[trigger] res@[j]),
{
    let mut out: Vec<Listener> = Vec::new();
    let mut i: usize = 0;
    while i < v.len()
        invariant
            0 <= i <= v@.len(),
            out@.len() == i,
            forall|j: int| 0 <= j < i ==> same_listener(v@[j], #[trigger] out@[j]),
        decreases v@.len() - i,
    {
        out.push(copy_listener(&v[i]));
        i = i + 1;
    }
    out
}

/// A list of gates, copied one by one.
pub fn copy_gates(v: &Vec<FHEGate>) -> (res: Vec<FHEGate>)
    ensures
        res@.len() == v@.len(),
        forall|j: int| 0 <= j < v@.len() ==> same_gate(v@[j], #[trigger] res@[j]),
{
    let mut out: Vec<FHEGate> = Vec::new();
    let mut i: usize = 0;
    while i < v.len()
        invariant
            0 <= i <= v@.len(),
            out@.len() == i,
            forall|j: int| 0 <= j < i ==> same_gate(v@[j], #[trigger] out@[j]),
        decreases v@.len() - i,
    {
        out.push(copy_gate(&v[i]));
        i = i + 1;
    }
    out
}

/// A list of evaluations, copied one by one.
pub fn copy_evaluations(v: &Vec<Evaluation>) -> (res: Vec<Evaluation>)
    ensures
        res@.len() == v@.len(),
        forall|j: int| 0 <= j < v@.len() ==> same_evaluation(v@[j], #[trigger] res@[j]),
{
    let mut out: Vec<Evaluation> = Vec::new();
    let mut i: usize = 0;
    while i < v.len()
        invariant
            0 <= i <= v@.len(),
            out@.len() == i,
            forall|j: int| 0 <= j < i ==> same_evaluation(v@[j], #[trigger] out@[j]),
        decreases v@.len() - i,
    {
        out.push(copy_evaluation(&v[i]));
        i = i + 1;
    }
    out
}

/// A list of onchain connectors, copied one by one.
pub fn copy_onchain_connectors(v: &Vec<OnChainConnector>) -> (res: Vec<OnChainConnector>)
    ensures
        res@.len() == v@.len(),
        forall|j: int| 0 <= j < v@.len() ==> same_onchain_connector(v@[j], #[trigger] res@[j]),
{
    let mut out: Vec<OnChainConnector> = Vec::new();
    let mut i: usize = 0;
    while i < v.len()
        invariant
            0 <= i <= v@.len(),
            out@.len() == i,
            forall|j: int| 0 <= j < i ==> same_onchain_connector(v@[j], #[trigger] out@[j]),
        decreases v@.len() - i,
    {
        out.push(copy_onchain_connector(&v[i]));
        i = i + 1;
    }
    out
}

/// A list of offchain connectors, copied one by one.
pub fn copy_offchain_connectors(v: &Vec<OffChainConnector>) -> (res: Vec<OffChainConnector>)
    ensures
        res@.len() == v@.len(),
        forall|j: int| 0 <= j < v@.len() ==> same_offchain_connector(v@[j], #[trigger] res@[j]),
{
    let mut out: Vec<OffChainConnector> = Vec::new();
    let mut i: usize = 0;
    while i < v.len()
        invariant
            0 <= i <= v@.len(),
            out@.len() == i,
            forall|j: int| 0 <= j < i ==> same_offchain_connector(v@[j], #[trigger] out@[j]),
        decreases v@.len() - i,
    {
        out.push(copy_offchain_connector(&v[i]));
        i = i + 1;
    }
    out
}

} // verus!
