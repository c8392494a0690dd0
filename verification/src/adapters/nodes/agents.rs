//! Agents: a language model with a role, a personality and objectives, acting
//! with a wallet of its own.

use vstd::prelude::*;
use crate::ethereum::{address_debug, address_debug_text, Address};
use crate::json::{
    entries_data, member, opt_bool_data, opt_bool_json, opt_data, opt_member, opt_strings_data,
    opt_strings_json, opt_text_data, opt_text_json, opt_u32_data, opt_u32_json, push_member,
    push_opt_member, u64_data, values_data, JsonData, JsonNumber, JsonValue,
};
use crate::string_map::{text_entries, StringMap};
use crate::assoc::lookup;
use vstd::utf8::encode_utf8;
use crate::text::owned;
use vstd::string::StrSliceExecFns;

verus! {

/// A floating-point setting, held as what the engine does with it: the text
/// its `to_string()` gives, and the JSON value it serialises to.
pub struct FloatParam {
    pub display: String,
    pub json: JsonValue,
}

/// The language model behind an agent, with its settings.
pub enum LLMModel {
    OpenAI {
        api_key: String,
        model: String,
        temperature: FloatParam,
        max_completion_tokens: u32,
        top_p: FloatParam,
        frequency_penalty: FloatParam,
        presence_penalty: FloatParam,
        system_prompt: Option<String>,
        store: Option<bool>,
        metadata: Option<JsonValue>,
        logit_bias: Option<JsonValue>,
        logprobs: Option<bool>,
        top_logprobs: Option<u32>,
        modalities: Option<Vec<String>>,
        stop: Option<Vec<String>>,
        response_format: Option<JsonValue>,
        stream: Option<bool>,
        parallel_tool_calls: Option<bool>,
        user: Option<String>,
    },
    Anthropic {
        api_key: String,
        model: String,
        temperature: FloatParam,
        max_tokens: u32,
        top_k: Option<u32>,
        top_p: FloatParam,
        system_prompt: Option<String>,
        version: String,
        stop_sequences: Option<Vec<String>>,
        stream: bool,
        metadata: Option<JsonValue>,
        tool_choice: Option<JsonValue>,
        tools: Option<Vec<JsonValue>>,
    },
    Ollama {
        model: String,
        temperature: FloatParam,
        max_tokens: u32,
        top_p: FloatParam,
        frequency_penalty: FloatParam,
        presence_penalty: FloatParam,
        format: Option<String>,
        suffix: Option<String>,
        system: Option<String>,
        template: Option<String>,
        context: Option<Vec<u32>>,
        stream: Option<bool>,
        raw: Option<bool>,
        keep_alive: Option<String>,
        options: Option<JsonValue>,
        images: Option<Vec<String>>,
    },
    Other { config: StringMap },
}

pub open spec fn text_data(s: String) -> JsonData {
    JsonData::Str(s@)
}

pub open spec fn display_data(f: FloatParam) -> JsonData {
    JsonData::Str(f.display@)
}

pub open spec fn numbers_data(v: Seq<u32>) -> JsonData {
    JsonData::Array(Seq::new(v.len(), |i: int| u64_data(v[i] as u64)))
}

pub open spec fn opt_numbers_data(v: Option<Vec<u32>>) -> Option<JsonData> {
    match v {
        Some(x) => Some(numbers_data(x@)),
        None => None,
    }
}

pub open spec fn opt_values_data(v: Option<Vec<JsonValue>>) -> Option<JsonData> {
    match v {
        Some(x) => Some(JsonData::Array(values_data(x@))),
        None => None,
    }
}

/// The settings of a model as stored: its kind under `type`, each setting
/// under its name, floats as their text, absent optional settings left out
/// (`store`, `stream` and `raw` written as false when absent).
pub open spec fn model_json(m: LLMModel) -> JsonData {
    match m {
        LLMModel::OpenAI {
            api_key,
            model,
            temperature,
            max_completion_tokens,
            top_p,
            frequency_penalty,
            presence_penalty,
            system_prompt,
            store,
            metadata,
            logit_bias,
            logprobs,
            top_logprobs,
            modalities,
            stop,
            response_format,
            stream,
            parallel_tool_calls,
            user,
        } => JsonData::Object(
            member("type"@, JsonData::Str("OpenAI"@))
                + member("api_key"@, text_data(api_key))
                + member("model"@, text_data(model))
                + member("temperature"@, display_data(temperature))
                + member("max_completion_tokens"@, u64_data(max_completion_tokens as u64))
                + member("top_p"@, display_data(top_p))
                + member("frequency_penalty"@, display_data(frequency_penalty))
                + member("presence_penalty"@, display_data(presence_penalty))
                + member("store"@, JsonData::Bool(store.unwrap_or(false)))
                + opt_member("metadata"@, opt_data(metadata))
                + opt_member("logit_bias"@, opt_data(logit_bias))
                + opt_member("logprobs"@, opt_bool_data(logprobs))
                + opt_member("top_logprobs"@, opt_u32_data(top_logprobs))
                + opt_member("modalities"@, opt_strings_data(modalities))
                + opt_member("stop"@, opt_strings_data(stop))
                + opt_member("response_format"@, opt_data(response_format))
                + member("stream"@, JsonData::Bool(stream.unwrap_or(false)))
                + opt_member("parallel_tool_calls"@, opt_bool_data(parallel_tool_calls))
                + opt_member("user"@, opt_text_data(user))
                + opt_member("system_prompt"@, opt_text_data(system_prompt)),
        ),
        LLMModel::Anthropic {
            api_key,
            model,
            temperature,
            max_tokens,
            top_k,
            top_p,
            system_prompt,
            version,
            stop_sequences,
            stream,
            metadata,
            tool_choice,
            tools,
        } => JsonData::Object(
            member("type"@, JsonData::Str("Anthropic"@))
                + member("api_key"@, text_data(api_key))
                + member("version"@, text_data(version))
                + member("model"@, text_data(model))
                + member("temperature"@, display_data(temperature))
                + member("max_tokens"@, u64_data(max_tokens as u64))
                + opt_member("top_k"@, opt_u32_data(top_k))
                + member("top_p"@, display_data(top_p))
                + opt_member("system_prompt"@, opt_text_data(system_prompt))
                + opt_member("stop_sequences"@, opt_strings_data(stop_sequences))
                + member("stream"@, JsonData::Bool(stream))
                + opt_member("metadata"@, opt_data(metadata))
                + opt_member("tool_choice"@, opt_data(tool_choice))
                + opt_member("tools"@, opt_values_data(tools)),
        ),
        LLMModel::Ollama {
            model,
            temperature,
            max_tokens,
            top_p,
            frequency_penalty,
            presence_penalty,
            format,
            suffix,
            system,
            template,
            context,
            stream,
            raw,
            keep_alive,
            options,
            images,
        } => JsonData::Object(
            member("type"@, JsonData::Str("Ollama"@))
                + member("model"@, text_data(model))
                + member("temperature"@, display_data(temperature))
                + member("max_tokens"@, u64_data(max_tokens as u64))
                + member("top_p"@, display_data(top_p))
                + member("frequency_penalty"@, display_data(frequency_penalty))
                + member("presence_penalty"@, display_data(presence_penalty))
                + opt_member("format"@, opt_text_data(format))
                + opt_member("suffix"@, opt_text_data(suffix))
                + opt_member("system"@, opt_text_data(system))
                + opt_member("template"@, opt_text_data(template))
                + opt_member("context"@, opt_numbers_data(context))
                + member("stream"@, JsonData::Bool(stream.unwrap_or(false)))
                + member("raw"@, JsonData::Bool(raw.unwrap_or(false)))
                + opt_member("keep_alive"@, opt_text_data(keep_alive))
                + opt_member("options"@, opt_data(options))
                + opt_member("images"@, opt_strings_data(images)),
        ),
        LLMModel::Other { config } => JsonData::Object(
            member("type"@, JsonData::Str("Other"@)) + member(
                "config"@,
                JsonData::Object(Seq::new(config@.len(), |i: int| (config@[i].0, JsonData::Str(config@[i].1)))),
            ),
        ),
    }
}

fn numbers_json(v: &Vec<u32>) -> (res: JsonValue)
    ensures
        res@ == numbers_data(v@),
{
    let mut out: Vec<JsonValue> = Vec::new();
    let mut i: usize = 0;
    while i < v.len()
        invariant
            0 <= i <= v@.len(),
            out@.len() == i,
            forall|k: int| 0 <= k < i ==> (#[trigger] out@[k])@ == u64_data(v@[k] as u64),
        decreases v@.len() - i,
    {
        out.push(JsonValue::Number(JsonNumber::PosInt(v[i] as u64)));
        i = i + 1;
    }
    let res = JsonValue::array(out);
    assert(values_data(out@) =~= Seq::new(v@.len(), |k: int| u64_data(v@[k] as u64)));
    res
}

fn opt_numbers_json(v: &Option<Vec<u32>>) -> (res: Option<JsonValue>)
    ensures
        opt_data(res) == opt_numbers_data(*v),
{
    match v {
        Some(x) => Some(numbers_json(x)),
        None => None,
    }
}

fn opt_values_json(v: &Option<Vec<JsonValue>>) -> (res: Option<JsonValue>)
    ensures
        opt_data(res) == opt_values_data(*v),
{
    match v {
        Some(x) => Some(JsonValue::array(crate::json::clone_values(x))),
        None => None,
    }
}

fn opt_json(v: &Option<JsonValue>) -> (res: Option<JsonValue>)
    ensures
        opt_data(res) == opt_data(*v),
{
    crate::json::clone_opt(v)
}

impl LLMModel {
    /// The model's settings as stored.
    #[verifier::rlimit(40)]
    pub fn to_json(&self) -> (res: JsonValue)
        ensures
            res@ == model_json(*self),
    {
        let mut e: Vec<(String, JsonValue)> = Vec::new();
        let ghost start = entries_data(e@);
        match self {
            LLMModel::OpenAI {
                api_key,
                model,
                temperature,
                max_completion_tokens,
                top_p,
                frequency_penalty,
                presence_penalty,
                system_prompt,
                store,
                metadata,
                logit_bias,
                logprobs,
                top_logprobs,
                modalities,
                stop,
                response_format,
                stream,
                parallel_tool_calls,
                user,
            } => {
                push_member(&mut e, "type", JsonValue::text("OpenAI"));
                push_member(&mut e, "api_key", JsonValue::String(api_key.clone()));
                push_member(&mut e, "model", JsonValue::String(model.clone()));
                push_member(&mut e, "temperature", JsonValue::String(temperature.display.clone()));
                push_member(&mut e, "max_completion_tokens", JsonValue::Number(JsonNumber::PosInt(*max_completion_tokens as u64)));
                push_member(&mut e, "top_p", JsonValue::String(top_p.display.clone()));
                push_member(&mut e, "frequency_penalty", JsonValue::String(frequency_penalty.display.clone()));
                push_member(&mut e, "presence_penalty", JsonValue::String(presence_penalty.display.clone()));
                push_member(&mut e, "store", JsonValue::Bool(store.unwrap_or(false)));
                push_opt_member(&mut e, "metadata", opt_json(metadata));
                push_opt_member(&mut e, "logit_bias", opt_json(logit_bias));
                push_opt_member(&mut e, "logprobs", opt_bool_json(*logprobs));
                push_opt_member(&mut e, "top_logprobs", opt_u32_json(*top_logprobs));
                push_opt_member(&mut e, "modalities", opt_strings_json(modalities));
                push_opt_member(&mut e, "stop", opt_strings_json(stop));
                push_opt_member(&mut e, "response_format", opt_json(response_format));
                push_member(&mut e, "stream", JsonValue::Bool(stream.unwrap_or(false)));
                push_opt_member(&mut e, "parallel_tool_calls", opt_bool_json(*parallel_tool_calls));
                push_opt_member(&mut e, "user", opt_text_json(user));
                push_opt_member(&mut e, "system_prompt", opt_text_json(system_prompt));
            },
            LLMModel::Anthropic {
                api_key,
                model,
                temperature,
                max_tokens,
                top_k,
                top_p,
                system_prompt,
                version,
                stop_sequences,
                stream,
                metadata,
                tool_choice,
                tools,
            } => {
                push_member(&mut e, "type", JsonValue::text("Anthropic"));
                push_member(&mut e, "api_key", JsonValue::String(api_key.clone()));
                push_member(&mut e, "version", JsonValue::String(version.clone()));
                push_member(&mut e, "model", JsonValue::String(model.clone()));
                push_member(&mut e, "temperature", JsonValue::String(temperature.display.clone()));
                push_member(&mut e, "max_tokens", JsonValue::Number(JsonNumber::PosInt(*max_tokens as u64)));
                push_opt_member(&mut e, "top_k", opt_u32_json(*top_k));
                push_member(&mut e, "top_p", JsonValue::String(top_p.display.clone()));
                push_opt_member(&mut e, "system_prompt", opt_text_json(system_prompt));
                push_opt_member(&mut e, "stop_sequences", opt_strings_json(stop_sequences));
                push_member(&mut e, "stream", JsonValue::Bool(*stream));
                push_opt_member(&mut e, "metadata", opt_json(metadata));
                push_opt_member(&mut e, "tool_choice", opt_json(tool_choice));
                push_opt_member(&mut e, "tools", opt_values_json(tools));
            },
            LLMModel::Ollama {
                model,
                temperature,
                max_tokens,
                top_p,
                frequency_penalty,
                presence_penalty,
                format,
                suffix,
                system,
                template,
                context,
                stream,
                raw,
                keep_alive,
                options,
                images,
            } => {
                push_member(&mut e, "type", JsonValue::text("Ollama"));
                push_member(&mut e, "model", JsonValue::String(model.clone()));
                push_member(&mut e, "temperature", JsonValue::String(temperature.display.clone()));
                push_member(&mut e, "max_tokens", JsonValue::Number(JsonNumber::PosInt(*max_tokens as u64)));
                push_member(&mut e, "top_p", JsonValue::String(top_p.display.clone()));
                push_member(&mut e, "frequency_penalty", JsonValue::String(frequency_penalty.display.clone()));
                push_member(&mut e, "presence_penalty", JsonValue::String(presence_penalty.display.clone()));
                push_opt_member(&mut e, "format", opt_text_json(format));
                push_opt_member(&mut e, "suffix", opt_text_json(suffix));
                push_opt_member(&mut e, "system", opt_text_json(system));
                push_opt_member(&mut e, "template", opt_text_json(template));
                push_opt_member(&mut e, "context", opt_numbers_json(context));
                push_member(&mut e, "stream", JsonValue::Bool(stream.unwrap_or(false)));
                push_member(&mut e, "raw", JsonValue::Bool(raw.unwrap_or(false)));
                push_opt_member(&mut e, "keep_alive", opt_text_json(keep_alive));
                push_opt_member(&mut e, "options", opt_json(options));
                push_opt_member(&mut e, "images", opt_strings_json(images));
            },
            LLMModel::Other { config } => {
                let mut inner: Vec<(String, JsonValue)> = Vec::new();
                let mut i: usize = 0;
                while i < config.entries.len()
                    invariant
                        0 <= i <= config.entries@.len(),
                        inner@.len() == i,
                        forall|k: int|
                            0 <= k < i ==> (#[trigger] inner@[k]).0@ == config.entries@[k].0@ && inner@[k].1@ == JsonData::Str(config.entries@[k].1@),
                    decreases config.entries@.len() - i,
                {
                    inner.push((config.entries[i].0.clone(), JsonValue::String(config.entries[i].1.clone())));
                    i = i + 1;
                }
                assert(entries_data(inner@) =~= Seq::new(config@.len(), |k: int| (config@[k].0, JsonData::Str(config@[k].1))));
                push_member(&mut e, "type", JsonValue::text("Other"));
                push_member(&mut e, "config", JsonValue::object(inner));
            },
        }
        let res = JsonValue::object(e);
        proof {
            assert(start =~= Seq::<(Seq<char>, JsonData)>::empty());
            match model_json(*self) {
                JsonData::Object(s) => {
                    assert(entries_data(e@) =~= s);
                },
                _ => {},
            }
        }
        res
    }
}

/// One of an agent's objectives; a higher priority comes first.
pub struct Objective {
    pub description: String,
    pub priority: u8,
    pub generated: bool,
}

pub open spec fn missing_description_message() -> Seq<char> {
    "Missing or invalid 'description' field"@
}

pub open spec fn missing_priority_message() -> Seq<char> {
    "Missing or invalid 'priority' field"@
}

pub open spec fn missing_generated_message() -> Seq<char> {
    "Missing or invalid 'generated' field"@
}

impl Objective {
    /// Reads an objective from JSON: a text `description`, a non-negative
    /// integer `priority` (cut to its low eight bits) and a boolean
    /// `generated`, checked in that order.
    pub fn try_from(value: &JsonValue) -> (res: Result<Objective, String>)
        ensures
            match res {
                Ok(o) => {
                    &&& value@.str_at("description"@) == Some(o.description@)
                    &&& value@.u64_at("priority"@) is Some
                    &&& o.priority == value@.u64_at("priority"@).unwrap() as u8
                    &&& value@.bool_at("generated"@) == Some(o.generated)
                },
                Err(e) => if value@.str_at("description"@) is None {
                    e@ == missing_description_message()
                } else if value@.u64_at("priority"@) is None {
                    e@ == missing_priority_message()
                } else {
                    value@.bool_at("generated"@) is None && e@ == missing_generated_message()
                },
            },
    {
        let description = match value.str_member("description") {
            Some(d) => owned(d),
            None => return Err(owned("Missing or invalid 'description' field")),
        };
        let priority = match value.u64_member("priority") {
            Some(p) => {
                #[verifier::truncate]
                let b = p as u8;
                b
            },
            None => return Err(owned("Missing or invalid 'priority' field")),
        };
        let generated = match value.bool_member("generated") {
            Some(g) => g,
            None => return Err(owned("Missing or invalid 'generated' field")),
        };
        Ok(Objective { description, priority, generated })
    }
}

/// An agent; its wallet is known here by its address.
pub struct Agent {
    pub name: String,
    pub id: Vec<u8>,
    pub role: String,
    pub personality: String,
    pub system: String,
    pub model: LLMModel,
    pub wallet_address: Address,
    pub write_role: bool,
    pub admin_role: bool,
    pub encrypted: bool,
    pub lens_account: Option<String>,
    pub farcaster_account: Option<String>,
    pub objectives: Vec<Objective>,
}

/// The content of an objective.
pub struct ObjectiveView {
    pub description: Seq<char>,
    pub priority: u8,
    pub generated: bool,
}

impl View for Objective {
    type V = ObjectiveView;

    open spec fn view(&self) -> ObjectiveView {
        ObjectiveView { description: self.description@, priority: self.priority, generated: self.generated }
    }
}

pub open spec fn objective_views(s: Seq<Objective>) -> Seq<ObjectiveView> {
    Seq::new(s.len(), |i: int| s[i]@)
}

/// The objectives with priority `p`, in order.
pub open spec fn with_priority(objectives: Seq<ObjectiveView>, p: int) -> Seq<ObjectiveView>
    decreases objectives.len(),
{
    if objectives.len() == 0 {
        objectives
    } else {
        let rest = with_priority(objectives.drop_last(), p);
        if objectives.last().priority == p {
            rest.push(objectives.last())
        } else {
            rest
        }
    }
}

/// The objectives ordered by priority, highest first, keeping the order of
/// objectives of equal priority (a stable sort): those with priority `p`,
/// then those with `p - 1`, down to 0.
pub open spec fn by_priority_from(objectives: Seq<ObjectiveView>, p: int) -> Seq<ObjectiveView>
    decreases p + 1,
{
    if p < 0 {
        Seq::empty()
    } else {
        with_priority(objectives, p) + by_priority_from(objectives, p - 1)
    }
}

pub open spec fn by_priority(objectives: Seq<ObjectiveView>) -> Seq<ObjectiveView> {
    by_priority_from(objectives, 255)
}

pub open spec fn agent_json(a: Agent) -> JsonData {
    JsonData::Object(
        member("name"@, text_data(a.name))
            + member("role"@, text_data(a.role))
            + member("personality"@, text_data(a.personality))
            + member("system"@, text_data(a.system))
            + member("model"@, model_json(a.model))
            + member("wallet_address"@, JsonData::Str(address_debug_text(a.wallet_address@)))
            + member("lens_account"@, JsonData::Str(match a.lens_account { Some(s) => s@, None => Seq::empty() }))
            + member("farcaster_account"@, JsonData::Str(match a.farcaster_account { Some(s) => s@, None => Seq::empty() }))
            + member("write_role"@, JsonData::Bool(a.write_role))
            + member("admin_role"@, JsonData::Bool(a.admin_role)),
    )
}

fn copy_objective(o: &Objective) -> (res: Objective)
    ensures
        res@ == o@,
{
    Objective { description: o.description.clone(), priority: o.priority, generated: o.generated }
}

proof fn lemma_with_priority_all(objectives: Seq<ObjectiveView>, p: int)
    ensures
        forall|k: int| 0 <= k < with_priority(objectives, p).len() ==> #[trigger] with_priority(objectives, p)[k].priority == p,
    decreases objectives.len(),
{
    if objectives.len() > 0 {
        lemma_with_priority_all(objectives.drop_last(), p);
        let rest = with_priority(objectives.drop_last(), p);
        if objectives.last().priority == p {
            assert forall|k: int| 0 <= k < rest.push(objectives.last()).len() implies #[trigger] rest.push(objectives.last())[k].priority == p by {
                if k < rest.len() {
                    assert(rest.push(objectives.last())[k] == rest[k]);
                }
            }
        }
    }
}

proof fn lemma_by_priority_bounded(objectives: Seq<ObjectiveView>, p: int)
    ensures
        forall|k: int| 0 <= k < by_priority_from(objectives, p).len() ==> #[trigger] by_priority_from(objectives, p)[k].priority <= p,
    decreases p + 1,
{
    if p >= 0 {
        lemma_with_priority_all(objectives, p);
        lemma_by_priority_bounded(objectives, p - 1);
        let w = with_priority(objectives, p);
        let r = by_priority_from(objectives, p - 1);
        assert forall|k: int| 0 <= k < by_priority_from(objectives, p).len() implies #[trigger] by_priority_from(objectives, p)[k].priority <= p by {
            if k < w.len() {
                assert(by_priority_from(objectives, p)[k] == w[k]);
            } else {
                assert(by_priority_from(objectives, p)[k] == r[k - w.len()]);
            }
        }
    }
}

proof fn lemma_by_priority_sorted(objectives: Seq<ObjectiveView>, p: int)
    ensures
        forall|i: int, j: int|
            0 <= i < j < by_priority_from(objectives, p).len() ==> #[trigger] by_priority_from(objectives, p)[i].priority
                >= #[trigger] by_priority_from(objectives, p)[j].priority,
    decreases p + 1,
{
    if p >= 0 {
        lemma_with_priority_all(objectives, p);
        lemma_by_priority_bounded(objectives, p - 1);
        lemma_by_priority_sorted(objectives, p - 1);
        let w = with_priority(objectives, p);
        let r = by_priority_from(objectives, p - 1);
        let all = by_priority_from(objectives, p);
        assert forall|i: int, j: int| 0 <= i < j < all.len() implies #[trigger] all[i].priority >= #[trigger] all[j].priority by {
            if j < w.len() {
                assert(all[i] == w[i] && all[j] == w[j]);
            } else if i < w.len() {
                assert(all[i] == w[i] && all[j] == r[j - w.len()]);
            } else {
                assert(all[i] == r[i - w.len()] && all[j] == r[j - w.len()]);
            }
        }
    }
}

/// Objectives ordered by priority run from the highest priority down: an
/// objective never comes before one of higher priority.
pub proof fn law_objectives_ordered(objectives: Seq<ObjectiveView>)
    ensures
        forall|i: int, j: int|
            0 <= i < j < by_priority(objectives).len() ==> #[trigger] by_priority(objectives)[i].priority
                >= #[trigger] by_priority(objectives)[j].priority,
{
    lemma_by_priority_sorted(objectives, 255);
}

proof fn lemma_by_priority_push(s: Seq<ObjectiveView>, x: ObjectiveView, q: int)
    ensures
        by_priority_from(s.push(x), q).to_multiset() =~= if 0 <= x.priority <= q {
            by_priority_from(s, q).to_multiset().insert(x)
        } else {
            by_priority_from(s, q).to_multiset()
        },
    decreases q + 1,
{
    broadcast use vstd::multiset::group_multiset_axioms;
    broadcast use vstd::seq_lib::to_multiset_build;
    broadcast use vstd::seq_lib::lemma_multiset_commutative;
    if q >= 0 {
        lemma_by_priority_push(s, x, q - 1);
        assert(s.push(x).drop_last() =~= s);
        let w = with_priority(s, q);
        let w2 = with_priority(s.push(x), q);
        if x.priority == q {
            assert(w2 == w.push(x));
        } else {
            assert(w2 == w);
        }
        assert(by_priority_from(s.push(x), q) == w2 + by_priority_from(s.push(x), q - 1));
        assert(by_priority_from(s, q) == w + by_priority_from(s, q - 1));
    }
}

/// Ordering objectives by priority loses and adds none: the ordered objectives
/// are the same objectives, each as often as before.
pub proof fn law_objectives_kept(objectives: Seq<ObjectiveView>)
    ensures
        by_priority(objectives).to_multiset() =~= objectives.to_multiset(),
    decreases objectives.len(),
{
    broadcast use vstd::multiset::group_multiset_axioms;
    broadcast use vstd::seq_lib::to_multiset_build;
    if objectives.len() == 0 {
        lemma_by_priority_empty(objectives, 255);
        assert(by_priority(objectives) =~= objectives);
    } else {
        let s = objectives.drop_last();
        let x = objectives.last();
        assert(s.push(x) =~= objectives);
        law_objectives_kept(s);
        lemma_by_priority_push(s, x, 255);
    }
}

proof fn lemma_by_priority_empty(objectives: Seq<ObjectiveView>, q: int)
    requires
        objectives.len() == 0,
    ensures
        by_priority_from(objectives, q).len() == 0,
    decreases q + 1,
{
    if q >= 0 {
        lemma_by_priority_empty(objectives, q - 1);
    }
}

/// Orders objectives by priority, highest first, keeping the order of equal
/// priorities.
pub fn sort_by_priority(objectives: &Vec<Objective>) -> (res: Vec<Objective>)
    ensures
        objective_views(res@) == by_priority(objective_views(objectives@)),
{
    let ghost all = objective_views(objectives@);
    let mut out: Vec<Objective> = Vec::new();
    let ghost mut acc: Seq<ObjectiveView> = Seq::empty();
    let mut q: u16 = 256;
    assert(objective_views(out@) =~= acc);
    assert(acc + by_priority_from(all, 255) =~= by_priority_from(all, 255));
    while q > 0
        invariant
            0 <= q <= 256,
            all == objective_views(objectives@),
            objective_views(out@) == acc,
            acc + by_priority_from(all, q as int - 1) == by_priority_from(all, 255),
        decreases q,
    {
        let p: u16 = q - 1;
        let ghost acc0 = acc;
        let mut i: usize = 0;
        assert(with_priority(all.take(0), p as int) =~= Seq::<ObjectiveView>::empty());
        assert(acc0 + with_priority(all.take(0), p as int) =~= acc0);
        while i < objectives.len()
            invariant
                0 <= i <= all.len(),
                all.len() == objectives@.len(),
                all == objective_views(objectives@),
                p < 256,
                objective_views(out@) == acc0 + with_priority(all.take(i as int), p as int),
            decreases all.len() - i,
        {
            assert(all.take(i + 1).drop_last() =~= all.take(i as int));
            assert(all.take(i + 1).last() == all[i as int]);
            assert(all[i as int] == objectives@[i as int]@);
            if objectives[i].priority as u16 == p {
                let ghost before = objective_views(out@);
                out.push(copy_objective(&objectives[i]));
                proof {
                    let w = with_priority(all.take(i as int), p as int);
                    assert(objective_views(out@) =~= before.push(all[i as int]));
                    assert((acc0 + w).push(all[i as int]) =~= acc0 + w.push(all[i as int]));
                }
            }
            i = i + 1;
        }
        proof {
            assert(all.take(all.len() as int) =~= all);
            acc = acc0 + with_priority(all, p as int);
            assert(by_priority_from(all, p as int) == with_priority(all, p as int) + by_priority_from(all, p as int - 1));
            assert(acc0 + by_priority_from(all, p as int) =~= acc + by_priority_from(all, p as int - 1));
        }
        q = p;
    }
    assert(by_priority_from(all, -1) =~= Seq::<ObjectiveView>::empty());
    assert(acc + Seq::<ObjectiveView>::empty() =~= acc);
    out
}

impl Agent {
    /// The agent as stored.
    pub fn to_json(&self) -> (res: JsonValue)
        ensures
            res@ == agent_json(*self),
    {
        let mut e: Vec<(String, JsonValue)> = Vec::new();
        push_member(&mut e, "name", JsonValue::String(self.name.clone()));
        push_member(&mut e, "role", JsonValue::String(self.role.clone()));
        push_member(&mut e, "personality", JsonValue::String(self.personality.clone()));
        push_member(&mut e, "system", JsonValue::String(self.system.clone()));
        push_member(&mut e, "model", self.model.to_json());
        push_member(&mut e, "wallet_address", JsonValue::String(address_debug(&self.wallet_address)));
        let lens = match &self.lens_account {
            Some(s) => s.clone(),
            None => String::new(),
        };
        push_member(&mut e, "lens_account", JsonValue::String(lens));
        let farcaster = match &self.farcaster_account {
            Some(s) => s.clone(),
            None => String::new(),
        };
        push_member(&mut e, "farcaster_account", JsonValue::String(farcaster));
        push_member(&mut e, "write_role", JsonValue::Bool(self.write_role));
        push_member(&mut e, "admin_role", JsonValue::Bool(self.admin_role));
        let res = JsonValue::object(e);
        proof {
            match agent_json(*self) {
                JsonData::Object(s) => {
                    assert(entries_data(e@) =~= s);
                },
                _ => {},
            }
        }
        res
    }

    /// Adds an objective, then orders the objectives by priority, highest
    /// first, keeping the order of equal priorities.
    pub fn add_objective(&mut self, description: &str, priority: u8, generated: bool)
        ensures
            objective_views(final(self).objectives@) == by_priority(
                objective_views(old(self).objectives@).push(ObjectiveView { description: description@, priority, generated }),
            ),
            final(self).name == old(self).name,
            final(self).id == old(self).id,
            final(self).role == old(self).role,
            final(self).personality == old(self).personality,
            final(self).system == old(self).system,
            final(self).model == old(self).model,
            final(self).wallet_address == old(self).wallet_address,
            final(self).write_role == old(self).write_role,
            final(self).admin_role == old(self).admin_role,
            final(self).encrypted == old(self).encrypted,
            final(self).lens_account == old(self).lens_account,
            final(self).farcaster_account == old(self).farcaster_account,
    {
        let objective = Objective { description: owned(description), priority, generated };
        let ghost before = objective_views(self.objectives@);
        self.objectives.push(objective);
        assert(objective_views(self.objectives@) =~= before.push(ObjectiveView { description: description@, priority, generated }));
        let sorted = sort_by_priority(&self.objectives);
        self.objectives = sorted;
    }
}

/// A request to a model's service.
pub struct LlmRequest {
    pub method: String,
    pub url: String,
    pub headers: Vec<(String, String)>,
    pub body: LlmBody,
}

/// What a request carries: a JSON body, the text of a JSON body still to be
/// read (see `read_body`), or nothing.
pub enum LlmBody {
    Json(JsonValue),
    JsonText(String),
    Empty,
}

pub ghost enum BodyView {
    Json(JsonData),
    JsonText(Seq<char>),
    Empty,
}

pub ghost struct RequestView {
    pub method: Seq<char>,
    pub url: Seq<char>,
    pub headers: Seq<(Seq<char>, Seq<char>)>,
    pub body: BodyView,
}

impl LlmRequest {
    pub open spec fn view_of(self) -> RequestView {
        RequestView {
            method: self.method@,
            url: self.url@,
            headers: text_entries(self.headers@),
            body: match self.body {
                LlmBody::Json(v) => BodyView::Json(v@),
                LlmBody::JsonText(t) => BodyView::JsonText(t@),
                LlmBody::Empty => BodyView::Empty,
            },
        }
    }
}

pub open spec fn message(role: Seq<char>, content: Seq<char>) -> JsonData {
    JsonData::Object(member("role"@, JsonData::Str(role)) + member("content"@, JsonData::Str(content)))
}

pub open spec fn opt_member_null(key: Seq<char>, value: Option<JsonData>) -> Seq<(Seq<char>, JsonData)> {
    member(key, match value { Some(v) => v, None => JsonData::Null })
}

/// The request body for a model: the prompt as the user's message (after
/// the system prompt, for OpenAI), or as the prompt (Ollama), with the model's
/// settings.
pub open spec fn request_body(m: LLMModel, prompt: Seq<char>) -> JsonData {
    match m {
        LLMModel::OpenAI {
            api_key, model, temperature, max_completion_tokens, top_p, frequency_penalty, presence_penalty,
            system_prompt, store, metadata, logit_bias, logprobs, top_logprobs, modalities, stop,
            response_format, stream, parallel_tool_calls, user,
        } => {
            let messages = match system_prompt {
                Some(sys) => seq![message("system"@, sys@), message("user"@, prompt)],
                None => seq![message("user"@, prompt)],
            };
            JsonData::Object(
                member("model"@, text_data(model))
                    + member("messages"@, JsonData::Array(messages))
                    + member("temperature"@, temperature.json@)
                    + member("max_completion_tokens"@, u64_data(max_completion_tokens as u64))
                    + member("top_p"@, top_p.json@)
                    + member("frequency_penalty"@, frequency_penalty.json@)
                    + member("presence_penalty"@, presence_penalty.json@)
                    + member("n"@, u64_data(1))
                    + opt_member("store"@, opt_bool_data(store))
                    + opt_member("metadata"@, opt_data(metadata))
                    + opt_member("logit_bias"@, opt_data(logit_bias))
                    + opt_member("logprobs"@, opt_bool_data(logprobs))
                    + opt_member("top_logprobs"@, opt_u32_data(top_logprobs))
                    + opt_member("modalities"@, opt_strings_data(modalities))
                    + opt_member("stop"@, opt_strings_data(stop))
                    + opt_member("response_format"@, opt_data(response_format))
                    + opt_member("stream"@, opt_bool_data(stream))
                    + opt_member("parallel_tool_calls"@, opt_bool_data(parallel_tool_calls))
                    + opt_member("user"@, opt_text_data(user)),
            )
        },
        LLMModel::Anthropic {
            api_key, model, temperature, max_tokens, top_k, top_p, system_prompt, version,
            stop_sequences, stream, metadata, tool_choice, tools,
        } => JsonData::Object(
            member("model"@, text_data(model))
                + member("messages"@, JsonData::Array(seq![message("user"@, prompt)]))
                + member("temperature"@, temperature.json@)
                + member("max_tokens"@, u64_data(max_tokens as u64))
                + opt_member_null("system"@, opt_text_data(system_prompt))
                + opt_member_null("top_k"@, opt_u32_data(top_k))
                + member("top_p"@, top_p.json@)
                + opt_member("stop_sequences"@, opt_strings_data(stop_sequences))
                + opt_member("metadata"@, opt_data(metadata))
                + opt_member("tool_choice"@, opt_data(tool_choice))
                + opt_member("tools"@, opt_values_data(tools))
                + member("stream"@, JsonData::Bool(stream)),
        ),
        LLMModel::Ollama {
            model, temperature, max_tokens, top_p, frequency_penalty, presence_penalty, format, suffix,
            system, template, context, stream, raw, keep_alive, options, images,
        } => JsonData::Object(
            member("model"@, text_data(model))
                + member("prompt"@, JsonData::Str(prompt))
                + member("temperature"@, temperature.json@)
                + member("max_tokens"@, u64_data(max_tokens as u64))
                + member("top_p"@, top_p.json@)
                + member("frequency_penalty"@, frequency_penalty.json@)
                + member("presence_penalty"@, presence_penalty.json@)
                + opt_member("format"@, opt_text_data(format))
                + opt_member("suffix"@, opt_text_data(suffix))
                + opt_member("system"@, opt_text_data(system))
                + opt_member("template"@, opt_text_data(template))
                + opt_member("context"@, opt_numbers_data(context))
                + opt_member("stream"@, opt_bool_data(stream))
                + opt_member("raw"@, opt_bool_data(raw))
                + opt_member("keep_alive"@, opt_text_data(keep_alive))
                + opt_member("options"@, opt_data(options))
                + opt_member("images"@, opt_strings_data(images)),
        ),
        LLMModel::Other { .. } => JsonData::Null,
    }
}

fn message_json(role: &str, content: &str) -> (res: JsonValue)
    ensures
        res@ == message(role@, content@),
{
    let mut e: Vec<(String, JsonValue)> = Vec::new();
    push_member(&mut e, "role", JsonValue::text(role));
    push_member(&mut e, "content", JsonValue::text(content));
    let res = JsonValue::object(e);
    assert(entries_data(e@) =~= member("role"@, JsonData::Str(role@)) + member("content"@, JsonData::Str(content@)));
    res
}

fn push_member_or_null(entries: &mut Vec<(String, JsonValue)>, key: &str, value: Option<JsonValue>)
    ensures
        entries_data(final(entries)@) == entries_data(old(entries)@) + opt_member_null(key@, opt_data(value)),
{
    match value {
        Some(v) => push_member(entries, key, v),
        None => push_member(entries, key, JsonValue::Null),
    }
}

/// Builds the body of a request to an OpenAI, Anthropic or Ollama model.
#[verifier::rlimit(60)]
pub fn request_body_json(model: &LLMModel, prompt: &str) -> (res: JsonValue)
    ensures
        res@ == request_body(*model, prompt@),
{
    let mut e: Vec<(String, JsonValue)> = Vec::new();
    match model {
        LLMModel::OpenAI {
            api_key, model, temperature, max_completion_tokens, top_p, frequency_penalty, presence_penalty,
            system_prompt, store, metadata, logit_bias, logprobs, top_logprobs, modalities, stop,
            response_format, stream, parallel_tool_calls, user,
        } => {
            let mut messages: Vec<JsonValue> = Vec::new();
            match system_prompt {
                Some(sys) => messages.push(message_json("system", sys.as_str())),
                None => {},
            }
            messages.push(message_json("user", prompt));
            let ghost mv = values_data(messages@);
            push_member(&mut e, "model", JsonValue::String(model.clone()));
            push_member(&mut e, "messages", JsonValue::array(messages));
            push_member(&mut e, "temperature", temperature.json.deep_clone());
            push_member(&mut e, "max_completion_tokens", JsonValue::Number(JsonNumber::PosInt(*max_completion_tokens as u64)));
            push_member(&mut e, "top_p", top_p.json.deep_clone());
            push_member(&mut e, "frequency_penalty", frequency_penalty.json.deep_clone());
            push_member(&mut e, "presence_penalty", presence_penalty.json.deep_clone());
            push_member(&mut e, "n", JsonValue::Number(JsonNumber::PosInt(1)));
            push_opt_member(&mut e, "store", opt_bool_json(*store));
            push_opt_member(&mut e, "metadata", opt_json(metadata));
            push_opt_member(&mut e, "logit_bias", opt_json(logit_bias));
            push_opt_member(&mut e, "logprobs", opt_bool_json(*logprobs));
            push_opt_member(&mut e, "top_logprobs", opt_u32_json(*top_logprobs));
            push_opt_member(&mut e, "modalities", opt_strings_json(modalities));
            push_opt_member(&mut e, "stop", opt_strings_json(stop));
            push_opt_member(&mut e, "response_format", opt_json(response_format));
            push_opt_member(&mut e, "stream", opt_bool_json(*stream));
            push_opt_member(&mut e, "parallel_tool_calls", opt_bool_json(*parallel_tool_calls));
            push_opt_member(&mut e, "user", opt_text_json(user));
            proof {
                match system_prompt {
                    Some(sys) => {
                        assert(mv =~= seq![message("system"@, sys@), message("user"@, prompt@)]);
                    },
                    None => {
                        assert(mv =~= seq![message("user"@, prompt@)]);
                    },
                }
            }
        },
        LLMModel::Anthropic {
            api_key, model, temperature, max_tokens, top_k, top_p, system_prompt, version,
            stop_sequences, stream, metadata, tool_choice, tools,
        } => {
            let mut messages: Vec<JsonValue> = Vec::new();
            messages.push(message_json("user", prompt));
            assert(values_data(messages@) =~= seq![message("user"@, prompt@)]);
            push_member(&mut e, "model", JsonValue::String(model.clone()));
            push_member(&mut e, "messages", JsonValue::array(messages));
            push_member(&mut e, "temperature", temperature.json.deep_clone());
            push_member(&mut e, "max_tokens", JsonValue::Number(JsonNumber::PosInt(*max_tokens as u64)));
            push_member_or_null(&mut e, "system", opt_text_json(system_prompt));
            push_member_or_null(&mut e, "top_k", opt_u32_json(*top_k));
            push_member(&mut e, "top_p", top_p.json.deep_clone());
            push_opt_member(&mut e, "stop_sequences", opt_strings_json(stop_sequences));
            push_opt_member(&mut e, "metadata", opt_json(metadata));
            push_opt_member(&mut e, "tool_choice", opt_json(tool_choice));
            push_opt_member(&mut e, "tools", opt_values_json(tools));
            push_member(&mut e, "stream", JsonValue::Bool(*stream));
        },
        LLMModel::Ollama {
            model, temperature, max_tokens, top_p, frequency_penalty, presence_penalty, format, suffix,
            system, template, context, stream, raw, keep_alive, options, images,
        } => {
            push_member(&mut e, "model", JsonValue::String(model.clone()));
            push_member(&mut e, "prompt", JsonValue::text(prompt));
            push_member(&mut e, "temperature", temperature.json.deep_clone());
            push_member(&mut e, "max_tokens", JsonValue::Number(JsonNumber::PosInt(*max_tokens as u64)));
            push_member(&mut e, "top_p", top_p.json.deep_clone());
            push_member(&mut e, "frequency_penalty", frequency_penalty.json.deep_clone());
            push_member(&mut e, "presence_penalty", presence_penalty.json.deep_clone());
            push_opt_member(&mut e, "format", opt_text_json(format));
            push_opt_member(&mut e, "suffix", opt_text_json(suffix));
            push_opt_member(&mut e, "system", opt_text_json(system));
            push_opt_member(&mut e, "template", opt_text_json(template));
            push_opt_member(&mut e, "context", opt_numbers_json(context));
            push_opt_member(&mut e, "stream", opt_bool_json(*stream));
            push_opt_member(&mut e, "raw", opt_bool_json(*raw));
            push_opt_member(&mut e, "keep_alive", opt_text_json(keep_alive));
            push_opt_member(&mut e, "options", opt_json(options));
            push_opt_member(&mut e, "images", opt_strings_json(images));
        },
        LLMModel::Other { .. } => {
            return JsonValue::Null;
        },
    }
    let res = JsonValue::object(e);
    proof {
        match request_body(*model, prompt@) {
            JsonData::Object(s) => {
                assert(entries_data(e@) =~= s);
            },
            _ => {},
        }
    }
    res
}

/// Whether bytes make a valid HTTP header name (`HeaderName::from_bytes` in
/// the `http` crate reqwest uses).
pub uninterp spec fn header_name_valid(bytes: Seq<u8>) -> bool;

/// Checks a header name with `reqwest::header::HeaderName::from_bytes`;
/// trusted to depend on the name's bytes alone.
#[verifier::external_body]
pub(crate) fn header_name_ok(name: &str) -> (res: bool)
    ensures
        res == header_name_valid(encode_utf8(name@)),
{
    reqwest::header::HeaderName::from_bytes(name.as_bytes()).is_ok()
}

/// A valid HTTP header value: every byte is a tab, or at least 32 and not 127.
pub open spec fn header_value_valid(s: Seq<char>) -> bool {
    forall|i: int| 0 <= i < encode_utf8(s).len() ==> {
        let b = #[trigger] encode_utf8(s)[i];
        (b >= 32 && b != 127) || b == 9
    }
}

/// Checks a header value with `reqwest::header::HeaderValue::from_str`;
/// trusted to accept exactly the texts whose every byte is a tab, or at least
/// 32 and not 127.
#[verifier::external_body]
pub(crate) fn header_value_ok(value: &str) -> (res: bool)
    ensures
        res == header_value_valid(value@),
{
    reqwest::header::HeaderValue::from_str(value).is_ok()
}

/// `s` with every leading copy of `p` removed.
pub open spec fn strip_all_prefix(s: Seq<char>, p: Seq<char>) -> Seq<char>
    decreases s.len(),
{
    if p.len() > 0 && s.len() >= p.len() && s.take(p.len() as int) == p {
        strip_all_prefix(s.skip(p.len() as int), p)
    } else {
        s
    }
}

pub open spec fn is_header_key(key: Seq<char>) -> bool {
    key.len() >= 7 && key.take(7) == "header_"@
}

/// The headers a configuration asks for: each `header_<name>` entry, with
/// every leading `header_` removed from its key, in order.
pub open spec fn header_pairs(config: Seq<(Seq<char>, Seq<char>)>) -> Seq<(Seq<char>, Seq<char>)>
    decreases config.len(),
{
    if config.len() == 0 {
        Seq::empty()
    } else {
        let rest = header_pairs(config.drop_last());
        let (k, v) = config.last();
        if is_header_key(k) {
            rest.push((strip_all_prefix(k, "header_"@), v))
        } else {
            rest
        }
    }
}

pub open spec fn invalid_name_message() -> Seq<char> {
    "Invalid header name: invalid HTTP header name"@
}

pub open spec fn invalid_value_message() -> Seq<char> {
    "Invalid header value: failed to parse header value"@
}

/// The first header entry from position `i` on whose name or value is invalid,
/// as the error it gives.
pub open spec fn header_error_from(config: Seq<(Seq<char>, Seq<char>)>, i: int) -> Option<Seq<char>>
    decreases config.len() - i,
{
    if i < 0 || i >= config.len() {
        None
    } else {
        let (k, v) = config[i];
        if is_header_key(k) && !header_name_valid(encode_utf8(strip_all_prefix(k, "header_"@))) {
            Some(invalid_name_message())
        } else if is_header_key(k) && !header_value_valid(v) {
            Some(invalid_value_message())
        } else {
            header_error_from(config, i + 1)
        }
    }
}

pub open spec fn known_method(m: Seq<char>) -> bool {
    m == "GET"@ || m == "POST"@ || m == "PUT"@ || m == "DELETE"@
}

/// The text of the error that reading a text as JSON gives, if it is not JSON.
pub uninterp spec fn json_text_error(text: Seq<char>) -> Option<Seq<char>>;

/// Whether a text reads as JSON (`serde_json::from_str::<Value>`), and if not,
/// the error's `Display` text; trusted to depend on the text alone.
#[verifier::external_body]
fn json_error_of(text: &str) -> (res: Option<String>)
    ensures
        match res {
            Some(e) => json_text_error(text@) == Some(e@),
            None => json_text_error(text@) is None,
        },
{
    match serde_json::from_str::<serde_json::Value>(text) {
        Ok(_) => None,
        Err(e) => Some(e.to_string()),
    }
}

/// The request a model's service gets for a prompt. A configured service
/// needs a `url`, valid `header_` entries and a known `method` (`POST` when
/// none is given), and sends its `body` as JSON when it has one: a body that
/// does not read as JSON is refused with the reading's error.
pub open spec fn llm_request_spec(m: LLMModel, prompt: Seq<char>) -> Result<RequestView, Seq<char>> {
    match m {
        LLMModel::OpenAI { api_key, .. } => Ok(RequestView {
            method: "POST"@,
            url: "https://api.openai.com/v1/chat/completions"@,
            headers: seq![("Authorization"@, "Bearer "@ + api_key@)],
            body: BodyView::Json(request_body(m, prompt)),
        }),
        LLMModel::Anthropic { api_key, version, .. } => Ok(RequestView {
            method: "POST"@,
            url: "https://api.anthropic.com/v1/messages"@,
            headers: seq![("Authorization"@, "Bearer "@ + api_key@), ("anthropic-version"@, version@)],
            body: BodyView::Json(request_body(m, prompt)),
        }),
        LLMModel::Ollama { .. } => Ok(RequestView {
            method: "POST"@,
            url: "http://localhost:11434/api/generate"@,
            headers: Seq::empty(),
            body: BodyView::Json(request_body(m, prompt)),
        }),
        LLMModel::Other { config } => match lookup(config@, "url"@) {
            None => Err("Missing 'url' in configuration."@),
            Some(url) => match header_error_from(config@, 0) {
                Some(e) => Err(e),
                None => {
                    let method = match lookup(config@, "method"@) {
                        Some(x) => x,
                        None => "POST"@,
                    };
                    if known_method(method) {
                        match lookup(config@, "body"@) {
                            Some(b) => match json_text_error(b) {
                                Some(e) => Err(e),
                                None => Ok(RequestView { method, url, headers: header_pairs(config@), body: BodyView::JsonText(b) }),
                            },
                            None => Ok(RequestView { method, url, headers: header_pairs(config@), body: BodyView::Empty }),
                        }
                    } else {
                        Err("Unsupported HTTP method: "@ + method)
                    }
                },
            },
        },
    }
}

fn starts_with_header(key: &str) -> (res: bool)
    ensures
        res == is_header_key(key@),
{
    let n = key.unicode_len();
    if n < 7 {
        return false;
    }
    let head = key.substring_char(0, 7);
    proof { reveal_strlit("header_"); }
    let r = crate::text::str_eq(head, "header_");
    assert(head@ == key@.take(7));
    r
}

fn strip_header_prefixes(key: &str) -> (res: String)
    ensures
        res@ == strip_all_prefix(key@, "header_"@),
{
    let mut rest: &str = key;
    proof { reveal_strlit("header_"); }
    while starts_with_header(rest)
        invariant
            strip_all_prefix(rest@, "header_"@) == strip_all_prefix(key@, "header_"@),
        decreases rest@.len(),
    {
        let n = rest.unicode_len();
        rest = rest.substring_char(7, n);
    }
    owned(rest)
}

fn method_known(m: &str) -> (res: bool)
    ensures
        res == known_method(m@),
{
    crate::text::str_eq(m, "GET") || crate::text::str_eq(m, "POST") || crate::text::str_eq(m, "PUT")
        || crate::text::str_eq(m, "DELETE")
}

/// The request that asks a model for a completion of `prompt`.
#[verifier::loop_isolation(false)]
pub fn llm_request(model: &LLMModel, prompt: &str) -> (res: Result<LlmRequest, String>)
    ensures
        match res {
            Ok(r) => llm_request_spec(*model, prompt@) == Ok::<RequestView, Seq<char>>(r.view_of()),
            Err(e) => llm_request_spec(*model, prompt@) == Err::<RequestView, Seq<char>>(e@),
        },
{
    match model {
        LLMModel::OpenAI { api_key, .. } => {
            let mut bearer = owned("Bearer ");
            bearer.append(api_key.as_str());
            let mut headers: Vec<(String, String)> = Vec::new();
            headers.push((owned("Authorization"), bearer));
            let r = LlmRequest {
                method: owned("POST"),
                url: owned("https://api.openai.com/v1/chat/completions"),
                headers,
                body: LlmBody::Json(request_body_json(model, prompt)),
            };
            assert(text_entries(r.headers@) =~= seq![("Authorization"@, "Bearer "@ + api_key@)]);
            Ok(r)
        },
        LLMModel::Anthropic { api_key, version, .. } => {
            let mut bearer = owned("Bearer ");
            bearer.append(api_key.as_str());
            let mut headers: Vec<(String, String)> = Vec::new();
            headers.push((owned("Authorization"), bearer));
            headers.push((owned("anthropic-version"), version.clone()));
            let r = LlmRequest {
                method: owned("POST"),
                url: owned("https://api.anthropic.com/v1/messages"),
                headers,
                body: LlmBody::Json(request_body_json(model, prompt)),
            };
            assert(text_entries(r.headers@) =~= seq![("Authorization"@, "Bearer "@ + api_key@), ("anthropic-version"@, version@)]);
            Ok(r)
        },
        LLMModel::Ollama { .. } => {
            let r = LlmRequest {
                method: owned("POST"),
                url: owned("http://localhost:11434/api/generate"),
                headers: Vec::new(),
                body: LlmBody::Json(request_body_json(model, prompt)),
            };
            assert(text_entries(r.headers@) =~= Seq::<(Seq<char>, Seq<char>)>::empty());
            Ok(r)
        },
        LLMModel::Other { config } => {
            let url = match config.get("url") {
                Some(u) => u.clone(),
                None => return Err(owned("Missing 'url' in configuration.")),
            };
            let ghost cfg = config@;
            let mut headers: Vec<(String, String)> = Vec::new();
            let mut i: usize = 0;
            assert(header_pairs(cfg.take(0)) =~= Seq::<(Seq<char>, Seq<char>)>::empty());
            while i < config.entries.len()
                invariant
                    0 <= i <= cfg.len(),
                    cfg == config@,
                    cfg.len() == config.entries@.len(),
                    text_entries(headers@) == header_pairs(cfg.take(i as int)),
                    header_error_from(cfg, 0) == header_error_from(cfg, i as int),
                decreases cfg.len() - i,
            {
                assert(cfg.take(i + 1).drop_last() =~= cfg.take(i as int));
                assert(cfg.take(i + 1).last() == cfg[i as int]);
                assert(cfg[i as int] == (config.entries@[i as int].0@, config.entries@[i as int].1@));
                let key = config.entries[i].0.as_str();
                let value = config.entries[i].1.as_str();
                if starts_with_header(key) {
                    let name = strip_header_prefixes(key);
                    if !header_name_ok(name.as_str()) {
                        return Err(owned("Invalid header name: invalid HTTP header name"));
                    }
                    if !header_value_ok(value) {
                        return Err(owned("Invalid header value: failed to parse header value"));
                    }
                    let ghost before = text_entries(headers@);
                    headers.push((name, owned(value)));
                    assert(text_entries(headers@) =~= before.push((strip_all_prefix(key@, "header_"@), value@)));
                }
                i = i + 1;
            }
            assert(cfg.take(cfg.len() as int) =~= cfg);
            let method = match config.get("method") {
                Some(m) => m.clone(),
                None => owned("POST"),
            };
            if !method_known(method.as_str()) {
                let mut msg = owned("Unsupported HTTP method: ");
                msg.append(method.as_str());
                return Err(msg);
            }
            let body = match config.get("body") {
                Some(b) => match json_error_of(b.as_str()) {
                    Some(e) => return Err(e),
                    None => LlmBody::JsonText(b.clone()),
                },
                None => LlmBody::Empty,
            };
            Ok(LlmRequest { method, url, headers, body })
        },
    }
}

/// A request whose body is JSON text, once that text has been read as JSON
/// (`read`: the value it spells, or the error reading it gave): the same
/// request carrying the value, or that error.
pub fn read_body(request: LlmRequest, read: Result<JsonValue, String>) -> (res: Result<LlmRequest, String>)
    requires
        request.body is JsonText,
    ensures
        match read {
            Ok(v) => res matches Ok(r) && r.method == request.method && r.url == request.url
                && r.headers == request.headers && r.body.view_json() == Some(v@),
            Err(e) => res == Err::<LlmRequest, String>(e),
        },
{
    match read {
        Ok(v) => Ok(LlmRequest { method: request.method, url: request.url, headers: request.headers, body: LlmBody::Json(v) }),
        Err(e) => Err(e),
    }
}

impl LlmBody {
    /// The JSON value a body carries, where it carries one.
    pub open spec fn view_json(self) -> Option<JsonData> {
        match self {
            LlmBody::Json(v) => Some(v@),
            _ => None,
        }
    }
}

/// The completion in an OpenAI answer: the content of the first choice's
/// message, or empty text.
pub open spec fn openai_completion(r: JsonData) -> Seq<char> {
    match r.get("choices"@) {
        Some(c) => match c.as_array() {
            Some(items) => if items.len() > 0 {
                match items[0].get("message"@) {
                    Some(m) => match m.str_at("content"@) {
                        Some(t) => t,
                        None => Seq::empty(),
                    },
                    None => Seq::empty(),
                }
            } else {
                Seq::empty()
            },
            None => Seq::empty(),
        },
        None => Seq::empty(),
    }
}

/// The first `text` among the items from position `i` on.
pub open spec fn first_text_from(items: Seq<JsonData>, i: int) -> Option<Seq<char>>
    decreases items.len() - i,
{
    if i < 0 || i >= items.len() {
        None
    } else {
        match items[i].str_at("text"@) {
            Some(t) => Some(t),
            None => first_text_from(items, i + 1),
        }
    }
}

/// The completion in a Anthropic answer: the first `text` of its content, or empty text.
pub open spec fn anthropic_completion(r: JsonData) -> Seq<char> {
    match r.get("content"@) {
        Some(c) => match c.as_array() {
            Some(items) => match first_text_from(items, 0) {
                Some(t) => t,
                None => Seq::empty(),
            },
            None => Seq::empty(),
        },
        None => Seq::empty(),
    }
}

/// The completion in a configured service's answer: its `result` text.
pub open spec fn other_completion(r: JsonData) -> Seq<char> {
    match r.str_at("result"@) {
        Some(t) => t,
        None => "No result field found in response."@,
    }
}

/// The completion a (non-streaming) answer holds.
pub open spec fn completion(m: LLMModel, r: JsonData) -> Seq<char> {
    match m {
        LLMModel::OpenAI { .. } => openai_completion(r),
        LLMModel::Anthropic { .. } => anthropic_completion(r),
        LLMModel::Other { .. } => other_completion(r),
        LLMModel::Ollama { .. } => Seq::empty(),
    }
}

/// Reads the completion out of an OpenAI, Anthropic or configured service's answer.
#[verifier::loop_isolation(false)]
pub fn completion_of(model: &LLMModel, response: &JsonValue) -> (res: String)
    ensures
        res@ == completion(*model, response@),
{
    match model {
        LLMModel::OpenAI { .. } => {
            let text = match response.get("choices") {
                Some(c) => match c.as_array() {
                    Some(items) => if items.len() > 0 {
                        match items[0].get("message") {
                            Some(m) => match m.str_member("content") {
                                Some(t) => owned(t),
                                None => String::new(),
                            },
                            None => String::new(),
                        }
                    } else {
                        String::new()
                    },
                    None => String::new(),
                },
                None => String::new(),
            };
            text
        },
        LLMModel::Anthropic { .. } => {
            match response.get("content") {
                Some(c) => match c.as_array() {
                    Some(items) => {
                        let ghost iv = values_data(items@);
                        let mut i: usize = 0;
                        while i < items.len()
                            invariant
                                0 <= i <= items@.len(),
                                iv == values_data(items@),
                                first_text_from(iv, 0) == first_text_from(iv, i as int),
                            decreases items@.len() - i,
                        {
                            match items[i].str_member("text") {
                                Some(t) => {
                                    assert(iv[i as int] == items@[i as int]@);
                                    return owned(t);
                                },
                                None => {},
                            }
                            i = i + 1;
                        }
                        String::new()
                    },
                    None => String::new(),
                },
                None => String::new(),
            }
        },
        LLMModel::Other { .. } => match response.str_member("result") {
            Some(t) => owned(t),
            None => owned("No result field found in response."),
        },
        LLMModel::Ollama { .. } => String::new(),
    }
}

/// The text a streamed Ollama answer adds up to: the `response` texts of the
/// lines that read as JSON, in order.
pub open spec fn ollama_text(chunks: Seq<Option<JsonData>>) -> Seq<char>
    decreases chunks.len(),
{
    if chunks.len() == 0 {
        Seq::empty()
    } else {
        let rest = ollama_text(chunks.drop_last());
        match chunks.last() {
            Some(v) => match v.str_at("response"@) {
                Some(t) => rest + t,
                None => rest,
            },
            None => rest,
        }
    }
}

/// Adds up a streamed Ollama answer, given each line as read (nothing for a
/// blank line or one that is not JSON).
pub fn ollama_completion(chunks: &Vec<Option<JsonValue>>) -> (res: String)
    ensures
        res@ == ollama_text(Seq::new(chunks@.len(), |i: int| opt_data(chunks@[i]))),
{
    let ghost cv = Seq::new(chunks@.len(), |i: int| opt_data(chunks@[i]));
    let mut out = String::new();
    let mut i: usize = 0;
    assert(cv.take(0) =~= Seq::<Option<JsonData>>::empty());
    while i < chunks.len()
        invariant
            0 <= i <= chunks@.len(),
            cv == Seq::new(chunks@.len(), |i: int| opt_data(chunks@[i])),
            out@ == ollama_text(cv.take(i as int)),
        decreases chunks@.len() - i,
    {
        assert(cv.take(i + 1).drop_last() =~= cv.take(i as int));
        assert(cv.take(i + 1).last() == opt_data(chunks@[i as int]));
        match &chunks[i] {
            Some(v) => match v.str_member("response") {
                Some(t) => out.append(t),
                None => {},
            },
            None => {},
        }
        i = i + 1;
    }
    assert(cv.take(chunks@.len() as int) =~= cv);
    out
}


/// A new agent of the owner with this address, under a fresh id, acting with
/// the wallet at `wallet_address` (a wallet the caller has just made).
pub fn configure_new_agent(
    name: &str,
    role: &str,
    personality: &str,
    system: &str,
    write_role: bool,
    admin_role: bool,
    encrypted: bool,
    model: LLMModel,
    address: &Address,
    wallet_address: Address,
    lens_account: Option<&str>,
    farcaster_account: Option<&str>,
    objectives: Vec<Objective>,
) -> (res: Result<Agent, String>)
    ensures
        match res {
            Ok(a) => {
                &&& a.name@ == name@ && a.role@ == role@ && a.personality@ == personality@ && a.system@ == system@
                &&& a.write_role == write_role && a.admin_role == admin_role && a.encrypted == encrypted
                &&& a.model == model && a.wallet_address == wallet_address && a.objectives == objectives
                &&& (match lens_account { Some(l) => a.lens_account matches Some(x) && x@ == l@, None => a.lens_account is None })
                &&& (match farcaster_account { Some(f) => a.farcaster_account matches Some(x) && x@ == f@, None => a.farcaster_account is None })
                &&& crate::utils::owner_id(a.id@, address@)
            },
            Err(e) => e@ == "Invalid timestamp"@,
        },
{
    let id = crate::utils::fresh_id(address)?;
    let lens_account = match lens_account {
        Some(l) => Some(owned(l)),
        None => None,
    };
    let farcaster_account = match farcaster_account {
        Some(f) => Some(owned(f)),
        None => None,
    };
    Ok(Agent {
        name: owned(name),
        id,
        role: owned(role),
        personality: owned(personality),
        system: owned(system),
        model,
        wallet_address,
        write_role,
        admin_role,
        encrypted,
        lens_account,
        farcaster_account,
        objectives,
    })
}


/// What an Ollama answer gives: when its status is no success, an error
/// naming the text of the answer; otherwise the completion its lines add up
/// to (each line as read: nothing for a blank line or one that is not JSON).
pub fn ollama_answer(success: bool, text: &str, chunks: &Vec<Option<JsonValue>>) -> (res: Result<String, String>)
    ensures
        success ==> (res matches Ok(t) && t@ == ollama_text(Seq::new(chunks@.len(), |i: int| opt_data(chunks@[i])))),
        !success ==> (res matches Err(e) && e@ == "Error en Ollama response: "@ + text@),
{
    if success {
        Ok(ollama_completion(chunks))
    } else {
        let mut e = owned("Error en Ollama response: ");
        e.append(text);
        Err(e)
    }
}

} // verus!
