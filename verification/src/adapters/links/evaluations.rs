//! Evaluations: a human, a language model or an agent judges the state of a
//! run, and the answer decides where it goes.

use vstd::prelude::*;
use crate::utils::{fresh_id, owner_id};
use crate::ethereum::Address;
use vstd::utf8::encode_utf8;
use crate::adapters::nodes::agents::{model_json, Agent, LLMModel, Objective};
use crate::json::{entries_data, member, push_member, JsonData, JsonNumber, JsonValue};
use crate::text::{hex_encode, hex_text, owned};

verus! {

/// How an answer is read: as a boolean compared with the expected one, as a
/// score compared with a threshold (the bits of an `f64`), or as is.
#[derive(Debug, PartialEq, Eq, Structural, Clone, Copy)]
pub enum EvaluationResponseType {
    Boolean { expected: bool },
    Score { threshold: u64 },
    Dynamic,
}

/// Who judges. A human judge is asked at an endpoint and has `timeout_secs`
/// seconds (and `timeout_nanos` nanoseconds) to answer, else `default` holds.
pub enum EvaluationType {
    HumanJudge { timeout_secs: u64, timeout_nanos: u32, default: bool, endpoint: String, auth_key: Option<String> },
    LLMJudge { model_type: LLMModel, prompt: String, response_type: EvaluationResponseType },
    AgentJudge { agent_id: String, prompt: String, response_type: EvaluationResponseType },
}

pub struct Evaluation {
    pub name: String,
    pub encrypted: bool,
    pub id: Vec<u8>,
    pub evaluation_type: EvaluationType,
}

/// An `f64` bit pattern of a finite number.
pub open spec fn finite_bits(bits: u64) -> bool {
    (bits >> 52u64) & 0x7ffu64 != 0x7ffu64
}

pub open spec fn response_type_json(r: EvaluationResponseType) -> JsonData {
    match r {
        EvaluationResponseType::Boolean { expected } => JsonData::Bool(expected),
        EvaluationResponseType::Score { threshold } => JsonData::Number(JsonNumber::Float(threshold)),
        EvaluationResponseType::Dynamic => JsonData::Str("Dynamic"@),
    }
}

/// What reading an answer gives: a value or an error, or, for a score, the
/// number to compare with the threshold.
pub enum Verdict {
    Decided(Result<JsonValue, String>),
    CompareScore(JsonNumber),
}

pub ghost enum VerdictView {
    Decided(Result<JsonData, Seq<char>>),
    CompareScore(JsonNumber),
}

impl Verdict {
    pub open spec fn view_of(self) -> VerdictView {
        match self {
            Verdict::Decided(Ok(v)) => VerdictView::Decided(Ok(v@)),
            Verdict::Decided(Err(e)) => VerdictView::Decided(Err(e@)),
            Verdict::CompareScore(n) => VerdictView::CompareScore(n),
        }
    }
}

/// A boolean answer says whether it is the expected one (a non-boolean is
/// refused); a score needs its `score` number; a dynamic answer stands as is.
pub open spec fn verdict(r: EvaluationResponseType, response: JsonData) -> VerdictView {
    match r {
        EvaluationResponseType::Boolean { expected } => match response.as_bool() {
            Some(b) => VerdictView::Decided(Ok(JsonData::Bool(b == expected))),
            None => VerdictView::Decided(Err("Response is not a boolean."@)),
        },
        EvaluationResponseType::Score { .. } => match response.get("score"@) {
            Some(JsonData::Number(n)) => VerdictView::CompareScore(n),
            _ => VerdictView::Decided(Err("Response missing 'score' field."@)),
        },
        EvaluationResponseType::Dynamic => VerdictView::Decided(Ok(response)),
    }
}

impl EvaluationResponseType {
    pub fn evaluate(&self, response: &JsonValue) -> (res: Verdict)
        ensures
            res.view_of() == verdict(*self, response@),
    {
        match self {
            EvaluationResponseType::Boolean { expected } => match response.as_bool() {
                Some(b) => Verdict::Decided(Ok(JsonValue::Bool(b == *expected))),
                None => Verdict::Decided(Err(owned("Response is not a boolean."))),
            },
            EvaluationResponseType::Score { .. } => match response.get("score") {
                Some(JsonValue::Number(n)) => Verdict::CompareScore(*n),
                _ => Verdict::Decided(Err(owned("Response missing 'score' field."))),
            },
            EvaluationResponseType::Dynamic => Verdict::Decided(Ok(response.deep_clone())),
        }
    }

    pub fn to_json(&self) -> (res: JsonValue)
        requires
            *self matches EvaluationResponseType::Score { threshold } ==> finite_bits(threshold),
        ensures
            res@ == response_type_json(*self),
    {
        match self {
            EvaluationResponseType::Boolean { expected } => JsonValue::Bool(*expected),
            EvaluationResponseType::Score { threshold } => JsonValue::Number(JsonNumber::Float(*threshold)),
            EvaluationResponseType::Dynamic => JsonValue::text("Dynamic"),
        }
    }
}

/// A whole number of seconds as serde writes an `i64`.
pub open spec fn seconds_json(secs: u64) -> JsonData {
    let s = secs as i64;
    if s < 0 {
        JsonData::Number(JsonNumber::NegInt(s))
    } else {
        JsonData::Number(JsonNumber::PosInt(s as u64))
    }
}

pub open spec fn evaluation_type_json(t: EvaluationType) -> JsonData {
    match t {
        EvaluationType::HumanJudge { timeout_secs, timeout_nanos, default, endpoint, auth_key } => JsonData::Object(
            member("type"@, JsonData::Str("HumanJudge"@))
                + member("timeout"@, seconds_json(timeout_secs))
                + member("auth_key"@, JsonData::Str(match auth_key { Some(k) => k@, None => Seq::empty() }))
                + member("endpoint"@, JsonData::Str(endpoint@))
                + member("default"@, JsonData::Bool(default)),
        ),
        EvaluationType::LLMJudge { model_type, prompt, response_type } => JsonData::Object(
            member("type"@, JsonData::Str("LLMJudge"@))
                + member("model_type"@, model_json(model_type))
                + member("prompt"@, JsonData::Str(prompt@))
                + member("response_type"@, response_type_json(response_type)),
        ),
        EvaluationType::AgentJudge { agent_id, prompt, response_type } => JsonData::Object(
            member("type"@, JsonData::Str("AgentJudge"@))
                + member("agent_id"@, JsonData::Str(agent_id@))
                + member("response_type"@, response_type_json(response_type))
                + member("prompt"@, JsonData::Str(prompt@)),
        ),
    }
}

pub open spec fn scores_finite(t: EvaluationType) -> bool {
    match t {
        EvaluationType::LLMJudge { response_type, .. } => response_type matches EvaluationResponseType::Score { threshold } ==> finite_bits(threshold),
        EvaluationType::AgentJudge { response_type, .. } => response_type matches EvaluationResponseType::Score { threshold } ==> finite_bits(threshold),
        _ => true,
    }
}

fn seconds_to_json(secs: u64) -> (res: JsonValue)
    ensures
        res@ == seconds_json(secs),
{
    #[verifier::truncate]
    let s = secs as i64;
    if s < 0 {
        JsonValue::Number(JsonNumber::NegInt(s))
    } else {
        JsonValue::Number(JsonNumber::PosInt(s as u64))
    }
}

impl EvaluationType {
    pub fn to_json(&self) -> (res: JsonValue)
        requires
            scores_finite(*self),
        ensures
            res@ == evaluation_type_json(*self),
    {
        let mut e: Vec<(String, JsonValue)> = Vec::new();
        match self {
            EvaluationType::HumanJudge { timeout_secs, timeout_nanos, default, endpoint, auth_key } => {
                push_member(&mut e, "type", JsonValue::text("HumanJudge"));
                push_member(&mut e, "timeout", seconds_to_json(*timeout_secs));
                let key = match auth_key {
                    Some(k) => k.clone(),
                    None => String::new(),
                };
                push_member(&mut e, "auth_key", JsonValue::String(key));
                push_member(&mut e, "endpoint", JsonValue::String(endpoint.clone()));
                push_member(&mut e, "default", JsonValue::Bool(*default));
            },
            EvaluationType::LLMJudge { model_type, prompt, response_type } => {
                push_member(&mut e, "type", JsonValue::text("LLMJudge"));
                push_member(&mut e, "model_type", model_type.to_json());
                push_member(&mut e, "prompt", JsonValue::String(prompt.clone()));
                push_member(&mut e, "response_type", response_type.to_json());
            },
            EvaluationType::AgentJudge { agent_id, prompt, response_type } => {
                push_member(&mut e, "type", JsonValue::text("AgentJudge"));
                push_member(&mut e, "agent_id", JsonValue::String(agent_id.clone()));
                push_member(&mut e, "response_type", response_type.to_json());
                push_member(&mut e, "prompt", JsonValue::String(prompt.clone()));
            },
        }
        let res = JsonValue::object(e);
        proof {
            match evaluation_type_json(*self) {
                JsonData::Object(s) => {
                    assert(entries_data(e@) =~= s);
                },
                _ => {},
            }
        }
        res
    }
}

pub open spec fn evaluation_json(ev: Evaluation) -> JsonData {
    JsonData::Object(
        member("name"@, JsonData::Str(ev.name@))
            + member("public"@, JsonData::Bool(ev.encrypted))
            + member("evaluation_type"@, evaluation_type_json(ev.evaluation_type)),
    )
}

impl Evaluation {
    pub fn to_json(&self) -> (res: JsonValue)
        requires
            scores_finite(self.evaluation_type),
        ensures
            res@ == evaluation_json(*self),
    {
        let mut e: Vec<(String, JsonValue)> = Vec::new();
        push_member(&mut e, "name", JsonValue::String(self.name.clone()));
        push_member(&mut e, "public", JsonValue::Bool(self.encrypted));
        push_member(&mut e, "evaluation_type", self.evaluation_type.to_json());
        let res = JsonValue::object(e);
        proof {
            match evaluation_json(*self) {
                JsonData::Object(s) => {
                    assert(entries_data(e@) =~= s);
                },
                _ => {},
            }
        }
        res
    }
}

/// The text with surrounding whitespace removed (`str::trim`).
pub uninterp spec fn trimmed(s: Seq<char>) -> Seq<char>;

/// The text in lower case (`str::to_lowercase`).
pub uninterp spec fn lowercased(s: Seq<char>) -> Seq<char>;

/// `str::trim`; trusted to depend on the text alone.
#[verifier::external_body]
pub(crate) fn trim_text(s: &str) -> (res: String)
    ensures
        res@ == trimmed(s@),
{
    s.trim().to_string()
}

/// `str::to_lowercase`; trusted to depend on the text alone.
#[verifier::external_body]
fn lowercase_text(s: &str) -> (res: String)
    ensures
        res@ == lowercased(s@),
{
    s.to_lowercase()
}

/// The verdict of a judging person: the answer `yes` or `no` (in any case, surrounding whitespace
/// ignored) decide; any other answer, or none in time, gives the default.
pub open spec fn human_verdict(answer: Option<Seq<char>>, default: bool) -> bool {
    match answer {
        Some(a) => {
            let t = lowercased(trimmed(a));
            if t == "yes"@ {
                true
            } else if t == "no"@ {
                false
            } else {
                default
            }
        },
        None => default,
    }
}

pub fn human_judge_verdict(answer: Option<&str>, default: bool) -> (res: bool)
    ensures
        res == human_verdict(
            match answer {
                Some(a) => Some(a@),
                None => None,
            },
            default,
        ),
{
    match answer {
        Some(a) => {
            let t = trim_text(a);
            let l = lowercase_text(t.as_str());
            if crate::text::str_eq(l.as_str(), "yes") {
                true
            } else if crate::text::str_eq(l.as_str(), "no") {
                false
            } else {
                default
            }
        },
        None => default,
    }
}

/// The body a human judge is asked with: the interaction id in hexadecimal,
/// and the run's context and next steps (or a placeholder for each).
pub open spec fn human_request_body(interaction_id: Seq<u8>, context: Option<Seq<char>>, next_steps: Option<Seq<char>>) -> JsonData {
    JsonData::Object(
        member("interaction_id"@, JsonData::Str(hex_text(interaction_id)))
            + member("context"@, JsonData::Str(match context { Some(c) => c, None => "No previous context"@ }))
            + member("next_steps"@, JsonData::Str(match next_steps { Some(n) => n, None => "No next steps"@ })),
    )
}

pub fn human_request(interaction_id: &[u8], context: Option<&str>, next_steps: Option<&str>) -> (res: JsonValue)
    ensures
        res@ == human_request_body(
            interaction_id@,
            match context { Some(c) => Some(c@), None => None },
            match next_steps { Some(n) => Some(n@), None => None },
        ),
{
    let mut e: Vec<(String, JsonValue)> = Vec::new();
    push_member(&mut e, "interaction_id", JsonValue::String(hex_encode(interaction_id)));
    let c = match context {
        Some(c) => owned(c),
        None => owned("No previous context"),
    };
    push_member(&mut e, "context", JsonValue::String(c));
    let n = match next_steps {
        Some(n) => owned(n),
        None => owned("No next steps"),
    };
    push_member(&mut e, "next_steps", JsonValue::String(n));
    let res = JsonValue::object(e);
    proof {
        match human_request_body(
            interaction_id@,
            match context { Some(c) => Some(c@), None => None },
            match next_steps { Some(n) => Some(n@), None => None },
        ) {
            JsonData::Object(s) => {
                assert(entries_data(e@) =~= s);
            },
            _ => {},
        }
    }
    res
}

/// The prompt a judging model gets: the evaluation's prompt, the incoming
/// context's text, the run's context and next steps (or placeholders), and,
/// for an agent, its objectives.
pub open spec fn judge_prompt(prompt: Seq<char>, context_text: Seq<char>, previous: Option<Seq<char>>, next_steps: Option<Seq<char>>) -> Seq<char> {
    prompt + "\n"@ + context_text
        + "\n\nAlso take into consideration the following information when deciding:\n\nContext:\n"@
        + match previous { Some(p) => p, None => "No previous context"@ }
        + "\n\nNext Steps:\n"@
        + match next_steps { Some(n) => n, None => "No next steps"@ }
}

/// The agent's objectives, one `- description` per line.
pub open spec fn objectives_summary(objectives: Seq<Objective>) -> Seq<char>
    decreases objectives.len(),
{
    if objectives.len() == 0 {
        Seq::empty()
    } else if objectives.len() == 1 {
        "- "@ + objectives[0].description@
    } else {
        objectives_summary(objectives.drop_last()) + "\n"@ + "- "@ + objectives.last().description@
    }
}

pub fn build_judge_prompt(prompt: &str, context_text: &str, previous: Option<&str>, next_steps: Option<&str>) -> (res: String)
    ensures
        res@ == judge_prompt(
            prompt@,
            context_text@,
            match previous { Some(p) => Some(p@), None => None },
            match next_steps { Some(n) => Some(n@), None => None },
        ),
{
    let mut s = owned(prompt);
    s.append("\n");
    s.append(context_text);
    s.append("\n\nAlso take into consideration the following information when deciding:\n\nContext:\n");
    match previous {
        Some(p) => s.append(p),
        None => s.append("No previous context"),
    }
    s.append("\n\nNext Steps:\n");
    match next_steps {
        Some(n) => s.append(n),
        None => s.append("No next steps"),
    }
    s
}

pub fn summarize_objectives(objectives: &Vec<Objective>) -> (res: String)
    ensures
        res@ == objectives_summary(objectives@),
{
    let mut s = String::new();
    let mut i: usize = 0;
    assert(objectives@.take(0) =~= Seq::<Objective>::empty());
    while i < objectives.len()
        invariant
            0 <= i <= objectives@.len(),
            s@ == objectives_summary(objectives@.take(i as int)),
        decreases objectives@.len() - i,
    {
        assert(objectives@.take(i + 1).drop_last() =~= objectives@.take(i as int));
        if i > 0 {
            s.append("\n");
        }
        s.append("- ");
        s.append(objectives[i].description.as_str());
        i = i + 1;
    }
    assert(objectives@.take(objectives@.len() as int) =~= objectives@);
    s
}

/// An agent judge's prompt, or the refusal when the nibble holds no agent
/// whose id is the judge's `agent_id` (as UTF-8 bytes).
pub open spec fn agent_judge_prompt(
    agents: Seq<Agent>,
    agent_id: Seq<char>,
    prompt: Seq<char>,
    context_text: Seq<char>,
    previous: Option<Seq<char>>,
    next_steps: Option<Seq<char>>,
) -> Result<(int, Seq<char>), Seq<char>> {
    match first_agent_with(agents, encode_utf8(agent_id), 0) {
        Some(k) => Ok((k, judge_prompt(prompt, context_text, previous, next_steps) + "\n\nAgent Objectives:\n"@
            + objectives_summary(agents[k].objectives@))),
        None => Err("Agent not found."@),
    }
}

pub open spec fn first_agent_with(agents: Seq<Agent>, id: Seq<u8>, i: int) -> Option<int>
    decreases agents.len() - i,
{
    if i < 0 || i >= agents.len() {
        None
    } else if agents[i].id@ == id {
        Some(i)
    } else {
        first_agent_with(agents, id, i + 1)
    }
}

/// The prompt for an agent judge, with the position of the judging agent.
pub fn build_agent_judge_prompt(
    agents: &Vec<Agent>,
    agent_id: &str,
    prompt: &str,
    context_text: &str,
    previous: Option<&str>,
    next_steps: Option<&str>,
) -> (res: Result<(usize, String), String>)
    ensures
        match res {
            Ok((k, p)) => agent_judge_prompt(
                agents@,
                agent_id@,
                prompt@,
                context_text@,
                match previous { Some(x) => Some(x@), None => None },
                match next_steps { Some(n) => Some(n@), None => None },
            ) == Ok::<(int, Seq<char>), Seq<char>>((k as int, p@)),
            Err(e) => agent_judge_prompt(
                agents@,
                agent_id@,
                prompt@,
                context_text@,
                match previous { Some(x) => Some(x@), None => None },
                match next_steps { Some(n) => Some(n@), None => None },
            ) == Err::<(int, Seq<char>), Seq<char>>(e@),
        },
{
    let id = agent_id.as_bytes();
    let mut i: usize = 0;
    while i < agents.len()
        invariant
            0 <= i <= agents@.len(),
            id@ == encode_utf8(agent_id@),
            first_agent_with(agents@, id@, 0) == first_agent_with(agents@, id@, i as int),
        decreases agents@.len() - i,
    {
        if crate::text::bytes_eq(agents[i].id.as_slice(), id) {
            let mut p = build_judge_prompt(prompt, context_text, previous, next_steps);
            p.append("\n\nAgent Objectives:\n");
            let summary = summarize_objectives(&agents[i].objectives);
            p.append(summary.as_str());
            return Ok((i, p));
        }
        i = i + 1;
    }
    Err(owned("Agent not found."))
}


/// A new evaluation of the owner with this address, under a fresh id.
pub fn configure_new_evaluation(name: &str, evaluation_type: EvaluationType, encrypted: bool, address: &Address) -> (res: Result<Evaluation, String>)
    ensures
        match res {
            Ok(ev) => ev.name@ == name@ && ev.evaluation_type == evaluation_type && ev.encrypted == encrypted
                && owner_id(ev.id@, address@),
            Err(e) => e@ == "Invalid timestamp"@,
        },
{
    let id = fresh_id(address)?;
    Ok(Evaluation { name: owned(name), encrypted, id, evaluation_type })
}


/// The law of a boolean evaluation: a boolean answer is judged true exactly
/// when it is the expected one, and any other answer is refused.
pub proof fn law_boolean_evaluation_accepts_the_expected_answer(expected: bool, response: JsonData)
    ensures
        response matches JsonData::Bool(b) ==> (verdict(EvaluationResponseType::Boolean { expected }, response)
            matches VerdictView::Decided(Ok(JsonData::Bool(x))) && (x <==> b == expected)),
        !(response is Bool) ==> verdict(EvaluationResponseType::Boolean { expected }, response) is Decided
            && verdict(EvaluationResponseType::Boolean { expected }, response)->Decided_0 is Err,
{
}

/// The law of a dynamic evaluation: the answer itself is the result.
pub proof fn law_dynamic_evaluation_keeps_the_answer(response: JsonData)
    ensures
        verdict(EvaluationResponseType::Dynamic, response) == VerdictView::Decided(Ok::<JsonData, Seq<char>>(response)),
{
}


/// The law of score evaluations: the answer's `score` number is what is
/// compared with the threshold; an answer without a numeric `score` is refused.
pub proof fn law_score_evaluation_reads_the_score(threshold: u64, response: JsonData)
    ensures
        response.get("score"@) matches Some(JsonData::Number(n))
            ==> verdict(EvaluationResponseType::Score { threshold }, response) == VerdictView::CompareScore(n),
        !(response.get("score"@) matches Some(JsonData::Number(_)))
            ==> verdict(EvaluationResponseType::Score { threshold }, response) is Decided
            && verdict(EvaluationResponseType::Score { threshold }, response)->Decided_0 is Err,
{
}

} // verus!
