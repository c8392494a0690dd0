//! Off-chain connectors: call a REST or GraphQL service, optionally with
//! tokens from an authentication subflow.

use vstd::prelude::*;
use crate::utils::{fresh_id, owner_id};
use crate::ethereum::Address;
use crate::assoc::inserted;
use crate::execution::{history_view, ExecutionHistory};
use crate::function_ref::FunctionRef;
use crate::json::{entries_data, member, object_insert, opt_data, opt_member, push_member, push_opt_member, JsonData, JsonValue};
use crate::string_map::{text_entries, StringMap};
use crate::text::{hex_text, owned};
use crate::tools::history::{extracted_data, HistoryParse, HistoryStep};
use crate::workflow::Workflow;

verus! {

pub enum ConnectorType {
    REST { base_payload: Option<JsonValue> },
    GraphQL { query: String, variables: Option<StringMap> },
}

/// A connector to a service. `http_method` is the method's name; the function
/// that post-processes answers, if any, is named by reference.
pub struct OffChainConnector {
    pub name: String,
    pub id: Vec<u8>,
    pub connector_type: ConnectorType,
    pub api_url: String,
    pub encrypted: bool,
    pub http_method: String,
    pub headers: Option<StringMap>,
    pub params: Option<StringMap>,
    pub auth_tokens: Option<JsonValue>,
    pub auth_subflow: Option<Box<Workflow>>,
    pub result_processing_fn: Option<FunctionRef>,
}

pub open spec fn table_data(t: StringMap) -> JsonData {
    JsonData::Object(Seq::new(t@.len(), |i: int| (t@[i].0, JsonData::Str(t@[i].1))))
}

/// A connector as stored: name, URL, whether it is encrypted (under
/// `public`), method, kind with its settings, and the headers, parameters,
/// tokens and processing function it has (the function only noted).
pub open spec fn connector_json(c: OffChainConnector) -> JsonData {
    let kind = match c.connector_type {
        ConnectorType::REST { base_payload } => member("connector_type"@, JsonData::Str("REST"@))
            + opt_member("base_payload"@, opt_data(base_payload)),
        ConnectorType::GraphQL { query, variables } => member("connector_type"@, JsonData::Str("GraphQL"@))
            + member("query"@, JsonData::Str(query@))
            + opt_member("variables"@, match variables { Some(v) => Some(table_data(v)), None => None }),
    };
    JsonData::Object(
        member("name"@, JsonData::Str(c.name@))
            + member("api_url"@, JsonData::Str(c.api_url@))
            + member("public"@, JsonData::Bool(c.encrypted))
            + member("http_method"@, JsonData::Str(c.http_method@))
            + kind
            + opt_member("headers"@, match c.headers { Some(h) => Some(table_data(h)), None => None })
            + opt_member("params"@, match c.params { Some(p) => Some(table_data(p)), None => None })
            + opt_member("auth_tokens"@, opt_data(c.auth_tokens))
            + opt_member("result_processing_fn"@, match c.result_processing_fn {
                Some(_) => Some(JsonData::Str("Function pointer (not serializable)"@)),
                None => None,
            }),
    )
}

fn table_json(t: &StringMap) -> (res: JsonValue)
    ensures
        res@ == table_data(*t),
{
    let mut e: Vec<(String, JsonValue)> = Vec::new();
    let mut i: usize = 0;
    while i < t.entries.len()
        invariant
            0 <= i <= t.entries@.len(),
            e@.len() == i,
            forall|k: int| 0 <= k < i ==> (#[trigger] e@[k]).0@ == t.entries@[k].0@ && e@[k].1@ == JsonData::Str(t.entries@[k].1@),
        decreases t.entries@.len() - i,
    {
        e.push((t.entries[i].0.clone(), JsonValue::String(t.entries[i].1.clone())));
        i = i + 1;
    }
    let res = JsonValue::object(e);
    assert(entries_data(e@) =~= Seq::new(t@.len(), |k: int| (t@[k].0, JsonData::Str(t@[k].1))));
    res
}

/// The query text of parameters: `key=value` pairs joined by `&`, in order.
pub open spec fn query_text(params: Seq<(Seq<char>, Seq<char>)>) -> Seq<char>
    decreases params.len(),
{
    if params.len() == 0 {
        Seq::empty()
    } else if params.len() == 1 {
        params[0].0 + "="@ + params[0].1
    } else {
        query_text(params.drop_last()) + "&"@ + params.last().0 + "="@ + params.last().1
    }
}

/// The URL a connector calls: its URL, then `?` and the query when it has parameters.
pub open spec fn call_url(c: OffChainConnector) -> Seq<char> {
    match c.params {
        Some(p) => c.api_url@ + "?"@ + query_text(p@),
        None => c.api_url@,
    }
}

/// An `Authorization` header for tokens that hold an `access_token` text.
pub open spec fn bearer_header(tokens: Option<JsonData>) -> Seq<(Seq<char>, Seq<char>)> {
    match tokens {
        Some(t) => match t.str_at("access_token"@) {
            Some(token) => seq![("Authorization"@, "Bearer "@ + token)],
            None => Seq::empty(),
        },
        None => Seq::empty(),
    }
}

/// The headers a call carries: the connector's, then a bearer token from the
/// authentication subflow, then one from the connector's own tokens, then the
/// content type.
pub open spec fn call_headers(c: OffChainConnector, subflow_tokens: Option<JsonData>) -> Seq<(Seq<char>, Seq<char>)> {
    (match c.headers { Some(h) => h@, None => Seq::empty() })
        + bearer_header(subflow_tokens)
        + bearer_header(opt_data(c.auth_tokens))
        + seq![("Content-Type"@, "application/json"@)]
}

/// The members of `dynamic` set one by one into `payload`.
pub open spec fn merged_members(payload: Seq<(Seq<char>, JsonData)>, dynamic: Seq<(Seq<char>, JsonData)>) -> Seq<(Seq<char>, JsonData)>
    decreases dynamic.len(),
{
    if dynamic.len() == 0 {
        payload
    } else {
        inserted(merged_members(payload, dynamic.drop_last()), dynamic.last().0, dynamic.last().1)
    }
}

/// The REST payload: the base payload (an empty object when there is none)
/// with the members of an object context set into it.
pub open spec fn rest_payload(base: Option<JsonData>, dynamic: Option<JsonData>) -> JsonData {
    let start = match base {
        Some(JsonData::Object(m)) => m,
        _ => Seq::empty(),
    };
    let as_is = match base {
        Some(b) => b,
        None => JsonData::Object(Seq::empty()),
    };
    match dynamic {
        Some(JsonData::Object(d)) => if d.len() > 0 {
            JsonData::Object(merged_members(start, d))
        } else {
            as_is
        },
        _ => as_is,
    }
}

/// A REST payload can be merged into: a context with members needs an
/// object (or no, or a null) base payload.
pub open spec fn payload_mergeable(base: Option<JsonData>, dynamic: Option<JsonData>) -> bool {
    match dynamic {
        Some(JsonData::Object(d)) => d.len() > 0 ==> match base {
            Some(JsonData::Object(_)) => true,
            Some(JsonData::Null) => true,
            None => true,
            _ => false,
        },
        _ => true,
    }
}

/// The GraphQL variables: the connector's, with each member of the context
/// set to its JSON text.
pub open spec fn graphql_variables(variables: Seq<(Seq<char>, Seq<char>)>, dynamic_texts: Seq<(Seq<char>, Seq<char>)>) -> Seq<(Seq<char>, Seq<char>)>
    decreases dynamic_texts.len(),
{
    if dynamic_texts.len() == 0 {
        variables
    } else {
        inserted(graphql_variables(variables, dynamic_texts.drop_last()), dynamic_texts.last().0, dynamic_texts.last().1)
    }
}

/// The GraphQL body: the query, and the variables as strings.
pub open spec fn graphql_body(
    query: Seq<char>,
    variables: Seq<(Seq<char>, Seq<char>)>,
    dynamic_texts: Seq<(Seq<char>, Seq<char>)>,
) -> JsonData {
    let vars = graphql_variables(variables, dynamic_texts);
    JsonData::Object(
        member("query"@, JsonData::Str(query))
            + member("variables"@, JsonData::Object(Seq::new(vars.len(), |i: int| (vars[i].0, JsonData::Str(vars[i].1))))),
    )
}

impl OffChainConnector {
    #[verifier::rlimit(60)]
    pub fn to_json(&self) -> (res: JsonValue)
        ensures
            res@ == connector_json(*self),
    {
        let mut e: Vec<(String, JsonValue)> = Vec::new();
        push_member(&mut e, "name", JsonValue::String(self.name.clone()));
        push_member(&mut e, "api_url", JsonValue::String(self.api_url.clone()));
        push_member(&mut e, "public", JsonValue::Bool(self.encrypted));
        push_member(&mut e, "http_method", JsonValue::String(self.http_method.clone()));
        match &self.connector_type {
            ConnectorType::REST { base_payload } => {
                push_member(&mut e, "connector_type", JsonValue::text("REST"));
                push_opt_member(&mut e, "base_payload", crate::json::clone_opt(base_payload));
            },
            ConnectorType::GraphQL { query, variables } => {
                push_member(&mut e, "connector_type", JsonValue::text("GraphQL"));
                push_member(&mut e, "query", JsonValue::String(query.clone()));
                let vars = match variables {
                    Some(v) => Some(table_json(v)),
                    None => None,
                };
                push_opt_member(&mut e, "variables", vars);
            },
        }
        let headers = match &self.headers {
            Some(h) => Some(table_json(h)),
            None => None,
        };
        push_opt_member(&mut e, "headers", headers);
        let params = match &self.params {
            Some(p) => Some(table_json(p)),
            None => None,
        };
        push_opt_member(&mut e, "params", params);
        push_opt_member(&mut e, "auth_tokens", crate::json::clone_opt(&self.auth_tokens));
        let f = match &self.result_processing_fn {
            Some(_) => Some(JsonValue::text("Function pointer (not serializable)")),
            None => None,
        };
        push_opt_member(&mut e, "result_processing_fn", f);
        let res = JsonValue::object(e);
        proof {
            match connector_json(*self) {
                JsonData::Object(s) => {
                    assert(entries_data(e@) =~= s);
                },
                _ => {},
            }
        }
        res
    }

    /// The URL to call.
    pub fn call_url(&self) -> (res: String)
        ensures
            res@ == call_url(*self),
    {
        let mut url = self.api_url.clone();
        match &self.params {
            Some(p) => {
                url.append("?");
                let ghost base = url@;
                let ghost pv = p@;
                let mut i: usize = 0;
                assert(pv.take(0) =~= Seq::<(Seq<char>, Seq<char>)>::empty());
                assert(url@ =~= base + query_text(pv.take(0)));
                while i < p.entries.len()
                    invariant
                        0 <= i <= pv.len(),
                        pv == p@,
                        pv.len() == p.entries@.len(),
                        url@ == base + query_text(pv.take(i as int)),
                    decreases pv.len() - i,
                {
                    assert(pv.take(i + 1).drop_last() =~= pv.take(i as int));
                    assert(pv[i as int] == (p.entries@[i as int].0@, p.entries@[i as int].1@));
                    if i > 0 {
                        url.append("&");
                    }
                    url.append(p.entries[i].0.as_str());
                    url.append("=");
                    url.append(p.entries[i].1.as_str());
                    proof {
                        if i == 0 {
                            assert(pv.take(1) =~= seq![pv[0]]);
                        }
                    }
                    i = i + 1;
                }
                assert(pv.take(pv.len() as int) =~= pv);
            },
            None => {},
        }
        url
    }

    /// The headers to send, given the tokens the authentication subflow gave.
    pub fn call_headers(&self, subflow_tokens: &Option<JsonValue>) -> (res: Vec<(String, String)>)
        ensures
            text_entries(res@) == call_headers(*self, opt_data(*subflow_tokens)),
    {
        let mut out: Vec<(String, String)> = match &self.headers {
            Some(h) => h.copy().entries,
            None => Vec::new(),
        };
        let ghost h0 = text_entries(out@);
        assert(h0 == (match self.headers { Some(h) => h@, None => Seq::empty() }));
        push_bearer(&mut out, subflow_tokens);
        push_bearer(&mut out, &self.auth_tokens);
        let ghost h1 = text_entries(out@);
        out.push((owned("Content-Type"), owned("application/json")));
        assert(text_entries(out@) =~= h1 + seq![("Content-Type"@, "application/json"@)]);
        out
    }

    /// The REST payload for an incoming context.
    pub fn rest_payload(base_payload: &Option<JsonValue>, dynamic: &Option<JsonValue>) -> (res: JsonValue)
        requires
            payload_mergeable(opt_data(*base_payload), opt_data(*dynamic)),
        ensures
            res@ == rest_payload(opt_data(*base_payload), opt_data(*dynamic)),
    {
        let dyn_entries = match dynamic {
            Some(d) => match d.as_object() {
                Some(m) => if m.len() > 0 {
                    Some(m)
                } else {
                    None
                },
                None => None,
            },
            None => None,
        };
        match dyn_entries {
            Some(d) => {
                let mut members: Vec<(String, JsonValue)> = match base_payload {
                    Some(JsonValue::Object(m)) => crate::json::clone_entries(m),
                    _ => Vec::new(),
                };
                proof {
                    match base_payload {
                        Some(JsonValue::Object(m)) => {
                            crate::json::lemma_object_view(*m);
                        },
                        _ => {},
                    }
                }
                let ghost start = entries_data(members@);
                let ghost dv = entries_data(d@);
                assert(opt_data(*dynamic) == Some(JsonData::Object(dv)));
                assert(dv.len() > 0);
                assert(start == match opt_data(*base_payload) {
                    Some(JsonData::Object(m)) => m,
                    _ => Seq::<(Seq<char>, JsonData)>::empty(),
                });
                let mut i: usize = 0;
                assert(dv.take(0) =~= Seq::<(Seq<char>, JsonData)>::empty());
                while i < d.len()
                    invariant
                        0 <= i <= dv.len(),
                        dv == entries_data(d@),
                        dv.len() == d@.len(),
                        entries_data(members@) == merged_members(start, dv.take(i as int)),
                    decreases dv.len() - i,
                {
                    assert(dv.take(i + 1).drop_last() =~= dv.take(i as int));
                    object_insert(&mut members, d[i].0.as_str(), d[i].1.deep_clone());
                    i = i + 1;
                }
                assert(dv.take(dv.len() as int) =~= dv);
                let res = JsonValue::object(members);
                assert(res@ == JsonData::Object(merged_members(start, dv)));
                assert(opt_data(*dynamic) == Some(JsonData::Object(dv)));
                assert(start == match opt_data(*base_payload) {
                    Some(JsonData::Object(m)) => m,
                    _ => Seq::<(Seq<char>, JsonData)>::empty(),
                });
                res
            },
            None => match base_payload {
                Some(b) => b.deep_clone(),
                None => {
                    let e: Vec<(String, JsonValue)> = Vec::new();
                    assert(entries_data(e@) =~= Seq::<(Seq<char>, JsonData)>::empty());
                    JsonValue::object(e)
                },
            },
        }
    }

    /// The GraphQL body: the query and the merged variables, given the
    /// context's members with their JSON texts.
    pub fn graphql_payload(query: &str, variables: &Option<StringMap>, dynamic_texts: &Vec<(String, String)>) -> (res: JsonValue)
        ensures
            res@ == graphql_body(
                query@,
                match variables { Some(v) => v@, None => Seq::empty() },
                text_entries(dynamic_texts@),
            ),
    {
        let mut vars: StringMap = match variables {
            Some(v) => v.copy(),
            None => StringMap::new(),
        };
        let ghost start = vars@;
        assert(start == (match variables { Some(v) => v@, None => Seq::<(Seq<char>, Seq<char>)>::empty() }));
        let ghost dv = text_entries(dynamic_texts@);
        let mut i: usize = 0;
        assert(dv.take(0) =~= Seq::<(Seq<char>, Seq<char>)>::empty());
        while i < dynamic_texts.len()
            invariant
                0 <= i <= dv.len(),
                dv == text_entries(dynamic_texts@),
                dv.len() == dynamic_texts@.len(),
                vars@ == graphql_variables(start, dv.take(i as int)),
            decreases dv.len() - i,
        {
            assert(dv.take(i + 1).drop_last() =~= dv.take(i as int));
            vars.insert(dynamic_texts[i].0.clone(), dynamic_texts[i].1.clone());
            i = i + 1;
        }
        assert(dv.take(dv.len() as int) =~= dv);
        let mut e: Vec<(String, JsonValue)> = Vec::new();
        push_member(&mut e, "query", JsonValue::text(query));
        push_member(&mut e, "variables", table_json(&vars));
        let res = JsonValue::object(e);
        assert(entries_data(e@) =~= member("query"@, JsonData::Str(query@)) + member("variables"@, table_data(vars)));
        res
    }
}

fn push_bearer(out: &mut Vec<(String, String)>, tokens: &Option<JsonValue>)
    ensures
        text_entries(final(out)@) == text_entries(old(out)@) + bearer_header(opt_data(*tokens)),
{
    let ghost before = text_entries(out@);
    match tokens {
        Some(t) => match t.str_member("access_token") {
            Some(token) => {
                let mut v = owned("Bearer ");
                v.append(token);
                out.push((owned("Authorization"), v));
                assert(text_entries(out@) =~= before + seq![("Authorization"@, "Bearer "@ + token@)]);
            },
            None => {
                assert(before + Seq::<(Seq<char>, Seq<char>)>::empty() =~= before);
            },
        },
        None => {
            assert(before + Seq::<(Seq<char>, Seq<char>)>::empty() =~= before);
        },
    }
}

impl OffChainConnector {
    /// Whether a call must first run the authentication subflow: not without
    /// one; with one, only where a subflow manager can run it, else the call
    /// is refused.
    pub fn needs_auth_run(&self, has_manager: bool) -> (res: Result<bool, String>)
        ensures
            self.auth_subflow is None ==> res == Ok::<bool, String>(false),
            self.auth_subflow is Some && has_manager ==> res == Ok::<bool, String>(true),
            self.auth_subflow is Some && !has_manager
                ==> (res matches Err(e) && e@ == "SubflowManager is required to execute auth subflows"@),
    {
        match &self.auth_subflow {
            None => Ok(false),
            Some(_) => if has_manager {
                Ok(true)
            } else {
                Err(owned("SubflowManager is required to execute auth subflows"))
            },
        }
    }
}

/// What running the authentication subflow gave.
pub enum AuthOutcome {
    Finished(Vec<ExecutionHistory>),
    Failed(String),
    NoHistory,
}

/// The tokens an authentication subflow yields: its history read with the
/// history tool (required); a failed or silent subflow is an error. For a
/// tool supplied by the user, the history it is to be applied to.
pub enum AuthTokens {
    Tokens(Result<JsonValue, String>),
    ApplyTool(Vec<ExecutionHistory>),
}

pub fn auth_tokens_from(outcome: AuthOutcome, history_tool: &Option<HistoryParse>) -> (res: AuthTokens)
    ensures
        match outcome {
            AuthOutcome::Finished(h) => match history_tool {
                Some(HistoryParse::CustomProcessor) => res matches AuthTokens::ApplyTool(h2) && history_view(h2@) == history_view(h@),
                Some(HistoryParse::ExtractField { index, field_path }) => res matches AuthTokens::Tokens(r)
                    && extracted_data(r) == crate::tools::history::extract_result(history_view(h@), index as nat, crate::tools::context::texts(field_path@)),
                Some(HistoryParse::InvalidConfig) => res matches AuthTokens::Tokens(r)
                    && extracted_data(r) == Err::<JsonData, Seq<char>>(crate::tools::history::invalid_config_message()),
                None => res matches AuthTokens::Tokens(Err(e)) && e@ == "History tool is required for auth subflow processing"@,
            },
            AuthOutcome::Failed(e) => res matches AuthTokens::Tokens(Err(m)) && m@ == e@,
            AuthOutcome::NoHistory => res matches AuthTokens::Tokens(Err(m)) && m@ == "Auth subflow did not return history"@,
        },
{
    match outcome {
        AuthOutcome::Finished(h) => match history_tool {
            Some(tool) => match tool.process(h) {
                HistoryStep::Extracted(r) => AuthTokens::Tokens(r),
                HistoryStep::Custom(h2) => AuthTokens::ApplyTool(h2),
            },
            None => AuthTokens::Tokens(Err(owned("History tool is required for auth subflow processing"))),
        },
        AuthOutcome::Failed(e) => AuthTokens::Tokens(Err(e)),
        AuthOutcome::NoHistory => AuthTokens::Tokens(Err(owned("Auth subflow did not return history"))),
    }
}


/// A new off-chain connector of the owner with this address, under a fresh id.
pub fn configure_new_offchain_connector(
    name: &str,
    connector_type: ConnectorType,
    api_url: &str,
    encrypted: bool,
    http_method: String,
    headers: Option<StringMap>,
    params: Option<StringMap>,
    auth_tokens: Option<JsonValue>,
    result_processing_fn: Option<FunctionRef>,
    address: &Address,
    auth_subflow: Option<Workflow>,
) -> (res: Result<OffChainConnector, String>)
    ensures
        match res {
            Ok(c) => {
                &&& c.name@ == name@ && c.connector_type == connector_type && c.api_url@ == api_url@
                &&& c.encrypted == encrypted && c.http_method == http_method && c.headers == headers
                &&& c.params == params && c.auth_tokens == auth_tokens && c.result_processing_fn == result_processing_fn
                &&& c.auth_subflow == (match auth_subflow { Some(w) => Some(Box::new(w)), None => None })
                &&& owner_id(c.id@, address@)
            },
            Err(e) => e@ == "Invalid timestamp"@,
        },
{
    let id = fresh_id(address)?;
    let auth_subflow = match auth_subflow {
        Some(w) => Some(Box::new(w)),
        None => None,
    };
    Ok(OffChainConnector {
        name: owned(name),
        id,
        connector_type,
        api_url: owned(api_url),
        encrypted,
        http_method,
        headers,
        params,
        auth_tokens,
        auth_subflow,
        result_processing_fn,
    })
}

} // verus!
