//! Listeners run as nodes: they poll a contract, a webhook or, on a timer, a
//! contract function or an API, a limited number of times.

use vstd::prelude::*;
use crate::utils::{fresh_id, owner_id};
use crate::ethereum::{address_debug, address_debug_text, Address};
use crate::json::{entries_data, member, push_member, values_data, JsonData, JsonValue};
use crate::json::u64_data;
use crate::string_map::{text_entries, StringMap};
use crate::adapters::nodes::agents::{header_name_ok, header_name_valid, header_value_ok, header_value_valid};
use vstd::utf8::encode_utf8;
use crate::text::{decimal, owned};
use crate::adapters::nodes::connectors::on_chain::{u256_decimal, u256_value, U256Words};

verus! {

/// A contract function a timer calls. The provider, chain and wallet are held
/// as the `{:?}` texts the engine records of them.
pub struct OnChainCheck {
    pub contract_address: Address,
    pub function_name: String,
    pub abi: String,
    pub args: Option<JsonValue>,
    pub expected_return_type: String,
    pub provider: String,
    pub chain: String,
    pub wallet: String,
}

/// An API a timer calls: its endpoint, query parameters, headers, and whether
/// the answer is read as JSON (`JSON`) or as text.
pub struct OffChainCheck {
    pub api_endpoint: String,
    pub params: Option<StringMap>,
    pub headers: Option<StringMap>,
    pub expected_return_type: String,
}

/// What a node listener polls; outside values held as their `{:?}` texts.
pub enum ListenerType {
    OnChain {
        contract_address: Address,
        event_signature: String,
        abi: String,
        repetitions: Option<u64>,
        provider: String,
        wallet: String,
        chain: String,
    },
    OffChain { webhook_url: String, repetitions: Option<u64> },
    Timer {
        interval: String,
        check_onchain: Option<OnChainCheck>,
        check_offchain: Option<OffChainCheck>,
        repetitions: Option<u64>,
    },
}

pub struct Listener {
    pub name: String,
    pub id: Vec<u8>,
    pub event_name: String,
    pub listener_type: ListenerType,
    pub encrypted: bool,
}

pub open spec fn table_json(t: StringMap) -> JsonData {
    JsonData::Object(Seq::new(t@.len(), |i: int| (t@[i].0, JsonData::Str(t@[i].1))))
}

pub open spec fn repetitions_data(r: Option<u64>) -> JsonData {
    u64_data(r.unwrap_or(0))
}

pub open spec fn onchain_check_json(c: OnChainCheck) -> JsonData {
    JsonData::Object(
        member("contract_address"@, JsonData::Str(address_debug_text(c.contract_address@)))
            + member("function_name"@, JsonData::Str(c.function_name@))
            + member("abi"@, JsonData::Str(c.abi@))
            + member("args"@, match c.args { Some(a) => a@, None => JsonData::Null })
            + member("expected_return_type"@, JsonData::Str(c.expected_return_type@))
            + member("provider"@, JsonData::Str(c.provider@))
            + member("chain"@, JsonData::Str(c.chain@))
            + member("wallet"@, JsonData::Str(c.wallet@)),
    )
}

pub open spec fn offchain_check_json(c: OffChainCheck) -> JsonData {
    JsonData::Object(
        member("api_endpoint"@, JsonData::Str(c.api_endpoint@))
            + member("params"@, match c.params { Some(p) => table_json(p), None => JsonData::Null })
            + member("headers"@, match c.headers { Some(h) => table_json(h), None => JsonData::Null })
            + member("expected_return_type"@, JsonData::Str(c.expected_return_type@)),
    )
}

pub open spec fn listener_type_json(t: ListenerType) -> JsonData {
    match t {
        ListenerType::OnChain { contract_address, event_signature, abi, repetitions, provider, wallet, chain } => JsonData::Object(
            member("contract_address"@, JsonData::Str(address_debug_text(contract_address@)))
                + member("event_signature"@, JsonData::Str(event_signature@))
                + member("abi"@, JsonData::Str(abi@))
                + member("repetitions"@, repetitions_data(repetitions))
                + member("provider"@, JsonData::Str(provider@))
                + member("wallet"@, JsonData::Str(wallet@))
                + member("chain"@, JsonData::Str(chain@)),
        ),
        ListenerType::OffChain { webhook_url, repetitions } => JsonData::Object(
            member("webhook_url"@, JsonData::Str(webhook_url@)) + member("repetitions"@, repetitions_data(repetitions)),
        ),
        ListenerType::Timer { interval, check_onchain, check_offchain, repetitions } => JsonData::Object(
            member("interval"@, JsonData::Str(interval@))
                + member("check_onchain"@, match check_onchain { Some(c) => onchain_check_json(c), None => JsonData::Null })
                + member("check_offchain"@, match check_offchain { Some(c) => offchain_check_json(c), None => JsonData::Null })
                + member("repetitions"@, repetitions_data(repetitions)),
        ),
    }
}

/// A node listener as stored: name, event, whether it is encrypted (under
/// `public`), and its kind's settings (a missing limit written as 0).
pub open spec fn listener_json(l: Listener) -> JsonData {
    JsonData::Object(
        member("name"@, JsonData::Str(l.name@))
            + member("event_name"@, JsonData::Str(l.event_name@))
            + member("public"@, JsonData::Bool(l.encrypted))
            + member("listener_type"@, listener_type_json(l.listener_type)),
    )
}

fn table_to_json(t: &StringMap) -> (res: JsonValue)
    ensures
        res@ == table_json(*t),
{
    let mut e: Vec<(String, JsonValue)> = Vec::new();
    let mut i: usize = 0;
    while i < t.entries.len()
        invariant
            0 <= i <= t.entries@.len(),
            e@.len() == i,
            forall|k: int| 0 <= k < i ==> (#[trigger] e@[k]).0@ == t.entries@[k].0@ && e@[k].1@ == JsonData::Str(t.entries@[k].1@),
        decreases t.entries@.len() - i,
    {
        e.push((t.entries[i].0.clone(), JsonValue::String(t.entries[i].1.clone())));
        i = i + 1;
    }
    let res = JsonValue::object(e);
    assert(entries_data(e@) =~= Seq::new(t@.len(), |k: int| (t@[k].0, JsonData::Str(t@[k].1))));
    res
}

fn repetitions_json(r: Option<u64>) -> (res: JsonValue)
    ensures
        res@ == repetitions_data(r),
{
    JsonValue::Number(crate::json::JsonNumber::PosInt(r.unwrap_or(0)))
}

impl OnChainCheck {
    pub fn to_json(&self) -> (res: JsonValue)
        ensures
            res@ == onchain_check_json(*self),
    {
        let mut e: Vec<(String, JsonValue)> = Vec::new();
        push_member(&mut e, "contract_address", JsonValue::String(address_debug(&self.contract_address)));
        push_member(&mut e, "function_name", JsonValue::String(self.function_name.clone()));
        push_member(&mut e, "abi", JsonValue::String(self.abi.clone()));
        let args = match &self.args {
            Some(a) => a.deep_clone(),
            None => JsonValue::Null,
        };
        push_member(&mut e, "args", args);
        push_member(&mut e, "expected_return_type", JsonValue::String(self.expected_return_type.clone()));
        push_member(&mut e, "provider", JsonValue::String(self.provider.clone()));
        push_member(&mut e, "chain", JsonValue::String(self.chain.clone()));
        push_member(&mut e, "wallet", JsonValue::String(self.wallet.clone()));
        let res = JsonValue::object(e);
        proof {
            match onchain_check_json(*self) {
                JsonData::Object(s) => {
                    assert(entries_data(e@) =~= s);
                },
                _ => {},
            }
        }
        res
    }
}

/// The entries of a header table that are valid HTTP headers, in order.
pub open spec fn usable_headers(entries: Seq<(Seq<char>, Seq<char>)>) -> Seq<(Seq<char>, Seq<char>)>
    decreases entries.len(),
{
    if entries.len() == 0 {
        Seq::empty()
    } else {
        let rest = usable_headers(entries.drop_last());
        let (k, v) = entries.last();
        if header_name_valid(encode_utf8(k)) && header_value_valid(v) {
            rest.push((k, v))
        } else {
            rest
        }
    }
}

impl OffChainCheck {
    pub fn to_json(&self) -> (res: JsonValue)
        ensures
            res@ == offchain_check_json(*self),
    {
        let mut e: Vec<(String, JsonValue)> = Vec::new();
        push_member(&mut e, "api_endpoint", JsonValue::String(self.api_endpoint.clone()));
        let params = match &self.params {
            Some(p) => table_to_json(p),
            None => JsonValue::Null,
        };
        push_member(&mut e, "params", params);
        let headers = match &self.headers {
            Some(h) => table_to_json(h),
            None => JsonValue::Null,
        };
        push_member(&mut e, "headers", headers);
        push_member(&mut e, "expected_return_type", JsonValue::String(self.expected_return_type.clone()));
        let res = JsonValue::object(e);
        proof {
            match offchain_check_json(*self) {
                JsonData::Object(s) => {
                    assert(entries_data(e@) =~= s);
                },
                _ => {},
            }
        }
        res
    }

    /// The headers sent with the request: those of the table whose name and
    /// value are valid in HTTP, in the table's order; the others are left out.
    pub fn request_headers(&self) -> (res: Vec<(String, String)>)
        ensures
            text_entries(res@) == match self.headers {
                Some(h) => usable_headers(h@),
                None => Seq::empty(),
            },
    {
        let mut out: Vec<(String, String)> = Vec::new();
        match &self.headers {
            None => {},
            Some(h) => {
                let ghost all = h@;
                let mut i: usize = 0;
                while i < h.entries.len()
                    invariant
                        i <= h.entries@.len(),
                        all == text_entries(h.entries@),
                        text_entries(out@) == usable_headers(all.take(i as int)),
                    decreases h.entries.len() - i,
                {
                    let name = h.entries[i].0.as_str();
                    let value = h.entries[i].1.as_str();
                    let keep = header_name_ok(name) && header_value_ok(value);
                    proof {
                        assert(all.take(i + 1).drop_last() =~= all.take(i as int));
                    }
                    if keep {
                        out.push((owned(name), owned(value)));
                        proof {
                            assert(text_entries(out@) =~= usable_headers(all.take(i as int)).push((name@, value@)));
                        }
                    }
                    i = i + 1;
                }
                proof {
                    assert(all.take(h.entries@.len() as int) =~= all);
                }
            },
        }
        proof {
            if self.headers is None {
                assert(text_entries(out@) =~= Seq::<(Seq<char>, Seq<char>)>::empty());
            }
        }
        out
    }

    /// Whether the answer is read as JSON rather than as text.
    pub fn reads_json(&self) -> (res: bool)
        ensures
            res == (self.expected_return_type@ == "JSON"@),
    {
        crate::text::str_eq(self.expected_return_type.as_str(), "JSON")
    }
}

impl Listener {
    pub fn to_json(&self) -> (res: JsonValue)
        ensures
            res@ == listener_json(*self),
    {
        let mut sub: Vec<(String, JsonValue)> = Vec::new();
        match &self.listener_type {
            ListenerType::OnChain { contract_address, event_signature, abi, repetitions, provider, wallet, chain } => {
                push_member(&mut sub, "contract_address", JsonValue::String(address_debug(contract_address)));
                push_member(&mut sub, "event_signature", JsonValue::String(event_signature.clone()));
                push_member(&mut sub, "abi", JsonValue::String(abi.clone()));
                push_member(&mut sub, "repetitions", repetitions_json(*repetitions));
                push_member(&mut sub, "provider", JsonValue::String(provider.clone()));
                push_member(&mut sub, "wallet", JsonValue::String(wallet.clone()));
                push_member(&mut sub, "chain", JsonValue::String(chain.clone()));
            },
            ListenerType::OffChain { webhook_url, repetitions } => {
                push_member(&mut sub, "webhook_url", JsonValue::String(webhook_url.clone()));
                push_member(&mut sub, "repetitions", repetitions_json(*repetitions));
            },
            ListenerType::Timer { interval, check_onchain, check_offchain, repetitions } => {
                push_member(&mut sub, "interval", JsonValue::String(interval.clone()));
                let on = match check_onchain {
                    Some(c) => c.to_json(),
                    None => JsonValue::Null,
                };
                push_member(&mut sub, "check_onchain", on);
                let off = match check_offchain {
                    Some(c) => c.to_json(),
                    None => JsonValue::Null,
                };
                push_member(&mut sub, "check_offchain", off);
                push_member(&mut sub, "repetitions", repetitions_json(*repetitions));
            },
        }
        let kind = JsonValue::object(sub);
        proof {
            match listener_type_json(self.listener_type) {
                JsonData::Object(s) => {
                    assert(entries_data(sub@) =~= s);
                },
                _ => {},
            }
        }
        let mut e: Vec<(String, JsonValue)> = Vec::new();
        push_member(&mut e, "name", JsonValue::String(self.name.clone()));
        push_member(&mut e, "event_name", JsonValue::String(self.event_name.clone()));
        push_member(&mut e, "public", JsonValue::Bool(self.encrypted));
        push_member(&mut e, "listener_type", kind);
        let res = JsonValue::object(e);
        proof {
            match listener_json(*self) {
                JsonData::Object(s) => {
                    assert(entries_data(e@) =~= s);
                },
                _ => {},
            }
        }
        res
    }

    /// The limit on this listener's rounds.
    pub fn repetitions(&self) -> (res: Option<u64>)
        ensures
            res == match self.listener_type {
                ListenerType::OnChain { repetitions, .. } => repetitions,
                ListenerType::OffChain { repetitions, .. } => repetitions,
                ListenerType::Timer { repetitions, .. } => repetitions,
            },
    {
        match &self.listener_type {
            ListenerType::OnChain { repetitions, .. } => *repetitions,
            ListenerType::OffChain { repetitions, .. } => *repetitions,
            ListenerType::Timer { repetitions, .. } => *repetitions,
        }
    }
}

/// Whether a node listener that has made `executed` rounds is done: any limit
/// ends it once reached.
pub fn rounds_done(executed: u64, repetitions: Option<u64>) -> (res: bool)
    ensures
        res == (repetitions matches Some(m) && executed >= m),
{
    match repetitions {
        Some(m) => executed >= m,
        None => false,
    }
}

/// What a timer checks: the contract function when there is one, else the
/// API, else nothing.
pub enum TimerCheck {
    OnChain,
    OffChain,
    Nothing,
}

pub fn timer_check(check_onchain: &Option<OnChainCheck>, check_offchain: &Option<OffChainCheck>) -> (res: TimerCheck)
    ensures
        res is OnChain <==> check_onchain is Some,
        res is OffChain <==> (check_onchain is None && check_offchain is Some),
        res is Nothing <==> (check_onchain is None && check_offchain is None),
{
    match check_onchain {
        Some(_) => TimerCheck::OnChain,
        None => match check_offchain {
            Some(_) => TimerCheck::OffChain,
            None => TimerCheck::Nothing,
        },
    }
}

/// A value a contract returned or an event carried: the kinds the engine
/// reads, and the text the value is shown by (`{:?}` of the ABI token).
pub struct ReturnedToken {
    pub value: TokenData,
    pub debug: String,
}

pub enum TokenData {
    Uint(U256Words),
    Address(Address),
    Text(String),
    Bool(bool),
    Other,
}

/// What a function call of a timer gives for the type its return is read as:
/// `uint256` the decimal text of the number, `string` the text, `bool` the
/// boolean, and any other type the token's text.
pub open spec fn call_result_json(token: ReturnedToken, expected: Seq<char>) -> JsonData {
    if expected == "uint256"@ {
        match token.value {
            TokenData::Uint(w) => JsonData::Str(decimal(u256_value(w@))),
            _ => JsonData::Null,
        }
    } else if expected == "string"@ {
        match token.value {
            TokenData::Text(t) => JsonData::Str(t@),
            _ => JsonData::Null,
        }
    } else if expected == "bool"@ {
        match token.value {
            TokenData::Bool(b) => JsonData::Bool(b),
            _ => JsonData::Null,
        }
    } else {
        JsonData::Str(token.debug@)
    }
}

/// Whether a token is of the type its return is read as (the others are
/// refused: reading them fails).
pub open spec fn token_matches(token: ReturnedToken, expected: Seq<char>) -> bool {
    &&& expected == "uint256"@ ==> token.value is Uint
    &&& expected == "string"@ ==> token.value is Text
    &&& expected == "bool"@ ==> token.value is Bool
}

/// The value a function call of a timer gives, read as `expected_return_type`.
pub fn convert_to_expected_type(token: &ReturnedToken, expected_return_type: &str) -> (res: JsonValue)
    requires
        token_matches(*token, expected_return_type@),
    ensures
        res@ == call_result_json(*token, expected_return_type@),
{
    if crate::text::str_eq(expected_return_type, "uint256") {
        match &token.value {
            TokenData::Uint(w) => JsonValue::String(u256_decimal(w)),
            _ => JsonValue::Null,
        }
    } else if crate::text::str_eq(expected_return_type, "string") {
        match &token.value {
            TokenData::Text(t) => JsonValue::String(t.clone()),
            _ => JsonValue::Null,
        }
    } else if crate::text::str_eq(expected_return_type, "bool") {
        match &token.value {
            TokenData::Bool(b) => JsonValue::Bool(*b),
            _ => JsonValue::Null,
        }
    } else {
        JsonValue::String(token.debug.clone())
    }
}

/// The JSON of one value of a decoded event: a number as its decimal text, an
/// address as `0x` and its hexadecimal digits, a text or a boolean as itself,
/// anything else as the token's text.
pub open spec fn event_value_json(token: ReturnedToken) -> JsonData {
    match token.value {
        TokenData::Uint(w) => JsonData::Str(decimal(u256_value(w@))),
        TokenData::Address(a) => JsonData::Str(address_debug_text(a@)),
        TokenData::Text(t) => JsonData::Str(t@),
        TokenData::Bool(b) => JsonData::Bool(b),
        TokenData::Other => JsonData::Str(token.debug@),
    }
}

/// The JSON array a decoded event is passed on as.
pub fn event_json(tokens: &Vec<ReturnedToken>) -> (res: JsonValue)
    ensures
        res@ == JsonData::Array(tokens@.map_values(|t: ReturnedToken| event_value_json(t))),
{
    let mut out: Vec<JsonValue> = Vec::new();
    let mut i: usize = 0;
    while i < tokens.len()
        invariant
            i <= tokens@.len(),
            out@.len() == i,
            forall|k: int| 0 <= k < i ==> (#[trigger] out@[k])@ == event_value_json(tokens@[k]),
        decreases tokens.len() - i,
    {
        let t = &tokens[i];
        let v = match &t.value {
            TokenData::Uint(w) => JsonValue::String(u256_decimal(w)),
            TokenData::Address(a) => JsonValue::String(address_debug(a)),
            TokenData::Text(x) => JsonValue::String(x.clone()),
            TokenData::Bool(b) => JsonValue::Bool(*b),
            TokenData::Other => JsonValue::String(t.debug.clone()),
        };
        out.push(v);
        i = i + 1;
    }
    let res = JsonValue::array(out);
    proof {
        let m = tokens@.map_values(|t: ReturnedToken| event_value_json(t));
        assert(res@->Array_0 =~= m) by {
            assert forall|k: int| 0 <= k < m.len() implies #[trigger] res@->Array_0[k] == m[k] by {
                assert(values_data(out@)[k] == out@[k]@);
            }
        }
    }
    res
}


/// A new listener node of the owner with this address, under a fresh id.
pub fn configure_new_listener(
    name: &str,
    event_name: &str,
    listener_type: ListenerType,
    encrypted: bool,
    address: &Address,
) -> (res: Result<Listener, String>)
    ensures
        match res {
            Ok(l) => l.name@ == name@ && l.event_name@ == event_name@ && l.listener_type == listener_type
                && l.encrypted == encrypted && owner_id(l.id@, address@),
            Err(e) => e@ == "Invalid timestamp"@,
        },
{
    let id = fresh_id(address)?;
    Ok(Listener { name: owned(name), id, event_name: owned(event_name), listener_type, encrypted })
}

} // verus!
