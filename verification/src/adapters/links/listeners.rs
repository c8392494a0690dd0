//! Listeners that wait for an event before a run goes on: a contract event, a
//! webhook (optionally an SNS subscription), or a timer.

use vstd::prelude::*;
use crate::utils::{fresh_id, owner_id};
use crate::ethereum::{address_debug, address_debug_text, Address};
use crate::json::{entries_data, member, push_member, JsonData, JsonValue};
use crate::text::owned;

verus! {

/// What a listener waits for. Values that live outside the engine (the
/// provider, the wallet, the chain, the timer's interval) are held as the
/// `{:?}` texts the engine records of them.
pub enum ListenerType {
    OnChain { contract_address: Address, event_signature: String, abi: String, provider: String, wallet: String, chain: String },
    OffChain { webhook_url: String, sns_verification: bool },
    Timer { interval: String },
}

pub struct Listener {
    pub name: String,
    pub id: Vec<u8>,
    pub listener_type: ListenerType,
    pub encrypted: bool,
}

pub open spec fn listener_type_json(t: ListenerType) -> JsonData {
    match t {
        ListenerType::OnChain { contract_address, event_signature, abi, provider, wallet, chain } => JsonData::Object(
            member("contract_address"@, JsonData::Str(address_debug_text(contract_address@)))
                + member("event_signature"@, JsonData::Str(event_signature@))
                + member("abi"@, JsonData::Str(abi@))
                + member("provider"@, JsonData::Str(provider@))
                + member("wallet"@, JsonData::Str(wallet@))
                + member("chain"@, JsonData::Str(chain@)),
        ),
        ListenerType::OffChain { webhook_url, sns_verification } => JsonData::Object(
            member("sns_verification"@, JsonData::Bool(sns_verification))
                + member("webhook_url"@, JsonData::Str(webhook_url@)),
        ),
        ListenerType::Timer { interval } => JsonData::Object(member("interval"@, JsonData::Str(interval@))),
    }
}

/// A listener as stored: its name, whether it is encrypted (under `public`),
/// and its kind's settings.
pub open spec fn listener_json(l: Listener) -> JsonData {
    JsonData::Object(
        member("name"@, JsonData::Str(l.name@))
            + member("public"@, JsonData::Bool(l.encrypted))
            + member("listener_type"@, listener_type_json(l.listener_type)),
    )
}

impl Listener {
    pub fn to_json(&self) -> (res: JsonValue)
        ensures
            res@ == listener_json(*self),
    {
        let mut sub: Vec<(String, JsonValue)> = Vec::new();
        match &self.listener_type {
            ListenerType::OnChain { contract_address, event_signature, abi, provider, wallet, chain } => {
                push_member(&mut sub, "contract_address", JsonValue::String(address_debug(contract_address)));
                push_member(&mut sub, "event_signature", JsonValue::String(event_signature.clone()));
                push_member(&mut sub, "abi", JsonValue::String(abi.clone()));
                push_member(&mut sub, "provider", JsonValue::String(provider.clone()));
                push_member(&mut sub, "wallet", JsonValue::String(wallet.clone()));
                push_member(&mut sub, "chain", JsonValue::String(chain.clone()));
            },
            ListenerType::OffChain { webhook_url, sns_verification } => {
                push_member(&mut sub, "sns_verification", JsonValue::Bool(*sns_verification));
                push_member(&mut sub, "webhook_url", JsonValue::String(webhook_url.clone()));
            },
            ListenerType::Timer { interval } => {
                push_member(&mut sub, "interval", JsonValue::String(interval.clone()));
            },
        }
        let kind = JsonValue::object(sub);
        proof {
            match listener_type_json(self.listener_type) {
                JsonData::Object(s) => {
                    assert(entries_data(sub@) =~= s);
                },
                _ => {},
            }
        }
        let mut e: Vec<(String, JsonValue)> = Vec::new();
        push_member(&mut e, "name", JsonValue::String(self.name.clone()));
        push_member(&mut e, "public", JsonValue::Bool(self.encrypted));
        push_member(&mut e, "listener_type", kind);
        let res = JsonValue::object(e);
        proof {
            match listener_json(*self) {
                JsonData::Object(s) => {
                    assert(entries_data(e@) =~= s);
                },
                _ => {},
            }
        }
        res
    }
}

/// Whether a listener that has made `executed` rounds is done: only a
/// positive limit ends it.
pub open spec fn listening_done(executed: u64, repetitions: Option<u64>) -> bool {
    match repetitions {
        Some(m) => executed >= m && m > 0,
        None => false,
    }
}

pub fn should_stop(executed: u64, repetitions: Option<u64>) -> (res: bool)
    ensures
        res == listening_done(executed, repetitions),
{
    match repetitions {
        Some(m) => executed >= m && m > 0,
        None => false,
    }
}

/// What a webhook listener does with a payload.
pub enum WebhookAction {
    /// Hand the payload on as the event.
    Forward,
    /// Confirm an SNS subscription at this address.
    Confirm(String),
    /// Nothing.
    Ignore,
}

pub ghost enum WebhookStep {
    Forward,
    Confirm(Seq<char>),
    Ignore,
}

impl WebhookAction {
    pub open spec fn step(self) -> WebhookStep {
        match self {
            WebhookAction::Forward => WebhookStep::Forward,
            WebhookAction::Confirm(u) => WebhookStep::Confirm(u@),
            WebhookAction::Ignore => WebhookStep::Ignore,
        }
    }
}

/// Without SNS every payload is an event. With SNS a notification is an
/// event, a subscription confirmation with an address is confirmed there,
/// and anything else is ignored.
pub open spec fn webhook_step(sns_verification: bool, payload: JsonData) -> WebhookStep {
    if !sns_verification {
        WebhookStep::Forward
    } else {
        match payload.str_at("Type"@) {
            Some(t) => if t == "SubscriptionConfirmation"@ {
                match payload.str_at("SubscribeURL"@) {
                    Some(u) => WebhookStep::Confirm(u),
                    None => WebhookStep::Ignore,
                }
            } else if t == "Notification"@ {
                WebhookStep::Forward
            } else {
                WebhookStep::Ignore
            },
            None => WebhookStep::Ignore,
        }
    }
}

pub fn webhook_action(sns_verification: bool, payload: &JsonValue) -> (res: WebhookAction)
    ensures
        res.step() == webhook_step(sns_verification, payload@),
{
    if !sns_verification {
        return WebhookAction::Forward;
    }
    match payload.str_member("Type") {
        Some(t) => if crate::text::str_eq(t, "SubscriptionConfirmation") {
            match payload.str_member("SubscribeURL") {
                Some(u) => WebhookAction::Confirm(owned(u)),
                None => WebhookAction::Ignore,
            }
        } else if crate::text::str_eq(t, "Notification") {
            WebhookAction::Forward
        } else {
            WebhookAction::Ignore
        },
        None => WebhookAction::Ignore,
    }
}


/// A new listener of the owner with this address, under a fresh id.
pub fn configure_new_listener(name: &str, listener_type: ListenerType, encrypted: bool, address: &Address) -> (res: Result<Listener, String>)
    ensures
        match res {
            Ok(l) => l.name@ == name@ && l.listener_type == listener_type && l.encrypted == encrypted && owner_id(l.id@, address@),
            Err(e) => e@ == "Invalid timestamp"@,
        },
{
    let id = fresh_id(address)?;
    Ok(Listener { name: owned(name), id, listener_type, encrypted })
}


/// The law of webhook payloads: a payload is handed on as an event exactly
/// when SNS verification is off or the payload is an SNS notification; an SNS
/// subscription confirmation with an address is confirmed at that address.
pub proof fn law_webhook_forwards_events(sns_verification: bool, payload: JsonData)
    ensures
        webhook_step(sns_verification, payload) == WebhookStep::Forward
            <==> (!sns_verification || payload.str_at("Type"@) == Some("Notification"@)),
        sns_verification && payload.str_at("Type"@) == Some("SubscriptionConfirmation"@)
            && payload.str_at("SubscribeURL"@) is Some
            ==> webhook_step(sns_verification, payload) == WebhookStep::Confirm(payload.str_at("SubscribeURL"@).unwrap()),
{
    reveal_strlit("Notification");
    reveal_strlit("SubscriptionConfirmation");
    assert("Notification"@.len() != "SubscriptionConfirmation"@.len());
}

} // verus!
