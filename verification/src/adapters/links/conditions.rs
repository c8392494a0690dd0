//! Conditions: links that let a run go on only when a check holds. A check
//! reads a contract, an HTTP endpoint, the context of the previous step or the
//! time of day, or combines sub-conditions with a logical operator.

use vstd::prelude::*;
use crate::assoc::{key_at, lookup};
use crate::ethereum::{address_debug, address_debug_text, address_of_text, parse_address, Address};
use crate::function_ref::{function_text, FunctionRef};
use crate::json::{clone_opt, entries_data, opt_data, values_data, JsonData, JsonValue};
use crate::text::{append_two_digits, owned, str_eq, two_digits};

verus! {

/// How the results of sub-conditions are combined.
#[derive(Debug, PartialEq, Eq, Clone, Copy)]
pub enum LogicalOperator {
    And,
    Or,
    Not,
}

/// The name of an operator, as `{:?}` writes it.
pub open spec fn operator_name(op: LogicalOperator) -> Seq<char> {
    match op {
        LogicalOperator::And => "And"@,
        LogicalOperator::Or => "Or"@,
        LogicalOperator::Not => "Not"@,
    }
}

/// The operator a text names, or the message refusing it.
pub open spec fn operator_of_text(s: Seq<char>) -> Result<LogicalOperator, Seq<char>> {
    if s == "And"@ {
        Ok(LogicalOperator::And)
    } else if s == "Or"@ {
        Ok(LogicalOperator::Or)
    } else if s == "Not"@ {
        Ok(LogicalOperator::Not)
    } else {
        Err("Invalid LogicalOperator: "@ + s)
    }
}

impl LogicalOperator {
    /// Reads an operator from its exact name.
    pub fn parse(s: &str) -> (res: Result<LogicalOperator, String>)
        ensures
            match res {
                Ok(op) => operator_of_text(s@) == Ok::<LogicalOperator, Seq<char>>(op),
                Err(e) => operator_of_text(s@) == Err::<LogicalOperator, Seq<char>>(e@),
            },
    {
        if str_eq(s, "And") {
            Ok(LogicalOperator::And)
        } else if str_eq(s, "Or") {
            Ok(LogicalOperator::Or)
        } else if str_eq(s, "Not") {
            Ok(LogicalOperator::Not)
        } else {
            let mut msg = owned("Invalid LogicalOperator: ");
            msg.append(s);
            Err(msg)
        }
    }

    pub fn name(&self) -> (res: String)
        ensures
            res@ == operator_name(*self),
    {
        match self {
            LogicalOperator::And => owned("And"),
            LogicalOperator::Or => owned("Or"),
            LogicalOperator::Not => owned("Not"),
        }
    }
}

impl core::str::FromStr for LogicalOperator {
    type Err = String;

    fn from_str(s: &str) -> (res: Result<LogicalOperator, String>)
        ensures
            match res {
                Ok(op) => operator_of_text(s@) == Ok::<LogicalOperator, Seq<char>>(op),
                Err(e) => operator_of_text(s@) == Err::<LogicalOperator, Seq<char>>(e@),
            },
    {
        LogicalOperator::parse(s)
    }
}

/// Whether the time of day is to be before or after the condition's time.
#[derive(Debug, PartialEq, Eq, Clone, Copy)]
pub enum TimeComparisonType {
    Before,
    After,
}

pub open spec fn comparison_name(t: TimeComparisonType) -> Seq<char> {
    match t {
        TimeComparisonType::Before => "Before"@,
        TimeComparisonType::After => "After"@,
    }
}

pub open spec fn comparison_of_text(s: Seq<char>) -> Result<TimeComparisonType, Seq<char>> {
    if s == "Before"@ {
        Ok(TimeComparisonType::Before)
    } else if s == "After"@ {
        Ok(TimeComparisonType::After)
    } else {
        Err("Invalid TimeComparisonType: "@ + s)
    }
}

impl TimeComparisonType {
    /// Reads a comparison from its exact name.
    pub fn parse(s: &str) -> (res: Result<TimeComparisonType, String>)
        ensures
            match res {
                Ok(t) => comparison_of_text(s@) == Ok::<TimeComparisonType, Seq<char>>(t),
                Err(e) => comparison_of_text(s@) == Err::<TimeComparisonType, Seq<char>>(e@),
            },
    {
        if str_eq(s, "Before") {
            Ok(TimeComparisonType::Before)
        } else if str_eq(s, "After") {
            Ok(TimeComparisonType::After)
        } else {
            let mut msg = owned("Invalid TimeComparisonType: ");
            msg.append(s);
            Err(msg)
        }
    }

    pub fn name(&self) -> (res: String)
        ensures
            res@ == comparison_name(*self),
    {
        match self {
            TimeComparisonType::Before => owned("Before"),
            TimeComparisonType::After => owned("After"),
        }
    }
}

impl core::str::FromStr for TimeComparisonType {
    type Err = String;

    fn from_str(s: &str) -> (res: Result<TimeComparisonType, String>)
        ensures
            match res {
                Ok(t) => comparison_of_text(s@) == Ok::<TimeComparisonType, Seq<char>>(t),
                Err(e) => comparison_of_text(s@) == Err::<TimeComparisonType, Seq<char>>(e@),
            },
    {
        TimeComparisonType::parse(s)
    }
}

/// A time of day: seconds since midnight and a fraction in nanoseconds, which
/// passes one second only during a leap second (at the 59th second of a minute).
#[derive(Debug, PartialEq, Eq, Clone, Copy)]
pub struct TimeOfDay {
    secs: u32,
    frac: u32,
}

pub open spec fn valid_time_of_day(secs: u32, frac: u32) -> bool {
    secs < 86_400 && frac < 2_000_000_000 && (frac >= 1_000_000_000 ==> secs % 60 == 59)
}

/// The time a text spells, as chrono's `NaiveTime` parses it.
pub uninterp spec fn time_of_day_of_text(s: Seq<char>) -> Option<(u32, u32)>;

/// The text of the error that reading a text as a time of day gives.
pub uninterp spec fn time_error_text(s: Seq<char>) -> Seq<char>;

/// The `%H:%M:%S` text of a time of day, each part zero-padded to two digits;
/// a leap second (a fraction of a whole second or more) shows as second 60.
pub open spec fn hms_text(secs: u32, frac: u32) -> Seq<char> {
    two_digits((secs / 3600) as int) + ":"@ + two_digits(((secs / 60) % 60) as int) + ":"@
        + two_digits((secs % 60) as int + (frac / 1_000_000_000) as int)
}

impl TimeOfDay {
    #[verifier::type_invariant]
    spec fn inv(self) -> bool {
        valid_time_of_day(self.secs, self.frac)
    }

    pub closed spec fn spec_secs(self) -> u32 {
        self.secs
    }

    pub closed spec fn spec_frac(self) -> u32 {
        self.frac
    }

    /// The time of day at `secs` seconds past midnight and `frac` nanoseconds;
    /// none where those do not make one.
    pub fn new(secs: u32, frac: u32) -> (res: Option<TimeOfDay>)
        ensures
            match res {
                Some(t) => valid_time_of_day(secs, frac) && t.spec_secs() == secs && t.spec_frac() == frac,
                None => !valid_time_of_day(secs, frac),
            },
    {
        if secs >= 86_400 || frac >= 2_000_000_000 || (frac >= 1_000_000_000 && secs % 60 != 59) {
            None
        } else {
            Some(TimeOfDay { secs, frac })
        }
    }

    pub fn secs(&self) -> (res: u32)
        ensures
            res == self.spec_secs(),
    {
        self.secs
    }

    pub fn frac(&self) -> (res: u32)
        ensures
            res == self.spec_frac(),
    {
        self.frac
    }

    /// Whether `self` comes strictly before `other` (times order by seconds,
    /// then by fraction).
    pub open spec fn spec_lt(self, other: TimeOfDay) -> bool {
        self.spec_secs() < other.spec_secs()
            || (self.spec_secs() == other.spec_secs() && self.spec_frac() < other.spec_frac())
    }

    pub fn lt(&self, other: &TimeOfDay) -> (res: bool)
        ensures
            res == self.spec_lt(*other),
    {
        self.secs < other.secs || (self.secs == other.secs && self.frac < other.frac)
    }

    /// Reads a time of day (chrono `NaiveTime` `FromStr`); trusted to give the
    /// time that depends on the text alone.
    #[verifier::external_body]
    pub fn parse(s: &str) -> (res: Option<TimeOfDay>)
        ensures
            match res {
                Some(t) => time_of_day_of_text(s@) == Some((t.spec_secs(), t.spec_frac())),
                None => time_of_day_of_text(s@) is None,
            },
    {
        match s.parse::<chrono::NaiveTime>() {
            Ok(t) => Some(TimeOfDay {
                secs: chrono::Timelike::num_seconds_from_midnight(&t),
                frac: chrono::Timelike::nanosecond(&t),
            }),
            Err(_) => None,
        }
    }

    /// The error of reading a text that is no time of day (chrono `NaiveTime`
    /// `FromStr`, its `ParseError` shown by `Display`); trusted to depend on the
    /// text alone.
    #[verifier::external_body]
    pub fn parse_error(s: &str) -> (res: String)
        ensures
            time_of_day_of_text(s@) is None ==> res@ == time_error_text(s@),
    {
        match s.parse::<chrono::NaiveTime>() {
            Ok(_) => String::new(),
            Err(e) => e.to_string(),
        }
    }

    /// Formats the time as `%H:%M:%S` does.
    pub fn hms(&self) -> (res: String)
        ensures
            res@ == hms_text(self.spec_secs(), self.spec_frac()),
    {
        proof { use_type_invariant(self); }
        let mut s = String::new();
        append_two_digits(&mut s, self.secs / 3600);
        s.append(":");
        append_two_digits(&mut s, (self.secs / 60) % 60);
        s.append(":");
        append_two_digits(&mut s, self.secs % 60 + self.frac / 1_000_000_000);
        proof {
            reveal_strlit(":");
        }
        s
    }
}

/// Whether a time-based condition holds at the time of day `now`.
pub open spec fn time_condition_holds(now: TimeOfDay, at: TimeOfDay, comparison: TimeComparisonType) -> bool {
    match comparison {
        TimeComparisonType::Before => now.spec_lt(at),
        TimeComparisonType::After => at.spec_lt(now),
    }
}

/// Checks a time-based condition against the current time of day.
pub fn check_time(now: &TimeOfDay, at: &TimeOfDay, comparison: TimeComparisonType) -> (res: bool)
    ensures
        res == time_condition_holds(*now, *at, comparison),
{
    match comparison {
        TimeComparisonType::Before => now.lt(at),
        TimeComparisonType::After => at.lt(now),
    }
}

/// The check of a condition: the function that judges a value, and the value
/// the condition expects, if any.
pub struct ConditionCheck {
    pub condition_fn: FunctionRef,
    pub expected_value: Option<JsonValue>,
}

/// What a condition reads.
pub enum ConditionType {
    OnChain { contract_address: Address, function_signature: String },
    OffChain { api_url: String },
    ContextBased,
    TimeBased { comparison_time: TimeOfDay, comparison_type: TimeComparisonType },
    Composite { operator: LogicalOperator, sub_conditions: Vec<Condition> },
}

/// A condition adapter.
pub struct Condition {
    pub name: String,
    pub condition_type: ConditionType,
    pub check: ConditionCheck,
    pub encrypted: bool,
    pub id: Vec<u8>,
}

/// The content of a condition's kind.
pub ghost enum ConditionTypeData {
    OnChain { contract_address: Seq<u8>, function_signature: Seq<char> },
    OffChain { api_url: Seq<char> },
    ContextBased,
    TimeBased { comparison_time: TimeOfDay, comparison_type: TimeComparisonType },
    Composite { operator: LogicalOperator, sub_conditions: Seq<ConditionData> },
}

/// The content of a condition.
pub ghost struct ConditionData {
    pub name: Seq<char>,
    pub condition_type: ConditionTypeData,
    pub condition_fn: FunctionRef,
    pub expected_value: Option<JsonData>,
    pub encrypted: bool,
    pub id: Seq<u8>,
}

impl ConditionType {
    pub open spec fn data(self) -> ConditionTypeData
        decreases self, 0int,
    {
        match self {
            ConditionType::OnChain { contract_address, function_signature } => ConditionTypeData::OnChain {
                contract_address: contract_address@,
                function_signature: function_signature@,
            },
            ConditionType::OffChain { api_url } => ConditionTypeData::OffChain { api_url: api_url@ },
            ConditionType::ContextBased => ConditionTypeData::ContextBased,
            ConditionType::TimeBased { comparison_time, comparison_type } => ConditionTypeData::TimeBased {
                comparison_time,
                comparison_type,
            },
            ConditionType::Composite { operator, sub_conditions } => ConditionTypeData::Composite {
                operator,
                sub_conditions: Seq::new(
                    sub_conditions@.len(),
                    |i: int|
                        if 0 <= i < sub_conditions@.len() {
                            sub_conditions@[i].data()
                        } else {
                            arbitrary()
                        },
                ),
            },
        }
    }
}

impl Condition {
    pub open spec fn data(self) -> ConditionData
        decreases self, 0int,
    {
        ConditionData {
            name: self.name@,
            condition_type: self.condition_type.data(),
            condition_fn: self.check.condition_fn,
            expected_value: opt_data(self.check.expected_value),
            encrypted: self.encrypted,
            id: self.id@,
        }
    }
}

/// The contents of a list of conditions.
pub open spec fn conditions_data(items: Seq<Condition>) -> Seq<ConditionData> {
    Seq::new(items.len(), |i: int| items[i].data())
}

pub proof fn lemma_composite_data(operator: LogicalOperator, subs: Vec<Condition>)
    ensures
        (ConditionType::Composite { operator, sub_conditions: subs }).data() == (ConditionTypeData::Composite {
            operator,
            sub_conditions: conditions_data(subs@),
        }),
{
    let d = (ConditionType::Composite { operator, sub_conditions: subs }).data();
    if let ConditionTypeData::Composite { operator: o, sub_conditions: s } = d {
        assert forall|i: int| 0 <= i < s.len() implies s[i] == conditions_data(subs@)[i] by {}
        assert(s =~= conditions_data(subs@));
    }
}

/// The member under `key` of a JSON value, with where it sits: the result of
/// `get` when the value is an object that has the key.
pub open spec fn member(v: JsonData, key: Seq<char>) -> Option<JsonData> {
    v.get(key)
}

/// The bytes of an `id` array: every item must be a non-negative integer,
/// which is kept modulo 256.
pub open spec fn id_bytes(items: Seq<JsonData>) -> Result<Seq<u8>, Seq<char>> {
    if forall|i: int| 0 <= i < items.len() ==> (#[trigger] items[i]).as_u64() is Some {
        Ok(Seq::new(items.len(), |i: int| (items[i].as_u64().unwrap() % 256) as u8))
    } else {
        Err("Invalid `id` element"@)
    }
}

/// Reading a condition from JSON, as `Condition::from_json` does.
pub open spec fn parse_condition(v: JsonData) -> Result<ConditionData, Seq<char>>
    decreases v, 0int,
{
    match v.str_at("name"@) {
        None => Err("Missing or invalid `name`"@),
        Some(name) => match v {
            JsonData::Object(m) => {
                if exists|i: int| key_at(m, "condition_type"@, i) {
                    let i = choose|i: int| key_at(m, "condition_type"@, i);
                    match parse_condition_type(m[i].1) {
                        Err(e) => Err(e),
                        Ok(condition_type) => match v.get("check"@) {
                            None => Err("Missing `check`"@),
                            Some(check) => match v.bool_at("encrypted"@) {
                                None => Err("Missing or invalid `encrypted`"@),
                                Some(encrypted) => match v.array_at("id"@) {
                                    None => Err("Missing or invalid `id`"@),
                                    Some(items) => match id_bytes(items) {
                                        Err(e) => Err(e),
                                        Ok(id) => Ok(ConditionData {
                                            name,
                                            condition_type,
                                            condition_fn: FunctionRef::AcceptAll,
                                            expected_value: check.get("expected_value"@),
                                            encrypted,
                                            id,
                                        }),
                                    },
                                },
                            },
                        },
                    }
                } else {
                    Err("Missing `condition_type`"@)
                }
            },
            _ => Err("Missing `condition_type`"@),
        },
    }
}

/// Reading the sub-conditions from `start` on; the first failure is reported.
pub open spec fn parse_conditions_from(items: Seq<JsonData>, start: int) -> Result<Seq<ConditionData>, Seq<char>>
    decreases items, items.len() - start,
{
    if start < 0 || start >= items.len() {
        Ok(Seq::empty())
    } else {
        match parse_condition(items[start]) {
            Err(e) => Err(e),
            Ok(c) => match parse_conditions_from(items, start + 1) {
                Err(e) => Err(e),
                Ok(rest) => Ok(seq![c] + rest),
            },
        }
    }
}

/// Reading a condition's kind from JSON, as `ConditionType::from_json` does:
/// the first of `OnChain`, `OffChain`, `TimeBased` and `Composite` that the
/// object has decides.
pub open spec fn parse_condition_type(v: JsonData) -> Result<ConditionTypeData, Seq<char>>
    decreases v, 0int,
{
    if let Some(on_chain) = v.get("OnChain"@) {
        match on_chain.str_at("contract_address"@) {
            None => Err("Missing or invalid `contract_address`"@),
            Some(text) => match address_of_text(text) {
                None => Err("Invalid `contract_address`"@),
                Some(contract_address) => match on_chain.str_at("function_signature"@) {
                    None => Err("Missing or invalid `function_signature`"@),
                    Some(function_signature) => Ok(ConditionTypeData::OnChain { contract_address, function_signature }),
                },
            },
        }
    } else if let Some(off_chain) = v.get("OffChain"@) {
        match off_chain.str_at("api_url"@) {
            None => Err("Missing or invalid `api_url`"@),
            Some(api_url) => Ok(ConditionTypeData::OffChain { api_url }),
        }
    } else if let Some(time_based) = v.get("TimeBased"@) {
        match time_based.str_at("comparison_time"@) {
            None => Err("Missing or invalid `comparison_time`"@),
            Some(text) => match time_of_day_of_text(text) {
                None => Err("Invalid `comparison_time` format"@),
                Some(t) => match time_based.str_at("comparison_type"@) {
                    None => Err("Missing or invalid `comparison_type`"@),
                    Some(ct) => match comparison_of_text(ct) {
                        Err(e) => Err(e),
                        Ok(comparison_type) => Ok(ConditionTypeData::TimeBased {
                            comparison_time: choose|c: TimeOfDay| c.spec_secs() == t.0 && c.spec_frac() == t.1,
                            comparison_type,
                        }),
                    },
                },
            },
        }
    } else {
        match v {
            JsonData::Object(m) => {
                if exists|i: int| key_at(m, "Composite"@, i) {
                    let i = choose|i: int| key_at(m, "Composite"@, i);
                    let composite = m[i].1;
                    match composite.str_at("operator"@) {
                        None => Err("Missing or invalid `operator`"@),
                        Some(op_text) => match operator_of_text(op_text) {
                            Err(e) => Err(e),
                            Ok(operator) => match composite {
                                JsonData::Object(cm) => {
                                    if exists|j: int| key_at(cm, "sub_conditions"@, j) {
                                        let j = choose|j: int| key_at(cm, "sub_conditions"@, j);
                                        match cm[j].1 {
                                            JsonData::Array(items) => match parse_conditions_from(items, 0) {
                                                Err(e) => Err(e),
                                                Ok(sub_conditions) => Ok(ConditionTypeData::Composite { operator, sub_conditions }),
                                            },
                                            _ => Err("Missing or invalid `sub_conditions`"@),
                                        }
                                    } else {
                                        Err("Missing or invalid `sub_conditions`"@)
                                    }
                                },
                                _ => Err("Missing or invalid `sub_conditions`"@),
                            },
                        },
                    }
                } else {
                    Err("Unknown `ConditionType` variant"@)
                }
            },
            _ => Err("Unknown `ConditionType` variant"@),
        }
    }
}

pub open spec fn condition_result(r: Result<Condition, String>) -> Result<ConditionData, Seq<char>> {
    match r {
        Ok(c) => Ok(c.data()),
        Err(e) => Err(e@),
    }
}

pub open spec fn condition_type_result(r: Result<ConditionType, String>) -> Result<ConditionTypeData, Seq<char>> {
    match r {
        Ok(c) => Ok(c.data()),
        Err(e) => Err(e@),
    }
}

pub open spec fn conditions_result(r: Result<Vec<Condition>, String>) -> Result<Seq<ConditionData>, Seq<char>> {
    match r {
        Ok(c) => Ok(conditions_data(c@)),
        Err(e) => Err(e@),
    }
}

fn id_from_json(items: &Vec<JsonValue>) -> (res: Result<Vec<u8>, String>)
    ensures
        match res {
            Ok(id) => id_bytes(values_data(items@)) == Ok::<Seq<u8>, Seq<char>>(id@),
            Err(e) => id_bytes(values_data(items@)) == Err::<Seq<u8>, Seq<char>>(e@),
        },
{
    let ghost d = values_data(items@);
    let mut out: Vec<u8> = Vec::new();
    let mut i: usize = 0;
    while i < items.len()
        invariant
            0 <= i <= items@.len(),
            d == values_data(items@),
            out@.len() == i,
            forall|j: int| 0 <= j < i ==> (#[trigger] d[j]).as_u64() is Some && out@[j] == (d[j].as_u64().unwrap() % 256) as u8,
        decreases items@.len() - i,
    {
        match items[i].as_u64() {
            Some(n) => {
                out.push((n % 256) as u8);
            },
            None => {
                assert(d[i as int].as_u64() is None);
                return Err(owned("Invalid `id` element"));
            },
        }
        i = i + 1;
    }
    assert(out@ =~= Seq::new(d.len(), |j: int| (d[j].as_u64().unwrap() % 256) as u8));
    Ok(out)
}

impl ConditionCheck {
    /// The check described by a JSON value: the built-in check that accepts
    /// every value, expecting the value's `expected_value` member if it has one.
    pub fn from_json(value: &JsonValue) -> (res: Result<ConditionCheck, String>)
        ensures
            match res {
                Ok(c) => c.condition_fn == FunctionRef::AcceptAll && opt_data(c.expected_value) == value@.get("expected_value"@),
                Err(_) => false,
            },
    {
        let expected_value = match value.get("expected_value") {
            Some(v) => Some(v.deep_clone()),
            None => None,
        };
        Ok(ConditionCheck { condition_fn: FunctionRef::AcceptAll, expected_value })
    }
}

impl ConditionType {
    /// Reads a condition's kind from JSON (see `parse_condition_type`).
    pub fn from_json(value: &JsonValue) -> (res: Result<ConditionType, String>)
        ensures
            condition_type_result(res) == parse_condition_type(value@),
        decreases value, 0int,
    {
        if let Some(on_chain) = value.get("OnChain") {
            let text = match on_chain.str_member("contract_address") {
                Some(t) => t,
                None => return Err(owned("Missing or invalid `contract_address`")),
            };
            let contract_address = match parse_address(text) {
                Some(a) => a,
                None => return Err(owned("Invalid `contract_address`")),
            };
            let function_signature = match on_chain.str_member("function_signature") {
                Some(t) => owned(t),
                None => return Err(owned("Missing or invalid `function_signature`")),
            };
            return Ok(ConditionType::OnChain { contract_address, function_signature });
        }
        if let Some(off_chain) = value.get("OffChain") {
            let api_url = match off_chain.str_member("api_url") {
                Some(t) => owned(t),
                None => return Err(owned("Missing or invalid `api_url`")),
            };
            return Ok(ConditionType::OffChain { api_url });
        }
        if let Some(time_based) = value.get("TimeBased") {
            let text = match time_based.str_member("comparison_time") {
                Some(t) => t,
                None => return Err(owned("Missing or invalid `comparison_time`")),
            };
            let comparison_time = match TimeOfDay::parse(text) {
                Some(t) => t,
                None => return Err(owned("Invalid `comparison_time` format")),
            };
            let ct = match time_based.str_member("comparison_type") {
                Some(t) => t,
                None => return Err(owned("Missing or invalid `comparison_type`")),
            };
            let comparison_type = match TimeComparisonType::parse(ct) {
                Ok(c) => c,
                Err(e) => return Err(e),
            };
            proof {
                let c = choose|c: TimeOfDay| c.spec_secs() == comparison_time.spec_secs() && c.spec_frac() == comparison_time.spec_frac();
                assert(c == comparison_time);
            }
            return Ok(ConditionType::TimeBased { comparison_time, comparison_type });
        }
        if let Some(composite) = value.get("Composite") {
            let op_text = match composite.str_member("operator") {
                Some(t) => t,
                None => return Err(owned("Missing or invalid `operator`")),
            };
            let operator = match LogicalOperator::parse(op_text) {
                Ok(o) => o,
                Err(e) => return Err(e),
            };
            let items = match composite.array_member("sub_conditions") {
                Some(items) => items,
                None => return Err(owned("Missing or invalid `sub_conditions`")),
            };
            let sub_conditions = match conditions_from_json(items, 0) {
                Ok(s) => s,
                Err(e) => return Err(e),
            };
            proof { lemma_composite_data(operator, sub_conditions); }
            return Ok(ConditionType::Composite { operator, sub_conditions });
        }
        Err(owned("Unknown `ConditionType` variant"))
    }
}

/// Reads the conditions of a list from `start` on; the first failure is reported.
pub fn conditions_from_json(items: &Vec<JsonValue>, start: usize) -> (res: Result<Vec<Condition>, String>)
    ensures
        conditions_result(res) == parse_conditions_from(values_data(items@), start as int),
    decreases items, items@.len() - start,
{
    if start >= items.len() {
        let out: Vec<Condition> = Vec::new();
        assert(conditions_data(out@) =~= Seq::<ConditionData>::empty());
        return Ok(out);
    }
    assert(decreases_to!(*items => items@));
    assert(decreases_to!(items@ => items@[start as int]));
    let first = match Condition::from_json(&items[start]) {
        Ok(c) => c,
        Err(e) => return Err(e),
    };
    let mut rest = match conditions_from_json(items, start + 1) {
        Ok(r) => r,
        Err(e) => return Err(e),
    };
    let ghost r0 = rest@;
    rest.insert(0, first);
    assert(conditions_data(rest@) =~= seq![first.data()] + conditions_data(r0));
    Ok(rest)
}

impl Condition {
    /// Reads a condition from JSON (see `parse_condition`).
    pub fn from_json(value: &JsonValue) -> (res: Result<Condition, String>)
        ensures
            condition_result(res) == parse_condition(value@),
        decreases value, 0int,
    {
        let name = match value.str_member("name") {
            Some(t) => owned(t),
            None => return Err(owned("Missing or invalid `name`")),
        };
        let ct = match value.get("condition_type") {
            Some(v) => v,
            None => return Err(owned("Missing `condition_type`")),
        };
        let condition_type = match ConditionType::from_json(ct) {
            Ok(c) => c,
            Err(e) => return Err(e),
        };
        let check_value = match value.get("check") {
            Some(v) => v,
            None => return Err(owned("Missing `check`")),
        };
        let check = match ConditionCheck::from_json(check_value) {
            Ok(c) => c,
            Err(e) => return Err(e),
        };
        let encrypted = match value.bool_member("encrypted") {
            Some(b) => b,
            None => return Err(owned("Missing or invalid `encrypted`")),
        };
        let id_items = match value.array_member("id") {
            Some(items) => items,
            None => return Err(owned("Missing or invalid `id`")),
        };
        let id = match id_from_json(id_items) {
            Ok(id) => id,
            Err(e) => return Err(e),
        };
        Ok(Condition { name, condition_type, check, encrypted, id })
    }
}

/// An object built member by member with distinct keys.
pub open spec fn json_object(members: Seq<(Seq<char>, JsonData)>) -> JsonData {
    JsonData::Object(members)
}

/// The check's description: the function's text and the expected value
/// (null when there is none).
pub open spec fn check_json(condition_fn: FunctionRef, expected: Option<JsonData>) -> Seq<(Seq<char>, JsonData)> {
    seq![
        ("condition_fn"@, JsonData::Str(function_text(condition_fn))),
        ("expected_value"@, match expected { Some(v) => v, None => JsonData::Null }),
    ]
}

/// The description of a condition's kind.
pub open spec fn condition_type_json(t: ConditionTypeData) -> JsonData
    decreases t, 0int,
{
    match t {
        ConditionTypeData::OnChain { contract_address, function_signature } => json_object(seq![
            ("contract_address"@, JsonData::Str(address_debug_text(contract_address))),
            ("function_signature"@, JsonData::Str(function_signature)),
        ]),
        ConditionTypeData::OffChain { api_url } => json_object(seq![("api_url"@, JsonData::Str(api_url))]),
        ConditionTypeData::ContextBased => json_object(Seq::empty()),
        ConditionTypeData::TimeBased { comparison_time, comparison_type } => json_object(seq![
            ("comparison_time"@, JsonData::Str(hms_text(comparison_time.spec_secs(), comparison_time.spec_frac()))),
            ("comparison_type"@, JsonData::Str(comparison_name(comparison_type))),
        ]),
        ConditionTypeData::Composite { operator, sub_conditions } => json_object(seq![
            ("operator"@, JsonData::Str(operator_name(operator))),
            ("sub_conditions"@, JsonData::Array(sub_conditions_json(sub_conditions))),
        ]),
    }
}

/// The descriptions of sub-conditions, each wrapped under `condition`.
pub open spec fn sub_conditions_json(subs: Seq<ConditionData>) -> Seq<JsonData>
    decreases subs, 0int,
{
    Seq::new(
        subs.len(),
        |i: int|
            if 0 <= i < subs.len() {
                json_object(seq![("condition"@, condition_json(subs[i]))])
            } else {
                JsonData::Null
            },
    )
}

/// The description of a condition, as `Condition::to_json` gives it.
pub open spec fn condition_json(c: ConditionData) -> JsonData
    decreases c, 1int,
{
    json_object(seq![
        ("name"@, JsonData::Str(c.name)),
        ("public"@, JsonData::Bool(c.encrypted)),
        ("condition_type"@, condition_type_json(c.condition_type)),
        ("check"@, json_object(check_json(c.condition_fn, c.expected_value))),
    ])
}

impl ConditionCheck {
    /// The check's description (`condition_fn` and `expected_value` members).
    pub fn to_stringified(&self) -> (res: Vec<(String, JsonValue)>)
        ensures
            entries_data(res@) == check_json(self.condition_fn, opt_data(self.expected_value)),
    {
        let mut map: Vec<(String, JsonValue)> = Vec::new();
        map.push((owned("condition_fn"), JsonValue::String(self.condition_fn.text())));
        let expected = match &self.expected_value {
            Some(v) => v.deep_clone(),
            None => JsonValue::Null,
        };
        map.push((owned("expected_value"), expected));
        assert(entries_data(map@) =~= check_json(self.condition_fn, opt_data(self.expected_value)));
        map
    }
}

impl ConditionType {
    pub fn to_json(&self) -> (res: JsonValue)
        ensures
            res@ == condition_type_json(self.data()),
        decreases self, 0int,
    {
        match self {
            ConditionType::OnChain { contract_address, function_signature } => {
                let mut m: Vec<(String, JsonValue)> = Vec::new();
                m.push((owned("contract_address"), JsonValue::String(address_debug(contract_address))));
                m.push((owned("function_signature"), JsonValue::String(function_signature.clone())));
                let ghost want = seq![
                    ("contract_address"@, JsonData::Str(address_debug_text(contract_address@))),
                    ("function_signature"@, JsonData::Str(function_signature@)),
                ];
                assert(entries_data(m@) =~= want);
                JsonValue::object(m)
            },
            ConditionType::OffChain { api_url } => {
                let mut m: Vec<(String, JsonValue)> = Vec::new();
                m.push((owned("api_url"), JsonValue::String(api_url.clone())));
                assert(entries_data(m@) =~= seq![("api_url"@, JsonData::Str(api_url@))]);
                JsonValue::object(m)
            },
            ConditionType::ContextBased => {
                let m: Vec<(String, JsonValue)> = Vec::new();
                assert(entries_data(m@) =~= Seq::<(Seq<char>, JsonData)>::empty());
                JsonValue::object(m)
            },
            ConditionType::TimeBased { comparison_time, comparison_type } => {
                let mut m: Vec<(String, JsonValue)> = Vec::new();
                m.push((owned("comparison_time"), JsonValue::String(comparison_time.hms())));
                m.push((owned("comparison_type"), JsonValue::String(comparison_type.name())));
                let ghost want = seq![
                    ("comparison_time"@, JsonData::Str(hms_text(comparison_time.spec_secs(), comparison_time.spec_frac()))),
                    ("comparison_type"@, JsonData::Str(comparison_name(*comparison_type))),
                ];
                assert(entries_data(m@) =~= want);
                JsonValue::object(m)
            },
            ConditionType::Composite { operator, sub_conditions } => {
                proof { lemma_composite_data(*operator, *sub_conditions); }
                let ghost subs = conditions_data(sub_conditions@);
                let mut items: Vec<JsonValue> = Vec::new();
                let mut i: usize = 0;
                while i < sub_conditions.len()
                    invariant
                        *self == (ConditionType::Composite { operator: *operator, sub_conditions: *sub_conditions }),
                        subs == conditions_data(sub_conditions@),
                        0 <= i <= sub_conditions@.len(),
                        items@.len() == i,
                        forall|j: int| 0 <= j < i ==> (#[trigger] items@[j])@ == json_object(seq![("condition"@, condition_json(subs[j]))]),
                    decreases sub_conditions@.len() - i,
                {
                    assert(decreases_to!(*self => (*self)->Composite_sub_conditions));
                    assert(decreases_to!(*sub_conditions => sub_conditions@));
                    assert(decreases_to!(sub_conditions@ => sub_conditions@[i as int]));
                    let inner = sub_conditions[i].to_json();
                    let mut wrap: Vec<(String, JsonValue)> = Vec::new();
                    wrap.push((owned("condition"), inner));
                    assert(entries_data(wrap@) =~= seq![("condition"@, condition_json(subs[i as int]))]);
                    items.push(JsonValue::object(wrap));
                    i = i + 1;
                }
                let mut m: Vec<(String, JsonValue)> = Vec::new();
                m.push((owned("operator"), JsonValue::String(operator.name())));
                let ghost arr = sub_conditions_json(subs);
                assert(values_data(items@) =~= arr);
                m.push((owned("sub_conditions"), JsonValue::array(items)));
                assert(entries_data(m@) =~= seq![
                    ("operator"@, JsonData::Str(operator_name(*operator))),
                    ("sub_conditions"@, JsonData::Array(arr)),
                ]);
                JsonValue::object(m)
            },
        }
    }
}

impl Condition {
    /// The condition's description: `name`, `public` (which holds the
    /// `encrypted` flag), `condition_type` and `check`.
    pub fn to_json(&self) -> (res: JsonValue)
        ensures
            res@ == condition_json(self.data()),
        decreases self, 1int,
    {
        let mut m: Vec<(String, JsonValue)> = Vec::new();
        m.push((owned("name"), JsonValue::String(self.name.clone())));
        m.push((owned("public"), JsonValue::Bool(self.encrypted)));
        m.push((owned("condition_type"), self.condition_type.to_json()));
        m.push((owned("check"), JsonValue::object(self.check.to_stringified())));
        assert(entries_data(m@) =~= seq![
            ("name"@, JsonData::Str(self.name@)),
            ("public"@, JsonData::Bool(self.encrypted)),
            ("condition_type"@, condition_type_json(self.data().condition_type)),
            ("check"@, json_object(check_json(self.check.condition_fn, opt_data(self.check.expected_value)))),
        ]);
        JsonValue::object(m)
    }
}


/// A new condition of the owner with this address, under a fresh id, judged
/// by `condition_fn`.
pub fn configure_new_condition(
    name: &str,
    condition_type: ConditionType,
    condition_fn: FunctionRef,
    expected_value: Option<JsonValue>,
    encrypted: bool,
    address: &Address,
) -> (res: Result<Condition, String>)
    ensures
        match res {
            Ok(c) => c.name@ == name@ && c.condition_type == condition_type && c.check.condition_fn == condition_fn
                && c.check.expected_value == expected_value && c.encrypted == encrypted && crate::utils::owner_id(c.id@, address@),
            Err(e) => e@ == "Invalid timestamp"@,
        },
{
    let id = crate::utils::fresh_id(address)?;
    Ok(Condition { name: owned(name), condition_type, check: ConditionCheck { condition_fn, expected_value }, encrypted, id })
}

} // verus!
