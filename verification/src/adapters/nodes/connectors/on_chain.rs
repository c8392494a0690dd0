//! On-chain connectors: call a contract's method, or deploy a contract.

use vstd::prelude::*;
use crate::utils::{fresh_id, owner_id};
use crate::ethereum::{address_debug, address_debug_text, address_display, address_display_text, Address};
use crate::json::{entries_data, member, opt_member, push_member, push_opt_member, JsonData, JsonValue};
use crate::text::{decimal, hex_encode, hex_text, owned};

verus! {

/// A 256-bit unsigned number, least significant 64-bit word first (the
/// layout of `ethers::types::U256`).
pub type U256Words = [u64; 4];

pub open spec fn u256_value(w: Seq<u64>) -> nat {
    (w[0] as nat) + (w[1] as nat) * 0x1_0000_0000_0000_0000nat + (w[2] as nat) * 0x1_0000_0000_0000_0000_0000_0000_0000_0000nat
        + (w[3] as nat) * 0x1_0000_0000_0000_0000_0000_0000_0000_0000_0000_0000_0000_0000nat
}

/// The decimal text of a 256-bit number (`U256` `Display` in ethers); trusted
/// to write its value in decimal without leading zeros.
#[verifier::external_body]
pub fn u256_decimal(w: &U256Words) -> (res: String)
    ensures
        res@ == decimal(u256_value(w@)),
{
    ethers::types::U256(*w).to_string()
}

/// The fee settings a connector's transactions may fix.
#[derive(Clone, Copy)]
pub struct GasOptions {
    pub max_fee_per_gas: Option<U256Words>,
    pub max_priority_fee_per_gas: Option<U256Words>,
    pub gas_limit: Option<U256Words>,
    pub nonce: Option<U256Words>,
}

impl GasOptions {
    /// No setting fixed.
    pub fn default() -> (res: GasOptions)
        ensures
            res.max_fee_per_gas is None,
            res.max_priority_fee_per_gas is None,
            res.gas_limit is None,
            res.nonce is None,
    {
        GasOptions { max_fee_per_gas: None, max_priority_fee_per_gas: None, gas_limit: None, nonce: None }
    }
}

/// A connector to a contract. The ABI and the chain are held as the `{:?}`
/// texts the engine records of them.
pub struct OnChainConnector {
    pub name: String,
    pub id: Vec<u8>,
    pub address: Option<Address>,
    pub encrypted: bool,
    pub abi: Option<String>,
    pub bytecode: Option<Vec<u8>>,
    pub chain: String,
    pub gas_options: Option<GasOptions>,
}

pub open spec fn opt_decimal(w: Option<U256Words>) -> Option<JsonData> {
    match w {
        Some(x) => Some(JsonData::Str(decimal(u256_value(x@)))),
        None => None,
    }
}

pub open spec fn gas_json(g: GasOptions) -> JsonData {
    JsonData::Object(
        opt_member("max_fee_per_gas"@, opt_decimal(g.max_fee_per_gas))
            + opt_member("max_priority_fee_per_gas"@, opt_decimal(g.max_priority_fee_per_gas))
            + opt_member("gas_limit"@, opt_decimal(g.gas_limit))
            + opt_member("nonce"@, opt_decimal(g.nonce)),
    )
}

/// A connector as stored: name, id in hexadecimal, address (or `None`),
/// whether it is encrypted, chain, and the ABI, bytecode and fee settings it has.
pub open spec fn connector_json(c: OnChainConnector) -> JsonData {
    JsonData::Object(
        member("name"@, JsonData::Str(c.name@))
            + member("id"@, JsonData::Str(hex_text(c.id@)))
            + member("address"@, JsonData::Str(match c.address { Some(a) => address_debug_text(a@), None => "None"@ }))
            + member("encrypted"@, JsonData::Bool(c.encrypted))
            + member("chain"@, JsonData::Str(c.chain@))
            + opt_member("abi"@, match c.abi { Some(a) => Some(JsonData::Str(a@)), None => None })
            + opt_member("bytecode"@, match c.bytecode { Some(b) => Some(JsonData::Str(hex_text(b@))), None => None })
            + opt_member("gas_options"@, match c.gas_options { Some(g) => Some(gas_json(g)), None => None }),
    )
}

fn opt_decimal_json(w: Option<U256Words>) -> (res: Option<JsonValue>)
    ensures
        crate::json::opt_data(res) == opt_decimal(w),
{
    match w {
        Some(x) => Some(JsonValue::String(u256_decimal(&x))),
        None => None,
    }
}

fn gas_to_json(g: &GasOptions) -> (res: JsonValue)
    ensures
        res@ == gas_json(*g),
{
    let mut e: Vec<(String, JsonValue)> = Vec::new();
    push_opt_member(&mut e, "max_fee_per_gas", opt_decimal_json(g.max_fee_per_gas));
    push_opt_member(&mut e, "max_priority_fee_per_gas", opt_decimal_json(g.max_priority_fee_per_gas));
    push_opt_member(&mut e, "gas_limit", opt_decimal_json(g.gas_limit));
    push_opt_member(&mut e, "nonce", opt_decimal_json(g.nonce));
    let res = JsonValue::object(e);
    proof {
        match gas_json(*g) {
            JsonData::Object(s) => {
                assert(entries_data(e@) =~= s);
            },
            _ => {},
        }
    }
    res
}

/// The default fee cap of a transaction, 100 gwei.
pub open spec fn default_max_fee() -> U256Words {
    [100_000_000_000u64, 0, 0, 0]
}

/// The default priority fee of a transaction, 2 gwei.
pub open spec fn default_priority_fee() -> U256Words {
    [2_000_000_000u64, 0, 0, 0]
}

/// The default gas limit of a deployment.
pub open spec fn default_deploy_gas() -> U256Words {
    [2_000_000u64, 0, 0, 0]
}

/// The fees and limits a transaction is sent with.
pub struct TxFees {
    pub gas: Option<U256Words>,
    pub max_fee_per_gas: U256Words,
    pub max_priority_fee_per_gas: U256Words,
    pub nonce: Option<U256Words>,
}

/// What running a connector does.
pub enum ConnectorAction {
    /// Call `method` on the contract at `address`, on the chain named by
    /// `chain` (the connector's chain), with these fees; `gas` unset means the
    /// gas the encoded call estimates.
    Call { method: String, address: Address, chain: String, fees: TxFees },
    /// Deploy the connector's contract with these fees.
    Deploy { fees: TxFees },
}

impl OnChainConnector {
    pub fn to_json(&self) -> (res: JsonValue)
        ensures
            res@ == connector_json(*self),
    {
        let mut e: Vec<(String, JsonValue)> = Vec::new();
        push_member(&mut e, "name", JsonValue::String(self.name.clone()));
        push_member(&mut e, "id", JsonValue::String(hex_encode(self.id.as_slice())));
        let address = match &self.address {
            Some(a) => address_debug(a),
            None => owned("None"),
        };
        push_member(&mut e, "address", JsonValue::String(address));
        push_member(&mut e, "encrypted", JsonValue::Bool(self.encrypted));
        push_member(&mut e, "chain", JsonValue::String(self.chain.clone()));
        let abi = match &self.abi {
            Some(a) => Some(JsonValue::String(a.clone())),
            None => None,
        };
        push_opt_member(&mut e, "abi", abi);
        let bytecode = match &self.bytecode {
            Some(b) => Some(JsonValue::String(hex_encode(b.as_slice()))),
            None => None,
        };
        push_opt_member(&mut e, "bytecode", bytecode);
        let gas = match &self.gas_options {
            Some(g) => Some(gas_to_json(g)),
            None => None,
        };
        push_opt_member(&mut e, "gas_options", gas);
        let res = JsonValue::object(e);
        proof {
            match connector_json(*self) {
                JsonData::Object(s) => {
                    assert(entries_data(e@) =~= s);
                },
                _ => {},
            }
        }
        res
    }

    /// What running the connector does: with a method name, a call on the
    /// connector's chain (which needs the address and the ABI); without, a deployment (which needs the
    /// ABI and the bytecode). Fees come from the connector's settings, else
    /// the defaults (100 gwei cap, 2 gwei priority, and 2,000,000 gas for a
    /// deployment).
    pub fn plan(&self, method_name: Option<&str>) -> (res: Result<ConnectorAction, String>)
        ensures
            match method_name {
                Some(m) => match res {
                    Ok(ConnectorAction::Call { method, address, chain, fees }) => self.address == Some(address) && self.abi is Some
                        && method@ == m@ && chain@ == self.chain@
                        && fees.gas == (match self.gas_options { Some(g) => g.gas_limit, None => None })
                        && fees.max_fee_per_gas == (match self.gas_options { Some(g) => g.max_fee_per_gas.unwrap_or(default_max_fee()), None => default_max_fee() })
                        && fees.max_priority_fee_per_gas == (match self.gas_options { Some(g) => g.max_priority_fee_per_gas.unwrap_or(default_priority_fee()), None => default_priority_fee() })
                        && fees.nonce == (match self.gas_options { Some(g) => g.nonce, None => None }),
                    Ok(ConnectorAction::Deploy { .. }) => false,
                    Err(e) => (self.address is None || self.abi is None) && e@ == "Contract address or ABI is missing"@,
                },
                None => match res {
                    Ok(ConnectorAction::Deploy { fees }) => self.abi is Some && self.bytecode is Some
                        && fees.gas == Some(match self.gas_options { Some(g) => g.gas_limit.unwrap_or(default_deploy_gas()), None => default_deploy_gas() })
                        && fees.max_fee_per_gas == (match self.gas_options { Some(g) => g.max_fee_per_gas.unwrap_or(default_max_fee()), None => default_max_fee() })
                        && fees.max_priority_fee_per_gas == (match self.gas_options { Some(g) => g.max_priority_fee_per_gas.unwrap_or(default_priority_fee()), None => default_priority_fee() })
                        && fees.nonce == (match self.gas_options { Some(g) => g.nonce, None => None }),
                    Ok(ConnectorAction::Call { .. }) => false,
                    Err(e) => (self.abi is None || self.bytecode is None) && e@ == "ABI or Bytecode is missing for contract deployment"@,
                },
            },
    {
        let max_fee: U256Words = [100_000_000_000u64, 0, 0, 0];
        let priority: U256Words = [2_000_000_000u64, 0, 0, 0];
        let deploy_gas: U256Words = [2_000_000u64, 0, 0, 0];
        assert(max_fee@ == default_max_fee()@);
        let (gas_limit, fee_cap, priority_fee, nonce) = match &self.gas_options {
            Some(g) => (
                g.gas_limit,
                match g.max_fee_per_gas { Some(x) => x, None => max_fee },
                match g.max_priority_fee_per_gas { Some(x) => x, None => priority },
                g.nonce,
            ),
            None => (None, max_fee, priority, None),
        };
        match method_name {
            Some(m) => match (&self.address, &self.abi) {
                (Some(address), Some(_)) => Ok(ConnectorAction::Call {
                    method: owned(m),
                    address: *address,
                    chain: self.chain.clone(),
                    fees: TxFees { gas: gas_limit, max_fee_per_gas: fee_cap, max_priority_fee_per_gas: priority_fee, nonce },
                }),
                _ => Err(owned("Contract address or ABI is missing")),
            },
            None => match (&self.abi, &self.bytecode) {
                (Some(_), Some(_)) => {
                    let gas = match gas_limit {
                        Some(x) => x,
                        None => deploy_gas,
                    };
                    Ok(ConnectorAction::Deploy {
                        fees: TxFees { gas: Some(gas), max_fee_per_gas: fee_cap, max_priority_fee_per_gas: priority_fee, nonce },
                    })
                },
                _ => Err(owned("ABI or Bytecode is missing for contract deployment")),
            },
        }
    }
}

/// How a sent call ended, as the receipt tells it.
pub enum ReceiptOutcome {
    /// Mined, with this status (1 is success) and the `{:?}` text of the transaction hash.
    Mined { status: Option<u64>, hash_text: String },
    NotMined,
}

/// What a call's receipt gives: the transaction hash when it succeeded; a
/// failure when it did not, or was not mined.
pub fn call_result(outcome: ReceiptOutcome) -> (res: Result<JsonValue, String>)
    ensures
        match outcome {
            ReceiptOutcome::Mined { status, hash_text } => if status == Some(1u64) {
                res matches Ok(v) && v@ == JsonData::Str("Transaction Hash: "@ + hash_text@)
            } else {
                res matches Err(e) && e@ == "Transaction execution failed"@
            },
            ReceiptOutcome::NotMined => res matches Err(e) && e@ == "Transaction was not mined"@,
        },
{
    match outcome {
        ReceiptOutcome::Mined { status, hash_text } => {
            if status == Some(1u64) {
                let mut s = owned("Transaction Hash: ");
                s.append(hash_text.as_str());
                Ok(JsonValue::String(s))
            } else {
                Err(owned("Transaction execution failed"))
            }
        },
        ReceiptOutcome::NotMined => Err(owned("Transaction was not mined")),
    }
}


/// What a deployment's receipt gives: the address of the new contract,
/// shown as addresses are displayed; an error when no receipt came.
pub fn deploy_result(contract_address: Option<Address>) -> (res: Result<JsonValue, String>)
    ensures
        match contract_address {
            Some(a) => res matches Ok(v) && v@ == JsonData::Str(address_display_text(a@)),
            None => res matches Err(e) && e@ == "Error getting contract address"@,
        },
{
    match contract_address {
        Some(a) => Ok(JsonValue::String(address_display(&a))),
        None => Err(owned("Error getting contract address")),
    }
}

/// A new on-chain connector of the owner with this address, under a fresh
/// id; the ABI and the chain are given by their `{:?}` texts.
pub fn configure_new_onchain_connector(
    name: &str,
    address: Option<Address>,
    encrypted: bool,
    owner_address: &Address,
    bytecode: Option<Vec<u8>>,
    abi: Option<String>,
    chain: String,
    gas_options: Option<GasOptions>,
) -> (res: Result<OnChainConnector, String>)
    ensures
        match res {
            Ok(c) => c.name@ == name@ && c.address == address && c.encrypted == encrypted && c.bytecode == bytecode
                && c.abi == abi && c.chain == chain && c.gas_options == gas_options && owner_id(c.id@, owner_address@),
            Err(e) => e@ == "Invalid timestamp"@,
        },
{
    let id = fresh_id(owner_address)?;
    Ok(OnChainConnector { name: owned(name), id, address, encrypted, abi, bytecode, chain, gas_options })
}

} // verus!
