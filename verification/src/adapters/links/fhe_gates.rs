//! FHE gates: a contract checks an encrypted value, optionally against a
//! criterion, and the answer decides where a run goes.

use vstd::prelude::*;
use crate::utils::{fresh_id, owner_id};
use crate::text::owned;
use crate::ethereum::Address;

verus! {

/// A gate: the contract that checks, the operation it runs, and the chain
/// (its `{:?}` text).
pub struct FHEGate {
    pub name: String,
    pub id: Vec<u8>,
    pub key: String,
    pub encrypted: bool,
    pub contract_address: Address,
    pub operation: String,
    pub chain: String,
}


/// A new FHE gate of the owner with this address, under a fresh id; the chain
/// is given by its `{:?}` text.
pub fn configure_new_gate(
    name: &str,
    key: &str,
    encrypted: bool,
    address: &Address,
    contract_address: &Address,
    operation: &str,
    chain: String,
) -> (res: Result<FHEGate, String>)
    ensures
        match res {
            Ok(g) => g.name@ == name@ && g.key@ == key@ && g.encrypted == encrypted && g.contract_address == *contract_address
                && g.operation@ == operation@ && g.chain == chain && owner_id(g.id@, address@),
            Err(e) => e@ == "Invalid timestamp"@,
        },
{
    let id = fresh_id(address)?;
    Ok(FHEGate { name: owned(name), id, key: owned(key), encrypted, contract_address: *contract_address, operation: owned(operation), chain })
}

} // verus!
