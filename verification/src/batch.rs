//! Storing a nibble's pending adapters in one batch. Each adapter's
//! description is uploaded (encrypted first where the adapter asks for it) and
//! the storage contract is sent, per adapter, its id, the hash of the upload
//! and its flags. The uploads are the caller's work; what is uploaded, in which
//! order, and what is sent are decided here.

use vstd::prelude::*;
use crate::adapters::links::conditions::{condition_json, Condition};
use crate::adapters::links::evaluations::{evaluation_json, scores_finite, Evaluation};
use crate::adapters::links::listeners::{listener_json, Listener};
use crate::adapters::nodes::agents::{agent_json, Agent};
use crate::adapters::nodes::connectors::off_chain::OffChainConnector;
use crate::adapters::nodes::connectors::on_chain::OnChainConnector;
use crate::adapters::nodes::connectors::off_chain::connector_json as offchain_json;
use crate::adapters::nodes::connectors::on_chain::connector_json as onchain_json;
use crate::ethereum::Address;
use crate::json::{JsonData, JsonValue};
use crate::nibble::Nibble;

verus! {

/// One description to upload, and whether to encrypt it first.
pub struct MetadataUpload {
    pub metadata: JsonValue,
    pub encrypted: bool,
}

/// A stored condition: its id, the hash of its uploaded description, and
/// whether that is encrypted.
pub struct ContractCondition {
    pub id: Vec<u8>,
    pub metadata: String,
    pub encrypted: bool,
}

/// A stored listener, as a stored condition.
pub struct ContractListener {
    pub id: Vec<u8>,
    pub metadata: String,
    pub encrypted: bool,
}

/// A stored evaluation, as a stored condition.
pub struct ContractEvaluation {
    pub id: Vec<u8>,
    pub metadata: String,
    pub encrypted: bool,
}

/// A stored connector, with whether it is an on-chain one.
pub struct ContractConnector {
    pub id: Vec<u8>,
    pub metadata: String,
    pub encrypted: bool,
    pub on_chain: bool,
}

/// A stored agent, with its wallet and whether it may write.
pub struct ContractAgent {
    pub id: Vec<u8>,
    pub metadata: String,
    pub wallet: Address,
    pub encrypted: bool,
    pub writer: bool,
}

/// What adding or modifying adapters in one batch sends.
pub struct ModifyAdapters {
    pub conditions: Vec<ContractCondition>,
    pub listeners: Vec<ContractListener>,
    pub connectors: Vec<ContractConnector>,
    pub agents: Vec<ContractAgent>,
    pub evaluations: Vec<ContractEvaluation>,
}

/// Whether the pending evaluations can all be described (a score threshold
/// must be a finite number).
pub open spec fn describable(n: Nibble) -> bool {
    forall|i: int| 0 <= i < n.evaluations@.len() ==> scores_finite(#[trigger] n.evaluations@[i].evaluation_type)
}

/// The number of pending adapters that a batch stores (FHE gates are not).
pub open spec fn batch_len(n: Nibble) -> int {
    (n.conditions@.len() + n.listeners@.len() + n.onchain_connectors@.len() + n.offchain_connectors@.len()
        + n.agents@.len() + n.evaluations@.len()) as int
}

/// The description and the encryption flag of the `k`-th upload of a batch:
/// conditions, listeners, on-chain connectors, off-chain connectors, agents
/// and evaluations, each group in its order.
pub open spec fn upload_at(n: Nibble, k: int) -> (JsonData, bool) {
    let c = n.conditions@.len() as int;
    let l = c + n.listeners@.len();
    let on = l + n.onchain_connectors@.len();
    let off = on + n.offchain_connectors@.len();
    let ag = off + n.agents@.len();
    if k < c {
        (condition_json(n.conditions@[k].data()), n.conditions@[k].encrypted)
    } else if k < l {
        (listener_json(n.listeners@[k - c]), n.listeners@[k - c].encrypted)
    } else if k < on {
        (onchain_json(n.onchain_connectors@[k - l]), n.onchain_connectors@[k - l].encrypted)
    } else if k < off {
        (offchain_json(n.offchain_connectors@[k - on]), n.offchain_connectors@[k - on].encrypted)
    } else if k < ag {
        (agent_json(n.agents@[k - off]), n.agents@[k - off].encrypted)
    } else {
        (evaluation_json(n.evaluations@[k - ag]), n.evaluations@[k - ag].encrypted)
    }
}

impl Nibble {
    /// The descriptions to upload for a batch, in the batch's order.
    pub fn pending_uploads(&self) -> (res: Vec<MetadataUpload>)
        requires
            describable(*self),
            batch_len(*self) <= usize::MAX,
        ensures
            res@.len() == batch_len(*self),
            forall|k: int| 0 <= k < res@.len() ==> (#[trigger] res@[k]).metadata@ == upload_at(*self, k).0
                && res@[k].encrypted == upload_at(*self, k).1,
    {
        let mut out: Vec<MetadataUpload> = Vec::new();
        let mut i: usize = 0;
        while i < self.conditions.len()
            invariant
                i <= self.conditions@.len(),
                batch_len(*self) <= usize::MAX,
                out@.len() == i,
                forall|k: int| 0 <= k < out@.len() ==> (#[trigger] out@[k]).metadata@ == upload_at(*self, k).0
                    && out@[k].encrypted == upload_at(*self, k).1,
            decreases self.conditions.len() - i,
        {
            out.push(MetadataUpload { metadata: self.conditions[i].to_json(), encrypted: self.conditions[i].encrypted });
            i = i + 1;
        }
        let base: usize = out.len();
        i = 0;
        while i < self.listeners.len()
            invariant
                i <= self.listeners@.len(),
                base == self.conditions@.len(),
                batch_len(*self) <= usize::MAX,
                out@.len() == base + i,
                forall|k: int| 0 <= k < out@.len() ==> (#[trigger] out@[k]).metadata@ == upload_at(*self, k).0
                    && out@[k].encrypted == upload_at(*self, k).1,
            decreases self.listeners.len() - i,
        {
            out.push(MetadataUpload { metadata: self.listeners[i].to_json(), encrypted: self.listeners[i].encrypted });
            i = i + 1;
        }
        let base: usize = out.len();
        i = 0;
        while i < self.onchain_connectors.len()
            invariant
                i <= self.onchain_connectors@.len(),
                base == self.conditions@.len() + self.listeners@.len(),
                batch_len(*self) <= usize::MAX,
                out@.len() == base + i,
                forall|k: int| 0 <= k < out@.len() ==> (#[trigger] out@[k]).metadata@ == upload_at(*self, k).0
                    && out@[k].encrypted == upload_at(*self, k).1,
            decreases self.onchain_connectors.len() - i,
        {
            out.push(MetadataUpload {
                metadata: self.onchain_connectors[i].to_json(),
                encrypted: self.onchain_connectors[i].encrypted,
            });
            i = i + 1;
        }
        let base: usize = out.len();
        i = 0;
        while i < self.offchain_connectors.len()
            invariant
                i <= self.offchain_connectors@.len(),
                base == self.conditions@.len() + self.listeners@.len() + self.onchain_connectors@.len(),
                batch_len(*self) <= usize::MAX,
                out@.len() == base + i,
                forall|k: int| 0 <= k < out@.len() ==> (#[trigger] out@[k]).metadata@ == upload_at(*self, k).0
                    && out@[k].encrypted == upload_at(*self, k).1,
            decreases self.offchain_connectors.len() - i,
        {
            out.push(MetadataUpload {
                metadata: self.offchain_connectors[i].to_json(),
                encrypted: self.offchain_connectors[i].encrypted,
            });
            i = i + 1;
        }
        let base: usize = out.len();
        i = 0;
        while i < self.agents.len()
            invariant
                i <= self.agents@.len(),
                base == self.conditions@.len() + self.listeners@.len() + self.onchain_connectors@.len()
                    + self.offchain_connectors@.len(),
                batch_len(*self) <= usize::MAX,
                out@.len() == base + i,
                forall|k: int| 0 <= k < out@.len() ==> (#[trigger] out@[k]).metadata@ == upload_at(*self, k).0
                    && out@[k].encrypted == upload_at(*self, k).1,
            decreases self.agents.len() - i,
        {
            out.push(MetadataUpload { metadata: self.agents[i].to_json(), encrypted: self.agents[i].encrypted });
            i = i + 1;
        }
        let base: usize = out.len();
        i = 0;
        while i < self.evaluations.len()
            invariant
                i <= self.evaluations@.len(),
                base == self.conditions@.len() + self.listeners@.len() + self.onchain_connectors@.len()
                    + self.offchain_connectors@.len() + self.agents@.len(),
                batch_len(*self) <= usize::MAX,
                describable(*self),
                out@.len() == base + i,
                forall|k: int| 0 <= k < out@.len() ==> (#[trigger] out@[k]).metadata@ == upload_at(*self, k).0
                    && out@[k].encrypted == upload_at(*self, k).1,
            decreases self.evaluations.len() - i,
        {
            assert(scores_finite(self.evaluations@[i as int].evaluation_type));
            out.push(MetadataUpload { metadata: self.evaluations[i].to_json(), encrypted: self.evaluations[i].encrypted });
            i = i + 1;
        }
        out
    }

    /// What the batch sends, given the hash of each upload of
    /// `pending_uploads`, in the same order.
    pub fn modify_adapters(&self, hashes: &Vec<String>) -> (res: ModifyAdapters)
        requires
            hashes@.len() == batch_len(*self),
        ensures
            res.conditions@.len() == self.conditions@.len(),
            forall|i: int| 0 <= i < self.conditions@.len() ==> {
                let r = #[trigger] res.conditions@[i];
                &&& r.id@ == self.conditions@[i].id@
                &&& r.metadata@ == hashes@[i]@
                &&& r.encrypted == self.conditions@[i].encrypted
            },
            res.listeners@.len() == self.listeners@.len(),
            forall|i: int| 0 <= i < self.listeners@.len() ==> {
                let r = #[trigger] res.listeners@[i];
                &&& r.id@ == self.listeners@[i].id@
                &&& r.metadata@ == hashes@[self.conditions@.len() + i]@
                &&& r.encrypted == self.listeners@[i].encrypted
            },
            res.connectors@.len() == self.onchain_connectors@.len() + self.offchain_connectors@.len(),
            forall|i: int| 0 <= i < self.onchain_connectors@.len() ==> {
                let r = #[trigger] res.connectors@[i];
                &&& r.id@ == self.onchain_connectors@[i].id@
                &&& r.metadata@ == hashes@[self.conditions@.len() + self.listeners@.len() + i]@
                &&& r.encrypted == self.onchain_connectors@[i].encrypted
                &&& r.on_chain
            },
            forall|i: int| 0 <= i < self.offchain_connectors@.len() ==> {
                let r = #[trigger] res.connectors@[self.onchain_connectors@.len() + i];
                &&& r.id@ == self.offchain_connectors@[i].id@
                &&& r.metadata@ == hashes@[self.conditions@.len() + self.listeners@.len() + self.onchain_connectors@.len() + i]@
                &&& r.encrypted == self.offchain_connectors@[i].encrypted
                &&& !r.on_chain
            },
            res.agents@.len() == self.agents@.len(),
            forall|i: int| 0 <= i < self.agents@.len() ==> {
                let r = #[trigger] res.agents@[i];
                &&& r.id@ == self.agents@[i].id@
                &&& r.metadata@ == hashes@[self.conditions@.len() + self.listeners@.len() + self.onchain_connectors@.len()
                    + self.offchain_connectors@.len() + i]@
                &&& r.wallet == self.agents@[i].wallet_address
                &&& r.encrypted == self.agents@[i].encrypted
                &&& r.writer == (self.agents@[i].write_role || self.agents@[i].admin_role)
            },
            res.evaluations@.len() == self.evaluations@.len(),
            forall|i: int| 0 <= i < self.evaluations@.len() ==> {
                let r = #[trigger] res.evaluations@[i];
                &&& r.id@ == self.evaluations@[i].id@
                &&& r.metadata@ == hashes@[self.conditions@.len() + self.listeners@.len() + self.onchain_connectors@.len()
                    + self.offchain_connectors@.len() + self.agents@.len() + i]@
                &&& r.encrypted == self.evaluations@[i].encrypted
            },
    {
        let total: usize = hashes.len();
        let mut k: usize = 0;
        let mut conditions: Vec<ContractCondition> = Vec::new();
        let mut i: usize = 0;
        while i < self.conditions.len()
            invariant
                i <= self.conditions@.len(),
                hashes@.len() == batch_len(*self),
                total == hashes@.len(),
                k == i,
                conditions@.len() == i,
                forall|j: int| 0 <= j < i ==> {
                    let r = #[trigger] conditions@[j];
                    &&& r.id@ == self.conditions@[j].id@
                    &&& r.metadata@ == hashes@[j]@
                    &&& r.encrypted == self.conditions@[j].encrypted
                },
            decreases self.conditions.len() - i,
        {
            conditions.push(ContractCondition {
                id: self.conditions[i].id.clone(),
                metadata: hashes[k].clone(),
                encrypted: self.conditions[i].encrypted,
            });
            k = k + 1;
            i = i + 1;
        }
        let mut listeners: Vec<ContractListener> = Vec::new();
        i = 0;
        while i < self.listeners.len()
            invariant
                i <= self.listeners@.len(),
                hashes@.len() == batch_len(*self),
                total == hashes@.len(),
                k == self.conditions@.len() + i,
                listeners@.len() == i,
                forall|j: int| 0 <= j < i ==> {
                    let r = #[trigger] listeners@[j];
                    &&& r.id@ == self.listeners@[j].id@
                    &&& r.metadata@ == hashes@[self.conditions@.len() + j]@
                    &&& r.encrypted == self.listeners@[j].encrypted
                },
            decreases self.listeners.len() - i,
        {
            listeners.push(ContractListener {
                id: self.listeners[i].id.clone(),
                metadata: hashes[k].clone(),
                encrypted: self.listeners[i].encrypted,
            });
            k = k + 1;
            i = i + 1;
        }
        let mut connectors: Vec<ContractConnector> = Vec::new();
        i = 0;
        while i < self.onchain_connectors.len()
            invariant
                i <= self.onchain_connectors@.len(),
                hashes@.len() == batch_len(*self),
                total == hashes@.len(),
                k == self.conditions@.len() + self.listeners@.len() + i,
                connectors@.len() == i,
                forall|j: int| 0 <= j < i ==> {
                    let r = #[trigger] connectors@[j];
                    &&& r.id@ == self.onchain_connectors@[j].id@
                    &&& r.metadata@ == hashes@[self.conditions@.len() + self.listeners@.len() + j]@
                    &&& r.encrypted == self.onchain_connectors@[j].encrypted
                    &&& r.on_chain
                },
            decreases self.onchain_connectors.len() - i,
        {
            connectors.push(ContractConnector {
                id: self.onchain_connectors[i].id.clone(),
                metadata: hashes[k].clone(),
                encrypted: self.onchain_connectors[i].encrypted,
                on_chain: true,
            });
            k = k + 1;
            i = i + 1;
        }
        i = 0;
        while i < self.offchain_connectors.len()
            invariant
                i <= self.offchain_connectors@.len(),
                hashes@.len() == batch_len(*self),
                total == hashes@.len(),
                k == self.conditions@.len() + self.listeners@.len() + self.onchain_connectors@.len() + i,
                connectors@.len() == self.onchain_connectors@.len() + i,
                forall|j: int| 0 <= j < self.onchain_connectors@.len() ==> {
                    let r = #[trigger] connectors@[j];
                    &&& r.id@ == self.onchain_connectors@[j].id@
                    &&& r.metadata@ == hashes@[self.conditions@.len() + self.listeners@.len() + j]@
                    &&& r.encrypted == self.onchain_connectors@[j].encrypted
                    &&& r.on_chain
                },
                forall|j: int| 0 <= j < i ==> {
                    let r = #[trigger] connectors@[self.onchain_connectors@.len() + j];
                    &&& r.id@ == self.offchain_connectors@[j].id@
                    &&& r.metadata@ == hashes@[self.conditions@.len() + self.listeners@.len() + self.onchain_connectors@.len() + j]@
                    &&& r.encrypted == self.offchain_connectors@[j].encrypted
                    &&& !r.on_chain
                },
            decreases self.offchain_connectors.len() - i,
        {
            connectors.push(ContractConnector {
                id: self.offchain_connectors[i].id.clone(),
                metadata: hashes[k].clone(),
                encrypted: self.offchain_connectors[i].encrypted,
                on_chain: false,
            });
            proof {
                assert(connectors@[self.onchain_connectors@.len() + i].metadata@ == hashes@[k as int]@);
            }
            k = k + 1;
            i = i + 1;
        }
        let mut agents: Vec<ContractAgent> = Vec::new();
        i = 0;
        while i < self.agents.len()
            invariant
                i <= self.agents@.len(),
                hashes@.len() == batch_len(*self),
                total == hashes@.len(),
                k == self.conditions@.len() + self.listeners@.len() + self.onchain_connectors@.len()
                    + self.offchain_connectors@.len() + i,
                agents@.len() == i,
                forall|j: int| 0 <= j < i ==> {
                    let r = #[trigger] agents@[j];
                    &&& r.id@ == self.agents@[j].id@
                    &&& r.metadata@ == hashes@[self.conditions@.len() + self.listeners@.len() + self.onchain_connectors@.len()
                        + self.offchain_connectors@.len() + j]@
                    &&& r.wallet == self.agents@[j].wallet_address
                    &&& r.encrypted == self.agents@[j].encrypted
                    &&& r.writer == (self.agents@[j].write_role || self.agents@[j].admin_role)
                },
            decreases self.agents.len() - i,
        {
            agents.push(ContractAgent {
                id: self.agents[i].id.clone(),
                metadata: hashes[k].clone(),
                wallet: self.agents[i].wallet_address,
                encrypted: self.agents[i].encrypted,
                writer: self.agents[i].write_role || self.agents[i].admin_role,
            });
            k = k + 1;
            i = i + 1;
        }
        let mut evaluations: Vec<ContractEvaluation> = Vec::new();
        i = 0;
        while i < self.evaluations.len()
            invariant
                i <= self.evaluations@.len(),
                hashes@.len() == batch_len(*self),
                total == hashes@.len(),
                k == self.conditions@.len() + self.listeners@.len() + self.onchain_connectors@.len()
                    + self.offchain_connectors@.len() + self.agents@.len() + i,
                evaluations@.len() == i,
                forall|j: int| 0 <= j < i ==> {
                    let r = #[trigger] evaluations@[j];
                    &&& r.id@ == self.evaluations@[j].id@
                    &&& r.metadata@ == hashes@[self.conditions@.len() + self.listeners@.len() + self.onchain_connectors@.len()
                        + self.offchain_connectors@.len() + self.agents@.len() + j]@
                    &&& r.encrypted == self.evaluations@[j].encrypted
                },
            decreases self.evaluations.len() - i,
        {
            evaluations.push(ContractEvaluation {
                id: self.evaluations[i].id.clone(),
                metadata: hashes[k].clone(),
                encrypted: self.evaluations[i].encrypted,
            });
            k = k + 1;
            i = i + 1;
        }
        ModifyAdapters { conditions, listeners, connectors, agents, evaluations }
    }
}

} // verus!
