//! The output of speculatively executing a block's payload.

use crate::contract_event::{clone_events, event_views, ContractEvent, ContractEventView};
use crate::epoch_state::EpochState;
use crate::hash_value::HashValue;
use crate::transaction::TransactionStatus;
use vstd::prelude::*;

verus! {

/// Mathematical value of an [`AccumulatorExtensionProof`].
pub ghost struct AccumulatorExtensionProofView {
    pub frozen_subtree_roots: Seq<HashValue>,
    pub num_leaves: u64,
}

/// Provenance data proving how the transaction accumulator was extended by
/// this execution. The core never interprets it; it is forwarded unchanged
/// into vote messages, so it is modelled as the plain values it carries.
#[derive(Debug, PartialEq, Eq)]
pub struct AccumulatorExtensionProof {
    pub frozen_subtree_roots: Vec<HashValue>,
    pub num_leaves: u64,
}

impl View for AccumulatorExtensionProof {
    type V = AccumulatorExtensionProofView;

    open spec fn view(&self) -> AccumulatorExtensionProofView {
        AccumulatorExtensionProofView {
            frozen_subtree_roots: self.frozen_subtree_roots@,
            num_leaves: self.num_leaves,
        }
    }
}

impl AccumulatorExtensionProof {
    /// Builds a proof from its raw parts.
    pub fn new(frozen_subtree_roots: Vec<HashValue>, num_leaves: u64) -> (r: Self)
        ensures
            r@ == (AccumulatorExtensionProofView {
                frozen_subtree_roots: frozen_subtree_roots@,
                num_leaves,
            }),
    {
        AccumulatorExtensionProof { frozen_subtree_roots, num_leaves }
    }
}

impl Clone for AccumulatorExtensionProof {
    /// A clone carries exactly the same roots and leaf count.
    fn clone(&self) -> (r: Self)
        ensures
            r@ == self@,
    {
        let c = self.frozen_subtree_roots.clone();
        proof {
            assert forall|i: int| 0 <= i < c@.len() implies c@[i] == self.frozen_subtree_roots@[i] by {
                assert(cloned::<HashValue>(self.frozen_subtree_roots@[i], c@[i]));
            }
            assert(c@ =~= self.frozen_subtree_roots@);
        }
        AccumulatorExtensionProof { frozen_subtree_roots: c, num_leaves: self.num_leaves }
    }
}

/// A signature over the execution result, produced by a collaborator; absent
/// when the result is unsigned. Opaque bytes to this core.
#[derive(Debug, PartialEq, Eq)]
pub struct Signature {
    pub bytes: Vec<u8>,
}

impl View for Signature {
    type V = Seq<u8>;

    open spec fn view(&self) -> Seq<u8> {
        self.bytes@
    }
}

impl Signature {
    /// Wraps raw signature bytes.
    pub fn new(bytes: Vec<u8>) -> (r: Self)
        ensures
            r@ == bytes@,
    {
        Signature { bytes }
    }
}

impl Clone for Signature {
    /// A clone carries exactly the same bytes.
    fn clone(&self) -> (r: Self)
        ensures
            r@ == self@,
    {
        Signature { bytes: self.bytes.clone() }
    }
}

/// Mathematical value of a [`StateComputeResult`].
pub ghost struct StateComputeResultView {
    pub root_hash: HashValue,
    pub version: u64,
    pub compute_status: Seq<TransactionStatus>,
    pub epoch_state: Option<EpochState>,
    pub reconfig_events: Seq<ContractEventView>,
    pub extension_proof: AccumulatorExtensionProofView,
    pub signature: Option<Seq<u8>>,
}

/// The deterministic output of executing a block's payload against a given
/// state. Produced once by the execution collaborator, never mutated; this
/// core only reads it.
#[derive(Debug, PartialEq, Eq)]
pub struct StateComputeResult {
    /// Root hash of the state after applying the payload.
    pub root_hash: HashValue,
    /// Version (transaction-log height) of that state.
    pub version: u64,
    /// One outcome per payload transaction. Empty when the block carries
    /// over a prior result without executing anything (the
    /// reconfiguration-suffix case).
    pub compute_status: Vec<TransactionStatus>,
    /// Present iff this result represents, or carries over from, a
    /// reconfiguration.
    pub epoch_state: Option<EpochState>,
    /// Events describing what a reconfiguration changed; empty otherwise.
    pub reconfig_events: Vec<ContractEvent>,
    /// Provenance forwarded unchanged into vote messages.
    pub extension_proof: AccumulatorExtensionProof,
    /// Signature over the result, if one was produced.
    pub signature: Option<Signature>,
}

impl View for StateComputeResult {
    type V = StateComputeResultView;

    open spec fn view(&self) -> StateComputeResultView {
        StateComputeResultView {
            root_hash: self.root_hash,
            version: self.version,
            compute_status: self.compute_status@,
            epoch_state: self.epoch_state,
            reconfig_events: event_views(self.reconfig_events@),
            extension_proof: self.extension_proof@,
            signature: match self.signature {
                Some(s) => Some(s@),
                None => None,
            },
        }
    }
}

impl StateComputeResult {
    /// Assembles a result from the values the execution collaborator
    /// produced.
    pub fn new(
        root_hash: HashValue,
        version: u64,
        compute_status: Vec<TransactionStatus>,
        epoch_state: Option<EpochState>,
        reconfig_events: Vec<ContractEvent>,
        extension_proof: AccumulatorExtensionProof,
        signature: Option<Signature>,
    ) -> (r: Self)
        ensures
            r == (StateComputeResult {
                root_hash,
                version,
                compute_status,
                epoch_state,
                reconfig_events,
                extension_proof,
                signature,
            }),
    {
        StateComputeResult {
            root_hash,
            version,
            compute_status,
            epoch_state,
            reconfig_events,
            extension_proof,
            signature,
        }
    }

    /// Root hash of the resulting state.
    pub fn root_hash(&self) -> (r: HashValue)
        ensures
            r == self.root_hash,
    {
        self.root_hash
    }

    /// Version of the resulting state.
    pub fn version(&self) -> (r: u64)
        ensures
            r == self.version,
    {
        self.version
    }

    /// Per-transaction outcomes, one per payload transaction.
    pub fn compute_status(&self) -> (r: &Vec<TransactionStatus>)
        ensures
            *r == self.compute_status,
    {
        &self.compute_status
    }

    /// The epoch state installed by this execution, if any.
    pub fn epoch_state(&self) -> (r: &Option<EpochState>)
        ensures
            *r == self.epoch_state,
    {
        &self.epoch_state
    }

    /// Whether this result represents (or carries over from) a
    /// reconfiguration.
    pub open spec fn spec_has_reconfiguration(self) -> bool {
        self.epoch_state is Some
    }

    /// True iff this result represents (or carries over from) a
    /// reconfiguration.
    pub fn has_reconfiguration(&self) -> (r: bool)
        ensures
            r == self.spec_has_reconfiguration(),
    {
        self.epoch_state.is_some()
    }

    /// The reconfiguration events this execution emitted.
    pub fn reconfig_events(&self) -> (r: &Vec<ContractEvent>)
        ensures
            *r == self.reconfig_events,
    {
        &self.reconfig_events
    }

    /// A copy of the provenance proof, as forwarded into vote messages.
    pub fn extension_proof(&self) -> (r: AccumulatorExtensionProof)
        ensures
            r@ == self.extension_proof@,
    {
        self.extension_proof.clone()
    }

    /// The signature over this result, if one was produced.
    pub fn signature(&self) -> (r: &Option<Signature>)
        ensures
            *r == self.signature,
    {
        &self.signature
    }
}

} // verus!
