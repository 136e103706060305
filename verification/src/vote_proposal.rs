//! The messages assembled from an executed block for voting.

use crate::block::{Block, BlockView};
use crate::epoch_state::EpochState;
use crate::state_compute_result::{
    AccumulatorExtensionProof, AccumulatorExtensionProofView, Signature,
};
use vstd::prelude::*;

verus! {

/// Mathematical value of a [`VoteProposal`].
pub ghost struct VoteProposalView {
    pub accumulator_extension_proof: AccumulatorExtensionProofView,
    pub block: BlockView,
    pub next_epoch_state: Option<EpochState>,
    pub decoupled_execution: bool,
}

/// The message sent to peers to solicit votes on an executed block: the
/// proof that execution extended the accumulator, a copy of the block, the
/// epoch state its execution installed (if any), and whether execution is
/// decoupled from voting. The flag only changes how the receiving
/// collaborator interprets the proposal, never any value computed here.
#[derive(Debug, PartialEq, Eq)]
pub struct VoteProposal {
    pub accumulator_extension_proof: AccumulatorExtensionProof,
    pub block: Block,
    pub next_epoch_state: Option<EpochState>,
    pub decoupled_execution: bool,
}

impl View for VoteProposal {
    type V = VoteProposalView;

    open spec fn view(&self) -> VoteProposalView {
        VoteProposalView {
            accumulator_extension_proof: self.accumulator_extension_proof@,
            block: self.block@,
            next_epoch_state: self.next_epoch_state,
            decoupled_execution: self.decoupled_execution,
        }
    }
}

impl VoteProposal {
    /// Assembles a proposal from its parts.
    pub fn new(
        accumulator_extension_proof: AccumulatorExtensionProof,
        block: Block,
        next_epoch_state: Option<EpochState>,
        decoupled_execution: bool,
    ) -> (r: Self)
        ensures
            r == (VoteProposal {
                accumulator_extension_proof,
                block,
                next_epoch_state,
                decoupled_execution,
            }),
    {
        VoteProposal { accumulator_extension_proof, block, next_epoch_state, decoupled_execution }
    }

    /// The block this proposal solicits votes on.
    pub fn block(&self) -> (r: &Block)
        ensures
            *r == self.block,
    {
        &self.block
    }
}

/// Mathematical value of a [`MaybeSignedVoteProposal`].
pub ghost struct MaybeSignedVoteProposalView {
    pub vote_proposal: VoteProposalView,
    pub signature: Option<Seq<u8>>,
}

/// A vote proposal together with the execution result's signature, when one
/// was produced; whether an unsigned proposal is acceptable is the receiving
/// collaborator's decision.
#[derive(Debug, PartialEq, Eq)]
pub struct MaybeSignedVoteProposal {
    pub vote_proposal: VoteProposal,
    pub signature: Option<Signature>,
}

impl View for MaybeSignedVoteProposal {
    type V = MaybeSignedVoteProposalView;

    open spec fn view(&self) -> MaybeSignedVoteProposalView {
        MaybeSignedVoteProposalView {
            vote_proposal: self.vote_proposal@,
            signature: match self.signature {
                Some(s) => Some(s@),
                None => None,
            },
        }
    }
}

} // verus!
