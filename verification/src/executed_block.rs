//! A proposal paired with its speculative execution outcome, and the
//! commit-filtering and summary rules derived from the pair.

use crate::block::{Block, BlockView};
use crate::block_info::BlockInfo;
use crate::common::{Payload, Round};
use crate::contract_event::{clone_events, event_views, ContractEvent, ContractEventView};
use crate::hash_value::HashValue;
use crate::quorum_cert::QuorumCert;
use crate::state_compute_result::{StateComputeResult, StateComputeResultView};
use crate::transaction::{txn_views, Transaction, TransactionStatus};
use crate::vote_proposal::{
    MaybeSignedVoteProposal, MaybeSignedVoteProposalView, VoteProposal, VoteProposalView,
};
use vstd::prelude::*;

verus! {

/// The failure conditions this core detects itself. Everything else
/// (signatures, quorum sufficiency, payload well-formedness) is validated by
/// collaborators before a value reaches this core.
#[derive(Clone, Copy, Debug, PartialEq, Eq, Structural)]
pub enum ConsensusError {
    /// The parent identifier was asked of the root block, which carries no
    /// certificate. Distinct from every other fault so the root is never
    /// confused with a malformed block.
    MissingParentCertificate,
    /// The payload and the per-transaction outcome sequence disagree in
    /// length: an internal-consistency defect of the execution collaborator.
    /// Processing of the block must stop rather than truncate or pad.
    StatusLengthMismatch { payload_len: usize, status_len: usize },
}

/// The transactions the commit filter keeps: those whose same-index outcome
/// is `Keep`, in their original order.
pub open spec fn kept_transactions(
    txns: Seq<Seq<u8>>,
    statuses: Seq<TransactionStatus>,
) -> Seq<Seq<u8>>
    decreases txns.len(),
{
    if txns.len() == 0 || statuses.len() == 0 {
        Seq::empty()
    } else if statuses.last() is Keep {
        kept_transactions(txns.drop_last(), statuses.drop_last()).push(txns.last())
    } else {
        kept_transactions(txns.drop_last(), statuses.drop_last())
    }
}

/// How many outcomes in the sequence are `Keep`.
pub open spec fn keep_count(statuses: Seq<TransactionStatus>) -> int
    decreases statuses.len(),
{
    if statuses.len() == 0 {
        0
    } else {
        keep_count(statuses.drop_last()) + if statuses.last() is Keep {
            1int
        } else {
            0int
        }
    }
}

/// The positions of the `Keep` outcomes, in ascending order.
pub open spec fn keep_indices(statuses: Seq<TransactionStatus>) -> Seq<int>
    decreases statuses.len(),
{
    if statuses.len() == 0 {
        Seq::empty()
    } else if statuses.last() is Keep {
        keep_indices(statuses.drop_last()).push(statuses.len() - 1)
    } else {
        keep_indices(statuses.drop_last())
    }
}

/// Mathematical value of an [`ExecutedBlock`].
pub ghost struct ExecutedBlockView {
    pub block: BlockView,
    pub state_compute_result: StateComputeResultView,
}

/// The certifiable summary derived from an executed block's value: the
/// block's own coordinates plus the state its execution reached.
pub open spec fn block_info_of(v: ExecutedBlockView) -> BlockInfo {
    BlockInfo {
        epoch: v.block.epoch,
        round: v.block.round,
        id: v.block.id,
        executed_state_id: v.state_compute_result.root_hash,
        version: v.state_compute_result.version,
        timestamp_usecs: v.block.timestamp_usecs,
        next_epoch_state: v.state_compute_result.epoch_state,
    }
}

/// A block paired with the result of speculatively executing it: the unit
/// the speculative tree stores. Executed blocks are managed in a tree whose
/// committed portion forms a chain; results are never persisted and are
/// recomputed for pending blocks on restart. Immutable once constructed, so
/// concurrent readers need no coordination.
#[derive(Debug, PartialEq, Eq)]
pub struct ExecutedBlock {
    /// Block data that cannot be regenerated.
    pub block: Block,
    /// The result computed for this block before insertion into the tree.
    pub state_compute_result: StateComputeResult,
}

impl View for ExecutedBlock {
    type V = ExecutedBlockView;

    open spec fn view(&self) -> ExecutedBlockView {
        ExecutedBlockView {
            block: self.block@,
            state_compute_result: self.state_compute_result@,
        }
    }
}

impl ExecutedBlock {
    /// Pairs a block with its execution result.
    pub fn new(block: Block, state_compute_result: StateComputeResult) -> (r: Self)
        ensures
            r == (ExecutedBlock { block, state_compute_result }),
    {
        ExecutedBlock { block, state_compute_result }
    }

    /// The wrapped block.
    pub fn block(&self) -> (r: &Block)
        ensures
            *r == self.block,
    {
        &self.block
    }

    /// Identifier of the wrapped block; the identity of this executed block
    /// for tree purposes.
    pub fn id(&self) -> (r: HashValue)
        ensures
            r == self.block.id,
    {
        self.block().id()
    }

    /// Epoch of the wrapped block.
    pub fn epoch(&self) -> (r: u64)
        ensures
            r == self.block.epoch,
    {
        self.block.epoch()
    }

    /// Payload of the wrapped block.
    pub fn payload(&self) -> (r: Option<&Payload>)
        ensures
            (match r {
                Some(p) => self.block.payload == Some(*p),
                None => self.block.payload is None,
            }),
    {
        self.block().payload()
    }

    /// Identifier of the logical parent: the block certified by the wrapped
    /// block's certificate. The root block carries no certificate, and asking
    /// for its parent reports that distinct condition.
    pub fn parent_id(&self) -> (r: Result<HashValue, ConsensusError>)
        ensures
            (match self.block.quorum_cert {
                Some(qc) => r == Ok::<HashValue, ConsensusError>(qc.certified_block.id),
                None => r == Err::<HashValue, ConsensusError>(
                    ConsensusError::MissingParentCertificate,
                ),
            }),
    {
        match self.quorum_cert() {
            Some(qc) => Ok(qc.certified_block().id()),
            None => Err(ConsensusError::MissingParentCertificate),
        }
    }

    /// Certificate of the wrapped block's parent; `None` only for the root.
    pub fn quorum_cert(&self) -> (r: Option<&QuorumCert>)
        ensures
            (match r {
                Some(q) => self.block.quorum_cert == Some(*q),
                None => self.block.quorum_cert is None,
            }),
    {
        self.block().quorum_cert()
    }

    /// Round of the wrapped block.
    pub fn round(&self) -> (r: Round)
        ensures
            r == self.block.round,
    {
        self.block().round()
    }

    /// Timestamp of the wrapped block, in microseconds.
    pub fn timestamp_usecs(&self) -> (r: u64)
        ensures
            r == self.block.timestamp_usecs,
    {
        self.block().timestamp_usecs()
    }

    /// The wrapped execution result. Callers deriving committed transactions
    /// or events must use the derived accessors, which apply the
    /// reconfiguration-suffix rule; the raw result does not.
    pub fn compute_result(&self) -> (r: &StateComputeResult)
        ensures
            *r == self.state_compute_result,
    {
        &self.state_compute_result
    }

    /// The certifiable summary of this executed block.
    pub open spec fn spec_block_info(self) -> BlockInfo {
        block_info_of(self@)
    }

    /// Summarises this executed block as the value the next quorum
    /// certificate commits to. A pure derivation: replicas that executed the
    /// same block obtain the identical summary.
    pub fn block_info(&self) -> (r: BlockInfo)
        ensures
            r == self.spec_block_info(),
    {
        self.block().gen_block_info(
            self.compute_result().root_hash(),
            self.compute_result().version(),
            *self.compute_result().epoch_state(),
        )
    }

    /// The vote message this executed block gives rise to.
    pub open spec fn spec_maybe_signed_vote_proposal(
        self,
        decoupled_execution: bool,
    ) -> MaybeSignedVoteProposalView {
        MaybeSignedVoteProposalView {
            vote_proposal: VoteProposalView {
                accumulator_extension_proof: self.state_compute_result.extension_proof@,
                block: self.block@,
                next_epoch_state: self.state_compute_result.epoch_state,
                decoupled_execution,
            },
            signature: match self.state_compute_result.signature {
                Some(s) => Some(s@),
                None => None,
            },
        }
    }

    /// Assembles the vote message: the result's extension proof, a copy of
    /// the block, the result's epoch state and the decoupled-execution flag,
    /// paired with the result's signature when one exists.
    pub fn maybe_signed_vote_proposal(&self, decoupled_execution: bool) -> (r:
        MaybeSignedVoteProposal)
        ensures
            r@ == self.spec_maybe_signed_vote_proposal(decoupled_execution),
    {
        let signature = match self.compute_result().signature() {
            Some(s) => Some(s.clone()),
            None => None,
        };
        MaybeSignedVoteProposal {
            vote_proposal: VoteProposal::new(
                self.compute_result().extension_proof(),
                self.block.clone(),
                *self.compute_result().epoch_state(),
                decoupled_execution,
            ),
            signature,
        }
    }

    /// Whether this block is the suffix of a reconfiguration: its result
    /// carries over an epoch state but executed nothing.
    pub open spec fn spec_is_reconfiguration_suffix(self) -> bool {
        self.state_compute_result.spec_has_reconfiguration()
            && self.state_compute_result.compute_status@.len() == 0
    }

    /// True iff the state result carries over the epoch state from the
    /// parent but has no transaction: the block follows a
    /// reconfiguration-triggering block and itself executes nothing.
    pub fn is_reconfiguration_suffix(&self) -> (r: bool)
        ensures
            r == self.spec_is_reconfiguration_suffix(),
    {
        self.state_compute_result.has_reconfiguration()
            && self.compute_result().compute_status().is_empty()
    }

    /// Whether payload and outcome sequence are consistent: a
    /// reconfiguration suffix executes nothing, and otherwise each payload
    /// transaction must have exactly one outcome.
    pub open spec fn spec_commit_consistent(self) -> bool {
        self.spec_is_reconfiguration_suffix() || self.block.spec_transactions_to_execute().len()
            == self.state_compute_result.compute_status@.len()
    }

    /// The transactions this block finally commits: none for a
    /// reconfiguration suffix, otherwise exactly the payload transactions
    /// whose outcome is `Keep`, in order.
    pub open spec fn spec_transactions_to_commit(self) -> Seq<Seq<u8>> {
        if self.spec_is_reconfiguration_suffix() {
            Seq::empty()
        } else {
            kept_transactions(
                self.block.spec_transactions_to_execute(),
                self.state_compute_result.compute_status@,
            )
        }
    }

    /// Derives the final list of transactions to commit. A reconfiguration
    /// suffix executed nothing and commits nothing; otherwise each payload
    /// transaction is paired with its same-index outcome and kept exactly
    /// when that outcome is `Keep`, preserving order. A length mismatch
    /// between payload and outcomes is a fatal internal-consistency error:
    /// the block is rejected whole, never truncated or padded.
    pub fn transactions_to_commit(&self) -> (r: Result<Vec<Transaction>, ConsensusError>)
        ensures
            r is Ok <==> self.spec_commit_consistent(),
            r matches Ok(v) ==> txn_views(v@) == self.spec_transactions_to_commit(),
            r matches Err(e) ==> e == (ConsensusError::StatusLengthMismatch {
                payload_len: self.block.spec_transactions_to_execute().len() as usize,
                status_len: self.state_compute_result.compute_status@.len() as usize,
            }),
    {
        if self.is_reconfiguration_suffix() {
            let empty: Vec<Transaction> = Vec::new();
            proof {
                assert(txn_views(empty@) =~= Seq::<Seq<u8>>::empty());
            }
            return Ok(empty);
        }
        let txns = self.block.transactions_to_execute();
        let statuses = self.compute_result().compute_status();
        if txns.len() != statuses.len() {
            return Err(
                ConsensusError::StatusLengthMismatch {
                    payload_len: txns.len(),
                    status_len: statuses.len(),
                },
            );
        }
        let ghost t = txn_views(txns@);
        let ghost s = self.state_compute_result.compute_status@;
        let mut committed: Vec<Transaction> = Vec::new();
        let mut i: usize = 0;
        proof {
            assert(txn_views(committed@) =~= kept_transactions(t.take(0), s.take(0)));
        }
        while i < txns.len()
            invariant
                i <= txns@.len(),
                txns@.len() == statuses@.len(),
                statuses == &self.state_compute_result.compute_status,
                t == txn_views(txns@),
                s == self.state_compute_result.compute_status@,
                txn_views(committed@) == kept_transactions(t.take(i as int), s.take(i as int)),
            decreases txns@.len() - i,
        {
            proof {
                assert(t.take(i + 1).drop_last() =~= t.take(i as int));
                assert(s.take(i + 1).drop_last() =~= s.take(i as int));
                assert(t.take(i + 1).last() == t[i as int]);
                assert(s.take(i + 1).last() == s[i as int]);
            }
            match statuses[i] {
                TransactionStatus::Keep(_) => {
                    let txn = txns[i].clone();
                    committed.push(txn);
                    proof {
                        assert(txn_views(committed@) =~= kept_transactions(
                            t.take(i + 1),
                            s.take(i + 1),
                        ));
                    }
                },
                _ => {
                    proof {
                        assert(txn_views(committed@) =~= kept_transactions(
                            t.take(i + 1),
                            s.take(i + 1),
                        ));
                    }
                },
            }
            i = i + 1;
        }
        proof {
            assert(t.take(txns@.len() as int) =~= t);
            assert(s.take(txns@.len() as int) =~= s);
        }
        Ok(committed)
    }

    /// The reconfiguration events this block emits: none for a
    /// reconfiguration suffix (its triggering ancestor already emitted
    /// them), otherwise the result's events verbatim.
    pub open spec fn spec_reconfig_event(self) -> Seq<ContractEventView> {
        if self.spec_is_reconfiguration_suffix() {
            Seq::empty()
        } else {
            event_views(self.state_compute_result.reconfig_events@)
        }
    }

    /// Derives the reconfiguration events to emit for this block. A
    /// reconfiguration suffix carries its result over from the parent, so
    /// its events were already emitted and must not be re-emitted.
    pub fn reconfig_event(&self) -> (r: Vec<ContractEvent>)
        ensures
            event_views(r@) == self.spec_reconfig_event(),
    {
        if self.is_reconfiguration_suffix() {
            let empty: Vec<ContractEvent> = Vec::new();
            proof {
                assert(event_views(empty@) =~= Seq::<ContractEventView>::empty());
            }
            return empty;
        }
        clone_events(self.compute_result().reconfig_events())
    }
}

/// A reconfiguration suffix commits nothing and re-emits nothing: whenever
/// a block's result carries a reconfiguration and its outcome sequence is
/// empty, the block is a reconfiguration suffix, its committed-transaction
/// list is empty and its emitted-event list is empty.
pub proof fn lemma_reconfiguration_suffix_commits_nothing(b: ExecutedBlock)
    requires
        b.state_compute_result.spec_has_reconfiguration(),
        b.state_compute_result.compute_status@.len() == 0,
    ensures
        b.spec_is_reconfiguration_suffix(),
        b.spec_transactions_to_commit() == Seq::<Seq<u8>>::empty(),
        b.spec_reconfig_event() == Seq::<ContractEventView>::empty(),
{
}

/// The commit filter keeps exactly the transactions whose outcome is
/// `Keep`: for payload and outcomes of equal length, the committed list has
/// one entry per `Keep` outcome, each committed transaction comes from a
/// position whose outcome is `Keep`, and those positions appear in strictly
/// increasing order, so the original order is preserved.
pub proof fn lemma_commit_filter_keeps_exactly_the_kept(
    txns: Seq<Seq<u8>>,
    statuses: Seq<TransactionStatus>,
)
    requires
        txns.len() == statuses.len(),
    ensures
        kept_transactions(txns, statuses).len() == keep_count(statuses),
        keep_indices(statuses).len() == keep_count(statuses),
        forall|j: int|
            0 <= j < keep_indices(statuses).len() ==> 0 <= #[trigger] keep_indices(statuses)[j]
                < statuses.len() && statuses[keep_indices(statuses)[j]] is Keep,
        forall|j: int|
            0 <= j < keep_indices(statuses).len() ==> #[trigger] kept_transactions(txns, statuses)[j]
                == txns[keep_indices(statuses)[j]],
        forall|j: int|
            0 <= j && j + 1 < keep_indices(statuses).len() ==> #[trigger] keep_indices(statuses)[j]
                < keep_indices(statuses)[j + 1],
    decreases txns.len(),
{
    if txns.len() > 0 {
        let pt = txns.drop_last();
        let ps = statuses.drop_last();
        lemma_commit_filter_keeps_exactly_the_kept(pt, ps);
        assert forall|j: int| 0 <= j < keep_indices(ps).len() implies #[trigger] keep_indices(
            statuses,
        )[j] == keep_indices(ps)[j] && kept_transactions(txns, statuses)[j] == kept_transactions(
            pt,
            ps,
        )[j] by {}
        assert forall|j: int|
            0 <= j < keep_indices(ps).len() implies #[trigger] kept_transactions(pt, ps)[j] == txns[
            keep_indices(ps)[j]] by {
            assert(pt[keep_indices(ps)[j]] == txns[keep_indices(ps)[j]]);
        }
    }
}

/// Deriving the certifiable summary is a pure function of the pair of block
/// and result: two executed blocks of equal value yield the same summary,
/// so independently executing replicas converge on one certifiable value.
pub proof fn lemma_block_info_deterministic(a: ExecutedBlock, b: ExecutedBlock)
    requires
        a@ == b@,
    ensures
        a.spec_block_info() == b.spec_block_info(),
{
}

} // verus!
