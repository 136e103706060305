//! Consensus proposals.

use crate::block_info::BlockInfo;
use crate::common::{Payload, Round};
use crate::epoch_state::EpochState;
use crate::hash_value::HashValue;
use crate::quorum_cert::QuorumCert;
use crate::transaction::{clone_transactions, txn_views, Transaction};
use vstd::prelude::*;

verus! {

/// Mathematical value of a [`Block`]: the same fields, with the payload's
/// transactions reduced to their byte sequences.
pub ghost struct BlockView {
    pub id: HashValue,
    pub epoch: u64,
    pub round: Round,
    pub timestamp_usecs: u64,
    pub payload: Option<Seq<Seq<u8>>>,
    pub quorum_cert: Option<QuorumCert>,
}

/// An immutable consensus proposal. A block is constructed and validated by
/// collaborators before it reaches this core; here it is a read-only record.
///
/// The certificate is the certificate of the *parent* block, absent only for
/// the genesis/root block: `quorum_cert.certified_block.id` is the sole link
/// by which the tree topology is recovered.
#[derive(Debug, PartialEq, Eq)]
pub struct Block {
    /// Content-derived identifier: the hash of the block's fields, computed
    /// by a collaborator before the block enters this core.
    pub id: HashValue,
    /// Epoch the block belongs to; changes only at a reconfiguration.
    pub epoch: u64,
    /// Round within the epoch, strictly increasing from parent to child.
    pub round: Round,
    /// Proposer-supplied timestamp in microseconds.
    pub timestamp_usecs: u64,
    /// The proposed transactions; absent for empty blocks.
    pub payload: Option<Payload>,
    /// Certificate of the parent block; absent only for the root.
    pub quorum_cert: Option<QuorumCert>,
}

impl View for Block {
    type V = BlockView;

    open spec fn view(&self) -> BlockView {
        BlockView {
            id: self.id,
            epoch: self.epoch,
            round: self.round,
            timestamp_usecs: self.timestamp_usecs,
            payload: match self.payload {
                Some(p) => Some(txn_views(p@)),
                None => None,
            },
            quorum_cert: self.quorum_cert,
        }
    }
}

impl Block {
    /// Builds a block from its already-validated parts.
    pub fn new(
        id: HashValue,
        epoch: u64,
        round: Round,
        timestamp_usecs: u64,
        payload: Option<Payload>,
        quorum_cert: Option<QuorumCert>,
    ) -> (r: Self)
        ensures
            r == (Block { id, epoch, round, timestamp_usecs, payload, quorum_cert }),
    {
        Block { id, epoch, round, timestamp_usecs, payload, quorum_cert }
    }

    /// Content-derived identifier of this block.
    pub fn id(&self) -> (r: HashValue)
        ensures
            r == self.id,
    {
        self.id
    }

    /// Epoch this block belongs to.
    pub fn epoch(&self) -> (r: u64)
        ensures
            r == self.epoch,
    {
        self.epoch
    }

    /// Round of this block within its epoch.
    pub fn round(&self) -> (r: Round)
        ensures
            r == self.round,
    {
        self.round
    }

    /// Proposer-supplied timestamp in microseconds.
    pub fn timestamp_usecs(&self) -> (r: u64)
        ensures
            r == self.timestamp_usecs,
    {
        self.timestamp_usecs
    }

    /// The proposed transactions, if the block carries any.
    pub fn payload(&self) -> (r: Option<&Payload>)
        ensures
            (match r {
                Some(p) => self.payload == Some(*p),
                None => self.payload is None,
            }),
    {
        self.payload.as_ref()
    }

    /// Certificate of the parent block; `None` only for the root.
    pub fn quorum_cert(&self) -> (r: Option<&QuorumCert>)
        ensures
            (match r {
                Some(q) => self.quorum_cert == Some(*q),
                None => self.quorum_cert is None,
            }),
    {
        self.quorum_cert.as_ref()
    }

    /// The transactions that execution runs for this block: the payload's
    /// transactions in order, none for an empty block.
    pub open spec fn spec_transactions_to_execute(self) -> Seq<Seq<u8>> {
        match self.payload {
            Some(p) => txn_views(p@),
            None => Seq::empty(),
        }
    }

    /// The ordered transactions that execution runs for this block.
    pub fn transactions_to_execute(&self) -> (r: Vec<Transaction>)
        ensures
            txn_views(r@) == self.spec_transactions_to_execute(),
    {
        match &self.payload {
            Some(p) => clone_transactions(p),
            None => {
                let r = Vec::new();
                proof {
                    assert(txn_views(r@) =~= Seq::<Seq<u8>>::empty());
                }
                r
            },
        }
    }

    /// Summarises this block together with the state its execution reached:
    /// the value the next quorum certificate commits to.
    pub fn gen_block_info(
        &self,
        executed_state_id: HashValue,
        version: u64,
        next_epoch_state: Option<EpochState>,
    ) -> (r: BlockInfo)
        ensures
            r == (BlockInfo {
                epoch: self.epoch,
                round: self.round,
                id: self.id,
                executed_state_id,
                version,
                timestamp_usecs: self.timestamp_usecs,
                next_epoch_state,
            }),
    {
        BlockInfo::new(
            self.epoch,
            self.round,
            self.id,
            executed_state_id,
            version,
            self.timestamp_usecs,
            next_epoch_state,
        )
    }
}

impl Clone for Block {
    /// A clone has the same fields; its payload carries the same bytes.
    fn clone(&self) -> (r: Self)
        ensures
            r@ == self@,
    {
        let payload = match &self.payload {
            Some(p) => Some(clone_transactions(p)),
            None => None,
        };
        Block {
            id: self.id,
            epoch: self.epoch,
            round: self.round,
            timestamp_usecs: self.timestamp_usecs,
            payload,
            quorum_cert: self.quorum_cert,
        }
    }
}

} // verus!
