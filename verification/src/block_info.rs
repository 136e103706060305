//! The compact, certifiable summary of an executed block.

use crate::common::Round;
use crate::epoch_state::EpochState;
use crate::hash_value::HashValue;
use vstd::prelude::*;

verus! {

/// The summary of a block and of the state reached by executing it: what a
/// quorum certificate commits to. Independent replicas that execute the same
/// block must derive an identical `BlockInfo`, so every field is a plain
/// value and the derivation is a pure function of its inputs.
#[derive(Clone, Copy, Debug, PartialEq, Eq)]
pub struct BlockInfo {
    /// Epoch the block belongs to.
    pub epoch: u64,
    /// Round of the block within its epoch.
    pub round: Round,
    /// Content-derived identifier of the block.
    pub id: HashValue,
    /// Root hash of the state after executing the block.
    pub executed_state_id: HashValue,
    /// Version (height in the transaction log) of that state.
    pub version: u64,
    /// Proposer-supplied timestamp of the block, in microseconds.
    pub timestamp_usecs: u64,
    /// The epoch state installed by this block, if its execution triggered
    /// (or carries over) a reconfiguration.
    pub next_epoch_state: Option<EpochState>,
}

impl BlockInfo {
    /// Builds a summary from its parts.
    pub fn new(
        epoch: u64,
        round: Round,
        id: HashValue,
        executed_state_id: HashValue,
        version: u64,
        timestamp_usecs: u64,
        next_epoch_state: Option<EpochState>,
    ) -> (r: Self)
        ensures
            r == (BlockInfo {
                epoch,
                round,
                id,
                executed_state_id,
                version,
                timestamp_usecs,
                next_epoch_state,
            }),
    {
        BlockInfo { epoch, round, id, executed_state_id, version, timestamp_usecs, next_epoch_state }
    }

    /// Identifier of the summarised block.
    pub fn id(&self) -> (r: HashValue)
        ensures
            r == self.id,
    {
        self.id
    }

    /// Epoch of the summarised block.
    pub fn epoch(&self) -> (r: u64)
        ensures
            r == self.epoch,
    {
        self.epoch
    }

    /// Round of the summarised block.
    pub fn round(&self) -> (r: Round)
        ensures
            r == self.round,
    {
        self.round
    }
}

} // verus!
