//! Shared aliases for the consensus core.

use crate::transaction::Transaction;
use vstd::prelude::*;

verus! {

/// Consensus round: strictly increasing along any single chain within an
/// epoch, used to order competing proposals.
pub type Round = u64;

/// The ordered transactions a block proposes; empty blocks (heartbeats,
/// reconfiguration suffixes) carry none.
pub type Payload = Vec<Transaction>;

} // verus!
