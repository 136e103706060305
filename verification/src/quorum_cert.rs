//! Certificates binding a block into the chain.

use crate::block_info::BlockInfo;
use vstd::prelude::*;

verus! {

/// Proof that a qualifying supermajority voted for a specific block summary.
/// Vote aggregation and signature checking happen before a certificate
/// reaches this core, so a certificate here is already-validated data and
/// only exposes the summary it certifies.
#[derive(Clone, Copy, Debug, PartialEq, Eq)]
pub struct QuorumCert {
    /// The summary the supermajority voted for.
    pub certified_block: BlockInfo,
}

impl QuorumCert {
    /// Builds a certificate for the given summary.
    pub fn new(certified_block: BlockInfo) -> (r: Self)
        ensures
            r.certified_block == certified_block,
    {
        QuorumCert { certified_block }
    }

    /// The summary this certificate certifies.
    pub fn certified_block(&self) -> (r: &BlockInfo)
        ensures
            *r == self.certified_block,
    {
        &self.certified_block
    }
}

} // verus!
