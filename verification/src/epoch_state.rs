//! Epoch-scoped consensus configuration.

use vstd::prelude::*;

verus! {

/// The state that a reconfiguration installs: the number of the epoch that
/// begins once the reconfiguration commits. Validator-set membership and the
/// other epoch-scoped parameters live with the collaborators that verify
/// votes; this core only carries the epoch forward into certificates and
/// vote messages.
#[derive(Clone, Copy, Debug, PartialEq, Eq, Structural)]
pub struct EpochState {
    pub epoch: u64,
}

impl EpochState {
    /// Builds the state for the given epoch.
    pub fn new(epoch: u64) -> (r: Self)
        ensures
            r.epoch == epoch,
    {
        EpochState { epoch }
    }
}

} // verus!
