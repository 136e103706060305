//! Domain events emitted by execution, forwarded verbatim by this core.

use vstd::prelude::*;

verus! {

/// Mathematical value of a [`ContractEvent`].
pub ghost struct ContractEventView {
    pub key: Seq<u8>,
    pub sequence_number: u64,
    pub data: Seq<u8>,
}

/// An event raised while executing a block, e.g. the event describing a
/// reconfiguration. The core never interprets an event; it only decides
/// whether the event is forwarded or suppressed (the reconfiguration-suffix
/// rule), so key and body are opaque bytes.
#[derive(Debug, PartialEq, Eq)]
pub struct ContractEvent {
    pub key: Vec<u8>,
    pub sequence_number: u64,
    pub data: Vec<u8>,
}

impl View for ContractEvent {
    type V = ContractEventView;

    open spec fn view(&self) -> ContractEventView {
        ContractEventView {
            key: self.key@,
            sequence_number: self.sequence_number,
            data: self.data@,
        }
    }
}

impl ContractEvent {
    /// Builds an event from its raw parts.
    pub fn new(key: Vec<u8>, sequence_number: u64, data: Vec<u8>) -> (r: Self)
        ensures
            r@ == (ContractEventView { key: key@, sequence_number, data: data@ }),
    {
        ContractEvent { key, sequence_number, data }
    }
}

impl Clone for ContractEvent {
    /// A clone carries exactly the same key, sequence number and body.
    fn clone(&self) -> (r: Self)
        ensures
            r@ == self@,
    {
        ContractEvent {
            key: self.key.clone(),
            sequence_number: self.sequence_number,
            data: self.data.clone(),
        }
    }
}

/// The mathematical contents of a sequence of events, in order.
pub open spec fn event_views(events: Seq<ContractEvent>) -> Seq<ContractEventView> {
    events.map_values(|e: ContractEvent| e@)
}

/// Clones a sequence of events, field for field and in order.
pub fn clone_events(events: &Vec<ContractEvent>) -> (r: Vec<ContractEvent>)
    ensures
        event_views(r@) == event_views(events@),
{
    let c = events.clone();
    proof {
        assert forall|i: int| 0 <= i < c@.len() implies c@[i]@ == events@[i]@ by {
            assert(cloned::<ContractEvent>(events@[i], c@[i]));
        }
        assert(event_views(c@) =~= event_views(events@));
    }
    c
}

} // verus!
