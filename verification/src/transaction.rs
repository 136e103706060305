//! Transactions and their per-transaction execution outcomes.

use vstd::prelude::*;

verus! {

/// Numeric code qualifying a kept or discarded outcome (e.g. which abort or
/// validation rule applied). The meaning of each code belongs to the
/// execution collaborator; this core carries the code through unchanged.
pub type StatusCode = u64;

/// A transaction as this core sees it: an opaque, immutable sequence of
/// bytes. Interpretation and execution belong to collaborators; the core
/// only orders, filters and forwards transactions.
#[derive(Debug, PartialEq, Eq)]
pub struct Transaction {
    pub data: Vec<u8>,
}

impl View for Transaction {
    type V = Seq<u8>;

    open spec fn view(&self) -> Seq<u8> {
        self.data@
    }
}

impl Transaction {
    /// Wraps raw transaction bytes.
    pub fn new(data: Vec<u8>) -> (r: Self)
        ensures
            r@ == data@,
    {
        Transaction { data }
    }

    /// The raw bytes of this transaction.
    pub fn data(&self) -> (r: &Vec<u8>)
        ensures
            r@ == self@,
    {
        &self.data
    }
}

impl Clone for Transaction {
    /// A clone carries exactly the same bytes.
    fn clone(&self) -> (r: Self)
        ensures
            r@ == self@,
    {
        Transaction { data: self.data.clone() }
    }
}

/// The mathematical contents of a sequence of transactions: each
/// transaction's bytes, in their original order.
pub open spec fn txn_views(txns: Seq<Transaction>) -> Seq<Seq<u8>> {
    txns.map_values(|t: Transaction| t@)
}

/// Clones a sequence of transactions, byte for byte and in order.
pub fn clone_transactions(txns: &Vec<Transaction>) -> (r: Vec<Transaction>)
    ensures
        txn_views(r@) == txn_views(txns@),
{
    let c = txns.clone();
    proof {
        assert forall|i: int| 0 <= i < c@.len() implies c@[i]@ == txns@[i]@ by {
            assert(cloned::<Transaction>(txns@[i], c@[i]));
        }
        assert(txn_views(c@) =~= txn_views(txns@));
    }
    c
}

/// The outcome of executing one transaction, one entry per payload
/// transaction: kept in the committed history, discarded for the given
/// reason, or to be retried after the chain advances.
#[derive(Clone, Copy, Debug, PartialEq, Eq, Structural)]
pub enum TransactionStatus {
    /// The transaction is part of the committed history.
    Keep(StatusCode),
    /// The transaction is excluded from the committed history.
    Discard(StatusCode),
    /// The transaction must be re-submitted after the current block.
    Retry,
}

} // verus!
