//! Execution-result bookkeeping core of a BFT consensus engine: the types
//! that bind a proposed block to its speculative execution outcome, link
//! blocks into a chain through quorum certificates, and derive which
//! transactions are finally committed.

pub mod block;
pub mod block_info;
pub mod common;
pub mod contract_event;
pub mod epoch_state;
pub mod executed_block;
pub mod hash_value;
pub mod quorum_cert;
pub mod state_compute_result;
pub mod transaction;
pub mod vote_proposal;
