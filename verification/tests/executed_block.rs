use consensus_types::block::Block;
use consensus_types::block_info::BlockInfo;
use consensus_types::contract_event::ContractEvent;
use consensus_types::epoch_state::EpochState;
use consensus_types::executed_block::{ConsensusError, ExecutedBlock};
use consensus_types::hash_value::HashValue;
use consensus_types::quorum_cert::QuorumCert;
use consensus_types::state_compute_result::{
    AccumulatorExtensionProof, Signature, StateComputeResult,
};
use consensus_types::transaction::{Transaction, TransactionStatus};
use consensus_types::vote_proposal::MaybeSignedVoteProposal;

fn hash(tag: u8) -> HashValue {
    HashValue::new([tag; 32])
}

fn txn(tag: u8) -> Transaction {
    Transaction::new(vec![tag, tag + 1, tag + 2])
}

fn event(tag: u8) -> ContractEvent {
    ContractEvent::new(vec![tag], tag as u64, vec![tag, tag])
}

fn proof_stub() -> AccumulatorExtensionProof {
    AccumulatorExtensionProof::new(vec![hash(9)], 4)
}

fn parent_cert() -> QuorumCert {
    QuorumCert::new(BlockInfo::new(1, 6, hash(5), hash(8), 41, 999, None))
}

fn block_with(payload: Option<Vec<Transaction>>, quorum_cert: Option<QuorumCert>) -> Block {
    Block::new(hash(1), 1, 7, 1000, payload, quorum_cert)
}

fn result_with(
    compute_status: Vec<TransactionStatus>,
    epoch_state: Option<EpochState>,
    reconfig_events: Vec<ContractEvent>,
) -> StateComputeResult {
    StateComputeResult::new(
        hash(2),
        42,
        compute_status,
        epoch_state,
        reconfig_events,
        proof_stub(),
        Some(Signature::new(vec![7, 7])),
    )
}

#[test]
fn scenario_mixed_statuses_keep_only_kept() {
    // Payload [tx1, tx2, tx3] with statuses [Keep, Discard, Keep]: exactly
    // the first and third transactions are committed, in order.
    let block = block_with(Some(vec![txn(10), txn(20), txn(30)]), Some(parent_cert()));
    let result = result_with(
        vec![
            TransactionStatus::Keep(0),
            TransactionStatus::Discard(5),
            TransactionStatus::Keep(0),
        ],
        None,
        vec![],
    );
    let eb = ExecutedBlock::new(block, result);
    assert!(!eb.is_reconfiguration_suffix());
    let committed = eb.transactions_to_commit().unwrap();
    assert_eq!(committed, vec![txn(10), txn(30)]);
}

#[test]
fn scenario_reconfiguration_suffix_commits_nothing() {
    // Empty payload, reconfiguration carried over, no outcomes: the block is
    // a reconfiguration suffix, commits nothing and re-emits no events.
    let block = block_with(None, Some(parent_cert()));
    let result = result_with(vec![], Some(EpochState::new(2)), vec![event(3)]);
    let eb = ExecutedBlock::new(block, result);
    assert!(eb.is_reconfiguration_suffix());
    assert_eq!(eb.transactions_to_commit().unwrap(), vec![]);
    assert_eq!(eb.reconfig_event(), vec![]);
}

#[test]
fn scenario_triggering_block_is_not_a_suffix() {
    // The block that itself triggers the reconfiguration: it has outcomes,
    // so it is no suffix; it commits its kept transaction and its events
    // pass through unfiltered.
    let block = block_with(Some(vec![txn(10)]), Some(parent_cert()));
    let result = result_with(
        vec![TransactionStatus::Keep(0)],
        Some(EpochState::new(2)),
        vec![event(3), event(4)],
    );
    let eb = ExecutedBlock::new(block, result);
    assert!(eb.compute_result().has_reconfiguration());
    assert!(!eb.is_reconfiguration_suffix());
    assert_eq!(eb.transactions_to_commit().unwrap(), vec![txn(10)]);
    assert_eq!(eb.reconfig_event(), vec![event(3), event(4)]);
}

#[test]
fn scenario_root_has_no_parent() {
    // The root block carries no certificate: asking for its parent reports
    // the distinct missing-parent condition, not a default identifier.
    let block = block_with(None, None);
    let result = result_with(vec![], None, vec![]);
    let eb = ExecutedBlock::new(block, result);
    assert!(eb.quorum_cert().is_none());
    assert_eq!(eb.parent_id(), Err(ConsensusError::MissingParentCertificate));
}

#[test]
fn parent_id_is_the_certified_id() {
    let block = block_with(None, Some(parent_cert()));
    let result = result_with(vec![], None, vec![]);
    let eb = ExecutedBlock::new(block, result);
    assert_eq!(eb.parent_id(), Ok(hash(5)));
}

#[test]
fn length_mismatch_fails_fast() {
    // Two payload transactions but one outcome: the block is rejected whole
    // with the typed mismatch error, never truncated.
    let block = block_with(Some(vec![txn(10), txn(20)]), Some(parent_cert()));
    let result = result_with(vec![TransactionStatus::Keep(0)], None, vec![]);
    let eb = ExecutedBlock::new(block, result);
    assert_eq!(
        eb.transactions_to_commit(),
        Err(ConsensusError::StatusLengthMismatch { payload_len: 2, status_len: 1 })
    );
}

#[test]
fn absent_payload_with_outcomes_fails_fast() {
    // No payload but a non-empty outcome sequence (and no reconfiguration):
    // inconsistent, so the mismatch error carries a zero payload length.
    let block = block_with(None, Some(parent_cert()));
    let result = result_with(vec![TransactionStatus::Retry], None, vec![]);
    let eb = ExecutedBlock::new(block, result);
    assert_eq!(
        eb.transactions_to_commit(),
        Err(ConsensusError::StatusLengthMismatch { payload_len: 0, status_len: 1 })
    );
}

#[test]
fn empty_payload_without_reconfiguration_commits_nothing() {
    let block = block_with(Some(vec![]), Some(parent_cert()));
    let result = result_with(vec![], None, vec![]);
    let eb = ExecutedBlock::new(block, result);
    assert!(!eb.is_reconfiguration_suffix());
    assert_eq!(eb.transactions_to_commit().unwrap(), vec![]);
}

#[test]
fn suffix_rule_looks_at_outcomes_not_payload() {
    // Even with a payload present, an empty outcome sequence together with a
    // carried-over reconfiguration marks the suffix, and nothing commits.
    let block = block_with(Some(vec![txn(10)]), Some(parent_cert()));
    let result = result_with(vec![], Some(EpochState::new(3)), vec![]);
    let eb = ExecutedBlock::new(block, result);
    assert!(eb.is_reconfiguration_suffix());
    assert_eq!(eb.transactions_to_commit().unwrap(), vec![]);
}

#[test]
fn all_discarded_commits_nothing() {
    let block = block_with(Some(vec![txn(10), txn(20)]), Some(parent_cert()));
    let result = result_with(
        vec![TransactionStatus::Discard(1), TransactionStatus::Retry],
        None,
        vec![],
    );
    let eb = ExecutedBlock::new(block, result);
    assert_eq!(eb.transactions_to_commit().unwrap(), vec![]);
}

#[test]
fn commit_count_matches_keep_count() {
    // Five transactions, three kept: the committed list has exactly the
    // kept ones, in their original relative order.
    let block = block_with(
        Some(vec![txn(10), txn(20), txn(30), txn(40), txn(50)]),
        Some(parent_cert()),
    );
    let result = result_with(
        vec![
            TransactionStatus::Discard(9),
            TransactionStatus::Keep(0),
            TransactionStatus::Keep(1),
            TransactionStatus::Retry,
            TransactionStatus::Keep(2),
        ],
        None,
        vec![],
    );
    let eb = ExecutedBlock::new(block, result);
    assert_eq!(
        eb.transactions_to_commit().unwrap(),
        vec![txn(20), txn(30), txn(50)]
    );
}

#[test]
fn block_info_is_deterministic() {
    // Calling the derivation twice on one executed block, or once each on
    // two equal executed blocks, yields the identical summary.
    let make = || {
        let block = block_with(Some(vec![txn(10)]), Some(parent_cert()));
        let result = result_with(vec![TransactionStatus::Keep(0)], Some(EpochState::new(2)), vec![]);
        ExecutedBlock::new(block, result)
    };
    let a = make();
    let b = make();
    assert_eq!(a.block_info(), a.block_info());
    assert_eq!(a.block_info(), b.block_info());
}

#[test]
fn block_info_carries_the_expected_fields() {
    let block = block_with(None, Some(parent_cert()));
    let result = result_with(vec![], Some(EpochState::new(2)), vec![]);
    let eb = ExecutedBlock::new(block, result);
    let info = eb.block_info();
    assert_eq!(
        info,
        BlockInfo::new(1, 7, hash(1), hash(2), 42, 1000, Some(EpochState::new(2)))
    );
    assert_eq!(info.id(), hash(1));
    assert_eq!(info.epoch(), 1);
    assert_eq!(info.round(), 7);
}

#[test]
fn vote_proposal_forwards_the_result() {
    let block = block_with(Some(vec![txn(10)]), Some(parent_cert()));
    let result = result_with(vec![TransactionStatus::Keep(0)], Some(EpochState::new(2)), vec![]);
    let eb = ExecutedBlock::new(block, result);
    let MaybeSignedVoteProposal { vote_proposal, signature } =
        eb.maybe_signed_vote_proposal(true);
    assert_eq!(vote_proposal.accumulator_extension_proof, proof_stub());
    assert_eq!(vote_proposal.block, *eb.block());
    assert_eq!(vote_proposal.next_epoch_state, Some(EpochState::new(2)));
    assert!(vote_proposal.decoupled_execution);
    assert_eq!(signature, Some(Signature::new(vec![7, 7])));

    let unsigned = StateComputeResult::new(hash(2), 42, vec![], None, vec![], proof_stub(), None);
    let eb2 = ExecutedBlock::new(block_with(None, None), unsigned);
    assert_eq!(eb2.maybe_signed_vote_proposal(false).signature, None);
    assert!(!eb2.maybe_signed_vote_proposal(false).vote_proposal.decoupled_execution);
}

#[test]
fn accessors_project_the_wrapped_block() {
    let payload = vec![txn(10), txn(20)];
    let block = block_with(Some(payload.clone()), Some(parent_cert()));
    let result = result_with(
        vec![TransactionStatus::Keep(0), TransactionStatus::Keep(0)],
        None,
        vec![],
    );
    let eb = ExecutedBlock::new(block, result);
    assert_eq!(eb.id(), hash(1));
    assert_eq!(eb.epoch(), 1);
    assert_eq!(eb.round(), 7);
    assert_eq!(eb.timestamp_usecs(), 1000);
    assert_eq!(eb.payload(), Some(&payload));
    assert_eq!(eb.quorum_cert(), Some(&parent_cert()));
    assert_eq!(eb.compute_result().root_hash(), hash(2));
    assert_eq!(eb.compute_result().version(), 42);
    assert_eq!(*eb.compute_result().epoch_state(), None);
    assert_eq!(eb.block().transactions_to_execute(), payload);
}

#[test]
fn hash_value_round_trips_its_bytes() {
    let mut bytes = [0u8; 32];
    bytes[0] = 0xde;
    bytes[31] = 0xad;
    let h = HashValue::new(bytes);
    assert_eq!(*h.as_bytes(), bytes);
    assert_ne!(h, hash(0));
}

#[test]
fn transaction_and_event_round_trip() {
    let t = Transaction::new(vec![1, 2, 3]);
    assert_eq!(t.data(), &vec![1, 2, 3]);
    assert_eq!(t.clone(), t);
    let e = ContractEvent::new(vec![1], 5, vec![2, 3]);
    assert_eq!(e.clone(), e);
}
