use open_bitcoin_node::admission_bridge::{AdmissionResult, MempoolOutcome, RejectionCategory};
use open_bitcoin_node::announcement::{PeerOutboxSnapshot, aggregate_queued_messages, outbox_for_peer};
use open_bitcoin_node::block_serving::{
    BlockServingChainPosition, BlockServingDataAvailability, BlockServingValidationState, InventoryKind,
    InventoryVector, classify_block_locally,
};
use open_bitcoin_node::handle::MaintenanceTickError;
use open_bitcoin_node::header_sync::next_chain_work;
use open_bitcoin_node::identity::{Hash32, MemberIdentity};
use open_bitcoin_node::maintenance::{
    MaintenanceTickOutcome, RetryTickPlan, member_for_inventory, next_walk_cursor, not_due_outcome, plan_retry_tick,
};
use open_bitcoin_node::mempool_lifecycle::{
    ReorgAdmissionError, ReorgInputFacts, ReorgPreparationError, missing_parents, prepared_reorg_outcome,
    reorg_noop_transition, reorg_reconsideration_order,
};
use open_bitcoin_node::lifecycle::{FinalPresentMember, LifecycleFacts, peer_projection_input};
use open_bitcoin_node::reconciliation::{
    CanonicalMemberFacts, CompactBodyFacts, compact_mismatch_count, expected_unbroadcast_members,
    hash_symmetric_difference_count, member_symmetric_difference_count, serving_mismatch_count,
    unbroadcast_mismatch_count,
};
use open_bitcoin_node::compact_extra::approximate_tx_bytes;
use open_bitcoin_node::inbound_admission::{InboundHandshakeState, is_active_inbound_peer};
use open_bitcoin_node::recovery::{MempoolOrigin, RelayIntent, recovery_metadata};
use open_bitcoin_node::relay_fanout::RelayFanoutMemory;

fn h(n: u128) -> Hash32 {
    Hash32::from_halves(0, n)
}

#[test]
fn block_on_the_active_chain_is_validated_and_classified_by_bytes() {
    let chain = vec![h(1), h(2), h(3)];
    let held = classify_block_locally(&chain, h(2), true, false);
    assert_eq!(held.chain_position, BlockServingChainPosition::Active);
    assert_eq!(held.validation_state, BlockServingValidationState::Validated);
    assert_eq!(held.data_availability, BlockServingDataAvailability::Available);
    let pruned = classify_block_locally(&chain, h(2), false, false);
    assert_eq!(pruned.data_availability, BlockServingDataAvailability::Pruned);
    let tip_without_bytes = classify_block_locally(&chain, h(3), false, false);
    assert_eq!(tip_without_bytes.data_availability, BlockServingDataAvailability::Unavailable);
    let durable = classify_block_locally(&chain, h(3), false, true);
    assert_eq!(durable.data_availability, BlockServingDataAvailability::Available);
}

#[test]
fn block_off_the_active_chain_is_side_chain_or_unknown() {
    let chain = vec![h(1)];
    let side = classify_block_locally(&chain, h(9), true, false);
    assert_eq!(side.chain_position, BlockServingChainPosition::SideChain);
    assert_eq!(side.validation_state, BlockServingValidationState::Unknown);
    assert_eq!(side.data_availability, BlockServingDataAvailability::Unavailable);
    let unknown = classify_block_locally(&chain, h(9), false, true);
    assert_eq!(unknown.chain_position, BlockServingChainPosition::Unknown);
    assert_eq!(unknown.data_availability, BlockServingDataAvailability::Unavailable);
}

#[test]
fn next_chain_work_is_one_past_the_tip() {
    assert_eq!(next_chain_work(None), 1);
    assert_eq!(next_chain_work(Some(41)), 42);
    assert_eq!(next_chain_work(Some(u128::MAX)), u128::MAX);
}

#[test]
fn outboxes_sum_and_last_snapshot_wins() {
    let outboxes = vec![
        PeerOutboxSnapshot::new(1, 3, 10),
        PeerOutboxSnapshot::new(2, 4, 10),
        PeerOutboxSnapshot::new(1, 5, 10),
    ];
    assert_eq!(aggregate_queued_messages(&outboxes), 12);
    assert_eq!(outbox_for_peer(&outboxes, 1), Some(PeerOutboxSnapshot::new(1, 5, 10)));
    assert_eq!(outbox_for_peer(&outboxes, 3), None);
}

#[test]
fn retry_tick_runs_only_when_due() {
    assert_eq!(plan_retry_tick(None, None, true), Err(MaintenanceTickError::DueTimeOverflow));
    assert_eq!(plan_retry_tick(Some(700), Some(600), false), Ok(RetryTickPlan::NotDue { due_at: 600 }));
    assert_eq!(plan_retry_tick(Some(700), Some(600), true), Ok(RetryTickPlan::Run { next_due: 700 }));
    assert_eq!(plan_retry_tick(Some(700), None, false), Ok(RetryTickPlan::Run { next_due: 700 }));
    let idle: MaintenanceTickOutcome<u8> = not_due_outcome(600);
    assert_eq!(idle.maybe_next_due_unix_seconds, Some(600));
    assert_eq!(idle.prepared_count, 0);
    assert!(idle.emissions.is_empty());
}

#[test]
fn walk_resumes_after_the_last_prepared_member() {
    let a = MemberIdentity { txid: h(1), wtxid: h(11) };
    let b = MemberIdentity { txid: h(2), wtxid: h(12) };
    assert_eq!(next_walk_cursor(&vec![a, b], None), Some(b));
    assert_eq!(next_walk_cursor(&vec![], Some(a)), Some(a));
    assert_eq!(next_walk_cursor(&vec![], None), None);
}

#[test]
fn drained_inventory_maps_to_its_member() {
    let a = MemberIdentity { txid: h(1), wtxid: h(11) };
    let a2 = MemberIdentity { txid: h(1), wtxid: h(10) };
    let mut memory = RelayFanoutMemory::new();
    memory.seed_recovered_transaction(h(5), h(15));
    let unbroadcast = vec![a, a2];
    let tx = |kind, n| InventoryVector { inventory_type: kind, object_hash: h(n) };
    assert_eq!(member_for_inventory(&unbroadcast, &memory, tx(InventoryKind::Transaction, 1)), Some(a2));
    assert_eq!(member_for_inventory(&unbroadcast, &memory, tx(InventoryKind::WitnessTransaction, 11)), Some(a));
    assert_eq!(
        member_for_inventory(&unbroadcast, &memory, tx(InventoryKind::Transaction, 5)),
        Some(MemberIdentity { txid: h(5), wtxid: h(15) })
    );
    assert_eq!(
        member_for_inventory(&unbroadcast, &memory, tx(InventoryKind::WitnessTransaction, 15)),
        Some(MemberIdentity { txid: h(5), wtxid: h(15) })
    );
    assert_eq!(member_for_inventory(&unbroadcast, &memory, tx(InventoryKind::Transaction, 6)), None);
    assert_eq!(member_for_inventory(&unbroadcast, &memory, tx(InventoryKind::Block, 1)), None);
}

#[test]
fn orphan_misses_each_parent_found_nowhere_once() {
    let inputs = vec![
        ReorgInputFacts { parent_txid: h(7), parent_in_mempool: false, parent_in_chainstate: false },
        ReorgInputFacts { parent_txid: h(8), parent_in_mempool: true, parent_in_chainstate: false },
        ReorgInputFacts { parent_txid: h(9), parent_in_mempool: false, parent_in_chainstate: true },
        ReorgInputFacts { parent_txid: h(7), parent_in_mempool: false, parent_in_chainstate: false },
        ReorgInputFacts { parent_txid: h(6), parent_in_mempool: false, parent_in_chainstate: false },
    ];
    assert_eq!(missing_parents(&inputs), vec![h(7), h(6)]);
    assert_eq!(
        reorg_noop_transition(h(1), h(2), &inputs, ReorgAdmissionError::MissingInput),
        MempoolOutcome::Orphaned { txid: h(1), wtxid: h(2), missing_parents: vec![h(7), h(6)] }
    );
}

#[test]
fn refused_reconsideration_outcomes() {
    let none = Vec::new();
    assert_eq!(
        reorg_noop_transition(h(1), h(2), &none, ReorgAdmissionError::DuplicateTransaction { txid: h(3) }),
        MempoolOutcome::Duplicate { txid: h(3) }
    );
    assert_eq!(
        reorg_noop_transition(h(1), h(2), &none, ReorgAdmissionError::CandidateEvicted { txid: h(3) }),
        MempoolOutcome::Evicted { txid: h(3), wtxid: h(2) }
    );
    assert_eq!(
        reorg_noop_transition(h(1), h(2), &none, ReorgAdmissionError::Other { maybe_category: None }),
        MempoolOutcome::Rejected { txid: h(1), wtxid: h(2), category: RejectionCategory::InternalInvariant }
    );
    assert_eq!(
        reorg_noop_transition(
            h(1),
            h(2),
            &none,
            ReorgAdmissionError::Other { maybe_category: Some(RejectionCategory::NonStandard) }
        ),
        MempoolOutcome::Rejected { txid: h(1), wtxid: h(2), category: RejectionCategory::NonStandard }
    );
}

#[test]
fn prepared_reconsideration_is_accepted_or_replaced() {
    let accepted = AdmissionResult { accepted: h(1), replaced: vec![], evicted: vec![h(4)] };
    assert_eq!(
        prepared_reorg_outcome(Some(accepted), h(2)),
        Ok(MempoolOutcome::Accepted { txid: h(1), wtxid: h(2), evicted: vec![h(4)] })
    );
    let replaced = AdmissionResult { accepted: h(1), replaced: vec![h(3)], evicted: vec![] };
    assert_eq!(
        prepared_reorg_outcome(Some(replaced), h(2)),
        Ok(MempoolOutcome::Replaced { txid: h(1), wtxid: h(2), replaced: vec![h(3)], evicted: vec![] })
    );
    assert_eq!(prepared_reorg_outcome(None, h(2)), Err(ReorgPreparationError::MissingAdmissionResult));
}

#[test]
fn disconnected_blocks_are_reconsidered_last_first_without_coinbase() {
    assert_eq!(reorg_reconsideration_order(&vec![3, 1, 2]), vec![(2, 1), (0, 1), (0, 2)]);
    assert_eq!(reorg_reconsideration_order(&vec![0]), Vec::<(usize, usize)>::new());
}


fn m(n: u128) -> MemberIdentity {
    MemberIdentity { txid: h(n), wtxid: h(n + 100) }
}

#[test]
fn symmetric_difference_counts_both_sides() {
    assert_eq!(hash_symmetric_difference_count(&vec![h(1), h(2), h(3)], &vec![h(2), h(4)]), 3);
    assert_eq!(hash_symmetric_difference_count(&vec![h(1)], &vec![h(1)]), 0);
    assert_eq!(member_symmetric_difference_count(&vec![m(1)], &vec![m(1), m(2)]), 1);
}

#[test]
fn serving_and_unbroadcast_mismatches() {
    let count = serving_mismatch_count(2, &vec![h(1), h(9)], &vec![h(1)], &vec![h(101)], &vec![h(101)]);
    assert_eq!(count, 3);
    assert_eq!(serving_mismatch_count(usize::MAX, &vec![h(9)], &vec![], &vec![], &vec![]), usize::MAX);
    let canonical = vec![
        CanonicalMemberFacts { member: m(1), retry_eligible: true },
        CanonicalMemberFacts { member: m(2), retry_eligible: false },
    ];
    assert_eq!(expected_unbroadcast_members(&canonical), vec![m(1)]);
    assert_eq!(unbroadcast_mismatch_count(&vec![m(1)], &canonical), 0);
    assert_eq!(unbroadcast_mismatch_count(&vec![m(2)], &canonical), 2);
}

#[test]
fn compact_bodies_mismatch_when_wrong_or_canonical() {
    let bodies = vec![
        CompactBodyFacts { stored_wtxid: h(101), maybe_ids: Some(m(1)) },
        CompactBodyFacts { stored_wtxid: h(150), maybe_ids: Some(m(2)) },
        CompactBodyFacts { stored_wtxid: h(103), maybe_ids: Some(m(3)) },
        CompactBodyFacts { stored_wtxid: h(104), maybe_ids: None },
    ];
    assert_eq!(compact_mismatch_count(&bodies, &vec![m(1)]), 3);
    assert_eq!(compact_mismatch_count(&bodies[2..3].to_vec(), &vec![m(1)]), 0);
}

#[test]
fn peer_projection_admits_present_members_and_records_the_package() {
    let facts = LifecycleFacts {
        final_present: vec![
            FinalPresentMember { member: m(1), retry_eligible: false },
            FinalPresentMember { member: m(2), retry_eligible: true },
        ],
        admitted_order_len: 2,
        removed: vec![],
        teardown_order: vec![m(7)],
        retry_clears: vec![],
        delta_is_empty: false,
    };
    let input = peer_projection_input(&facts, Some(h(55)));
    assert_eq!(input.admissions, vec![m(1), m(2)]);
    assert_eq!(input.teardowns, vec![m(7)]);
    assert_eq!(input.accepted_packages.len(), 1);
    assert_eq!(input.accepted_packages[0].fingerprint, h(55));
    assert_eq!(input.accepted_packages[0].members, vec![m(1), m(2)]);
    assert!(peer_projection_input(&facts, None).accepted_packages.is_empty());
}

#[test]
fn small_mappings_of_sizes_metadata_and_activity() {
    assert_eq!(approximate_tx_bytes(Some(141)), 141);
    assert_eq!(approximate_tx_bytes(None), 0);
    assert_eq!(recovery_metadata(true), (MempoolOrigin::Local, RelayIntent::Requested));
    assert_eq!(recovery_metadata(false), (MempoolOrigin::RecoveryUnknown, RelayIntent::NotRequested));
    assert!(is_active_inbound_peer(None));
    assert!(is_active_inbound_peer(Some(InboundHandshakeState::Established)));
    assert!(!is_active_inbound_peer(Some(InboundHandshakeState::Disconnected)));
}
