use open_bitcoin_node::authority::{LifecycleAuthority, LifecycleProjectionError, MempoolSnapshotError};
use open_bitcoin_node::block_relay_evidence::WireMessageKind;
use open_bitcoin_node::checkpoint::{
    CheckpointPersistenceStrength, CheckpointTrigger, SnapshotWriteAbort, SnapshotWriteFailure, SnapshotWriteReceipt,
};
use open_bitcoin_node::checkpoint_coordinator::{
    CheckpointCoordinatorState, CheckpointFlight, CheckpointFlightStep, FlightClaim, FlightFailure,
    INTERNAL_EVIDENCE_INTERVAL_SECONDS, MempoolCheckpointCoordinator, MempoolCheckpointError, MempoolCheckpointOutcome,
    RetainedTermination,
};
use open_bitcoin_node::handle::{ManagedNetworkAuthorityError, ManagedNetworkHandle};
use open_bitcoin_node::block_serving::{
    BlockServingEligibilityReason, BlockServingOutcomeLabel, BlockServingPresenceFacts, BlockServingStatusLabel,
    InventoryKind, InventoryVector, ManagedBlockServeCompletion, ManagedBlockServeCompletionOutcome,
    ManagedBlockServeDecision, ManagedBlockServeGateInput,
};
use open_bitcoin_node::chainstate_durability_evidence::{HaveBytesAccumulator, ServingStatusLabel};
use open_bitcoin_node::compact_extra::CompactExtraTxnBuffer;
use open_bitcoin_node::effects::{EffectCompletion, PolicyTime};
use open_bitcoin_node::generation::{AuthorityEpoch, LifecycleGeneration, LifecyclePreparationError};
use open_bitcoin_node::identity::{Hash32, MemberIdentity};
use open_bitcoin_node::inventory_plan::{ManagedInboundResponsePlanItem, plan_inventory_responses};
use open_bitcoin_node::lifecycle::{
    FinalPresentMember, LifecycleEvidenceSnapshot, LifecycleFacts, MempoolRemovalCause, PreparedPersistenceProjection,
    ProjectionShape, RemovedMember,
};
use open_bitcoin_node::relay_evidence::RelayEvidenceField;
use open_bitcoin_node::network::{
    ChainstateFlushEvidence, FieldAvailability, LastFlushReasonLabel, ManagedNetworkError, ManagedPeerNetwork,
    WriteKindLabel,
};
use open_bitcoin_node::policy_info::{ManagedPeerPolicyInfo, UnbanDecision};
use open_bitcoin_node::projection_plan::prepare_projection_plan;
use open_bitcoin_node::recovery::{MempoolRecoveryRecord, MempoolRecoveryStatus, RecoveryClassification, SyncRecoveryCategory};
use open_bitcoin_node::recovery_install::assemble_prepared_recovery;
use open_bitcoin_node::recovery_topology::{RecoveryTopologyLimits, TopologyInput, prepare_recovery_topology};

fn h(tag: u128) -> Hash32 {
    Hash32 { hi: tag, lo: 0 }
}

fn member(tag: u128) -> MemberIdentity {
    MemberIdentity { txid: Hash32 { hi: tag, lo: 0 }, wtxid: Hash32 { hi: tag, lo: 1 } }
}

fn classification() -> RecoveryClassification {
    RecoveryClassification {
        recovery_records: vec![
            MempoolRecoveryRecord { txid: member(1).txid, status: MempoolRecoveryStatus::Recovered },
            MempoolRecoveryRecord { txid: member(2).txid, status: MempoolRecoveryStatus::DroppedExpired },
        ],
        unbroadcast_members: vec![member(1)],
        ordered_survivors: vec![member(1)],
    }
}

#[test]
fn prepared_recovery_carries_its_binding_values() {
    let prepared = assemble_prepared_recovery(
        classification(),
        &vec![member(1)],
        vec![member(1)],
        AuthorityEpoch(3),
        Some(h(44)),
        Some(6),
        Some(PolicyTime::new(70)),
        PolicyTime::new(90),
    )
    .expect("staged mempool matches the final membership");

    assert_eq!(prepared.authority_epoch, AuthorityEpoch(3));
    assert_eq!(prepared.maybe_chainstate_tip, Some(h(44)));
    assert_eq!(prepared.staged_members, vec![member(1)]);
    assert_eq!(prepared.recovery_records, classification().recovery_records);
    assert_eq!(prepared.unbroadcast_members, vec![member(1)]);
    assert_eq!(prepared.ordered_survivors, vec![member(1)]);
    assert_eq!(prepared.captured_generation, Some(6));
    assert_eq!(prepared.captured_at, Some(PolicyTime::new(70)));
    assert_eq!(prepared.startup_at, PolicyTime::new(90));
}

#[test]
fn prepared_recovery_refuses_a_diverged_staged_mempool() {
    let result = assemble_prepared_recovery(
        classification(),
        &vec![member(1), member(2)],
        vec![member(1)],
        AuthorityEpoch(3),
        None,
        None,
        None,
        PolicyTime::new(90),
    );

    assert_eq!(
        result.map(|_| ()),
        Err(ManagedNetworkError::LifecycleEffect("final mempool recovery membership diverged"))
    );
}

fn facts() -> LifecycleFacts {
    LifecycleFacts {
        final_present: vec![
            FinalPresentMember { member: member(1), retry_eligible: true },
            FinalPresentMember { member: member(2), retry_eligible: false },
        ],
        admitted_order_len: 2,
        removed: vec![RemovedMember { member: member(3), cause: MempoolRemovalCause::Expiry }],
        teardown_order: vec![member(3)],
        retry_clears: Vec::new(),
        delta_is_empty: false,
    }
}

#[test]
fn projection_plan_puts_every_projection_together() {
    let authority = LifecycleAuthority::new(AuthorityEpoch(2));

    let plan = prepare_projection_plan(&authority, AuthorityEpoch(2), &facts(), Some(h(9))).expect("coherent");

    assert_eq!(plan.authority_epoch, AuthorityEpoch(2));
    assert_eq!(plan.shape.admitted, 2);
    assert_eq!(plan.shape.removed, 1);
    assert_eq!(plan.peers.admissions, vec![member(1), member(2)]);
    assert_eq!(plan.peers.teardowns, vec![member(3)]);
    assert_eq!(plan.peers.accepted_packages.len(), 1);
    assert_eq!(plan.peers.accepted_packages[0].fingerprint, h(9));
    assert_eq!(plan.unbroadcast, vec![member(1)]);
    assert_eq!(plan.persistence.lifecycle_generation.0, 1);
    assert_eq!(plan.persistence.dirty_generation.map(|g| g.0), Some(1));
    assert_eq!(plan.evidence.committed_transitions, 1);
    assert_eq!(plan.evidence.admitted_members, 2);
    assert_eq!(plan.evidence.expiry_removals, 1);
}

#[test]
fn projection_plan_refuses_a_mismatched_shape_first() {
    let authority = LifecycleAuthority::new(AuthorityEpoch(2));
    let mut incoherent = facts();
    incoherent.admitted_order_len = 1;
    incoherent.teardown_order = Vec::new();

    let result = prepare_projection_plan(&authority, AuthorityEpoch(2), &incoherent, None);

    assert_eq!(
        result.map(|_| ()),
        Err(LifecyclePreparationError::FinalPresentOrderMismatch { final_present: 2, admitted_order: 1 })
    );
}

fn gate_input_for(hash: Hash32) -> ManagedBlockServeGateInput {
    ManagedBlockServeGateInput {
        inventory_type: InventoryKind::Block,
        block_hash: hash,
        compact_relay_enabled: false,
        status_label: BlockServingStatusLabel::Validated,
        eligibility_reason: BlockServingEligibilityReason::Eligible,
        gate_label: BlockServingOutcomeLabel::BlockServingEligible,
        gate_allow_storage_read: true,
        gate_may_serve_block: true,
        presence: BlockServingPresenceFacts { payload_present: true, index_known: true, validated_on_active_chain: true },
    }
}

#[test]
fn inventory_plan_intent_names_the_requested_block() {
    let requests = vec![InventoryVector { inventory_type: InventoryKind::WitnessBlock, object_hash: h(1) }];

    let (plan, denials) = plan_inventory_responses(&requests, &vec![false], &vec![gate_input_for(h(2))]);

    assert!(denials.is_empty());
    assert!(matches!(
        &plan[0],
        ManagedInboundResponsePlanItem::DurableBlock(intent) if intent.request == requests[0] && intent.block_hash == h(1)
    ));
}

#[test]
fn topology_reports_duplicates_before_missing_parents() {
    let records = vec![
        TopologyInput { txid: h(1), wtxid: h(1), parent_txids: vec![h(2)] },
        TopologyInput { txid: h(2), wtxid: h(2), parent_txids: vec![h(1)] },
        TopologyInput { txid: h(5), wtxid: h(9), parent_txids: Vec::new() },
        TopologyInput { txid: h(5), wtxid: h(8), parent_txids: Vec::new() },
    ];

    let topology = prepare_recovery_topology(&records, RecoveryTopologyLimits::new(10, 4)).expect("within limits");

    assert_eq!(topology.ordered, vec![3]);
    assert_eq!(
        topology.statuses,
        vec![
            MempoolRecoveryRecord { txid: h(5), status: MempoolRecoveryStatus::DroppedDuplicate },
            MempoolRecoveryRecord { txid: h(1), status: MempoolRecoveryStatus::DroppedMissingParent },
            MempoolRecoveryRecord { txid: h(2), status: MempoolRecoveryStatus::DroppedMissingParent },
        ]
    );
}

#[test]
fn have_bytes_counters_count_every_recorded_decision() {
    let present = BlockServingPresenceFacts { payload_present: true, index_known: true, validated_on_active_chain: true };
    let absent_known = BlockServingPresenceFacts { payload_present: false, index_known: true, validated_on_active_chain: false };
    let absent_unknown = BlockServingPresenceFacts { payload_present: false, index_known: false, validated_on_active_chain: false };
    let mut accumulator = HaveBytesAccumulator::default();

    for presence in [present, absent_known, present, absent_unknown, absent_known] {
        accumulator.record_have_bytes(presence);
    }
    let snapshot = accumulator.snapshot();

    assert_eq!(snapshot.available_count, 2);
    assert_eq!(snapshot.unavailable_count, 3);
    assert_eq!(snapshot.index_known_without_payload_count, 2);
    assert_eq!(snapshot.last_serving_status, ServingStatusLabel::Unavailable);
    assert!(snapshot.last_index_known);
}

#[test]
fn peer_policy_info_is_empty_only_without_decisions() {
    let empty = ManagedPeerPolicyInfo::from_policy_decisions(0, None, &Vec::new(), &Vec::new(), &Vec::new());
    let with_unban =
        ManagedPeerPolicyInfo::from_policy_decisions(0, None, &Vec::new(), &Vec::new(), &vec![UnbanDecision::NotFound]);
    let with_candidates = ManagedPeerPolicyInfo::from_policy_decisions(2, None, &Vec::new(), &Vec::new(), &Vec::new());

    assert!(empty.is_empty());
    assert!(!with_unban.is_empty());
    assert!(!with_candidates.is_empty());
}

#[test]
fn compact_extra_buffer_never_holds_more_pairs_than_slots() {
    let mut buffer = CompactExtraTxnBuffer::new(3, 1_000, 100_000);

    for tag in 0..10_u128 {
        buffer.push(h(tag), tag, 10);
        assert!(buffer.to_owned_pairs().len() <= buffer.max_slots());
    }
    assert_eq!(buffer.to_owned_pairs().len(), 3);
}

#[test]
fn recording_recovery_unavailable_changes_only_the_recovery_fields() {
    let mut network = ManagedPeerNetwork::new(AuthorityEpoch::initial(), true, true, false);
    let before = network.operator_snapshot();

    network.record_mempool_recovery_unavailable(SyncRecoveryCategory::Storage);
    let after = network.operator_snapshot();

    assert_eq!(network.latest_mempool_recovery_summary(), None);
    assert_eq!(network.latest_mempool_recovery_storage_error(), Some(SyncRecoveryCategory::Storage));
    assert_eq!(after.network, before.network);
    assert_eq!(after.checkpoint, before.checkpoint);
    assert_eq!(after.address_boundary, before.address_boundary);
    assert_eq!(after.chainstate_durability, before.chainstate_durability);
}

#[test]
fn preparation_rejects_incoherent_lifecycle_orders() {
    let final_present_mismatch = ProjectionShape::checked_from_counts(1, 0, 0, 0, 0);
    let teardown_mismatch = ProjectionShape::checked_from_counts(0, 0, 1, 0, 0);

    assert_eq!(
        final_present_mismatch,
        Err(LifecyclePreparationError::FinalPresentOrderMismatch { final_present: 1, admitted_order: 0 })
    );
    assert_eq!(teardown_mismatch, Err(LifecyclePreparationError::TeardownOrderMismatch { removed: 1, teardown_order: 0 }));
}

#[test]
fn construction_requires_authority_core_and_every_projection_target() {
    let authority = LifecycleAuthority::new(AuthorityEpoch::initial());
    let empty = LifecycleFacts {
        final_present: Vec::new(),
        admitted_order_len: 0,
        removed: Vec::new(),
        teardown_order: Vec::new(),
        retry_clears: Vec::new(),
        delta_is_empty: true,
    };

    let plan = prepare_projection_plan(&authority, AuthorityEpoch::initial(), &empty, None).expect("coherent");

    assert_eq!(plan.authority_epoch, AuthorityEpoch::initial());
    assert!(plan.peers.admissions.is_empty());
    assert!(plan.peers.teardowns.is_empty());
    assert!(plan.peers.accepted_packages.is_empty());
    assert!(plan.unbroadcast.is_empty());
    assert_eq!(plan.persistence.lifecycle_generation, LifecycleGeneration::initial());
    assert_eq!(plan.persistence.dirty_generation, None);
    assert_eq!(plan.evidence, LifecycleEvidenceSnapshot::default());
}

#[test]
fn snapshot_over_the_live_entry_bound_is_refused_before_reservation() {
    let handle = ManagedNetworkHandle::from_network_fixture(ManagedPeerNetwork::new(AuthorityEpoch::initial(), true, true, false));

    let refused = handle.prepare_mempool_snapshot_write(PolicyTime::new(5), CheckpointTrigger::Periodic, (), 11, 10);

    assert!(matches!(
        refused,
        Err(ManagedNetworkAuthorityError::Operation(ManagedNetworkError::LifecycleProjection(
            LifecycleProjectionError::MempoolSnapshot(MempoolSnapshotError::ResourceBoundExceeded)
        )))
    ));
    assert!(handle.prepare_mempool_snapshot_write(PolicyTime::new(6), CheckpointTrigger::Periodic, (), 10, 10).is_ok());
}

#[test]
fn a_failed_flight_retains_only_undispatched_terminations() {
    let handle = ManagedNetworkHandle::from_network_fixture(ManagedPeerNetwork::new(AuthorityEpoch::initial(), true, true, false));
    let prepared = handle
        .prepare_mempool_snapshot_write(PolicyTime::new(5), CheckpointTrigger::Periodic, (), 0, 10)
        .expect("prepares");
    let (_, capability) = prepared.into_parts();
    let abort = SnapshotWriteAbort::new(capability, PolicyTime::new(6), SnapshotWriteFailure::Storage).expect("abortable");
    let mut coordinator = MempoolCheckpointCoordinator::new();

    coordinator.claim_flight();
    let error = coordinator.end_flight_on_failure(FlightFailure::AbortDispatch {
        maybe_storage_failure: Some(SnapshotWriteFailure::Storage),
        source: ManagedNetworkAuthorityError::Poisoned,
        abort,
    });
    assert_eq!(
        error,
        MempoolCheckpointError::AbortDispatch {
            maybe_storage_failure: Some(SnapshotWriteFailure::Storage),
            source: ManagedNetworkAuthorityError::Poisoned,
        }
    );
    assert!(matches!(coordinator.claim_flight(), FlightClaim::Claimed(RetainedTermination::Abort(_))));

    let error = coordinator.end_flight_on_failure(FlightFailure::Execution(SnapshotWriteFailure::Encode));
    assert_eq!(error, MempoolCheckpointError::Execution(SnapshotWriteFailure::Encode));
    assert!(matches!(coordinator.claim_flight(), FlightClaim::Claimed(RetainedTermination::Nothing)));
}

#[test]
fn a_new_network_is_fresh_for_durability_evidence() {
    let mut network = ManagedPeerNetwork::new(AuthorityEpoch::initial(), true, true, false);
    network.record_chainstate_flush(ChainstateFlushEvidence {
        last_flush_reason: LastFlushReasonLabel::Periodic,
        write_kind: WriteKindLabel::Sync,
    });

    let FieldAvailability::Available(evidence) = network.operator_snapshot().chainstate_durability else {
        panic!("a flush makes durability available");
    };
    assert_eq!(evidence.available_count, 0);
    assert_eq!(evidence.unavailable_count, 0);
    assert_eq!(evidence.index_known_without_payload_count, 0);
    assert_eq!(evidence.last_serving_status, ServingStatusLabel::Unavailable);
    assert!(!evidence.last_payload_present);
}

fn dirty_handle() -> ManagedNetworkHandle {
    let mut network = ManagedPeerNetwork::new(AuthorityEpoch::initial(), true, true, false);
    network.authority.apply_prepared_persistence(PreparedPersistenceProjection {
        lifecycle_generation: LifecycleGeneration(1),
        dirty_generation: Some(LifecycleGeneration(1)),
    });
    ManagedNetworkHandle::from_network_fixture(network)
}

fn acknowledged(handle: &ManagedNetworkHandle, at: i64) -> SnapshotWriteReceipt {
    let prepared = handle
        .prepare_mempool_snapshot_write(PolicyTime::new(at), CheckpointTrigger::Periodic, (), 0, 10)
        .expect("prepare");
    let (_, capability) = prepared.into_parts();
    capability.acknowledge_write(PolicyTime::new(at), CheckpointPersistenceStrength::Sync)
}

#[test]
fn already_completed_retained_receipt_is_idempotent() {
    let handle = dirty_handle();
    let receipt = acknowledged(&handle, 40);
    assert_eq!(handle.complete_snapshot_write(receipt.duplicate()).expect("first completion"), EffectCompletion::Applied);
    let mut coordinator = MempoolCheckpointCoordinator::new();
    coordinator.retain_completion(receipt);

    let FlightClaim::Claimed(RetainedTermination::Completion(retained)) = coordinator.claim_flight() else {
        panic!("the retained receipt comes first");
    };
    let mut flight = CheckpointFlight::begin(CheckpointTrigger::Periodic);
    let before = handle.checkpoint_evidence(PolicyTime::new(40), INTERNAL_EVIDENCE_INTERVAL_SECONDS).expect("evidence");
    flight.note_retained_completion(handle.complete_snapshot_write(retained).expect("duplicate completion"));
    let evidence = handle.checkpoint_evidence(PolicyTime::new(40), INTERNAL_EVIDENCE_INTERVAL_SECONDS).expect("evidence");
    let step = flight.decide(&evidence);
    coordinator.release_flight();

    assert_eq!(
        step,
        CheckpointFlightStep::Finish(MempoolCheckpointOutcome::Completed {
            writes_started: 0,
            maybe_last_completion: Some(EffectCompletion::AlreadyApplied),
        })
    );
    assert_eq!(evidence, before);
}

#[test]
fn completion_dispatch_failure_retains_and_retries_the_same_receipt() {
    let handle = dirty_handle();
    let mut coordinator = MempoolCheckpointCoordinator::new();

    // First flight: the write is achieved but its completion cannot be dispatched.
    assert!(matches!(coordinator.claim_flight(), FlightClaim::Claimed(RetainedTermination::Nothing)));
    let flight = CheckpointFlight::begin(CheckpointTrigger::Periodic);
    let evidence = handle.checkpoint_evidence(PolicyTime::new(30), INTERNAL_EVIDENCE_INTERVAL_SECONDS).expect("evidence");
    assert_eq!(flight.decide(&evidence), CheckpointFlightStep::Write);
    let receipt = acknowledged(&handle, 30);
    let first = coordinator.end_flight_on_failure(FlightFailure::CompletionDispatch {
        source: ManagedNetworkAuthorityError::Poisoned,
        receipt,
    });
    assert!(matches!(first, MempoolCheckpointError::CompletionDispatch(_)));
    assert!(matches!(coordinator.state, CheckpointCoordinatorState::AchievedAwaitingCompletion(_)));

    // Retry: the same receipt completes before anything is captured.
    let FlightClaim::Claimed(RetainedTermination::Completion(retained)) = coordinator.claim_flight() else {
        panic!("the retained receipt comes first");
    };
    let mut retry = CheckpointFlight::begin(CheckpointTrigger::Periodic);
    retry.note_retained_completion(handle.complete_snapshot_write(retained).expect("receipt retry"));
    let evidence = handle.checkpoint_evidence(PolicyTime::new(30), INTERNAL_EVIDENCE_INTERVAL_SECONDS).expect("evidence");
    let step = retry.decide(&evidence);
    coordinator.release_flight();

    assert_eq!(
        step,
        CheckpointFlightStep::Finish(MempoolCheckpointOutcome::Completed {
            writes_started: 0,
            maybe_last_completion: Some(EffectCompletion::Applied),
        })
    );
}

#[test]
fn encode_failure_releases_the_flight_and_remains_retryable() {
    let handle = dirty_handle();
    let mut coordinator = MempoolCheckpointCoordinator::new();

    // First flight: encoding fails; the abort is dispatched and the flight released.
    assert!(matches!(coordinator.claim_flight(), FlightClaim::Claimed(RetainedTermination::Nothing)));
    let prepared = handle
        .prepare_mempool_snapshot_write(PolicyTime::new(50), CheckpointTrigger::Periodic, (), 0, 10)
        .expect("prepare");
    let (_, capability) = prepared.into_parts();
    let abort = SnapshotWriteAbort::new(capability, PolicyTime::new(50), SnapshotWriteFailure::Encode).expect("abortable");
    handle.abort_snapshot_write(abort).expect("abort dispatched");
    let first = coordinator.end_flight_on_failure(FlightFailure::Execution(SnapshotWriteFailure::Encode));
    assert_eq!(first, MempoolCheckpointError::Execution(SnapshotWriteFailure::Encode));
    assert!(matches!(coordinator.state, CheckpointCoordinatorState::Idle));

    // Retry: a fresh write succeeds.
    assert!(matches!(coordinator.claim_flight(), FlightClaim::Claimed(RetainedTermination::Nothing)));
    let mut retry = CheckpointFlight::begin(CheckpointTrigger::Periodic);
    let evidence = handle.checkpoint_evidence(PolicyTime::new(50), INTERNAL_EVIDENCE_INTERVAL_SECONDS).expect("evidence");
    assert_eq!(retry.decide(&evidence), CheckpointFlightStep::Write);
    let receipt = acknowledged(&handle, 50);
    retry.note_write_completed(handle.complete_snapshot_write(receipt).expect("completion"));
    let evidence = handle.checkpoint_evidence(PolicyTime::new(50), INTERNAL_EVIDENCE_INTERVAL_SECONDS).expect("evidence");
    let step = retry.decide(&evidence);
    coordinator.release_flight();

    assert_eq!(
        step,
        CheckpointFlightStep::Finish(MempoolCheckpointOutcome::Completed {
            writes_started: 1,
            maybe_last_completion: Some(EffectCompletion::Applied),
        })
    );
}

#[test]
fn recovery_counters_report_why_they_are_unavailable() {
    let mut network = ManagedPeerNetwork::new(AuthorityEpoch::initial(), true, true, false);

    network.record_mempool_recovery_unavailable(SyncRecoveryCategory::Storage);

    assert_eq!(
        network.relay_evidence_status().recovery_counters,
        RelayEvidenceField::Unavailable("mempool recovery storage evidence unavailable")
    );
}

#[test]
fn completed_block_serve_counts_the_decision_and_a_written_block() {
    let mut network = ManagedPeerNetwork::new(AuthorityEpoch::initial(), true, true, false);
    let request = InventoryVector { inventory_type: InventoryKind::Block, object_hash: h(1) };
    let presence = BlockServingPresenceFacts { payload_present: true, index_known: true, validated_on_active_chain: true };
    let decision = ManagedBlockServeDecision {
        label: BlockServingOutcomeLabel::BlockServingEligible,
        status_label: BlockServingStatusLabel::Available,
        eligibility_reason: BlockServingEligibilityReason::Eligible,
        missing_inventory: false,
        presence,
    };

    network.complete_block_serve(&ManagedBlockServeCompletion {
        request,
        outcome: ManagedBlockServeCompletionOutcome::Written,
        decision,
    });
    network.acknowledge_wire_message_written(WireMessageKind::Headers);
    network.acknowledge_wire_message_written(WireMessageKind::Block);

    assert_eq!(network.block_served_write_count(), 2);
    assert_eq!(network.have_bytes.snapshot().available_count, 1);
    assert_eq!(network.block_relay_evidence.block_serving_eligibility.eligible_peer_count, 1);
}
