use open_bitcoin_node::inbound_admission::{
    InboundAdmissionRejection, InboundAdmissionRejectionReason, InboundAdmissionSlotClass, InboundPeerRecord,
    ManagedInboundPermissionDecisionInfo, PeerConnectionClass,
};
use open_bitcoin_node::authority::LifecycleAuthority;
use open_bitcoin_node::checkpoint::{CheckpointPersistenceStrength, CheckpointTrigger};
use open_bitcoin_node::checkpoint_coordinator::{
    CheckpointCoordinatorState, CheckpointFlight, CheckpointFlightStep, FlightClaim, MAX_WRITES_PER_CALL,
    MempoolCheckpointCoordinator, MempoolCheckpointError, MempoolCheckpointOutcome, RetainedTermination,
    requires_write, shutdown_settled,
};
use open_bitcoin_node::effects::{EffectCompletion, PolicyTime};
use open_bitcoin_node::generation::AuthorityEpoch;
use open_bitcoin_node::handle::{MaintenanceTickError, ManagedNetworkAuthorityError, ManagedNetworkHandle};
use open_bitcoin_node::identity::{Hash32, MemberIdentity};
use open_bitcoin_node::ledger::EffectAbort;
use open_bitcoin_node::lifecycle::LifecycleReconciliationReport;
use open_bitcoin_node::network::{ManagedPeerNetwork, StorageError};
use open_bitcoin_node::policy_info::{
    BanDecision, BanSource, EvictionDecision, InboundResourceGovernanceEvent, ManagedAddressBoundaryInfo,
    ManagedPeerPolicyInfo, ManagedResourceGovernanceInfo, MisbehaviorDecision, MisbehaviorResponse,
    ResourceNextAction, UnbanDecision, usize_to_u32,
};
use open_bitcoin_node::recovery::{ManagedMempoolRecoverySummary, MempoolRecoveryRecord, MempoolRecoveryStatus, SyncRecoveryCategory};
use open_bitcoin_node::recovery_install::{
    PeerLifecycleFacts, PreparedMempoolRecovery, RecoveryInstallError, prepare_recovery_install,
};

fn network() -> ManagedPeerNetwork {
    ManagedPeerNetwork::new(AuthorityEpoch::initial(), true, true, false)
}

fn idle_peer() -> PeerLifecycleFacts {
    PeerLifecycleFacts {
        candidate_count: 0,
        in_flight_count: 0,
        already_have_count: 0,
        known_identities: 0,
        orphan_transactions: 0,
        candidate_cursors: 0,
        accepted_packages: 0,
        compact_download_peers: 0,
    }
}

fn member(tag: u128) -> MemberIdentity {
    MemberIdentity { txid: Hash32 { hi: tag, lo: 0 }, wtxid: Hash32 { hi: tag, lo: 1 } }
}

fn prepared(epoch: AuthorityEpoch) -> PreparedMempoolRecovery {
    PreparedMempoolRecovery {
        authority_epoch: epoch,
        maybe_chainstate_tip: None,
        staged_members: vec![member(1), member(2)],
        recovery_records: vec![MempoolRecoveryRecord { txid: member(1).txid, status: MempoolRecoveryStatus::Recovered }],
        unbroadcast_members: vec![member(2)],
        ordered_survivors: vec![member(2), member(1)],
        captured_generation: Some(4),
        captured_at: Some(PolicyTime::new(77)),
        startup_at: PolicyTime::new(80),
    }
}

#[test]
fn cloned_handles_share_mutations() {
    let mutating_handle = ManagedNetworkHandle::from_network_fixture(network());
    let snapshot_handle = mutating_handle.clone();

    mutating_handle
        .record_mempool_recovery_unavailable(SyncRecoveryCategory::Corruption)
        .expect("shared authority accepts the command");
    let seen = snapshot_handle.latest_mempool_recovery_storage_error().expect("shared authority answers");

    assert_eq!(seen, Some(SyncRecoveryCategory::Corruption));
}

#[test]
fn owned_snapshot_survives_authority_drop() {
    let handle = ManagedNetworkHandle::from_network_fixture(network());

    let snapshot = handle.operator_snapshot().expect("shared authority returns an owned snapshot");
    drop(handle);

    assert_eq!(snapshot.unbroadcast_member_count, 0);
    assert_eq!(snapshot.block_served_count, 0);
}

#[test]
fn storage_errors_are_recorded_by_category() {
    let mut network = network();
    network.install_mempool_recovery_summary(ManagedMempoolRecoverySummary::from_records(Vec::new()));

    network.record_mempool_recovery_storage_error(&StorageError::Io);

    assert_eq!(network.latest_mempool_recovery_storage_error(), Some(SyncRecoveryCategory::Storage));
    assert!(network.latest_mempool_recovery_summary().is_none());
}

#[test]
fn authority_errors_describe_themselves() {
    assert_eq!(MaintenanceTickError::DueTimeOverflow.as_str(), "maintenance_due_time_overflow");
    assert_eq!(ManagedNetworkAuthorityError::Poisoned.message(), "authoritative network state is unavailable");
    assert_eq!(
        ManagedNetworkAuthorityError::MaintenanceTick(MaintenanceTickError::DueTimeOverflow).message(),
        "maintenance_due_time_overflow"
    );
}

#[test]
fn a_completed_peer_effect_cannot_be_aborted_or_completed_again() {
    let mut authority = LifecycleAuthority::new(AuthorityEpoch::initial());
    let capability = authority.prepare_relay(7).expect("room for one effect");
    let receipt = capability.acknowledge_write();
    let again = receipt.duplicate();
    let probe = again.duplicate();

    let first = authority.complete_peer_effect(receipt, None);
    let second = authority.complete_peer_effect(again, None);

    assert_eq!(first, Ok(EffectCompletion::Applied));
    assert_eq!(second, Ok(EffectCompletion::AlreadyApplied));
    assert_eq!(authority.peer_effect_ledger.core.pending.len(), 0);
    assert_eq!(authority.peer_effect_ledger.core.completed.len(), 1);
    let _ = probe;
}

#[test]
fn an_aborted_peer_effect_is_released() {
    let handle = ManagedNetworkHandle::from_network_fixture(network());
    let mut authority = LifecycleAuthority::new(AuthorityEpoch::initial());
    let capability = authority.prepare_relay(3).expect("room for one effect");

    let aborted = authority.abort_peer_effect(capability);

    assert_eq!(aborted, EffectAbort::Aborted);
    assert_eq!(authority.peer_effect_ledger.core.pending.len(), 0);
    let _ = handle;
}

#[test]
fn checkpoint_evidence_is_read_through_the_handle() {
    let handle = ManagedNetworkHandle::from_network_fixture(network());

    let evidence = handle.checkpoint_evidence(PolicyTime::new(10), 1).expect("readable");

    assert_eq!(evidence.current_generation, 0);
    assert_eq!(evidence.maybe_dirty_generation, None);
    assert_eq!(evidence.maybe_last_durable_generation, None);
}

#[test]
fn periodic_clean_checkpoint_is_skipped() {
    let handle = ManagedNetworkHandle::from_network_fixture(network());
    let mut coordinator = MempoolCheckpointCoordinator::new();
    let FlightClaim::Claimed(RetainedTermination::Nothing) = coordinator.claim_flight() else {
        panic!("an idle coordinator grants the flight");
    };
    let flight = CheckpointFlight::begin(CheckpointTrigger::Periodic);
    let evidence = handle.checkpoint_evidence(PolicyTime::new(10), 1).expect("clean evidence");

    let step = flight.decide(&evidence);
    coordinator.release_flight();

    assert_eq!(step, CheckpointFlightStep::Finish(MempoolCheckpointOutcome::SkippedClean));
    assert!(matches!(coordinator.state, CheckpointCoordinatorState::Idle));
}

#[test]
fn a_second_claim_coalesces_while_a_flight_is_active() {
    let mut coordinator = MempoolCheckpointCoordinator::new();

    let first = coordinator.claim_flight();
    let second = coordinator.claim_flight();

    assert!(matches!(first, FlightClaim::Claimed(RetainedTermination::Nothing)));
    assert!(matches!(second, FlightClaim::Coalesced));
    assert!(matches!(coordinator.state, CheckpointCoordinatorState::Persisting));
}

#[test]
fn shutdown_requires_a_current_durable_generation() {
    let handle = ManagedNetworkHandle::from_network_fixture(network());
    let evidence = handle.checkpoint_evidence(PolicyTime::new(10), 1).expect("evidence");

    let settled = shutdown_settled(&evidence);

    assert!(requires_write(&evidence, CheckpointTrigger::Shutdown));
    assert!(!requires_write(&evidence, CheckpointTrigger::Periodic));
    assert_eq!(
        settled,
        Err(MempoolCheckpointError::ShutdownNotCurrent { current_generation: 0, maybe_last_durable_generation: None })
    );
}

#[test]
fn a_flight_stops_after_its_write_budget() {
    let handle = ManagedNetworkHandle::from_network_fixture(network());
    let evidence = handle.checkpoint_evidence(PolicyTime::new(10), 1).expect("evidence");
    let mut flight = CheckpointFlight::begin(CheckpointTrigger::Shutdown);

    assert_eq!(flight.decide(&evidence), CheckpointFlightStep::Write);
    flight.note_write_completed(EffectCompletion::Applied);
    flight.note_write_completed(EffectCompletion::AchievedButStale);

    assert_eq!(flight.writes_started, MAX_WRITES_PER_CALL);
    assert_eq!(
        flight.decide(&evidence),
        CheckpointFlightStep::Finish(MempoolCheckpointOutcome::Completed {
            writes_started: 2,
            maybe_last_completion: Some(EffectCompletion::AchievedButStale),
        })
    );
    let _ = CheckpointPersistenceStrength::Sync;
}

#[test]
fn recovery_install_plans_a_fresh_authority() {
    let network = network();
    let report = LifecycleReconciliationReport::new([0; 7]);

    let plan = prepare_recovery_install(&network, None, true, &report, idle_peer(), prepared(AuthorityEpoch::initial()))
        .expect("fresh authority accepts recovery");

    assert_eq!(plan.generation.raw(), 4);
    assert_eq!(plan.maybe_captured_at, Some(PolicyTime::new(77)));
    assert_eq!(plan.lifecycle_evidence.committed_transitions, 4);
    assert_eq!(plan.lifecycle_evidence.admitted_members, 2);
    assert_eq!(plan.summary.recovered_count, 1);
    assert_eq!(plan.ordered_survivors, vec![member(2), member(1)]);
}

#[test]
fn recovery_install_checks_in_order() {
    let network = network();
    let clean = LifecycleReconciliationReport::new([0; 7]);
    let dirty = LifecycleReconciliationReport::new([0, 1, 0, 0, 0, 0, 0]);

    let stale_epoch = prepare_recovery_install(&network, None, true, &clean, idle_peer(), prepared(AuthorityEpoch(9)));
    let stale_tip = prepare_recovery_install(
        &network,
        Some(Hash32 { hi: 1, lo: 1 }),
        true,
        &clean,
        idle_peer(),
        prepared(AuthorityEpoch::initial()),
    );
    let mut mismatched = prepared(AuthorityEpoch::initial());
    mismatched.captured_at = None;
    let invalid = prepare_recovery_install(&network, None, true, &clean, idle_peer(), mismatched);
    let not_fresh = prepare_recovery_install(&network, None, true, &dirty, idle_peer(), prepared(AuthorityEpoch::initial()));
    let mut missing_survivor = prepared(AuthorityEpoch::initial());
    missing_survivor.ordered_survivors = vec![member(1)];
    let inconsistent = prepare_recovery_install(&network, None, true, &clean, idle_peer(), missing_survivor);

    assert_eq!(stale_epoch.err(), Some(RecoveryInstallError::StaleAuthorityEpoch));
    assert_eq!(stale_tip.err(), Some(RecoveryInstallError::StaleChainstate));
    assert_eq!(invalid.err(), Some(RecoveryInstallError::InvalidPreparedRecovery));
    assert_eq!(not_fresh.err(), Some(RecoveryInstallError::NonFreshAuthority));
    assert_eq!(inconsistent.err(), Some(RecoveryInstallError::InvalidPreparedRecovery));
}

#[test]
fn peer_policy_info_summarises_decisions() {
    let info = ManagedPeerPolicyInfo::from_policy_decisions(
        3,
        Some(EvictionDecision::Select { reason: "netgroup" }),
        &vec![
            MisbehaviorDecision { response: MisbehaviorResponse::Discourage, kind: "invalid_block" },
            MisbehaviorDecision { response: MisbehaviorResponse::ObserveOnly, kind: "slow" },
        ],
        &vec![BanDecision::Expired { reason: "manual", source: BanSource::Manual }],
        &vec![UnbanDecision::Unbanned, UnbanDecision::NotFound],
    );

    assert_eq!(info.eviction_candidates_evaluated, 3);
    assert_eq!(info.disconnects_requested, 1);
    assert_eq!(info.discouraged_peers, 1);
    assert_eq!(info.misbehavior_observations, 2);
    assert_eq!(info.expired_bans, 1);
    assert_eq!(info.manual_unbans, 1);
    assert!(!info.is_empty());
    assert!(ManagedPeerPolicyInfo::new().is_empty());
}

#[test]
fn eviction_without_candidates_is_ignored() {
    let info = ManagedPeerPolicyInfo::from_policy_decisions(
        0,
        Some(EvictionDecision::Suppress { reason: "protected", protected_peer_count: 4 }),
        &Vec::new(),
        &Vec::new(),
        &Vec::new(),
    );

    assert!(info.is_empty());
    assert_eq!(usize_to_u32(usize::MAX), u32::MAX);
}

#[test]
fn resource_events_count_by_next_action() {
    let mut info = ManagedResourceGovernanceInfo::new();
    let event = InboundResourceGovernanceEvent {
        outcome: "rejected",
        reason: "payload_too_large",
        label: "payload",
        source: "source_resource_policy",
        next_action: ResourceNextAction::PayloadRejected,
    };

    assert!(info.maybe_structured_log_record(5).is_none());
    info.record_event(event);

    assert_eq!(info.payload_rejections, 1);
    assert!(!info.is_empty());
    let record = info.maybe_structured_log_record(5).expect("latest decision is logged");
    assert_eq!(record.timestamp_unix_seconds, 5);
    assert_eq!(record.event, event);
    assert!(ManagedAddressBoundaryInfo::new().is_empty());
}

#[test]
fn handle_prepares_completes_and_refuses_a_second_pending_snapshot_write() {
    let handle = ManagedNetworkHandle::from_network_fixture(network());
    let prepared = handle
        .prepare_mempool_snapshot_write(PolicyTime::new(5), CheckpointTrigger::Shutdown, "snapshot", 0, 100)
        .expect("first write prepares");
    assert_eq!(prepared.snapshot, "snapshot");
    assert!(handle.prepare_mempool_snapshot_write(PolicyTime::new(6), CheckpointTrigger::Periodic, "again", 0, 100).is_err());
    let (_, capability) = prepared.into_parts();
    let receipt = capability.acknowledge_write(PolicyTime::new(7), CheckpointPersistenceStrength::Sync);
    let duplicate = receipt.duplicate();
    assert_eq!(handle.complete_snapshot_write(receipt).expect("applied"), EffectCompletion::Applied);
    assert_eq!(handle.complete_snapshot_write(duplicate).expect("repeat"), EffectCompletion::AlreadyApplied);
    let evidence = handle.checkpoint_evidence(PolicyTime::new(8), 300).expect("evidence");
    assert_eq!(evidence.maybe_last_durable_generation, Some(evidence.current_generation));
}

#[test]
fn unacknowledged_receipt_is_handed_back_with_the_refusal() {
    let handle = ManagedNetworkHandle::from_network_fixture(network());
    let prepared = handle
        .prepare_mempool_snapshot_write(PolicyTime::new(5), CheckpointTrigger::Periodic, (), 0, 100)
        .expect("prepares");
    let (_, capability) = prepared.into_parts();
    let receipt = capability.acknowledge_write(PolicyTime::new(7), CheckpointPersistenceStrength::Sync);
    let mut stripped = receipt.duplicate();
    stripped.maybe_strength = None;
    let error = handle.complete_snapshot_write(stripped).expect_err("a receipt without strength is refused");
    assert!(error.receipt.maybe_strength.is_none());
    assert_eq!(error.into_receipt().maybe_completed_at, Some(PolicyTime::new(7)));
    assert_eq!(handle.complete_snapshot_write(receipt).expect("the exact receipt applies"), EffectCompletion::Applied);
}

#[test]
fn network_records_inbound_admissions_and_rejections() {
    let mut net = network();
    assert_eq!(net.inbound_admission_info().admitted_inbound_peers, 0);
    net.record_inbound_admission(&InboundPeerRecord {
        connection_class: PeerConnectionClass::OrdinaryInbound,
        slot_class: InboundAdmissionSlotClass::Ordinary,
        permission_decision: ManagedInboundPermissionDecisionInfo {
            connection_class: PeerConnectionClass::OrdinaryInbound,
            active_effects: vec![2],
            inactive_effects: vec![],
        },
    });
    net.record_inbound_rejection(&InboundAdmissionRejection {
        reason: InboundAdmissionRejectionReason::CapReached,
        slot_class: InboundAdmissionSlotClass::Ordinary,
    });
    let info = net.inbound_admission_info();
    assert_eq!(info.admitted_inbound_peers, 1);
    assert_eq!(info.rejected_inbound_peers, 1);
    assert_eq!(info.cap_rejections, 1);
    assert_eq!(info.observed_active_permission_effects, vec![2]);
}
