use open_bitcoin_node::identity::{Hash32, MemberIdentity};
use open_bitcoin_node::admission::{
    HardMemberFailure, PackageMemberResult, ReconsiderableMemberFailure, classify_singleton_member, route_peer_messages,
};
use open_bitcoin_node::lifecycle::MempoolRemovalCause;
use open_bitcoin_node::relay_evidence::{
    FanoutActionLabel, FanoutActionReason, LocalRelaySubmissionEvidence, LocalRelaySubmissionLabel,
    ManagedRelayFanoutActionInfo, ManagedRelayFanoutInfo, ManagedRelayServingInfo, ManagedTxServeOutcome,
    MempoolOutcomeKind, RebroadcastEvidenceLabel, RelayActivationEvidence, RelayDownloadEligibilityCounters,
    RelayEvidenceCapability, RelayEvidenceField, relay_capability_unavailable_reason, relay_recovery_evidence_unavailable_reason, RelayRecoveryCounters, TxFanoutActionKind, TxFanoutCleanupReason,
    TxFanoutSuppressionReason, TxServeOutcomeLabel, TxServingRecordStatus, action_infos,
    cleanup_reason_for_serving_status, fanout_reason_for_lifecycle_removal, local_submission_evidence,
    local_submission_outcome_label, relay_evidence_status_from_parts,
};

#[test]
fn submission_labels_have_stable_names() {
    assert_eq!(LocalRelaySubmissionLabel::Accepted.as_str(), "accepted");
    assert_eq!(LocalRelaySubmissionLabel::NotEligible.as_str(), "not_eligible");
    assert_eq!(LocalRelaySubmissionLabel::RebroadcastDeferred.as_str(), "rebroadcast_deferred");
    assert_eq!(RebroadcastEvidenceLabel::Deferred.as_str(), "rebroadcast_deferred");
}

#[test]
fn outcome_labels_merge_replacement_into_accepted() {
    assert_eq!(local_submission_outcome_label(MempoolOutcomeKind::Replaced), LocalRelaySubmissionLabel::Accepted);
    assert_eq!(local_submission_outcome_label(MempoolOutcomeKind::Orphaned), LocalRelaySubmissionLabel::Orphaned);
}

#[test]
fn local_submission_evidence_lists_labels_in_fixed_order() {
    let actions = vec![
        TxFanoutActionKind::Suppress(TxFanoutSuppressionReason::NotRelayEligible),
        TxFanoutActionKind::Suppress(TxFanoutSuppressionReason::RelayDisabled),
        TxFanoutActionKind::RateLimit,
        TxFanoutActionKind::RebroadcastDeferred,
        TxFanoutActionKind::Announce,
    ];

    let evidence = local_submission_evidence(MempoolOutcomeKind::Accepted, 2, &actions);

    assert_eq!(
        evidence,
        LocalRelaySubmissionEvidence {
            labels: vec![
                LocalRelaySubmissionLabel::Accepted,
                LocalRelaySubmissionLabel::Queued,
                LocalRelaySubmissionLabel::Suppressed,
                LocalRelaySubmissionLabel::NotEligible,
                LocalRelaySubmissionLabel::RelayDisabled,
                LocalRelaySubmissionLabel::RebroadcastDeferred,
            ],
            queued_count: 2,
            suppressed_count: 3,
            not_eligible_count: 1,
            relay_disabled_count: 1,
            maybe_rebroadcast: Some(RebroadcastEvidenceLabel::Deferred),
        }
    );
}

#[test]
fn rejected_submission_without_actions_has_only_its_label() {
    let evidence = local_submission_evidence(MempoolOutcomeKind::Rejected, 0, &Vec::new());

    assert_eq!(evidence.labels, vec![LocalRelaySubmissionLabel::Rejected]);
    assert_eq!(evidence.suppressed_count, 0);
    assert_eq!(evidence.maybe_rebroadcast, None);
}

#[test]
fn lifecycle_removals_map_to_fanout_cleanup() {
    assert_eq!(fanout_reason_for_lifecycle_removal(MempoolRemovalCause::Replacement), TxFanoutCleanupReason::Replaced);
    assert_eq!(fanout_reason_for_lifecycle_removal(MempoolRemovalCause::Expiry), TxFanoutCleanupReason::Expired);
    assert_eq!(fanout_reason_for_lifecycle_removal(MempoolRemovalCause::Pressure), TxFanoutCleanupReason::Evicted);
    assert_eq!(fanout_reason_for_lifecycle_removal(MempoolRemovalCause::Reorg), TxFanoutCleanupReason::Confirmed);
}

#[test]
fn serving_statuses_map_to_cleanup_only_when_terminal() {
    assert_eq!(cleanup_reason_for_serving_status(TxServingRecordStatus::Evicted), Some(TxFanoutCleanupReason::Evicted));
    assert_eq!(cleanup_reason_for_serving_status(TxServingRecordStatus::Accepted), None);
    assert_eq!(cleanup_reason_for_serving_status(TxServingRecordStatus::Stale), None);
}

#[test]
fn relay_status_counts_every_source() {
    let submission = local_submission_evidence(MempoolOutcomeKind::Accepted, 0, &Vec::new());
    let fanout = ManagedRelayFanoutInfo {
        known_transactions: 1,
        queued_peers: 0,
        queued_transactions: 0,
        latest_actions: action_infos(&vec![
            TxFanoutActionKind::Announce,
            TxFanoutActionKind::QueueCap,
            TxFanoutActionKind::Cleanup(TxFanoutCleanupReason::Evicted),
            TxFanoutActionKind::RebroadcastDeferred,
        ]),
    };
    let serving = ManagedRelayServingInfo {
        serveable_transactions: 1,
        known_status_transactions: 1,
        latest_outcomes: vec![
            ManagedTxServeOutcome { label: TxServeOutcomeLabel::Served },
            ManagedTxServeOutcome { label: TxServeOutcomeLabel::Evicted },
            ManagedTxServeOutcome { label: TxServeOutcomeLabel::Unknown },
        ],
    };

    let status = relay_evidence_status_from_parts(
        RelayActivationEvidence { enabled: true },
        RelayDownloadEligibilityCounters::default(),
        RelayEvidenceField::Implemented(RelayRecoveryCounters::default()),
        Some(&submission),
        &fanout,
        &serving,
    );

    assert_eq!(status.counters.accepted_count, 1);
    assert_eq!(status.counters.announced_count, 1);
    assert_eq!(status.counters.suppressed_count, 1);
    assert_eq!(status.counters.evicted_count, 2);
    assert_eq!(status.counters.rebroadcast_deferred_count, 1);
    assert_eq!(status.counters.requested_count, 3);
    assert_eq!(status.counters.served_count, 1);
    assert_eq!(status.mempool_admission, RelayEvidenceField::Implemented(RelayEvidenceCapability::MempoolAdmission));
    assert_eq!(status.rebroadcast, RelayEvidenceField::Implemented(RelayEvidenceCapability::Rebroadcast));
}

#[test]
fn relay_status_without_submission_leaves_submission_capabilities_unavailable() {
    let fanout = ManagedRelayFanoutInfo { known_transactions: 0, queued_peers: 0, queued_transactions: 0, latest_actions: Vec::new() };
    let serving = ManagedRelayServingInfo { serveable_transactions: 0, known_status_transactions: 0, latest_outcomes: Vec::new() };

    let status = relay_evidence_status_from_parts(
        RelayActivationEvidence { enabled: false },
        RelayDownloadEligibilityCounters::default(),
        RelayEvidenceField::Unavailable(relay_recovery_evidence_unavailable_reason()),
        None,
        &fanout,
        &serving,
    );

    assert_eq!(status.mempool_admission, RelayEvidenceField::Unavailable(relay_capability_unavailable_reason()));
    assert_eq!(status.local_submission, RelayEvidenceField::Unavailable(relay_capability_unavailable_reason()));
    assert_eq!(status.fanout, RelayEvidenceField::Implemented(RelayEvidenceCapability::RelayFanout));
    assert_eq!(status.rebroadcast, RelayEvidenceField::Unavailable(relay_capability_unavailable_reason()));
    assert_eq!(status.counters.requested_count, 0);
    assert_eq!(
        status.recovery_counters,
        RelayEvidenceField::Unavailable("mempool recovery storage evidence unavailable")
    );
}

#[test]
fn action_info_names_label_and_reason() {
    let info = ManagedRelayFanoutActionInfo::from_action(TxFanoutActionKind::QueueCap);

    assert_eq!(info.label, FanoutActionLabel::QueueCap);
    assert_eq!(info.label.as_str(), "queue_cap");
    assert_eq!(info.reason, Some(FanoutActionReason::QueueCapReached));
}

#[test]
fn singleton_retry_plan_depends_on_the_failure() {
    let id = MemberIdentity { txid: Hash32::from_halves(0, 1), wtxid: Hash32::from_halves(0, 2) };
    let fee = classify_singleton_member(&PackageMemberResult::Reconsiderable(id, ReconsiderableMemberFailure::PackageFee));
    let replacement =
        classify_singleton_member(&PackageMemberResult::Reconsiderable(id, ReconsiderableMemberFailure::PackageReplacement));
    let hard = classify_singleton_member(&PackageMemberResult::HardRejected(id, HardMemberFailure::PackageReplacement));
    let accepted = classify_singleton_member(&PackageMemberResult::FinallyPresent(id));
    let missing = classify_singleton_member(&PackageMemberResult::Reconsiderable(
        id,
        ReconsiderableMemberFailure::MissingInputs { missing_parents: vec![Hash32::from_halves(0, 9)] },
    ));

    assert!(fee.reconsiderable && !fee.singleton_package_replacement);
    assert!(replacement.reconsiderable && replacement.singleton_package_replacement);
    assert!(!hard.reconsiderable && hard.singleton_package_replacement);
    assert!(!accepted.reconsiderable && !accepted.singleton_package_replacement);
    assert!(!missing.reconsiderable && !missing.singleton_package_replacement);
}

#[test]
fn messages_route_to_the_requesting_peer_or_elsewhere_in_order() {
    let mut outbound = vec!["earlier"];
    let mut targeted = Vec::new();

    route_peer_messages(7, vec![(7, "a"), (8, "b"), (7, "c"), (9, "d")], &mut outbound, &mut targeted);

    assert_eq!(outbound, vec!["earlier", "a", "c"]);
    assert_eq!(targeted, vec![(8, "b"), (9, "d")]);
}
