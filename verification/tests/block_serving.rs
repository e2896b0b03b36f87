use std::cell::Cell;

use open_bitcoin_node::block_relay_evidence::{
    BlockRelayEvidenceStatus, CompactAnnouncementReason, CompactDownloadAction, CompactDownloadCleanupCause,
    CompactPeerFacts, CompactRelayCapability, CompactRelayPreference, ManagedBlockRelayEvidenceState, WireMessageKind,
    compact_announce_evidence_reason, has_live_compact_state, in_flight_counters, negotiation_counters,
};
use open_bitcoin_node::block_serving::{
    BlockServingEligibilityReason, BlockServingOutcomeLabel, BlockServingPresenceFacts, BlockServingStatusLabel,
    CompactBlockTxnServeCause, CompactBlockTxnServeOutcome, InventoryKind, InventoryVector,
    ManagedBlockSerializationMode, ManagedBlockServeCompletionOutcome, ManagedBlockServeGateDecision,
    ManagedBlockServeGateInput, ManagedCompactBlockTxnServeDecision, gate_managed_block_request,
    serve_managed_block_request, serve_managed_compact_block_transactions,
};
use open_bitcoin_node::identity::Hash32;
use open_bitcoin_node::inventory_plan::{ManagedInboundResponsePlanItem, partition_immediate_inventory, plan_inventory_responses};

fn hash(tag: u128) -> Hash32 {
    Hash32 { hi: tag, lo: tag }
}

fn enabled_input() -> ManagedBlockServeGateInput {
    ManagedBlockServeGateInput {
        inventory_type: InventoryKind::Block,
        block_hash: hash(0),
        compact_relay_enabled: false,
        status_label: BlockServingStatusLabel::Validated,
        eligibility_reason: BlockServingEligibilityReason::Eligible,
        gate_label: BlockServingOutcomeLabel::BlockServingEligible,
        gate_allow_storage_read: true,
        gate_may_serve_block: true,
        presence: BlockServingPresenceFacts { payload_present: true, index_known: true, validated_on_active_chain: true },
    }
}

fn disabled_input() -> ManagedBlockServeGateInput {
    let mut input = enabled_input();
    input.eligibility_reason = BlockServingEligibilityReason::Disabled;
    input.gate_label = BlockServingOutcomeLabel::BlockServingDisabled;
    input.gate_allow_storage_read = false;
    input.gate_may_serve_block = false;
    input
}

fn stale_input() -> ManagedBlockServeGateInput {
    let mut input = enabled_input();
    input.status_label = BlockServingStatusLabel::Stale;
    input.gate_label = BlockServingOutcomeLabel::BlockStatusUnavailable;
    input.gate_allow_storage_read = false;
    input.gate_may_serve_block = false;
    input
}

fn recent_valid_input() -> ManagedBlockServeGateInput {
    let mut input = enabled_input();
    input.status_label = BlockServingStatusLabel::Available;
    input
}

#[test]
fn phase111_block_serving_adapter_invokes_lookup_only_after_policy_allows_storage_read() {
    let lookup_called = Cell::new(false);

    let (decision, maybe_block) = serve_managed_block_request(enabled_input(), |_| {
        lookup_called.set(true);
        Some(7_u32)
    });

    assert_eq!(decision.label, BlockServingOutcomeLabel::BlockServingEligible);
    assert!(maybe_block.is_some());
    assert!(!decision.missing_inventory);
    assert!(lookup_called.get());
}

#[test]
fn phase111_block_serving_disabled_returns_before_payload_lookup() {
    let lookup_called = Cell::new(false);

    let (decision, maybe_block) = serve_managed_block_request(disabled_input(), |_| {
        lookup_called.set(true);
        Some(7_u32)
    });

    assert_eq!(decision.label, BlockServingOutcomeLabel::BlockServingDisabled);
    assert!(maybe_block.is_none());
    assert!(decision.missing_inventory);
    assert!(!lookup_called.get());
}

#[test]
fn phase111_block_serving_recent_valid_available_block_is_served_after_policy_gate() {
    let lookup_called = Cell::new(false);

    let (decision, maybe_block) = serve_managed_block_request(recent_valid_input(), |_| {
        lookup_called.set(true);
        Some(7_u32)
    });

    assert_eq!(decision.label, BlockServingOutcomeLabel::BlockServingEligible);
    assert!(maybe_block.is_some());
    assert!(!decision.missing_inventory);
    assert!(lookup_called.get());
}

#[test]
fn phase111_recent_valid_available_block_is_served_after_policy_gate() {
    let lookup_called = Cell::new(false);

    let (decision, maybe_block) = serve_managed_block_request(recent_valid_input(), |_| {
        lookup_called.set(true);
        Some(7_u32)
    });

    assert_eq!(decision.label, BlockServingOutcomeLabel::BlockServingEligible);
    assert!(maybe_block.is_some());
    assert!(!decision.missing_inventory);
    assert!(lookup_called.get());
}

#[test]
fn phase111_block_serving_stale_block_fact_returns_unavailable_without_payload_lookup() {
    let lookup_called = Cell::new(false);

    let (decision, maybe_block) = serve_managed_block_request(stale_input(), |_| {
        lookup_called.set(true);
        Some(7_u32)
    });

    assert_eq!(decision.label, BlockServingOutcomeLabel::BlockStatusUnavailable);
    assert!(maybe_block.is_none());
    assert!(decision.missing_inventory);
    assert!(!lookup_called.get());
}

#[test]
fn phase111_stale_block_fact_returns_unavailable_notfound_without_lookup() {
    let lookup_called = Cell::new(false);

    let (decision, maybe_block) = serve_managed_block_request(stale_input(), |_| {
        lookup_called.set(true);
        Some(7_u32)
    });

    assert_eq!(decision.label, BlockServingOutcomeLabel::BlockStatusUnavailable);
    assert!(maybe_block.is_none());
    assert!(decision.missing_inventory);
    assert!(!lookup_called.get());
}

#[test]
fn phase127_eligible_inventory_types_yield_owned_serve_intents() {
    let inventory_types = [
        (InventoryKind::Block, ManagedBlockSerializationMode::Block),
        (InventoryKind::WitnessBlock, ManagedBlockSerializationMode::WitnessBlock),
        (InventoryKind::CompactBlock, ManagedBlockSerializationMode::CompactBlock),
    ];

    for (inventory_type, expected_mode) in inventory_types {
        let mut input = enabled_input();
        input.inventory_type = inventory_type;
        input.compact_relay_enabled = true;
        let ManagedBlockServeGateDecision::Serve(intent) = gate_managed_block_request(input) else {
            panic!("eligible inventory should yield a serve intent");
        };
        assert_eq!(intent.serialization_mode(), expected_mode);
    }
}

#[test]
fn phase127_denied_request_never_yields_a_storage_intent() {
    let decision = gate_managed_block_request(disabled_input());

    assert!(matches!(
        decision,
        ManagedBlockServeGateDecision::Deny(decision) if decision.label == BlockServingOutcomeLabel::BlockServingDisabled
    ));
}

#[test]
fn phase127_request_cap_denial_precedes_storage_intent() {
    let mut input = enabled_input();
    input.gate_label = BlockServingOutcomeLabel::BlockRequestCapReached;
    input.gate_allow_storage_read = false;

    let decision = gate_managed_block_request(input);

    assert!(matches!(
        decision,
        ManagedBlockServeGateDecision::Deny(decision) if decision.label == BlockServingOutcomeLabel::BlockRequestCapReached
    ));
}

#[test]
fn phase127_completion_preserves_unavailable_and_success_only_effects() {
    let ManagedBlockServeGateDecision::Serve(intent) = gate_managed_block_request(enabled_input()) else {
        panic!("eligible request should yield an intent");
    };

    let unavailable = intent.completion(ManagedBlockServeCompletionOutcome::LookupUnavailable);
    let transport_failed = intent.completion(ManagedBlockServeCompletionOutcome::TransportFailed);
    let written = intent.completion(ManagedBlockServeCompletionOutcome::Written);

    assert_eq!(unavailable.decision().label, BlockServingOutcomeLabel::BlockStatusUnavailable);
    assert!(!unavailable.decision().presence.payload_present);
    assert!(!unavailable.records_served_effect());
    assert!(!transport_failed.records_served_effect());
    assert!(written.records_served_effect());
}

#[test]
fn compact_block_without_compact_relay_is_suppressed() {
    let mut input = enabled_input();
    input.inventory_type = InventoryKind::CompactBlock;

    let decision = gate_managed_block_request(input);

    assert!(matches!(
        decision,
        ManagedBlockServeGateDecision::Deny(decision) if decision.label == BlockServingOutcomeLabel::BlockServingSuppressed
    ));
}

#[test]
fn transaction_inventory_is_not_a_servable_block() {
    let mut input = enabled_input();
    input.inventory_type = InventoryKind::Transaction;

    let decision = gate_managed_block_request(input);

    assert!(matches!(
        decision,
        ManagedBlockServeGateDecision::Deny(decision) if decision.label == BlockServingOutcomeLabel::BlockStatusUnavailable
    ));
}

#[test]
fn lookup_miss_records_the_block_as_unavailable() {
    let (decision, maybe_block) = serve_managed_block_request(enabled_input(), |_| None::<u32>);

    assert_eq!(decision.label, BlockServingOutcomeLabel::BlockStatusUnavailable);
    assert_eq!(decision.status_label, BlockServingStatusLabel::Unavailable);
    assert!(decision.missing_inventory);
    assert!(maybe_block.is_none());
}

#[test]
fn compact_transactions_are_served_in_index_order() {
    let mut input = enabled_input();
    input.compact_relay_enabled = true;

    let decision = serve_managed_compact_block_transactions(input, &vec![2, 0], |_| Some(vec![10_u32, 11, 12]));

    match decision {
        ManagedCompactBlockTxnServeDecision::Served { block_hash, transactions } => {
            assert_eq!(block_hash, hash(0));
            assert_eq!(transactions, vec![12, 10]);
        }
        other => panic!("expected served transactions, got {other:?}"),
    }
}

#[test]
fn compact_index_past_the_block_is_malformed() {
    let mut input = enabled_input();
    input.compact_relay_enabled = true;

    let decision = serve_managed_compact_block_transactions(input, &vec![0, 3], |_| Some(vec![10_u32, 11, 12]));

    assert_eq!(decision.outcome(), CompactBlockTxnServeOutcome::Malformed(CompactBlockTxnServeCause::IndexOutOfBounds));
    assert_eq!(decision.outcome().label(), "compact_missing_tx_malformed");
    assert_eq!(decision.outcome().cause(), "compact_getblocktxn_index_out_of_bounds");
}

#[test]
fn compact_serving_disabled_is_ineligible() {
    let decision = serve_managed_compact_block_transactions(enabled_input(), &vec![0], |_| Some(vec![10_u32]));

    assert_eq!(decision.outcome(), CompactBlockTxnServeOutcome::Suppressed(CompactBlockTxnServeCause::Ineligible));
}

#[test]
fn compact_request_over_the_cap_is_request_limited() {
    let mut input = enabled_input();
    input.compact_relay_enabled = true;
    input.gate_label = BlockServingOutcomeLabel::BlockRequestCapReached;
    input.gate_allow_storage_read = false;

    let decision = serve_managed_compact_block_transactions(input, &vec![0], |_| Some(vec![10_u32]));

    assert_eq!(decision.outcome(), CompactBlockTxnServeOutcome::Suppressed(CompactBlockTxnServeCause::RequestLimited));
}

#[test]
fn compact_missing_block_is_unavailable() {
    let mut input = enabled_input();
    input.compact_relay_enabled = true;

    let decision = serve_managed_compact_block_transactions(input, &vec![0], |_| None::<Vec<u32>>);

    assert_eq!(decision.outcome(), CompactBlockTxnServeOutcome::Suppressed(CompactBlockTxnServeCause::Unavailable));
}

#[test]
fn compact_announce_evidence_reason_maps_compact_block_to_announced() {
    let reason = compact_announce_evidence_reason(WireMessageKind::CompactBlock);

    assert_eq!(reason, Some(CompactAnnouncementReason::CompactAnnounced));
}

#[test]
fn compact_announce_evidence_reason_maps_header_and_inventory_writes_to_fallbacks() {
    let headers_reason = compact_announce_evidence_reason(WireMessageKind::Headers);
    let inventory_reason = compact_announce_evidence_reason(WireMessageKind::Inv);

    assert_eq!(headers_reason, Some(CompactAnnouncementReason::CompactHeadersFallback));
    assert_eq!(inventory_reason, Some(CompactAnnouncementReason::CompactInventoryFallback));
}

#[test]
fn compact_announce_evidence_reason_rejects_non_announcement_messages() {
    let reason = compact_announce_evidence_reason(WireMessageKind::Verack);

    assert_eq!(reason, None);
}

#[test]
fn block_relay_evidence_is_unavailable_until_observed() {
    let state = ManagedBlockRelayEvidenceState::new();

    assert_eq!(state.observed_status(&Vec::new(), true, true), BlockRelayEvidenceStatus::Unavailable);
}

#[test]
fn block_serving_decision_counts_eligibility_status_and_compact_suppression() {
    let mut state = ManagedBlockRelayEvidenceState::new();
    let denied = gate_managed_block_request(disabled_input());
    let ManagedBlockServeGateDecision::Deny(decision) = denied else {
        panic!("disabled request is denied");
    };

    state.record_block_serving(InventoryKind::CompactBlock, &decision);

    assert!(state.observed);
    assert_eq!(state.block_serving_eligibility.ineligible_peer_count, 1);
    assert_eq!(state.block_serving_eligibility.disabled_count, 1);
    assert_eq!(state.block_serving_status.validated_count, 1);
    assert_eq!(state.announcement.compact_suppressed_count, 1);
    let BlockRelayEvidenceStatus::Observed(counters) = state.observed_status(&Vec::new(), false, true) else {
        panic!("observed evidence is reported");
    };
    assert!(!counters.block_serving.activation.block_serving_enabled);
    assert_eq!(counters.block_serving.eligibility.disabled_count, 1);
}

#[test]
fn only_written_full_blocks_count_as_served() {
    let mut state = ManagedBlockRelayEvidenceState::new();

    state.record_wire_message_written(WireMessageKind::Headers);
    state.record_wire_message_written(WireMessageKind::Block);

    assert_eq!(state.served_count, 1);
}

#[test]
fn timeout_cleanup_counts_as_fallback() {
    let mut state = ManagedBlockRelayEvidenceState::new();

    state.record_cleanup(CompactDownloadCleanupCause::Timeout, 3);
    state.record_cleanup(CompactDownloadCleanupCause::Reorg, 0);

    assert_eq!(state.cleanup.compact_cleanup_count, 3);
    assert_eq!(state.cleanup.compact_download_timeout_count, 3);
    assert_eq!(state.fallback.compact_timeout_count, 3);
    assert_eq!(state.fallback.compact_fallback_count, 3);
    assert_eq!(state.cleanup.compact_download_reorg_count, 0);
}

#[test]
fn compact_download_actions_are_counted_by_kind() {
    let mut state = ManagedBlockRelayEvidenceState::new();
    let actions = vec![
        CompactDownloadAction::SendGetBlockTxn,
        CompactDownloadAction::SendGetData(vec![InventoryKind::WitnessTransaction, InventoryKind::Block]),
        CompactDownloadAction::SendGetData(vec![InventoryKind::Transaction]),
        CompactDownloadAction::ReceivedBlock,
        CompactDownloadAction::Other,
    ];

    state.record_compact_download_actions(&actions);

    assert_eq!(state.missing_transaction.compact_missing_tx_requested_count, 1);
    assert_eq!(state.fallback.compact_fallback_count, 1);
    assert_eq!(state.reconstruction.compact_reconstructed_count, 1);
}

#[test]
fn announcement_reasons_fall_into_four_counters() {
    let mut state = ManagedBlockRelayEvidenceState::new();

    state.record_announcement(CompactAnnouncementReason::CompactAnnounced);
    state.record_announcement(CompactAnnouncementReason::CompactHeadersFallback);
    state.record_announcement(CompactAnnouncementReason::CompactResourceLimited);

    assert_eq!(state.announcement.compact_announced_count, 1);
    assert_eq!(state.announcement.compact_headers_fallback_count, 1);
    assert_eq!(state.announcement.compact_inventory_fallback_count, 0);
    assert_eq!(state.announcement.compact_suppressed_count, 1);
}

#[test]
fn negotiation_and_in_flight_are_counted_over_live_peers() {
    let peers = vec![
        CompactPeerFacts {
            capability: CompactRelayCapability::Supported { version: 2 },
            high_bandwidth_preference: CompactRelayPreference::Requested,
            low_bandwidth_preference: CompactRelayPreference::Requested,
            in_flight_count: 2,
            getblocktxn_in_flight_count: 1,
        },
        CompactPeerFacts {
            capability: CompactRelayCapability::Supported { version: 2 },
            high_bandwidth_preference: CompactRelayPreference::NotRequested,
            low_bandwidth_preference: CompactRelayPreference::Requested,
            in_flight_count: 0,
            getblocktxn_in_flight_count: 0,
        },
        CompactPeerFacts {
            capability: CompactRelayCapability::Unsupported { version: 1 },
            high_bandwidth_preference: CompactRelayPreference::Unknown,
            low_bandwidth_preference: CompactRelayPreference::Unknown,
            in_flight_count: 1,
            getblocktxn_in_flight_count: 1,
        },
    ];

    let negotiation = negotiation_counters(&peers);
    let in_flight = in_flight_counters(&peers);

    assert!(has_live_compact_state(&peers));
    assert_eq!(negotiation.version2_high_bandwidth_count, 1);
    assert_eq!(negotiation.version2_low_bandwidth_count, 1);
    assert_eq!(negotiation.unsupported_version_count, 1);
    assert_eq!(in_flight.in_flight_count, 3);
    assert_eq!(in_flight.peers_with_in_flight_count, 2);
    assert_eq!(in_flight.getblocktxn_in_flight_count, 2);
}

#[test]
fn inventory_plan_reports_missing_transactions_after_the_next_block() {
    let requests = vec![
        InventoryVector { inventory_type: InventoryKind::Transaction, object_hash: hash(1) },
        InventoryVector { inventory_type: InventoryKind::WitnessTransaction, object_hash: hash(2) },
        InventoryVector { inventory_type: InventoryKind::Block, object_hash: hash(3) },
        InventoryVector { inventory_type: InventoryKind::FilteredBlock, object_hash: hash(4) },
        InventoryVector { inventory_type: InventoryKind::Transaction, object_hash: hash(5) },
    ];
    let tx_served = vec![true, false, false, false, false];
    let mut block_input = enabled_input();
    block_input.block_hash = hash(3);
    let gate_inputs = vec![enabled_input(), enabled_input(), block_input, enabled_input(), enabled_input()];

    let (plan, denials) = plan_inventory_responses(&requests, &tx_served, &gate_inputs);

    assert!(denials.is_empty());
    assert_eq!(plan.len(), 5);
    assert!(matches!(plan[0], ManagedInboundResponsePlanItem::Transaction(0)));
    assert!(matches!(&plan[1], ManagedInboundResponsePlanItem::DurableBlock(intent) if intent.block_hash == hash(3)));
    assert!(matches!(&plan[2], ManagedInboundResponsePlanItem::NotFound(v) if v == &vec![requests[1]]));
    assert!(matches!(&plan[3], ManagedInboundResponsePlanItem::NotFound(v) if v == &vec![requests[3]]));
    assert!(matches!(&plan[4], ManagedInboundResponsePlanItem::NotFound(v) if v == &vec![requests[4]]));
}

#[test]
fn inventory_plan_denied_block_is_not_found_and_recorded() {
    let requests = vec![InventoryVector { inventory_type: InventoryKind::Block, object_hash: hash(9) }];

    let (plan, denials) = plan_inventory_responses(&requests, &vec![false], &vec![disabled_input()]);

    assert_eq!(denials.len(), 1);
    assert_eq!(denials[0].0, InventoryKind::Block);
    assert_eq!(denials[0].1.label, BlockServingOutcomeLabel::BlockServingDisabled);
    assert!(matches!(&plan[0], ManagedInboundResponsePlanItem::NotFound(v) if v == &requests));
}

#[test]
fn immediate_serving_answers_found_blocks_and_served_transactions() {
    let request = |kind, n: u128| InventoryVector { inventory_type: kind, object_hash: Hash32::from_halves(0, n) };
    let requests = vec![
        request(InventoryKind::Block, 1),
        request(InventoryKind::CompactBlock, 2),
        request(InventoryKind::WitnessTransaction, 3),
        request(InventoryKind::Transaction, 4),
        request(InventoryKind::FilteredBlock, 5),
        request(InventoryKind::WitnessBlock, 6),
    ];
    let block_found = vec![true, true, false, false, false, false];
    let tx_served = vec![false, false, true, false, false, false];
    let (answered, missing) = partition_immediate_inventory(&requests, &block_found, &tx_served);
    assert_eq!(answered, vec![0, 2]);
    assert_eq!(missing, vec![requests[1], requests[3], requests[4], requests[5]]);
}
