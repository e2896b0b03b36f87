use open_bitcoin_node::action_translation::{
    ActionContinuation, ActionOutcome, process_action_outcomes, DisconnectError, DisconnectReason, PeerActionProcessing, disconnect_network_error, PeerActionKind, TxDownloadAction, action_continuation,
    compact_misbehavior_decision, plan_disconnect, process_transaction_relay_action,
    transaction_relay_targeted_messages,
};
use open_bitcoin_node::admission::{
    HardMemberFailure, PackageMemberResult, ReconsiderableMemberFailure, SingletonRejectEvidence,
    singleton_reject_evidence,
};
use open_bitcoin_node::admission_bridge::{
    AdmissionError, AdmissionFollowUp, MemberFeedback, MempoolOutcome, OrphanAction, OrphanActionEffect,
    OrphanReconsiderationStatus, OutPoint, PackageStatus, RejectionCategory, admission_follow_up,
    admission_result_from_transition, orphan_action_effect, orphan_action_outcome, package_member_feedback,
    package_status_records_reconsiderable, reconsideration_status, removed_txids, serving_status_for_removal,
    should_store_admitted, singleton_transition_from_member,
};
use open_bitcoin_node::block_serving::{
    CompactBlockTxnServeCause, CompactBlockTxnServeOutcome, InventoryKind, InventoryVector,
};
use open_bitcoin_node::header_sync::{
    ConsensusSchedule, HeaderChainView, HeaderContextError, HeaderFacts, StoredHeader,
    build_header_validation_context, difficulty_adjustment_interval,
};
use open_bitcoin_node::identity::{Hash32, MemberIdentity};
use open_bitcoin_node::lifecycle::{MempoolRemovalCause, RemovedMember};
use open_bitcoin_node::policy_info::MisbehaviorResponse;
use open_bitcoin_node::relay_evidence::TxServingRecordStatus;

fn h(n: u128) -> Hash32 {
    Hash32::from_halves(0, n)
}

fn member(n: u128) -> MemberIdentity {
    MemberIdentity { txid: h(n), wtxid: h(n + 1000) }
}

fn removal(n: u128, cause: MempoolRemovalCause) -> RemovedMember {
    RemovedMember { member: member(n), cause }
}

#[test]
fn present_member_without_replacement_is_accepted_with_pressure_evictions() {
    let removed = vec![
        removal(5, MempoolRemovalCause::Pressure),
        removal(6, MempoolRemovalCause::Expiry),
        removal(7, MempoolRemovalCause::Pressure),
    ];
    let outcome = singleton_transition_from_member(&PackageMemberResult::FinallyPresent(member(1)), &removed);
    assert_eq!(outcome, MempoolOutcome::Accepted { txid: h(1), wtxid: h(1001), evicted: vec![h(5), h(7)] });
}

#[test]
fn present_member_that_replaced_is_a_replacement() {
    let removed = vec![removal(3, MempoolRemovalCause::Replacement), removal(4, MempoolRemovalCause::Pressure)];
    let outcome = singleton_transition_from_member(&PackageMemberResult::FinallyPresent(member(1)), &removed);
    assert_eq!(
        outcome,
        MempoolOutcome::Replaced { txid: h(1), wtxid: h(1001), replaced: vec![h(3)], evicted: vec![h(4)] }
    );
    assert_eq!(removed_txids(&removed, MempoolRemovalCause::Reorg), Vec::<Hash32>::new());
}

#[test]
fn member_failures_map_to_their_outcomes() {
    let none = Vec::new();
    assert_eq!(
        singleton_transition_from_member(&PackageMemberResult::AlreadyPresent(member(1)), &none),
        MempoolOutcome::Duplicate { txid: h(1) }
    );
    assert_eq!(
        singleton_transition_from_member(&PackageMemberResult::SameTxidDifferentWitness(member(1)), &none),
        MempoolOutcome::Duplicate { txid: h(1) }
    );
    assert_eq!(
        singleton_transition_from_member(&PackageMemberResult::HardRejected(member(1), HardMemberFailure::Policy), &none),
        MempoolOutcome::Rejected { txid: h(1), wtxid: h(1001), category: RejectionCategory::InternalInvariant }
    );
    assert_eq!(
        singleton_transition_from_member(
            &PackageMemberResult::HardRejected(member(1), HardMemberFailure::TrucPolicy),
            &none
        ),
        MempoolOutcome::Rejected { txid: h(1), wtxid: h(1001), category: RejectionCategory::NonStandard }
    );
    assert_eq!(
        singleton_transition_from_member(
            &PackageMemberResult::Reconsiderable(member(1), ReconsiderableMemberFailure::PackageFee),
            &none
        ),
        MempoolOutcome::Rejected { txid: h(1), wtxid: h(1001), category: RejectionCategory::RelayFeeTooLow }
    );
    assert_eq!(
        singleton_transition_from_member(
            &PackageMemberResult::Reconsiderable(
                member(1),
                ReconsiderableMemberFailure::MissingInputs { missing_parents: vec![h(9)] }
            ),
            &none
        ),
        MempoolOutcome::Orphaned { txid: h(1), wtxid: h(1001), missing_parents: vec![h(9)] }
    );
    assert_eq!(
        singleton_transition_from_member(&PackageMemberResult::PostTrimAbsent(member(1)), &none),
        MempoolOutcome::Evicted { txid: h(1), wtxid: h(1001) }
    );
}

#[test]
fn reject_evidence_remembers_policy_and_package_failures() {
    assert_eq!(
        singleton_reject_evidence(&PackageMemberResult::HardRejected(member(1), HardMemberFailure::EphemeralPolicy)),
        SingletonRejectEvidence::HardReject(h(1001))
    );
    assert_eq!(
        singleton_reject_evidence(&PackageMemberResult::HardRejected(member(1), HardMemberFailure::PackageReplacement)),
        SingletonRejectEvidence::Nothing
    );
    assert_eq!(
        singleton_reject_evidence(&PackageMemberResult::Reconsiderable(
            member(1),
            ReconsiderableMemberFailure::PackageReplacement
        )),
        SingletonRejectEvidence::ReconsiderableTransaction(h(1001))
    );
    assert_eq!(singleton_reject_evidence(&PackageMemberResult::FinallyPresent(member(1))), SingletonRejectEvidence::Nothing);
}

#[test]
fn reconsideration_and_serving_statuses() {
    assert_eq!(
        reconsideration_status(&MempoolOutcome::Duplicate { txid: h(1) }),
        OrphanReconsiderationStatus::Accepted
    );
    assert_eq!(
        reconsideration_status(&MempoolOutcome::Orphaned { txid: h(1), wtxid: h(2), missing_parents: vec![] }),
        OrphanReconsiderationStatus::StillMissingParent
    );
    assert_eq!(
        reconsideration_status(&MempoolOutcome::Expired { txid: h(1), wtxid: h(2) }),
        OrphanReconsiderationStatus::Expired
    );
    assert_eq!(serving_status_for_removal(MempoolRemovalCause::BlockConflict), TxServingRecordStatus::Confirmed);
    assert_eq!(serving_status_for_removal(MempoolRemovalCause::Reorg), TxServingRecordStatus::Stale);
    assert_eq!(serving_status_for_removal(MempoolRemovalCause::Replacement), TxServingRecordStatus::Replaced);
    assert!(!package_status_records_reconsiderable(PackageStatus::Complete));
    assert!(package_status_records_reconsiderable(PackageStatus::Partial));
    assert!(package_status_records_reconsiderable(PackageStatus::Failed));
}

#[test]
fn package_member_feedback_per_result() {
    assert_eq!(
        package_member_feedback(&PackageMemberResult::AlreadyPresent(member(1))),
        MemberFeedback::Reconsidered { wtxid: h(1001), status: OrphanReconsiderationStatus::Accepted }
    );
    assert_eq!(
        package_member_feedback(&PackageMemberResult::PostTrimAbsent(member(1))),
        MemberFeedback::Reconsidered { wtxid: h(1001), status: OrphanReconsiderationStatus::Evicted }
    );
    assert_eq!(
        package_member_feedback(&PackageMemberResult::HardRejected(member(1), HardMemberFailure::Policy)),
        MemberFeedback::HardReject { wtxid: h(1001) }
    );
    assert_eq!(
        package_member_feedback(&PackageMemberResult::Reconsiderable(member(1), ReconsiderableMemberFailure::PackageFee)),
        MemberFeedback::ReconsiderableTransaction { wtxid: h(1001) }
    );
    assert_eq!(
        package_member_feedback(&PackageMemberResult::Reconsiderable(
            member(1),
            ReconsiderableMemberFailure::MissingInputs { missing_parents: vec![h(7), h(8)] }
        )),
        MemberFeedback::StageMissingParent { txid: h(1), wtxid: h(1001), missing_parents: vec![h(7), h(8)] }
    );
}

#[test]
fn follow_up_and_orphan_actions() {
    assert_eq!(
        admission_follow_up(&MempoolOutcome::Replaced { txid: h(1), wtxid: h(2), replaced: vec![h(3)], evicted: vec![] }),
        AdmissionFollowUp::ApplyAndReconsiderChildren { txid: h(1) }
    );
    assert_eq!(
        admission_follow_up(&MempoolOutcome::Rejected { txid: h(1), wtxid: h(2), category: RejectionCategory::Other }),
        AdmissionFollowUp::OfferRejected { wtxid: h(2) }
    );
    assert_eq!(admission_follow_up(&MempoolOutcome::Duplicate { txid: h(1) }), AdmissionFollowUp::Nothing);
    assert_eq!(
        orphan_action_outcome(OrphanAction::Expired { txid: h(1), wtxid: h(2) }),
        Some(MempoolOutcome::Expired { txid: h(1), wtxid: h(2) })
    );
    assert_eq!(orphan_action_outcome(OrphanAction::PeerCleanup), None);
    assert_eq!(
        orphan_action_effect(OrphanAction::RequestParent { peer_id: 4, maybe_parent_txid: Some(h(9)) }),
        OrphanActionEffect::RequestParent { peer_id: 4, parent_txid: h(9) }
    );
    assert_eq!(
        orphan_action_effect(OrphanAction::RequestParent { peer_id: 4, maybe_parent_txid: None }),
        OrphanActionEffect::Nothing
    );
}

#[test]
fn admitted_transaction_is_stored_only_when_finally_present() {
    let admitted = vec![member(1), member(2)];
    assert!(should_store_admitted(h(2), &admitted, &vec![member(2)]));
    assert!(!should_store_admitted(h(2), &admitted, &vec![member(1)]));
    assert!(!should_store_admitted(h(3), &admitted, &vec![member(1), member(2)]));
}

#[test]
fn compatibility_result_per_outcome() {
    let inputs = vec![OutPoint { txid: h(20), vout: 0 }, OutPoint { txid: h(21), vout: 3 }];
    let accepted = admission_result_from_transition(
        &inputs,
        MempoolOutcome::Accepted { txid: h(1), wtxid: h(2), evicted: vec![h(5)] },
    )
    .unwrap();
    assert_eq!(accepted.accepted, h(1));
    assert!(accepted.replaced.is_empty());
    assert_eq!(accepted.evicted, vec![h(5)]);
    assert_eq!(
        admission_result_from_transition(
            &inputs,
            MempoolOutcome::Orphaned { txid: h(1), wtxid: h(2), missing_parents: vec![h(21)] }
        ),
        Err(AdmissionError::MissingInput { outpoint: OutPoint { txid: h(21), vout: 3 } })
    );
    assert_eq!(
        admission_result_from_transition(
            &inputs,
            MempoolOutcome::Orphaned { txid: h(1), wtxid: h(2), missing_parents: vec![h(99)] }
        ),
        Err(AdmissionError::OrphanWithoutMissingInput { txid: h(1) })
    );
    assert_eq!(
        admission_result_from_transition(&inputs, MempoolOutcome::Duplicate { txid: h(1) }),
        Err(AdmissionError::DuplicateTransaction { txid: h(1) })
    );
    assert_eq!(
        admission_result_from_transition(&inputs, MempoolOutcome::Evicted { txid: h(1), wtxid: h(2) }),
        Err(AdmissionError::CandidateEvicted { txid: h(1) })
    );
    assert_eq!(
        admission_result_from_transition(
            &inputs,
            MempoolOutcome::Rejected { txid: h(1), wtxid: h(2), category: RejectionCategory::NonStandard }
        ),
        Err(AdmissionError::Validation { category: RejectionCategory::NonStandard })
    );
    assert_eq!(
        admission_result_from_transition(&inputs, MempoolOutcome::Expired { txid: h(1), wtxid: h(2) }),
        Err(AdmissionError::ExpiredLocalTransaction { txid: h(1) })
    );
}

fn inv(n: u128) -> InventoryVector {
    InventoryVector { inventory_type: InventoryKind::WitnessTransaction, object_hash: h(n) }
}

#[test]
fn download_actions_become_getdata_requests() {
    let request = TxDownloadAction { peer_id: 3, maybe_request_inventory: Some(inv(7)) };
    let silent = TxDownloadAction { peer_id: 4, maybe_request_inventory: None };
    assert_eq!(process_transaction_relay_action(request), Some((3, inv(7))));
    assert_eq!(process_transaction_relay_action(silent), None);
    let actions = vec![
        PeerActionKind::Send,
        PeerActionKind::TransactionRelay(request),
        PeerActionKind::TransactionRelay(silent),
        PeerActionKind::ReceivedBlock,
        PeerActionKind::TransactionRelay(TxDownloadAction { peer_id: 5, maybe_request_inventory: Some(inv(8)) }),
    ];
    assert_eq!(transaction_relay_targeted_messages(&actions), vec![(3, inv(7)), (5, inv(8))]);
}

#[test]
fn compact_disconnects_record_misbehavior() {
    let malformed = compact_misbehavior_decision(DisconnectReason::CompactBlockMisbehavior).unwrap();
    assert_eq!(malformed.response, MisbehaviorResponse::Disconnect);
    assert_eq!(malformed.kind, "malformed_message");
    let header = compact_misbehavior_decision(DisconnectReason::CompactBlockHeaderViolation).unwrap();
    assert_eq!(header.kind, "header_violation");
    assert_eq!(compact_misbehavior_decision(DisconnectReason::DuplicateVersion), None);
    let selfie = plan_disconnect(DisconnectReason::SelfConnection);
    assert!(selfie.record_self_connection_rejection);
    assert_eq!(selfie.maybe_misbehavior, None);
}

#[test]
fn processing_stops_at_disconnects_and_malformed_compact_requests() {
    let served = CompactBlockTxnServeOutcome::Served;
    let malformed = CompactBlockTxnServeOutcome::Malformed(CompactBlockTxnServeCause::IndexOutOfBounds);
    assert_eq!(action_continuation(PeerActionKind::Send, malformed), ActionContinuation::Continue);
    assert_eq!(action_continuation(PeerActionKind::ServeCompactBlockTransactions, served), ActionContinuation::Continue);
    match action_continuation(PeerActionKind::ServeCompactBlockTransactions, malformed) {
        ActionContinuation::Disconnect(plan) => {
            assert_eq!(plan.reason, DisconnectReason::CompactBlockMisbehavior);
            assert!(plan.maybe_misbehavior.is_some());
        }
        other => panic!("unexpected continuation {other:?}"),
    }
    assert_eq!(
        action_continuation(PeerActionKind::ResourceGovernanceDisconnect, served),
        ActionContinuation::ResourceGovernanceDisconnect
    );
    match action_continuation(PeerActionKind::Disconnect(DisconnectReason::DuplicateVersion), served) {
        ActionContinuation::Disconnect(plan) => {
            assert!(!plan.record_self_connection_rejection);
            assert_eq!(plan.maybe_misbehavior, None);
        }
        other => panic!("unexpected continuation {other:?}"),
    }
}

fn schedule(allow_min: bool) -> ConsensusSchedule {
    ConsensusSchedule {
        pow_target_spacing_seconds: 600,
        pow_target_timespan_seconds: 1_209_600,
        no_pow_retargeting: false,
        allow_min_difficulty_blocks: allow_min,
        pow_limit_bits: 0x207f_ffff,
    }
}

fn stored(n: u128, height: u32, time: u32, bits: u32) -> StoredHeader {
    StoredHeader { block_hash: h(n), previous_block_hash: h(n - 1), height, time, bits }
}

#[test]
fn difficulty_interval_is_timespan_over_spacing() {
    assert_eq!(difficulty_adjustment_interval(&schedule(false)), 2016);
    let mut zero = schedule(false);
    zero.pow_target_spacing_seconds = 0;
    assert_eq!(difficulty_adjustment_interval(&zero), 1);
    let mut short = schedule(false);
    short.pow_target_timespan_seconds = 100;
    assert_eq!(difficulty_adjustment_interval(&short), 1);
}

#[test]
fn genesis_header_context() {
    let empty = HeaderChainView { has_known_headers: false, ancestors: vec![], maybe_median_time_past: None };
    let header = HeaderFacts { previous_block_hash: h(0), time: 10 };
    let context = build_header_validation_context(&empty, header, 99, schedule(false)).unwrap();
    assert_eq!(context.height, 0);
    assert_eq!(context.maybe_previous_header, None);
    assert_eq!(context.current_time, 99);
    let known = HeaderChainView { has_known_headers: true, ancestors: vec![], maybe_median_time_past: None };
    let error = build_header_validation_context(&known, header, 99, schedule(false)).unwrap_err();
    assert_eq!(error, HeaderContextError::UnexpectedGenesis);
    assert_eq!(error.reject_reason(), Some("bad-prevblk"));
}

#[test]
fn missing_parent_and_missing_median_time() {
    let view = HeaderChainView { has_known_headers: true, ancestors: vec![], maybe_median_time_past: Some(5) };
    let header = HeaderFacts { previous_block_hash: h(3), time: 10 };
    assert_eq!(
        build_header_validation_context(&view, header, 0, schedule(false)),
        Err(HeaderContextError::MissingHeaderAncestor(h(3)))
    );
    let view = HeaderChainView {
        has_known_headers: true,
        ancestors: vec![stored(3, 2, 100, 1)],
        maybe_median_time_past: None,
    };
    assert_eq!(
        build_header_validation_context(&view, header, 0, schedule(false)),
        Err(HeaderContextError::MissingHeaderAncestor(h(3)))
    );
}

#[test]
fn ordinary_child_context_has_no_anchor_or_recovery_target() {
    let view = HeaderChainView {
        has_known_headers: true,
        ancestors: vec![stored(3, 2, 100, 7), stored(2, 1, 50, 7)],
        maybe_median_time_past: Some(60),
    };
    let header = HeaderFacts { previous_block_hash: h(3), time: 200 };
    let context = build_header_validation_context(&view, header, 1_000, schedule(false)).unwrap();
    assert_eq!(context.height, 3);
    assert_eq!(context.maybe_previous_header, Some(stored(3, 2, 100, 7)));
    assert_eq!(context.previous_median_time_past, 60);
    assert_eq!(context.maybe_retarget_first_block_time, None);
    assert_eq!(context.maybe_min_difficulty_recovery_bits, None);
}

#[test]
fn period_start_takes_the_anchor_one_period_back() {
    let mut params = schedule(false);
    params.pow_target_timespan_seconds = 1_200;
    let view = HeaderChainView {
        has_known_headers: true,
        ancestors: vec![stored(4, 3, 300, 7), stored(3, 2, 200, 7), stored(2, 1, 100, 7), stored(1, 0, 50, 7)],
        maybe_median_time_past: Some(150),
    };
    let header = HeaderFacts { previous_block_hash: h(4), time: 400 };
    let context = build_header_validation_context(&view, header, 0, params).unwrap();
    assert_eq!(context.height, 4);
    assert_eq!(context.maybe_retarget_first_block_time, Some(200));
    let short = HeaderChainView { ancestors: vec![stored(4, 3, 300, 7)], ..view };
    assert_eq!(
        build_header_validation_context(&short, header, 0, params),
        Err(HeaderContextError::MissingHeaderAncestor(h(4)))
    );
}

#[test]
fn min_difficulty_recovery_walks_to_the_last_real_difficulty() {
    let params = schedule(true);
    let limit = params.pow_limit_bits;
    let view = HeaderChainView {
        has_known_headers: true,
        ancestors: vec![stored(5, 4, 500, limit), stored(4, 3, 400, limit), stored(3, 2, 300, 0x1d00_ffff)],
        maybe_median_time_past: Some(350),
    };
    let prompt = HeaderFacts { previous_block_hash: h(5), time: 600 };
    let context = build_header_validation_context(&view, prompt, 0, params).unwrap();
    assert_eq!(context.maybe_min_difficulty_recovery_bits, Some(0x1d00_ffff));
    let delayed = HeaderFacts { previous_block_hash: h(5), time: 500 + 1_201 };
    let context = build_header_validation_context(&view, delayed, 0, params).unwrap();
    assert_eq!(context.maybe_min_difficulty_recovery_bits, None);
    let broken = HeaderChainView { ancestors: vec![stored(5, 4, 500, limit)], ..view };
    assert_eq!(
        build_header_validation_context(&broken, prompt, 0, params),
        Err(HeaderContextError::MissingHeaderAncestor(h(4)))
    );
}

#[test]
fn disconnect_reasons_report_their_network_errors() {
    assert_eq!(disconnect_network_error(4, DisconnectReason::ResourceLimit), DisconnectError::ResourceLimit(4));
    assert_eq!(
        disconnect_network_error(4, DisconnectReason::MissingHeaderAncestor(h(9))),
        DisconnectError::MissingHeaderAncestor(h(9))
    );
    assert_eq!(
        disconnect_network_error(4, DisconnectReason::CompactBlockHeaderViolation),
        DisconnectError::CompactBlockHeaderViolation(4)
    );
}

#[test]
fn action_processing_gathers_messages_for_the_peer_and_others() {
    let mut processing: PeerActionProcessing<String, u8> = PeerActionProcessing::new(7);
    processing.send("verack".to_string());
    processing.serve_inventory_reply(vec!["tx-a".to_string()], vec![inv(1), inv(2)], |missing| {
        format!("notfound:{}", missing.len())
    });
    processing.serve_inventory_reply(vec!["tx-b".to_string()], vec![], |_| "unused".to_string());
    processing.route(vec![(7, "inv-self".to_string()), (9, "inv-other".to_string())]);
    processing.relay_request(TxDownloadAction { peer_id: 9, maybe_request_inventory: Some(inv(3)) }, |_| {
        "getdata-9".to_string()
    });
    processing.relay_request(TxDownloadAction { peer_id: 7, maybe_request_inventory: Some(inv(4)) }, |_| {
        "getdata-7".to_string()
    });
    processing.relay_request(TxDownloadAction { peer_id: 7, maybe_request_inventory: None }, |_| "none".to_string());
    processing.connected_block(1);
    processing.connected_block(2);
    let result = processing.finish();
    assert_eq!(result.outbound, vec!["verack", "tx-a", "notfound:2", "tx-b", "inv-self", "getdata-7"]);
    assert_eq!(result.targeted_outbound, vec![(9, "inv-other".to_string()), (9, "getdata-9".to_string())]);
    assert_eq!(result.maybe_block_disposition, Some(2));
}

#[test]
fn action_outcomes_are_processed_in_order_until_a_disconnect() {
    let outcomes: Vec<ActionOutcome<String, u8>> = vec![
        ActionOutcome::Send("verack".to_string()),
        ActionOutcome::ServedInventory { messages: vec!["tx-a".to_string()], maybe_not_found: Some("notfound".to_string()) },
        ActionOutcome::ReceivedTransaction(vec![(7, "inv-self".to_string()), (9, "inv-other".to_string())]),
        ActionOutcome::TransactionRelay {
            action: TxDownloadAction { peer_id: 9, maybe_request_inventory: Some(inv(3)) },
            maybe_get_data: Some("getdata-9".to_string()),
        },
        ActionOutcome::ServedCompactTransactions {
            outcome: CompactBlockTxnServeOutcome::Served,
            maybe_response: Some("blocktxn".to_string()),
        },
        ActionOutcome::ReceivedBlock(4),
    ];

    let result = process_action_outcomes(7, outcomes).expect("no action disconnects");

    assert_eq!(result.outbound, vec!["verack", "tx-a", "notfound", "inv-self", "blocktxn"]);
    assert_eq!(result.targeted_outbound, vec![(9, "inv-other".to_string()), (9, "getdata-9".to_string())]);
    assert_eq!(result.maybe_block_disposition, Some(4));

    let stopped: Vec<ActionOutcome<String, u8>> = vec![
        ActionOutcome::Send("verack".to_string()),
        ActionOutcome::ServedCompactTransactions {
            outcome: CompactBlockTxnServeOutcome::Malformed(CompactBlockTxnServeCause::IndexOutOfBounds),
            maybe_response: None,
        },
        ActionOutcome::Send("never".to_string()),
    ];
    match process_action_outcomes(7, stopped) {
        Err((1, ActionContinuation::Disconnect(plan))) => {
            assert_eq!(plan.reason, DisconnectReason::CompactBlockMisbehavior);
        },
        _ => panic!("a malformed compact request stops processing"),
    }
    let governed: Vec<ActionOutcome<String, u8>> =
        vec![ActionOutcome::ResourceGovernanceDisconnect, ActionOutcome::Disconnect(DisconnectReason::SelfConnection)];
    assert!(matches!(process_action_outcomes(3, governed), Err((0, ActionContinuation::ResourceGovernanceDisconnect))));
}
