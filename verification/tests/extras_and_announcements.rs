use open_bitcoin_node::announcement::{
    AnnouncementOutcomeKind, AnnouncementPreparationOutcome, CompactAnnouncementAction, CompactAnnouncementDecision,
    PeerEmission, PeerOutboxSnapshot, announcement_outcome, announcement_precheck, compact_nonces,
    disconnected_outbox_peers,
};
use open_bitcoin_node::block_relay_evidence::{CompactAnnouncementReason, WireMessageKind};
use open_bitcoin_node::compact_extra::{
    BLOCK_RECONSTRUCTION_EXTRA_TXN_PER_TXN_SIZE_LIMIT, CompactExtraTxnBuffer, DEFAULT_BLOCK_RECONSTRUCTION_EXTRA_TXN,
    DEFAULT_BLOCK_RECONSTRUCTION_EXTRA_TXN_SIZE, compact_extra_owned,
};
use open_bitcoin_node::effects::MAX_PEER_QUEUED_MESSAGES;
use open_bitcoin_node::identity::Hash32;

fn wtxid_for(tag: u8) -> Hash32 {
    Hash32 { hi: u128::from(tag), lo: u128::from(tag) }
}

#[test]
fn with_defaults_uses_knots_bound_constants() {
    let buffer: CompactExtraTxnBuffer<String> = CompactExtraTxnBuffer::with_defaults();

    assert_eq!(buffer.max_slots(), DEFAULT_BLOCK_RECONSTRUCTION_EXTRA_TXN);
    assert_eq!(buffer.max_bytes(), DEFAULT_BLOCK_RECONSTRUCTION_EXTRA_TXN_SIZE);
    assert_eq!(buffer.per_tx_size_limit(), BLOCK_RECONSTRUCTION_EXTRA_TXN_PER_TXN_SIZE_LIMIT);
    assert_eq!(DEFAULT_BLOCK_RECONSTRUCTION_EXTRA_TXN, 32_768);
    assert_eq!(DEFAULT_BLOCK_RECONSTRUCTION_EXTRA_TXN_SIZE, 10_000_000);
    assert_eq!(BLOCK_RECONSTRUCTION_EXTRA_TXN_PER_TXN_SIZE_LIMIT, 100_000);
}

#[test]
fn push_overwrites_in_ring_order_when_full() {
    let mut buffer = CompactExtraTxnBuffer::new(2, 1_000_000, 100_000);

    buffer.push(wtxid_for(0x01), "one".to_string(), 100);
    buffer.push(wtxid_for(0x02), "two".to_string(), 100);
    buffer.push(wtxid_for(0x03), "three".to_string(), 100);
    let pairs = buffer.to_owned_pairs();

    assert_eq!(pairs.len(), 2);
    assert!(pairs.iter().any(|(wtxid, _)| *wtxid == wtxid_for(0x02)));
    assert!(pairs.iter().any(|(wtxid, _)| *wtxid == wtxid_for(0x03)));
    assert!(!pairs.iter().any(|(wtxid, _)| *wtxid == wtxid_for(0x01)));
}

#[test]
fn push_evicts_next_slots_when_aggregate_byte_budget_exceeded() {
    let mut buffer = CompactExtraTxnBuffer::new(4, 120, 100_000);

    buffer.push(wtxid_for(0x0a), "a".to_string(), 70);
    buffer.push(wtxid_for(0x0b), "b".to_string(), 70);

    assert!(buffer.approximate_bytes() <= 120);
    assert!(buffer.to_owned_pairs().len() < 2);
}

#[test]
fn push_gated_rejects_oversized_transaction_without_inserting() {
    let mut buffer = CompactExtraTxnBuffer::new(4, 1_000_000, 50);

    let accepted = buffer.push_gated(wtxid_for(0x0c), "large".to_string(), 60);

    assert!(!accepted);
    assert!(buffer.to_owned_pairs().is_empty());
    assert_eq!(buffer.approximate_bytes(), 0);
}

#[test]
fn compact_extra_owned_returns_non_null_slots() {
    let mut buffer = CompactExtraTxnBuffer::new(3, 1_000_000, 100_000);
    buffer.push(wtxid_for(0x31), "tx".to_string(), 10);

    let owned = compact_extra_owned(&buffer);

    assert_eq!(owned.len(), 1);
    assert_eq!(owned[0].0, wtxid_for(0x31));
    assert_eq!(owned[0].1, "tx");
}

#[test]
fn a_buffer_without_slots_keeps_nothing() {
    let mut buffer = CompactExtraTxnBuffer::new(0, 1_000, 1_000);

    buffer.push(wtxid_for(0x01), "one".to_string(), 10);

    assert!(buffer.to_owned_pairs().is_empty());
    assert_eq!(buffer.approximate_bytes(), 0);
}

#[test]
fn a_transaction_larger_than_the_budget_clears_the_ring() {
    let mut buffer = CompactExtraTxnBuffer::new(3, 50, 1_000);
    buffer.push(wtxid_for(0x01), "one".to_string(), 10);

    buffer.push(wtxid_for(0x02), "two".to_string(), 60);

    assert!(buffer.to_owned_pairs().is_empty());
    assert_eq!(buffer.approximate_bytes(), 0);
}

#[test]
fn announcement_transport_outbox_snapshot_fails_closed_at_the_cap() {
    let snapshot = PeerOutboxSnapshot::new(128_202, MAX_PEER_QUEUED_MESSAGES, MAX_PEER_QUEUED_MESSAGES);

    assert!(snapshot.is_full());
}

#[test]
fn outbox_capacity_above_the_cap_is_bounded_by_it() {
    let below = PeerOutboxSnapshot::new(1, MAX_PEER_QUEUED_MESSAGES - 1, MAX_PEER_QUEUED_MESSAGES * 2);
    let at = PeerOutboxSnapshot::new(1, MAX_PEER_QUEUED_MESSAGES, MAX_PEER_QUEUED_MESSAGES * 2);
    let small = PeerOutboxSnapshot::new(1, 3, 3);

    assert!(!below.is_full());
    assert!(at.is_full());
    assert!(small.is_full());
}

#[test]
fn announcement_transport_emission_binds_peer_message_block_and_evidence() {
    let peer_id = 128_201;
    let block_hash = Hash32 { hi: 0x21, lo: 0x21 };
    let emission = PeerEmission {
        peer_id,
        message: "verack",
        block_hash,
        evidence_reason: CompactAnnouncementReason::CompactInventoryFallback,
    };

    let (actual_peer_id, message, receipt) = emission.into_parts();

    assert_eq!(actual_peer_id, peer_id);
    assert_eq!(message, "verack");
    assert_eq!(receipt.block_hash(), block_hash);
    assert_eq!(receipt.evidence_reason(), CompactAnnouncementReason::CompactInventoryFallback);
}

#[test]
fn precheck_fails_in_order() {
    let open = PeerOutboxSnapshot::new(5, 0, 10);
    let full = PeerOutboxSnapshot::new(5, 10, 10);

    let unavailable = announcement_precheck::<u8>(5, None, Some(true)).expect("fails");
    let queue_full = announcement_precheck::<u8>(5, Some(full), Some(true)).expect("fails");
    let gone = announcement_precheck::<u8>(5, Some(open), None).expect("fails");
    let handshaking = announcement_precheck::<u8>(5, Some(open), Some(false)).expect("fails");

    assert!(matches!(unavailable, AnnouncementPreparationOutcome::OutboxUnavailable { peer_id: 5 }));
    assert!(matches!(queue_full, AnnouncementPreparationOutcome::QueueFull { peer_id: 5 }));
    assert!(matches!(gone, AnnouncementPreparationOutcome::Disconnected { peer_id: 5 }));
    assert!(matches!(handshaking, AnnouncementPreparationOutcome::Ineligible { peer_id: 5 }));
    assert!(announcement_precheck::<u8>(5, Some(open), Some(true)).is_none());
}

#[test]
fn announcement_outcome_follows_the_decision() {
    let hash = Hash32 { hi: 1, lo: 2 };
    let suppress = CompactAnnouncementDecision {
        action: CompactAnnouncementAction::Suppress,
        reason: CompactAnnouncementReason::CompactPeerAlreadyHasHeader,
    };
    let announce = CompactAnnouncementDecision {
        action: CompactAnnouncementAction::AnnounceCompactBlock,
        reason: CompactAnnouncementReason::CompactAnnounced,
    };

    let failed = announcement_outcome::<u8>(3, hash, None, None);
    let suppressed = announcement_outcome::<u8>(3, hash, Some(suppress), Some((1, WireMessageKind::Inv)));
    let unbuilt = announcement_outcome::<u8>(3, hash, Some(announce), None);
    let ready = announcement_outcome::<u8>(3, hash, Some(announce), Some((9, WireMessageKind::Headers)));

    assert!(matches!(failed, AnnouncementPreparationOutcome::Disconnected { peer_id: 3 }));
    assert!(matches!(
        suppressed,
        AnnouncementPreparationOutcome::Suppressed { peer_id: 3, reason: CompactAnnouncementReason::CompactPeerAlreadyHasHeader }
    ));
    assert!(matches!(unbuilt, AnnouncementPreparationOutcome::ConstructionFailed { peer_id: 3 }));
    match ready {
        AnnouncementPreparationOutcome::Ready(emission) => {
            assert_eq!(emission.peer_id, 3);
            assert_eq!(emission.message, 9);
            assert_eq!(emission.block_hash, hash);
            assert_eq!(emission.evidence_reason, CompactAnnouncementReason::CompactHeadersFallback);
        }
        other => panic!("expected a ready emission, got {:?}", other.peer_id()),
    }
    let _kind = AnnouncementOutcomeKind::Ready;
}

#[test]
fn outboxes_of_inactive_peers_are_disconnected() {
    let outboxes = vec![PeerOutboxSnapshot::new(1, 0, 4), PeerOutboxSnapshot::new(2, 0, 4), PeerOutboxSnapshot::new(3, 0, 4)];

    let disconnected = disconnected_outbox_peers(&vec![2], &outboxes);

    assert_eq!(disconnected, vec![1, 3]);
}

#[test]
fn compact_nonces_cover_every_outbox_peer() {
    let outboxes = vec![PeerOutboxSnapshot::new(4, 0, 4), PeerOutboxSnapshot::new(9, 0, 4), PeerOutboxSnapshot::new(4, 1, 4)];

    let nonces = compact_nonces(&outboxes);

    assert_eq!(nonces.keys().copied().collect::<Vec<_>>(), vec![4, 9]);
}
