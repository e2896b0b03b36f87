use open_bitcoin_node::admission_bridge::{MempoolOutcome, RejectionCategory};
use open_bitcoin_node::identity::Hash32;
use open_bitcoin_node::inbound_admission::{
    InboundAdmissionRejection, InboundAdmissionRejectionReason, InboundAdmissionSlotClass, InboundPeerRecord,
    ManagedInboundAdmissionInfo, ManagedInboundPermissionDecisionInfo, PeerConnectionClass,
};
use open_bitcoin_node::keyed::KeyedList;
use open_bitcoin_node::relay_evidence::{TxFanoutCleanupReason, TxServeOutcomeLabel, TxServingRecordStatus};
use open_bitcoin_node::relay_fanout::{
    FanoutStep, QueueCleanup, RelayFanoutMemory, TxFanoutAdmission, TxFanoutAdmissionOutcome,
    tx_fanout_admission_from_outcome,
};
use open_bitcoin_node::relay_serving::{RelayServingCache, TxRelayId};

fn h(n: u128) -> Hash32 {
    Hash32::from_halves(0, n)
}

#[test]
fn keyed_list_inserts_overwrites_and_removes() {
    let mut map: KeyedList<u32> = KeyedList::new();
    map.insert(h(2), 20);
    map.insert(h(1), 10);
    map.insert(h(2), 21);
    assert_eq!(map.len(), 2);
    assert_eq!(map.get(&h(2)), Some(&21));
    assert!(map.contains_key(&h(1)));
    assert_eq!(map.remove(&h(1)), Some(10));
    assert_eq!(map.remove(&h(1)), None);
    assert_eq!(map.len(), 1);
}

#[test]
fn least_key_with_value_picks_the_smallest_key() {
    let mut map: KeyedList<Hash32> = KeyedList::new();
    map.insert(h(9), h(100));
    map.insert(h(3), h(100));
    map.insert(h(1), h(200));
    assert_eq!(map.least_key_with_value(h(100)), Some(h(3)));
    assert_eq!(map.least_key_with_value(h(300)), None);
}

#[test]
fn accepted_transaction_is_served_by_txid_and_wtxid() {
    let mut cache: RelayServingCache<&str> = RelayServingCache::new();
    cache.record_accepted(h(1), h(11), "tx-one");
    assert_eq!(cache.transaction_for_relay_id(TxRelayId::Txid(h(1))), Some("tx-one"));
    assert_eq!(cache.transaction_for_relay_id(TxRelayId::Wtxid(h(11))), Some("tx-one"));
    assert_eq!(cache.status_for_relay_id(TxRelayId::Txid(h(1))), Some(TxServingRecordStatus::Accepted));
    assert_eq!(cache.status_for_relay_id(TxRelayId::Wtxid(h(11))), Some(TxServingRecordStatus::Accepted));
    let info = cache.info();
    assert_eq!(info.serveable_transactions, 1);
    assert_eq!(info.known_status_transactions, 1);
}

#[test]
fn replaced_transaction_stops_being_served_and_keeps_its_status() {
    let mut cache: RelayServingCache<&str> = RelayServingCache::new();
    cache.record_accepted(h(1), h(11), "victim");
    cache.record_replaced(h(2), h(12), "replacement", &vec![h(1)]);
    assert_eq!(cache.transaction_for_relay_id(TxRelayId::Txid(h(1))), None);
    assert_eq!(cache.transaction_for_relay_id(TxRelayId::Wtxid(h(11))), None);
    assert_eq!(cache.status_for_relay_id(TxRelayId::Txid(h(1))), Some(TxServingRecordStatus::Replaced));
    assert_eq!(cache.status_for_relay_id(TxRelayId::Wtxid(h(11))), Some(TxServingRecordStatus::Replaced));
    assert_eq!(cache.transaction_for_relay_id(TxRelayId::Txid(h(2))), Some("replacement"));
    let info = cache.info();
    assert_eq!(info.serveable_transactions, 1);
    assert_eq!(info.known_status_transactions, 2);
}

#[test]
fn status_of_an_unknown_transaction_is_kept_by_txid() {
    let mut cache: RelayServingCache<&str> = RelayServingCache::new();
    cache.record_status(h(5), None, TxServingRecordStatus::Confirmed);
    assert_eq!(cache.status_for_relay_id(TxRelayId::Txid(h(5))), Some(TxServingRecordStatus::Confirmed));
    assert_eq!(cache.status_for_relay_id(TxRelayId::Wtxid(h(5))), None);
    cache.remove_transactions(&vec![h(6)], TxServingRecordStatus::Expired);
    assert_eq!(cache.status_for_relay_id(TxRelayId::Txid(h(6))), Some(TxServingRecordStatus::Expired));
}

#[test]
fn serve_request_without_a_transaction_is_stale() {
    let mut cache: RelayServingCache<&str> = RelayServingCache::new();
    cache.record_accepted(h(1), h(11), "tx-one");
    let served = cache.classify_request(TxServeOutcomeLabel::Served, Some(TxRelayId::Wtxid(h(11))));
    assert_eq!(served.label, TxServeOutcomeLabel::Served);
    assert_eq!(served.maybe_transaction, Some("tx-one"));
    let stale = cache.classify_request(TxServeOutcomeLabel::Served, Some(TxRelayId::Txid(h(7))));
    assert_eq!(stale.label, TxServeOutcomeLabel::Stale);
    assert_eq!(stale.maybe_transaction, None);
    let rejected = cache.classify_request(TxServeOutcomeLabel::Rejected, Some(TxRelayId::Txid(h(1))));
    assert_eq!(rejected.label, TxServeOutcomeLabel::Rejected);
    assert_eq!(rejected.maybe_transaction, None);
    let labels: Vec<TxServeOutcomeLabel> = cache.info().latest_outcomes.iter().map(|o| o.label).collect();
    assert_eq!(labels, vec![TxServeOutcomeLabel::Served, TxServeOutcomeLabel::Stale, TxServeOutcomeLabel::Rejected]);
    cache.clear_latest_outcomes();
    assert!(cache.info().latest_outcomes.is_empty());
}

#[test]
fn fanout_remembers_rejects_until_the_transaction_is_forgotten() {
    let mut memory = RelayFanoutMemory::new();
    let rejected = MempoolOutcome::Rejected { txid: h(1), wtxid: h(11), category: RejectionCategory::Other };
    assert_eq!(memory.record_admission_outcome(Some(7), &rejected), FanoutStep::Nothing);
    assert!(memory.is_recent_reject(7, TxRelayId::Txid(h(1))));
    assert!(memory.is_recent_reject(7, TxRelayId::Wtxid(h(11))));
    assert!(!memory.is_recent_reject(8, TxRelayId::Txid(h(1))));
    let cleanups = memory.cleanup_transactions(&vec![h(1)], TxFanoutCleanupReason::Evicted);
    assert_eq!(
        cleanups,
        vec![QueueCleanup::RelayId { relay_id: TxRelayId::Txid(h(1)), reason: TxFanoutCleanupReason::Evicted }]
    );
    assert!(!memory.is_recent_reject(7, TxRelayId::Txid(h(1))));
    assert!(memory.is_recent_reject(7, TxRelayId::Wtxid(h(11))));
}

#[test]
fn admitted_transactions_are_enqueued_and_cleaned_up_by_both_ids() {
    let mut memory = RelayFanoutMemory::new();
    let accepted = MempoolOutcome::Accepted { txid: h(2), wtxid: h(12), evicted: vec![] };
    let admission = TxFanoutAdmission { txid: h(2), wtxid: h(12), outcome: TxFanoutAdmissionOutcome::Accepted };
    assert_eq!(tx_fanout_admission_from_outcome(&accepted), Some(admission));
    assert_eq!(memory.record_admission_outcome(None, &accepted), FanoutStep::Enqueue(admission));
    assert_eq!(memory.known_transactions(), 1);
    let rejected = MempoolOutcome::Rejected { txid: h(2), wtxid: h(12), category: RejectionCategory::Other };
    memory.record_admission_outcome(Some(3), &rejected);
    let expired = MempoolOutcome::Expired { txid: h(2), wtxid: h(12) };
    assert_eq!(
        memory.record_admission_outcome(None, &expired),
        FanoutStep::Cleanup(vec![QueueCleanup::Transaction {
            txid: h(2),
            wtxid: h(12),
            reason: TxFanoutCleanupReason::Expired
        }])
    );
    assert_eq!(memory.known_transactions(), 0);
    assert!(!memory.is_recent_reject(3, TxRelayId::Txid(h(2))));
    assert!(!memory.is_recent_reject(3, TxRelayId::Wtxid(h(12))));
}

#[test]
fn peer_cleanup_forgets_only_that_peers_rejects() {
    let mut memory = RelayFanoutMemory::new();
    let rejected = MempoolOutcome::Rejected { txid: h(1), wtxid: h(11), category: RejectionCategory::Other };
    memory.record_admission_outcome(Some(1), &rejected);
    memory.record_admission_outcome(Some(2), &rejected);
    memory.cleanup_peer(1);
    assert!(!memory.is_recent_reject(1, TxRelayId::Txid(h(1))));
    assert!(memory.is_recent_reject(2, TxRelayId::Txid(h(1))));
}

fn record(class: PeerConnectionClass, slot: InboundAdmissionSlotClass, active: Vec<u8>, inactive: Vec<u8>) -> InboundPeerRecord {
    InboundPeerRecord {
        connection_class: class,
        slot_class: slot,
        permission_decision: ManagedInboundPermissionDecisionInfo {
            connection_class: class,
            active_effects: active,
            inactive_effects: inactive,
        },
    }
}

#[test]
fn inbound_admits_count_by_class_and_merge_effects_in_order() {
    let mut info = ManagedInboundAdmissionInfo::new();
    info.record_admit(&record(PeerConnectionClass::PermissionedInbound, InboundAdmissionSlotClass::Reserved, vec![4, 1], vec![2]));
    info.record_admit(&record(PeerConnectionClass::OrdinaryInbound, InboundAdmissionSlotClass::Ordinary, vec![3, 1], vec![]));
    assert_eq!(info.admitted_inbound_peers, 2);
    assert_eq!(info.permissioned_inbound_admits, 1);
    assert_eq!(info.ordinary_inbound_admits, 1);
    assert_eq!(info.reserved_inbound_admits, 1);
    assert_eq!(info.active_permission_effect_observations, 4);
    assert_eq!(info.inactive_permission_effect_observations, 1);
    assert_eq!(info.observed_active_permission_effects, vec![1, 3, 4]);
    assert_eq!(info.observed_inactive_permission_effects, vec![2]);
    let latest = info.maybe_latest_permission_decision.clone().unwrap();
    assert_eq!(latest.connection_class, PeerConnectionClass::OrdinaryInbound);
    assert_eq!(latest.active_effects, vec![3, 1]);
}

#[test]
fn inbound_rejection_counts_its_reason_and_clears_the_latest_decision() {
    let mut info = ManagedInboundAdmissionInfo::new();
    info.record_admit(&record(PeerConnectionClass::ProtectedInbound, InboundAdmissionSlotClass::Ordinary, vec![], vec![]));
    info.record_rejection(&InboundAdmissionRejection {
        reason: InboundAdmissionRejectionReason::DuplicateEndpoint,
        slot_class: InboundAdmissionSlotClass::Reserved,
    });
    assert_eq!(info.rejected_inbound_peers, 1);
    assert_eq!(info.duplicate_endpoint_rejections, 1);
    assert_eq!(info.cap_rejections, 0);
    assert_eq!(info.maybe_latest_rejection_reason, Some(InboundAdmissionRejectionReason::DuplicateEndpoint));
    assert_eq!(info.maybe_latest_rejection_slot_class, Some(InboundAdmissionSlotClass::Reserved));
    assert_eq!(info.maybe_latest_permission_decision, None);
    info.record_admit(&record(PeerConnectionClass::Outbound, InboundAdmissionSlotClass::Ordinary, vec![], vec![]));
    assert_eq!(info.maybe_latest_rejection_reason, None);
    assert_eq!(info.protected_inbound_admits, 1);
}
