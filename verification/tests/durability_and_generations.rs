use open_bitcoin_node::block_serving::{
    BlockServingEligibilityReason, BlockServingOutcomeLabel, BlockServingPresenceFacts, BlockServingStatusLabel,
    InventoryKind, ManagedBlockServeDecision,
};
use open_bitcoin_node::chainstate_durability_evidence::{HaveBytesAccumulator, HaveBytesEvidence, ServingStatusLabel};
use open_bitcoin_node::generation::{AuthorityEpoch, LifecycleGeneration, LifecyclePreparationError};
use open_bitcoin_node::network::{
    ChainstateFlushEvidence, FieldAvailability, LastFlushReasonLabel, ManagedPeerNetwork, WriteKindLabel,
    chainstate_durability_unavailable_reason,
};

fn absent_payload_known_index() -> BlockServingPresenceFacts {
    BlockServingPresenceFacts { payload_present: false, index_known: true, validated_on_active_chain: true }
}

fn present_payload() -> BlockServingPresenceFacts {
    BlockServingPresenceFacts { payload_present: true, index_known: true, validated_on_active_chain: true }
}

fn serve_decision(presence: BlockServingPresenceFacts) -> ManagedBlockServeDecision {
    ManagedBlockServeDecision {
        label: BlockServingOutcomeLabel::BlockServingEligible,
        status_label: BlockServingStatusLabel::Available,
        eligibility_reason: BlockServingEligibilityReason::Eligible,
        missing_inventory: false,
        presence,
    }
}

fn unprojected_network() -> ManagedPeerNetwork {
    ManagedPeerNetwork::new(AuthorityEpoch::initial(), true, false, false)
}

#[test]
fn have_bytes_accumulator_sets_unavailable_when_payload_absent() {
    let mut accumulator = HaveBytesAccumulator::default();

    accumulator.record_have_bytes(absent_payload_known_index());
    let snapshot = accumulator.snapshot();

    assert_eq!(snapshot.last_serving_status, ServingStatusLabel::Unavailable);
    assert!(!snapshot.last_payload_present);
    assert!(snapshot.last_index_known);
    assert!(snapshot.last_validated_on_active_chain);
    assert_eq!(snapshot.index_known_without_payload_count, 1);
    assert_eq!(snapshot.unavailable_count, 1);
    assert_eq!(snapshot.available_count, 0);
}

#[test]
fn have_bytes_accumulator_counts_available_when_payload_present() {
    let mut accumulator = HaveBytesAccumulator::default();

    accumulator.record_have_bytes(present_payload());
    let snapshot = accumulator.snapshot();

    assert_eq!(snapshot.last_serving_status, ServingStatusLabel::Available);
    assert!(snapshot.last_payload_present);
    assert_eq!(snapshot.available_count, 1);
    assert_eq!(snapshot.unavailable_count, 0);
    assert_eq!(snapshot.index_known_without_payload_count, 0);
}

#[test]
fn have_bytes_accumulator_has_no_hash_map_or_pruned_counter() {
    let mut accumulator = HaveBytesAccumulator::default();
    accumulator.record_have_bytes(present_payload());
    accumulator.record_have_bytes(absent_payload_known_index());

    // The evidence is exactly four last labels and three counters: no map
    // keyed by block or peer, and no pruned counter.
    let HaveBytesEvidence {
        last_serving_status,
        last_payload_present,
        last_index_known,
        last_validated_on_active_chain,
        available_count,
        unavailable_count,
        index_known_without_payload_count,
    } = accumulator.snapshot();

    assert_eq!(last_serving_status, ServingStatusLabel::Unavailable);
    assert!(!last_payload_present);
    assert!(last_index_known);
    assert!(last_validated_on_active_chain);
    assert_eq!(available_count, 1);
    assert_eq!(unavailable_count, 1);
    assert_eq!(index_known_without_payload_count, 1);
}

#[test]
fn operator_snapshot_unprojected_is_unavailable() {
    let network = unprojected_network();

    let snapshot = network.operator_snapshot();

    assert_eq!(snapshot.chainstate_durability(), &FieldAvailability::Unavailable(chainstate_durability_unavailable_reason()));
}

#[test]
fn operator_snapshot_copies_chainstate_durability() {
    let mut network = unprojected_network();
    network.record_chainstate_flush(ChainstateFlushEvidence {
        last_flush_reason: LastFlushReasonLabel::Periodic,
        write_kind: WriteKindLabel::Sync,
    });
    network.record_block_serving_evidence(InventoryKind::Block, &serve_decision(present_payload()));

    let snapshot = network.operator_snapshot();

    let FieldAvailability::Available(evidence) = snapshot.chainstate_durability() else {
        panic!("expected available chainstate durability after flush and have-bytes");
    };
    assert_eq!(evidence.last_flush_reason, LastFlushReasonLabel::Periodic);
    assert_eq!(evidence.write_kind, WriteKindLabel::Sync);
    assert_eq!(evidence.last_serving_status, ServingStatusLabel::Available);
    assert!(evidence.last_payload_present);
    assert_eq!(evidence.available_count, 1);
    assert_eq!(evidence.unavailable_count, 0);
    assert_eq!(evidence.index_known_without_payload_count, 0);
}

#[test]
fn epoch_and_generation_have_distinct_checked_sequences() {
    let epoch = AuthorityEpoch::initial();
    let generation = LifecycleGeneration::initial();

    let next_epoch = epoch.checked_next().expect("epoch should advance");
    let next_generation = generation.checked_next().expect("generation should advance");

    assert_eq!(next_epoch.raw(), 2);
    assert_eq!(next_generation.raw(), 1);
    assert!(AuthorityEpoch::max().checked_next().is_err());
    assert!(LifecycleGeneration::max().checked_next().is_err());
}

#[test]
fn exhausted_sequences_report_which_counter_ran_out() {
    assert_eq!(AuthorityEpoch::max().checked_next(), Err(LifecyclePreparationError::AuthorityEpochExhausted));
    assert_eq!(
        LifecycleGeneration::max().checked_next(),
        Err(LifecyclePreparationError::LifecycleGenerationExhausted)
    );
}

#[test]
fn have_bytes_counters_saturate_at_the_maximum() {
    let mut accumulator = HaveBytesAccumulator::default();
    accumulator.available_count = u64::MAX;

    accumulator.record_have_bytes(present_payload());

    assert_eq!(accumulator.snapshot().available_count, u64::MAX);
}

#[test]
fn payload_absent_without_index_counts_only_unavailable() {
    let mut accumulator = HaveBytesAccumulator::default();

    accumulator.record_have_bytes(BlockServingPresenceFacts {
        payload_present: false,
        index_known: false,
        validated_on_active_chain: false,
    });
    let snapshot = accumulator.snapshot();

    assert_eq!(snapshot.unavailable_count, 1);
    assert_eq!(snapshot.index_known_without_payload_count, 0);
}
