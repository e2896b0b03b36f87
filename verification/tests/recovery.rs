use open_bitcoin_node::identity::{Hash32, MemberIdentity};
use open_bitcoin_node::recovery::{
    ManagedMempoolRecoverySummary, MempoolRecoveryRecord, MempoolRecoveryStatus, RecoveryReplayOutcome,
    classify_recovery, sort_recovery_records, status_rank,
};
use open_bitcoin_node::recovery_topology::{
    RecoveryTopologyError, RecoveryTopologyLimits, TopologyInput, prepare_recovery_topology,
};

fn h(tag: u128) -> Hash32 {
    Hash32 { hi: tag, lo: 0 }
}

fn record(txid: u128, wtxid: u128, parents: &[u128]) -> TopologyInput {
    TopologyInput { txid: h(txid), wtxid: h(wtxid), parent_txids: parents.iter().map(|p| h(*p)).collect() }
}

fn rec(txid: u128, status: MempoolRecoveryStatus) -> MempoolRecoveryRecord {
    MempoolRecoveryRecord { txid: h(txid), status }
}

#[test]
fn summary_counts_each_status() {
    let records = vec![
        rec(1, MempoolRecoveryStatus::Recovered),
        rec(2, MempoolRecoveryStatus::Recovered),
        rec(3, MempoolRecoveryStatus::DroppedConfirmed),
        rec(4, MempoolRecoveryStatus::DroppedMissingParent),
        rec(5, MempoolRecoveryStatus::DroppedEvicted),
    ];

    let summary = ManagedMempoolRecoverySummary::from_records(records.clone());

    assert_eq!(summary.recovered_count, 2);
    assert_eq!(summary.dropped_confirmed_count, 1);
    assert_eq!(summary.dropped_duplicate_count, 0);
    assert_eq!(summary.dropped_missing_parent_count, 1);
    assert_eq!(summary.dropped_policy_incompatible_count, 0);
    assert_eq!(summary.dropped_expired_count, 0);
    assert_eq!(summary.dropped_evicted_count, 1);
    assert_eq!(summary.records, records);
    let total = summary.recovered_count
        + summary.dropped_confirmed_count
        + summary.dropped_duplicate_count
        + summary.dropped_missing_parent_count
        + summary.dropped_policy_incompatible_count
        + summary.dropped_expired_count
        + summary.dropped_evicted_count;
    assert_eq!(total, 5);
}

#[test]
fn status_ranks_follow_the_declared_order() {
    assert_eq!(status_rank(MempoolRecoveryStatus::Recovered), 0);
    assert_eq!(status_rank(MempoolRecoveryStatus::DroppedConfirmed), 1);
    assert_eq!(status_rank(MempoolRecoveryStatus::DroppedDuplicate), 2);
    assert_eq!(status_rank(MempoolRecoveryStatus::DroppedMissingParent), 3);
    assert_eq!(status_rank(MempoolRecoveryStatus::DroppedPolicyIncompatible), 4);
    assert_eq!(status_rank(MempoolRecoveryStatus::DroppedExpired), 5);
    assert_eq!(status_rank(MempoolRecoveryStatus::DroppedEvicted), 6);
}

#[test]
fn records_sort_by_txid_then_rank() {
    let sorted = sort_recovery_records(vec![
        rec(3, MempoolRecoveryStatus::Recovered),
        rec(1, MempoolRecoveryStatus::DroppedEvicted),
        rec(1, MempoolRecoveryStatus::DroppedDuplicate),
        rec(2, MempoolRecoveryStatus::DroppedConfirmed),
    ]);

    assert_eq!(
        sorted,
        vec![
            rec(1, MempoolRecoveryStatus::DroppedDuplicate),
            rec(1, MempoolRecoveryStatus::DroppedEvicted),
            rec(2, MempoolRecoveryStatus::DroppedConfirmed),
            rec(3, MempoolRecoveryStatus::Recovered),
        ]
    );
}

#[test]
fn topology_orders_parents_first_and_breaks_ties_by_key() {
    let records = vec![record(5, 5, &[3]), record(3, 3, &[]), record(1, 1, &[]), record(4, 4, &[1, 3])];

    let topology = prepare_recovery_topology(&records, RecoveryTopologyLimits::new(10, 4)).expect("within limits");

    // Ready first: txid 1 (index 2) and txid 3 (index 1); then 4 (index 3)
    // once both parents are in, and 5 (index 0) once 3 is.
    assert_eq!(topology.ordered, vec![2, 1, 3, 0]);
    assert!(topology.statuses.is_empty());
}

#[test]
fn topology_drops_duplicates_but_keeps_the_first_witness() {
    let records = vec![record(7, 9, &[]), record(7, 8, &[])];

    let topology = prepare_recovery_topology(&records, RecoveryTopologyLimits::new(10, 4)).expect("within limits");

    assert_eq!(topology.ordered, vec![1]);
    assert_eq!(topology.statuses, vec![rec(7, MempoolRecoveryStatus::DroppedDuplicate)]);
}

#[test]
fn topology_drops_cycles_and_their_descendants() {
    let records = vec![record(1, 1, &[2]), record(2, 2, &[1]), record(3, 3, &[1]), record(4, 4, &[])];

    let topology = prepare_recovery_topology(&records, RecoveryTopologyLimits::new(10, 4)).expect("within limits");

    assert_eq!(topology.ordered, vec![3]);
    assert_eq!(
        topology.statuses,
        vec![
            rec(1, MempoolRecoveryStatus::DroppedMissingParent),
            rec(2, MempoolRecoveryStatus::DroppedMissingParent),
            rec(3, MempoolRecoveryStatus::DroppedMissingParent),
        ]
    );
}

#[test]
fn topology_drops_records_over_the_parent_limit() {
    let records = vec![record(1, 1, &[]), record(2, 2, &[]), record(3, 3, &[1, 2])];

    let topology = prepare_recovery_topology(&records, RecoveryTopologyLimits::new(10, 1)).expect("within limits");

    assert_eq!(topology.ordered, vec![0, 1]);
    assert_eq!(topology.statuses, vec![rec(3, MempoolRecoveryStatus::DroppedMissingParent)]);
}

#[test]
fn topology_refuses_too_many_records() {
    let records = vec![record(1, 1, &[]), record(2, 2, &[])];

    let result = prepare_recovery_topology(&records, RecoveryTopologyLimits::new(1, 4));

    assert_eq!(result, Err(RecoveryTopologyError::ResourceBoundExceeded));
}

#[test]
fn topology_refuses_too_many_edges() {
    let records = vec![record(1, 1, &[]), record(2, 2, &[1]), record(3, 3, &[1, 2])];
    let limits = RecoveryTopologyLimits { max_vertices: 10, max_edges: 2, max_parent_edges_per_record: 4 };

    let result = prepare_recovery_topology(&records, limits);

    assert_eq!(result, Err(RecoveryTopologyError::ResourceBoundExceeded));
}

#[test]
fn limits_edge_budget_saturates() {
    let limits = RecoveryTopologyLimits::new(usize::MAX, 2);

    assert_eq!(limits.max_edges, usize::MAX);
    assert_eq!(RecoveryTopologyLimits::new(3, 2).max_edges, 6);
}

#[test]
fn classification_assigns_statuses_and_survivors() {
    let a = MemberIdentity { txid: h(1), wtxid: h(11) };
    let b = MemberIdentity { txid: h(2), wtxid: h(12) };
    let c = MemberIdentity { txid: h(3), wtxid: h(13) };
    let d = MemberIdentity { txid: h(4), wtxid: h(14) };
    let ordered = vec![a, b, c, d];
    let outcomes = vec![
        RecoveryReplayOutcome::Accepted,
        RecoveryReplayOutcome::Confirmed,
        RecoveryReplayOutcome::Accepted,
        RecoveryReplayOutcome::Accepted,
    ];
    let expired = vec![h(3)];
    let final_members = vec![a];
    let persisted_unbroadcast = vec![a, c];

    let result = classify_recovery(
        vec![rec(9, MempoolRecoveryStatus::DroppedDuplicate)],
        &ordered,
        &outcomes,
        &expired,
        &final_members,
        &persisted_unbroadcast,
    );

    assert_eq!(
        result.recovery_records,
        vec![
            rec(1, MempoolRecoveryStatus::Recovered),
            rec(2, MempoolRecoveryStatus::DroppedConfirmed),
            rec(3, MempoolRecoveryStatus::DroppedExpired),
            rec(4, MempoolRecoveryStatus::DroppedEvicted),
            rec(9, MempoolRecoveryStatus::DroppedDuplicate),
        ]
    );
    assert_eq!(result.unbroadcast_members, vec![a]);
    assert_eq!(result.ordered_survivors, vec![a]);
}
