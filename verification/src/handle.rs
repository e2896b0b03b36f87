//! The shared handle to one authoritative managed network: clones share the
//! same state, every command runs under the lock, and every read returns an
//! owned copy.
use vstd::prelude::*;
use vstd::rwlock::{RwLock, RwLockPredicate};
use std::sync::Arc;
use crate::announcement::PeerEmissionWriteCapability;
use crate::block_relay_evidence::BlockRelayEvidenceStatus;
use crate::checkpoint::{CheckpointTrigger, PreparedSnapshotWrite, SnapshotWriteAbort, SnapshotWriteFailure, SnapshotWriteReceipt};
use crate::checkpoint_evidence::CheckpointEvidenceSnapshot;
use crate::effects::{EffectCompletion, PeerEffectCapability, PolicyTime};
use crate::ledger::EffectAbort;
use crate::network::{
    latest_labels, recovery_field_spec, same_optional_summary, same_submission, ManagedMempoolInfo, ManagedNetworkError, ManagedNetworkInfo, ManagedNetworkOperatorSnapshot, ManagedPeerNetwork,
    StorageError,
};
use crate::policy_info::{ManagedAddressBoundaryInfo, ManagedPeerPolicyInfo, ManagedResourceGovernanceInfo};
use crate::recovery::{ManagedMempoolRecoverySummary, SyncRecoveryCategory};
use crate::relay_evidence::{relay_status_spec, LocalRelaySubmissionEvidence, RelayActivationEvidence, RelayEvidenceStatus};
use crate::authority::{LifecycleProjectionError, MempoolSnapshotError, peer_abort_outcome, snapshot_abort_outcome, snapshot_completion_outcome};

verus! {

/// Why a maintenance tick could not run.
#[derive(Debug, Clone, Copy, PartialEq, Eq, Structural, Hash)]
pub enum MaintenanceTickError {
    DueTimeOverflow,
}

impl MaintenanceTickError {
    pub open spec fn as_str_spec(self) -> &'static str {
        match self {
            MaintenanceTickError::DueTimeOverflow => "maintenance_due_time_overflow",
        }
    }

    pub fn as_str(self) -> (r: &'static str)
        ensures
            r == self.as_str_spec(),
    {
        match self {
            MaintenanceTickError::DueTimeOverflow => "maintenance_due_time_overflow",
        }
    }
}

/// A failure reaching or operating on the authoritative network.
#[derive(Debug, Clone, Copy, PartialEq, Eq)]
pub enum ManagedNetworkAuthorityError {
    Poisoned,
    LifecycleEffect(&'static str),
    Operation(ManagedNetworkError),
    MaintenanceTick(MaintenanceTickError),
}

impl ManagedNetworkAuthorityError {
    /// The operator-facing description of this failure.
    pub fn message(&self) -> (r: &'static str)
        ensures
            r == (match self {
                ManagedNetworkAuthorityError::Poisoned => "authoritative network state is unavailable",
                ManagedNetworkAuthorityError::LifecycleEffect(message) => message,
                ManagedNetworkAuthorityError::Operation(ManagedNetworkError::LifecycleEffect(message)) => message,
                ManagedNetworkAuthorityError::Operation(ManagedNetworkError::LifecycleProjection(_)) => {
                    "lifecycle projection failed"
                },
                ManagedNetworkAuthorityError::MaintenanceTick(error) => error.as_str_spec(),
            }),
    {
        match self {
            ManagedNetworkAuthorityError::Poisoned => "authoritative network state is unavailable",
            ManagedNetworkAuthorityError::LifecycleEffect(message) => message,
            ManagedNetworkAuthorityError::Operation(ManagedNetworkError::LifecycleEffect(message)) => message,
            ManagedNetworkAuthorityError::Operation(ManagedNetworkError::LifecycleProjection(_)) => {
                "lifecycle projection failed"
            },
            ManagedNetworkAuthorityError::MaintenanceTick(error) => error.as_str(),
        }
    }
}

/// The lock's invariant: the network held is well formed.
pub struct NetworkInvariant;

impl RwLockPredicate<ManagedPeerNetwork> for NetworkInvariant {
    open spec fn inv(self, v: ManagedPeerNetwork) -> bool {
        v.wf()
    }
}

/// A cloneable handle to one shared authoritative network.
#[derive(Clone)]
pub struct ManagedNetworkHandle {
    pub authority: Arc<RwLock<ManagedPeerNetwork, NetworkInvariant>>,
}

impl ManagedNetworkHandle {
    /// Wraps `network` as the shared authority.
    pub fn from_network_fixture(network: ManagedPeerNetwork) -> (r: Self)
        requires
            network.wf(),
    {
        ManagedNetworkHandle { authority: Arc::new(RwLock::new(network, Ghost(NetworkInvariant))) }
    }

    /// Peer counts and relay activation.
    pub fn network_info(&self) -> (r: Result<ManagedNetworkInfo, ManagedNetworkAuthorityError>)
        ensures
            r matches Ok(v) && exists|n: ManagedPeerNetwork| n.wf() && v == n.network_info,
    {
        let guard = self.authority.acquire_read();
        let v = guard.borrow().network_info();
        guard.release_read();
        Ok(v)
    }

    /// Mempool size facts.
    pub fn mempool_info(&self) -> (r: Result<ManagedMempoolInfo, ManagedNetworkAuthorityError>)
        ensures
            r matches Ok(v) && exists|n: ManagedPeerNetwork| n.wf() && v == n.mempool_info,
    {
        let guard = self.authority.acquire_read();
        let v = guard.borrow().mempool_info();
        guard.release_read();
        Ok(v)
    }

    /// The operator snapshot of the shared network.
    pub fn operator_snapshot(&self) -> (r: Result<ManagedNetworkOperatorSnapshot, ManagedNetworkAuthorityError>)
        ensures
            r matches Ok(v) && exists|n: ManagedPeerNetwork|
                n.wf() && v.block_served_count == n.block_relay_evidence.served_count && v.network == n.network_info
                    && v.unbroadcast_member_count == n.authority.unbroadcast_members@.len(),
    {
        let guard = self.authority.acquire_read();
        let v = guard.borrow().operator_snapshot();
        guard.release_read();
        Ok(v)
    }

    /// Relay evidence of the shared network.
    pub fn relay_evidence_status(&self) -> (r: Result<RelayEvidenceStatus, ManagedNetworkAuthorityError>)
        ensures
            r matches Ok(v) && exists|n: ManagedPeerNetwork|
                n.wf() && v == relay_status_spec(
                    RelayActivationEvidence { enabled: n.relay_enabled },
                    n.download_eligibility,
                    recovery_field_spec(&n),
                    latest_labels(&n),
                    n.relay_fanout.latest_actions@,
                    n.relay_serving.latest_outcomes@,
                ),
    {
        let guard = self.authority.acquire_read();
        let v = guard.borrow().relay_evidence_status();
        guard.release_read();
        Ok(v)
    }

    /// Address-boundary evidence of the shared network.
    pub fn address_boundary_info(&self) -> (r: Result<ManagedAddressBoundaryInfo, ManagedNetworkAuthorityError>)
        ensures
            r matches Ok(v) && exists|n: ManagedPeerNetwork| n.wf() && v.same_evidence(n.address_boundary),
    {
        let guard = self.authority.acquire_read();
        let v = guard.borrow().address_boundary_info();
        guard.release_read();
        Ok(v)
    }

    /// Peer-policy evidence of the shared network.
    pub fn peer_policy_info(&self) -> (r: Result<ManagedPeerPolicyInfo, ManagedNetworkAuthorityError>)
        ensures
            r matches Ok(v) && exists|n: ManagedPeerNetwork| n.wf() && v == n.peer_policy,
    {
        let guard = self.authority.acquire_read();
        let v = guard.borrow().peer_policy_info();
        guard.release_read();
        Ok(v)
    }

    /// Resource-governance evidence of the shared network.
    pub fn resource_governance_info(&self) -> (r: Result<ManagedResourceGovernanceInfo, ManagedNetworkAuthorityError>)
        ensures
            r matches Ok(v) && exists|n: ManagedPeerNetwork| n.wf() && v == n.resource_governance,
    {
        let guard = self.authority.acquire_read();
        let v = guard.borrow().resource_governance_info();
        guard.release_read();
        Ok(v)
    }

    /// Block-relay evidence of the shared network.
    pub fn block_relay_evidence_status(&self) -> (r: Result<BlockRelayEvidenceStatus, ManagedNetworkAuthorityError>)
        ensures
            r matches Ok(v) && exists|n: ManagedPeerNetwork|
                n.wf() && v == n.block_relay_evidence.observed_status_spec(
                    n.compact_peers@,
                    n.block_serving_enabled,
                    n.compact_relay_enabled,
                ),
    {
        let guard = self.authority.acquire_read();
        let v = guard.borrow().block_relay_evidence_status();
        guard.release_read();
        Ok(v)
    }

    /// Blocks written to peers so far.
    pub fn block_served_write_count(&self) -> (r: Result<u64, ManagedNetworkAuthorityError>)
        ensures
            r matches Ok(v) && exists|n: ManagedPeerNetwork| n.wf() && v == n.block_relay_evidence.served_count,
    {
        let guard = self.authority.acquire_read();
        let v = guard.borrow().block_served_write_count();
        guard.release_read();
        Ok(v)
    }

    /// The latest local submission evidence of the shared network.
    pub fn latest_local_submission_evidence(&self) -> (r: Result<
        Option<LocalRelaySubmissionEvidence>,
        ManagedNetworkAuthorityError,
    >)
        ensures
            r matches Ok(v) && exists|n: ManagedPeerNetwork|
                n.wf() && match (v, n.latest_local_submission) {
                    (Some(a), Some(b)) => same_submission(a, b),
                    (None, None) => true,
                    _ => false,
                },
    {
        let guard = self.authority.acquire_read();
        let v = guard.borrow().latest_local_submission_evidence();
        guard.release_read();
        Ok(v)
    }

    /// Records a recovery storage failure in the shared network.
    pub fn record_mempool_recovery_storage_error(&self, error: &StorageError) -> (r: Result<
        (),
        ManagedNetworkAuthorityError,
    >)
        ensures
            r is Ok,
    {
        let (mut network, guard) = self.authority.acquire_write();
        network.record_mempool_recovery_storage_error(error);
        guard.release_write(network);
        Ok(())
    }

    /// Records that recovery evidence is unavailable in the shared network.
    pub fn record_mempool_recovery_unavailable(&self, category: SyncRecoveryCategory) -> (r: Result<
        (),
        ManagedNetworkAuthorityError,
    >)
        ensures
            r is Ok,
    {
        let (mut network, guard) = self.authority.acquire_write();
        network.record_mempool_recovery_unavailable(category);
        guard.release_write(network);
        Ok(())
    }

    /// The latest recovery summary of the shared network.
    pub fn latest_mempool_recovery_summary(&self) -> (r: Result<
        Option<ManagedMempoolRecoverySummary>,
        ManagedNetworkAuthorityError,
    >)
        ensures
            r matches Ok(v) && exists|n: ManagedPeerNetwork| n.wf() && same_optional_summary(v, n.latest_mempool_recovery),
    {
        let guard = self.authority.acquire_read();
        let v = guard.borrow().latest_mempool_recovery_summary();
        guard.release_read();
        Ok(v)
    }

    /// The latest recovery storage failure of the shared network.
    pub fn latest_mempool_recovery_storage_error(&self) -> (r: Result<
        Option<SyncRecoveryCategory>,
        ManagedNetworkAuthorityError,
    >)
        ensures
            r matches Ok(v) && exists|n: ManagedPeerNetwork| n.wf() && v == n.latest_mempool_recovery_storage_error,
    {
        let guard = self.authority.acquire_read();
        let v = guard.borrow().latest_mempool_recovery_storage_error();
        guard.release_read();
        Ok(v)
    }

    /// The checkpoint evidence of the shared network at `now`.
    pub fn checkpoint_evidence(&self, now: PolicyTime, periodic_interval_seconds: u64) -> (r: Result<
        CheckpointEvidenceSnapshot,
        ManagedNetworkAuthorityError,
    >)
        ensures
            r matches Ok(v) && exists|n: ManagedPeerNetwork|
                n.wf() && v == crate::checkpoint_evidence::evidence_of(
                    n.authority.checkpoint_evidence,
                    n.authority.lifecycle_generation,
                    n.authority.dirty_generation,
                    now,
                    periodic_interval_seconds,
                ),
    {
        let guard = self.authority.acquire_read();
        let v = guard.borrow().authority.checkpoint_evidence(now, periodic_interval_seconds);
        guard.release_read();
        Ok(v)
    }

    /// Releases one exact peer reservation in the shared network.
    pub fn abort_peer_effect(&self, capability: PeerEffectCapability) -> (r: Result<
        EffectAbort,
        ManagedNetworkAuthorityError,
    >)
        ensures
            r matches Ok(a) && exists|n: ManagedPeerNetwork| n.wf() && a == peer_abort_outcome(n.authority, capability),
    {
        let (mut network, guard) = self.authority.acquire_write();
        let abort = network.authority.abort_peer_effect(capability);
        guard.release_write(network);
        Ok(abort)
    }

    /// Releases one exact prepared emission before any write was achieved.
    pub fn abort_peer_emission(&self, capability: PeerEmissionWriteCapability) -> (r: Result<
        EffectAbort,
        ManagedNetworkAuthorityError,
    >)
        ensures
            r matches Ok(a) && exists|n: ManagedPeerNetwork|
                n.wf() && a == peer_abort_outcome(n.authority, capability.capability),
    {
        self.abort_peer_effect(capability.into_effect_capability())
    }

    /// Releases one exact checkpoint reservation in the shared network
    /// before its write was achieved.
    pub fn abort_snapshot_write(&self, abort: SnapshotWriteAbort) -> (r: Result<
        EffectAbort,
        CheckpointAbortDispatchError,
    >)
        ensures
            r matches Ok(a) && exists|n: ManagedPeerNetwork| n.wf() && a == snapshot_abort_outcome(n.authority, abort),
    {
        let (mut network, guard) = self.authority.acquire_write();
        let result = network.authority.abort_snapshot_write(&abort);
        guard.release_write(network);
        Ok(result)
    }

    /// Captures one checkpoint write of `snapshot` at `now` in the shared
    /// network: it is bound to the network's epoch and generation, refused
    /// when the snapshot's `entry_count` exceeds the `max_live_entries` the
    /// mempool's capacity allows, or while another checkpoint write is pending.
    pub fn prepare_mempool_snapshot_write<T>(
        &self,
        now: PolicyTime,
        trigger: CheckpointTrigger,
        snapshot: T,
        entry_count: usize,
        max_live_entries: usize,
    ) -> (r: Result<PreparedSnapshotWrite<T>, ManagedNetworkAuthorityError>)
        ensures
            r matches Ok(p) ==> p.snapshot == snapshot && p.capability.captured_at == now && p.capability.trigger
                == trigger && entry_count <= max_live_entries,
            entry_count > max_live_entries ==> r == Err::<PreparedSnapshotWrite<T>, ManagedNetworkAuthorityError>(
                ManagedNetworkAuthorityError::Operation(
                    ManagedNetworkError::LifecycleProjection(
                        LifecycleProjectionError::MempoolSnapshot(MempoolSnapshotError::ResourceBoundExceeded),
                    ),
                ),
            ),
            r matches Err(e) ==> e matches ManagedNetworkAuthorityError::Operation(
                ManagedNetworkError::LifecycleProjection(_),
            ),
    {
        let (mut network, guard) = self.authority.acquire_write();
        let result = network.authority.prepare_snapshot(now, trigger, snapshot, entry_count, max_live_entries);
        guard.release_write(network);
        match result {
            Ok(prepared) => Ok(prepared),
            Err(e) => Err(ManagedNetworkAuthorityError::Operation(ManagedNetworkError::LifecycleProjection(e))),
        }
    }

    /// Completes one exact checkpoint write in the shared network; a receipt
    /// the network refuses is handed back with the reason.
    pub fn complete_snapshot_write(&self, receipt: SnapshotWriteReceipt) -> (r: Result<
        EffectCompletion,
        CheckpointCompletionDispatchError,
    >)
        ensures
            exists|n: ManagedPeerNetwork|
                n.wf() && match snapshot_completion_outcome(n.authority, receipt) {
                    Ok(c) => r == Ok::<EffectCompletion, CheckpointCompletionDispatchError>(c),
                    Err(e) => r matches Err(d) && d.receipt == receipt && d.source
                        == ManagedNetworkAuthorityError::Operation(ManagedNetworkError::LifecycleProjection(e)),
                },
    {
        let (mut network, guard) = self.authority.acquire_write();
        let result = network.authority.complete_snapshot_write(&receipt);
        guard.release_write(network);
        match result {
            Ok(completion) => Ok(completion),
            Err(e) => Err(
                CheckpointCompletionDispatchError {
                    source: ManagedNetworkAuthorityError::Operation(ManagedNetworkError::LifecycleProjection(e)),
                    receipt,
                },
            ),
        }
    }
}

/// A checkpoint abort that could not be dispatched, handed back so that it
/// can be retried.
#[derive(Debug)]
pub struct CheckpointAbortDispatchError {
    pub source: ManagedNetworkAuthorityError,
    pub abort: SnapshotWriteAbort,
}

impl CheckpointAbortDispatchError {
    /// The failure this reports: the abort's dispatch.
    pub fn failure(&self) -> (r: SnapshotWriteFailure)
        ensures
            r == SnapshotWriteFailure::AbortDispatch,
    {
        SnapshotWriteFailure::AbortDispatch
    }

    /// The reason and the abort.
    pub fn into_parts(self) -> (r: (ManagedNetworkAuthorityError, SnapshotWriteAbort))
        ensures
            r == (self.source, self.abort),
    {
        (self.source, self.abort)
    }
}

/// A checkpoint completion that could not be dispatched, handed back with
/// its receipt so that it can be retried.
#[derive(Debug)]
pub struct CheckpointCompletionDispatchError {
    pub source: ManagedNetworkAuthorityError,
    pub receipt: SnapshotWriteReceipt,
}

impl CheckpointCompletionDispatchError {
    /// The failure this reports: the dispatch.
    pub fn failure(&self) -> (r: SnapshotWriteFailure)
        ensures
            r == SnapshotWriteFailure::AbortDispatch,
    {
        SnapshotWriteFailure::AbortDispatch
    }

    /// The receipt, for another attempt.
    pub fn into_receipt(self) -> (r: SnapshotWriteReceipt)
        ensures
            r == self.receipt,
    {
        self.receipt
    }

    /// The reason and the receipt.
    pub fn into_parts(self) -> (r: (ManagedNetworkAuthorityError, SnapshotWriteReceipt))
        ensures
            r == (self.source, self.receipt),
    {
        (self.source, self.receipt)
    }
}

} // verus!
