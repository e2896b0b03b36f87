//! The managed peer network as the library sees it: the lifecycle
//! authority, the relay and block-relay evidence, the recovery evidence and
//! the operator-facing summaries, with the read models built from them.
use vstd::prelude::*;
use crate::inbound_admission::{InboundAdmissionRejection, InboundPeerRecord, ManagedInboundAdmissionInfo};
use crate::authority::{LifecycleAuthority, LifecycleProjectionError};
use crate::block_relay_evidence::{
    BlockRelayEvidenceStatus, CompactPeerFacts, ManagedBlockRelayEvidenceState, WireMessageKind, inc, sum_getblocktxn,
    sum_in_flight,
};
use crate::block_serving::{
    BlockServingPresenceFacts, InventoryKind, ManagedBlockServeCompletion, ManagedBlockServeCompletionOutcome,
    ManagedBlockServeDecision,
};
use crate::chainstate_durability_evidence::{fresh_have_bytes, HaveBytesAccumulator, HaveBytesEvidence, ServingStatusLabel};
use crate::checkpoint_evidence::CheckpointEvidenceSnapshot;
use crate::effects::PolicyTime;
use crate::generation::AuthorityEpoch;
use crate::identity::copy_vec;
use crate::policy_info::{ManagedAddressBoundaryInfo, ManagedPeerPolicyInfo, ManagedResourceGovernanceInfo};
use crate::recovery::{ManagedMempoolRecoverySummary, MempoolRecoveryRecord, SyncRecoveryCategory};
use crate::relay_evidence::{
    LocalRelaySubmissionEvidence, LocalRelaySubmissionLabel, ManagedRelayFanoutActionInfo, ManagedRelayFanoutInfo,
    ManagedRelayServingInfo, ManagedTxServeOutcome, RelayActivationEvidence, RelayDownloadEligibilityCounters,
    RelayEvidenceField, RelayEvidenceStatus, RelayRecoveryCounters, relay_evidence_status_from_parts,
    relay_recovery_evidence_unavailable_reason, relay_recovery_unavailable_reason_spec, relay_status_spec,
    submission_labels,
};

verus! {

/// A failure of a managed-network operation.
#[derive(Debug, Clone, Copy, PartialEq, Eq)]
pub enum ManagedNetworkError {
    LifecycleEffect(&'static str),
    LifecycleProjection(LifecycleProjectionError),
}

/// Peer counts and relay activation as reported.
#[derive(Debug, Clone, Copy, PartialEq, Eq, Structural)]
pub struct ManagedNetworkInfo {
    pub outbound_peers: usize,
    pub inbound_peers: usize,
    pub relay: bool,
}

/// Mempool size facts as reported.
#[derive(Debug, Clone, Copy, PartialEq, Eq, Structural)]
pub struct ManagedMempoolInfo {
    pub transaction_count: usize,
    pub accounted_memory: usize,
    pub mempool_capacity: usize,
}

/// A storage failure, as far as recovery evidence reads it.
#[derive(Debug, Clone, Copy, PartialEq, Eq, Structural, Hash)]
pub enum StorageError {
    Io,
    Corruption,
    Unavailable,
}

impl StorageError {
    /// The recovery category of this failure.
    pub fn recovery_category(&self) -> (r: SyncRecoveryCategory)
        ensures
            r == recovery_category_spec(*self),
    {
        match self {
            StorageError::Io => SyncRecoveryCategory::Storage,
            StorageError::Corruption => SyncRecoveryCategory::Corruption,
            StorageError::Unavailable => SyncRecoveryCategory::Unavailable,
        }
    }
}

/// The recovery category of a storage failure.
pub open spec fn recovery_category_spec(e: StorageError) -> SyncRecoveryCategory {
    match e {
        StorageError::Io => SyncRecoveryCategory::Storage,
        StorageError::Corruption => SyncRecoveryCategory::Corruption,
        StorageError::Unavailable => SyncRecoveryCategory::Unavailable,
    }
}

/// Why the chainstate was last flushed.
#[derive(Debug, Clone, Copy, PartialEq, Eq, Structural, Hash)]
pub enum LastFlushReasonLabel {
    Periodic,
    Forced,
    Shutdown,
}

/// How the last chainstate write reached storage.
#[derive(Debug, Clone, Copy, PartialEq, Eq, Structural, Hash)]
pub enum WriteKindLabel {
    Sync,
    Async,
}

/// The last chainstate flush as reported.
#[derive(Debug, Clone, Copy, PartialEq, Eq, Structural)]
pub struct ChainstateFlushEvidence {
    pub last_flush_reason: LastFlushReasonLabel,
    pub write_kind: WriteKindLabel,
}

/// Chainstate durability: the last flush and the have-bytes evidence.
#[derive(Debug, Clone, Copy, PartialEq, Eq, Structural)]
pub struct ChainstateDurabilityEvidence {
    pub last_flush_reason: LastFlushReasonLabel,
    pub write_kind: WriteKindLabel,
    pub last_serving_status: ServingStatusLabel,
    pub last_payload_present: bool,
    pub last_index_known: bool,
    pub last_validated_on_active_chain: bool,
    pub available_count: u64,
    pub unavailable_count: u64,
    pub index_known_without_payload_count: u64,
}

/// A reported field: available with a value, or unavailable with a reason.
#[derive(Debug, Clone, Copy, PartialEq, Eq)]
pub enum FieldAvailability<T> {
    Available(T),
    Unavailable(&'static str),
}

/// Why chainstate durability is unavailable before any flush.
pub fn chainstate_durability_unavailable_reason() -> (r: &'static str)
    ensures
        r == chainstate_durability_unavailable_reason_spec(),
{
    "chainstate durability evidence unavailable before the first flush"
}

/// The chainstate durability of a flush and the have-bytes evidence.
pub open spec fn durability_spec(flush: ChainstateFlushEvidence, h: HaveBytesEvidence) -> ChainstateDurabilityEvidence {
    ChainstateDurabilityEvidence {
        last_flush_reason: flush.last_flush_reason,
        write_kind: flush.write_kind,
        last_serving_status: h.last_serving_status,
        last_payload_present: h.last_payload_present,
        last_index_known: h.last_index_known,
        last_validated_on_active_chain: h.last_validated_on_active_chain,
        available_count: h.available_count,
        unavailable_count: h.unavailable_count,
        index_known_without_payload_count: h.index_known_without_payload_count,
    }
}

/// The reason reported while no flush was recorded.
pub open spec fn chainstate_durability_unavailable_reason_spec() -> &'static str {
    "chainstate durability evidence unavailable before the first flush"
}

/// Chainstate durability as reported: the last flush with the have-bytes
/// evidence, or unavailable before the first flush.
pub open spec fn chainstate_durability_spec(
    maybe_flush: Option<ChainstateFlushEvidence>,
    have_bytes: HaveBytesAccumulator,
) -> FieldAvailability<ChainstateDurabilityEvidence> {
    match maybe_flush {
        Some(flush) => FieldAvailability::Available(durability_spec(flush, have_bytes.snapshot_spec())),
        None => FieldAvailability::Unavailable(chainstate_durability_unavailable_reason_spec()),
    }
}

/// The operator snapshot: every read model, copied out.
#[derive(Debug, Clone, PartialEq, Eq)]
pub struct ManagedNetworkOperatorSnapshot {
    pub network: ManagedNetworkInfo,
    pub mempool: ManagedMempoolInfo,
    pub relay: RelayEvidenceStatus,
    pub block_relay: BlockRelayEvidenceStatus,
    pub block_served_count: u64,
    pub address_boundary: ManagedAddressBoundaryInfo,
    pub peer_policy: ManagedPeerPolicyInfo,
    pub resource_governance: ManagedResourceGovernanceInfo,
    pub pressure_removal_count: u64,
    pub checkpoint: CheckpointEvidenceSnapshot,
    pub recovery: Option<ManagedMempoolRecoverySummary>,
    pub unbroadcast_member_count: u64,
    pub queued_transactions: usize,
    pub announced_count: u64,
    pub retry_clears: u64,
    pub admitted_members: u64,
    pub removed_members: u64,
    pub chainstate_durability: FieldAvailability<ChainstateDurabilityEvidence>,
}

impl ManagedNetworkOperatorSnapshot {
    pub fn chainstate_durability(&self) -> (r: &FieldAvailability<ChainstateDurabilityEvidence>)
        ensures
            *r == self.chainstate_durability,
    {
        &self.chainstate_durability
    }
}

/// The checkpoint interval the operator snapshot judges overdue against.
pub const OPERATOR_CHECKPOINT_INTERVAL_SECONDS: u64 = 300;

/// The managed peer network.
pub struct ManagedPeerNetwork {
    pub authority: LifecycleAuthority,
    pub block_relay_evidence: ManagedBlockRelayEvidenceState,
    pub compact_peers: Vec<CompactPeerFacts>,
    pub block_serving_enabled: bool,
    pub compact_relay_enabled: bool,
    pub relay_enabled: bool,
    pub download_eligibility: RelayDownloadEligibilityCounters,
    pub relay_fanout: ManagedRelayFanoutInfo,
    pub relay_serving: ManagedRelayServingInfo,
    pub latest_local_submission: Option<LocalRelaySubmissionEvidence>,
    pub latest_mempool_recovery: Option<ManagedMempoolRecoverySummary>,
    pub latest_mempool_recovery_storage_error: Option<SyncRecoveryCategory>,
    pub orphan_count: usize,
    pub network_info: ManagedNetworkInfo,
    pub mempool_info: ManagedMempoolInfo,
    pub rolling_fee_last_update: PolicyTime,
    pub peer_policy: ManagedPeerPolicyInfo,
    pub resource_governance: ManagedResourceGovernanceInfo,
    pub address_boundary: ManagedAddressBoundaryInfo,
    pub have_bytes: HaveBytesAccumulator,
    pub maybe_chainstate_flush: Option<ChainstateFlushEvidence>,
    pub inbound_admission: ManagedInboundAdmissionInfo,
}

/// The labels of the latest local submission, if any.
pub open spec fn latest_labels(n: &ManagedPeerNetwork) -> Option<Seq<LocalRelaySubmissionLabel>> {
    match n.latest_local_submission {
        Some(e) => Some(e.labels@),
        None => None,
    }
}

/// The length of the latest local submission's labels, or zero.
pub open spec fn latest_labels_len(n: &ManagedPeerNetwork) -> int {
    match n.latest_local_submission {
        Some(e) => e.labels@.len() as int,
        None => 0,
    }
}

/// The recovery counters as reported: unavailable after a storage failure,
/// otherwise those of the latest summary, or zero.
pub open spec fn recovery_field_spec(n: &ManagedPeerNetwork) -> RelayEvidenceField<RelayRecoveryCounters> {
    if n.latest_mempool_recovery_storage_error is Some {
        RelayEvidenceField::Unavailable(relay_recovery_unavailable_reason_spec())
    } else {
        match n.latest_mempool_recovery {
            Some(s) => RelayEvidenceField::Implemented(
                RelayRecoveryCounters {
                    recovered_count: s.recovered_count,
                    dropped_confirmed_count: s.dropped_confirmed_count,
                    dropped_duplicate_count: s.dropped_duplicate_count,
                    dropped_missing_parent_count: s.dropped_missing_parent_count,
                    dropped_policy_incompatible_count: s.dropped_policy_incompatible_count,
                    dropped_expired_count: s.dropped_expired_count,
                    dropped_evicted_count: s.dropped_evicted_count,
                },
            ),
            None => RelayEvidenceField::Implemented(
                RelayRecoveryCounters {
                    recovered_count: 0,
                    dropped_confirmed_count: 0,
                    dropped_duplicate_count: 0,
                    dropped_missing_parent_count: 0,
                    dropped_policy_incompatible_count: 0,
                    dropped_expired_count: 0,
                    dropped_evicted_count: 0,
                },
            ),
        }
    }
}

fn copy_summary(s: &ManagedMempoolRecoverySummary) -> (r: ManagedMempoolRecoverySummary)
    ensures
        r.records@ == s.records@,
        r.recovered_count == s.recovered_count,
        r.dropped_confirmed_count == s.dropped_confirmed_count,
        r.dropped_duplicate_count == s.dropped_duplicate_count,
        r.dropped_missing_parent_count == s.dropped_missing_parent_count,
        r.dropped_policy_incompatible_count == s.dropped_policy_incompatible_count,
        r.dropped_expired_count == s.dropped_expired_count,
        r.dropped_evicted_count == s.dropped_evicted_count,
{
    ManagedMempoolRecoverySummary {
        recovered_count: s.recovered_count,
        dropped_confirmed_count: s.dropped_confirmed_count,
        dropped_duplicate_count: s.dropped_duplicate_count,
        dropped_missing_parent_count: s.dropped_missing_parent_count,
        dropped_policy_incompatible_count: s.dropped_policy_incompatible_count,
        dropped_expired_count: s.dropped_expired_count,
        dropped_evicted_count: s.dropped_evicted_count,
        records: copy_vec(&s.records),
    }
}

/// Whether `a` and `b` hold the same summary.
pub open spec fn same_summary(a: ManagedMempoolRecoverySummary, b: ManagedMempoolRecoverySummary) -> bool {
    &&& a.records@ == b.records@
    &&& a.recovered_count == b.recovered_count
    &&& a.dropped_confirmed_count == b.dropped_confirmed_count
    &&& a.dropped_duplicate_count == b.dropped_duplicate_count
    &&& a.dropped_missing_parent_count == b.dropped_missing_parent_count
    &&& a.dropped_policy_incompatible_count == b.dropped_policy_incompatible_count
    &&& a.dropped_expired_count == b.dropped_expired_count
    &&& a.dropped_evicted_count == b.dropped_evicted_count
}

/// Whether `a` and `b` hold the same optional summary.
pub open spec fn same_optional_summary(a: Option<ManagedMempoolRecoverySummary>, b: Option<ManagedMempoolRecoverySummary>) -> bool {
    match (a, b) {
        (Some(x), Some(y)) => same_summary(x, y),
        (None, None) => true,
        _ => false,
    }
}

fn copy_optional_summary(s: &Option<ManagedMempoolRecoverySummary>) -> (r: Option<ManagedMempoolRecoverySummary>)
    ensures
        same_optional_summary(r, *s),
{
    match s {
        Some(summary) => Some(copy_summary(summary)),
        None => None,
    }
}

/// Whether `a` and `b` hold the same evidence.
pub open spec fn same_submission(a: LocalRelaySubmissionEvidence, b: LocalRelaySubmissionEvidence) -> bool {
    &&& a.labels@ == b.labels@
    &&& a.queued_count == b.queued_count
    &&& a.suppressed_count == b.suppressed_count
    &&& a.not_eligible_count == b.not_eligible_count
    &&& a.relay_disabled_count == b.relay_disabled_count
    &&& a.maybe_rebroadcast == b.maybe_rebroadcast
}

impl ManagedPeerNetwork {
    /// The network's invariant: a well-formed authority, and evidence whose
    /// counters fit the reported integer types.
    pub open spec fn wf(&self) -> bool {
        &&& self.authority.wf()
        &&& sum_in_flight(self.compact_peers@) <= u64::MAX
        &&& sum_getblocktxn(self.compact_peers@) <= u64::MAX
        &&& latest_labels_len(self) + self.relay_fanout.latest_actions@.len()
            + self.relay_serving.latest_outcomes@.len() <= u64::MAX
        &&& self.inbound_admission.wf()
    }

    /// Whether this is a network with no peers, an empty mempool and no
    /// evidence yet, under the fresh authority of `authority_epoch` and the
    /// given activation flags.
    pub open spec fn is_fresh_spec(
        &self,
        authority_epoch: AuthorityEpoch,
        relay_enabled: bool,
        block_serving_enabled: bool,
        compact_relay_enabled: bool,
    ) -> bool {
        &&& self.authority.is_fresh(authority_epoch)
        &&& self.relay_enabled == relay_enabled
        &&& self.block_serving_enabled == block_serving_enabled
        &&& self.compact_relay_enabled == compact_relay_enabled
        &&& self.block_relay_evidence == ManagedBlockRelayEvidenceState::empty_spec()
        &&& self.compact_peers@.len() == 0
        &&& self.download_eligibility == RelayDownloadEligibilityCounters { eligible_peer_count: 0, ineligible_peer_count: 0 }
        &&& self.relay_fanout.known_transactions == 0
        &&& self.relay_fanout.queued_peers == 0
        &&& self.relay_fanout.queued_transactions == 0
        &&& self.relay_fanout.latest_actions@.len() == 0
        &&& self.relay_serving.serveable_transactions == 0
        &&& self.relay_serving.known_status_transactions == 0
        &&& self.relay_serving.latest_outcomes@.len() == 0
        &&& self.latest_local_submission is None
        &&& self.latest_mempool_recovery is None
        &&& self.latest_mempool_recovery_storage_error is None
        &&& self.orphan_count == 0
        &&& self.network_info == ManagedNetworkInfo { outbound_peers: 0, inbound_peers: 0, relay: relay_enabled }
        &&& self.mempool_info == ManagedMempoolInfo { transaction_count: 0, accounted_memory: 0, mempool_capacity: 0 }
        &&& self.rolling_fee_last_update == PolicyTime { unix_seconds: 0 }
        &&& self.peer_policy.is_empty_spec()
        &&& self.resource_governance.is_empty_spec()
        &&& self.address_boundary.is_empty_spec()
        &&& self.have_bytes == fresh_have_bytes()
        &&& self.maybe_chainstate_flush is None
        &&& self.inbound_admission.is_fresh_spec()
    }

    /// A network with no peers, an empty mempool and no evidence yet.
    pub fn new(
        authority_epoch: AuthorityEpoch,
        relay_enabled: bool,
        block_serving_enabled: bool,
        compact_relay_enabled: bool,
    ) -> (r: Self)
        ensures
            r.wf(),
            r.authority.authority_epoch == authority_epoch,
            r.authority.unbroadcast_members@.len() == 0,
            r.relay_enabled == relay_enabled,
            r.block_serving_enabled == block_serving_enabled,
            r.compact_relay_enabled == compact_relay_enabled,
            r.block_relay_evidence == ManagedBlockRelayEvidenceState::empty_spec(),
            r.compact_peers@.len() == 0,
            r.latest_local_submission is None,
            r.latest_mempool_recovery is None,
            r.latest_mempool_recovery_storage_error is None,
            r.orphan_count == 0,
            r.maybe_chainstate_flush is None,
            r.peer_policy.is_empty_spec(),
            r.resource_governance.is_empty_spec(),
            r.address_boundary.is_empty_spec(),
            r.is_fresh_spec(authority_epoch, relay_enabled, block_serving_enabled, compact_relay_enabled),
    {
        ManagedPeerNetwork {
            authority: LifecycleAuthority::new(authority_epoch),
            block_relay_evidence: ManagedBlockRelayEvidenceState::new(),
            compact_peers: Vec::new(),
            block_serving_enabled,
            compact_relay_enabled,
            relay_enabled,
            download_eligibility: RelayDownloadEligibilityCounters { eligible_peer_count: 0, ineligible_peer_count: 0 },
            relay_fanout: ManagedRelayFanoutInfo {
                known_transactions: 0,
                queued_peers: 0,
                queued_transactions: 0,
                latest_actions: Vec::new(),
            },
            relay_serving: ManagedRelayServingInfo {
                serveable_transactions: 0,
                known_status_transactions: 0,
                latest_outcomes: Vec::new(),
            },
            latest_local_submission: None,
            latest_mempool_recovery: None,
            latest_mempool_recovery_storage_error: None,
            orphan_count: 0,
            network_info: ManagedNetworkInfo { outbound_peers: 0, inbound_peers: 0, relay: relay_enabled },
            mempool_info: ManagedMempoolInfo { transaction_count: 0, accounted_memory: 0, mempool_capacity: 0 },
            rolling_fee_last_update: PolicyTime { unix_seconds: 0 },
            peer_policy: ManagedPeerPolicyInfo::new(),
            resource_governance: ManagedResourceGovernanceInfo::new(),
            address_boundary: ManagedAddressBoundaryInfo::new(),
            have_bytes: HaveBytesAccumulator::new(),
            maybe_chainstate_flush: None,
            inbound_admission: ManagedInboundAdmissionInfo::new(),
        }
    }

    /// Orphan transactions held for missing parents.
    pub fn orphan_count(&self) -> (r: usize)
        ensures
            r == self.orphan_count,
    {
        self.orphan_count
    }

    /// Inbound admission evidence.
    pub fn inbound_admission_info(&self) -> (r: &ManagedInboundAdmissionInfo)
        ensures
            r == &self.inbound_admission,
    {
        &self.inbound_admission
    }

    /// Records an admitted inbound peer's record in the inbound evidence.
    pub fn record_inbound_admission(&mut self, record: &InboundPeerRecord)
        requires
            old(self).wf(),
            old(self).inbound_admission.admitted_inbound_peers < usize::MAX,
            old(self).inbound_admission.ordinary_inbound_admits < usize::MAX,
            old(self).inbound_admission.permissioned_inbound_admits < usize::MAX,
            old(self).inbound_admission.protected_inbound_admits < usize::MAX,
            old(self).inbound_admission.reserved_inbound_admits < usize::MAX,
            old(self).inbound_admission.active_permission_effect_observations
                + record.permission_decision.active_effects@.len() <= usize::MAX,
            old(self).inbound_admission.inactive_permission_effect_observations
                + record.permission_decision.inactive_effects@.len() <= usize::MAX,
        ensures
            final(self).wf(),
            final(self).inbound_admission.admitted_inbound_peers == old(self).inbound_admission.admitted_inbound_peers
                + 1,
            final(self).inbound_admission.observed_active_permission_effects@.to_set()
                == old(self).inbound_admission.observed_active_permission_effects@.to_set()
                + record.permission_decision.active_effects@.to_set(),
            final(self).inbound_admission.maybe_latest_rejection_reason is None,
            final(self).authority == old(self).authority,
    {
        self.inbound_admission.record_admit(record);
    }

    /// Records a refused inbound peer in the inbound evidence.
    pub fn record_inbound_rejection(&mut self, rejection: &InboundAdmissionRejection)
        requires
            old(self).wf(),
            old(self).inbound_admission.rejected_inbound_peers < usize::MAX,
            old(self).inbound_admission.cap_rejections < usize::MAX,
            old(self).inbound_admission.reserved_slot_rejections < usize::MAX,
            old(self).inbound_admission.duplicate_endpoint_rejections < usize::MAX,
            old(self).inbound_admission.duplicate_identity_rejections < usize::MAX,
            old(self).inbound_admission.self_connection_rejections < usize::MAX,
            old(self).inbound_admission.shutdown_rejections < usize::MAX,
        ensures
            final(self).wf(),
            final(self).inbound_admission.rejected_inbound_peers == old(self).inbound_admission.rejected_inbound_peers
                + 1,
            final(self).inbound_admission.maybe_latest_rejection_reason == Some(rejection.reason),
            final(self).authority == old(self).authority,
    {
        self.inbound_admission.record_rejection(rejection);
    }

    /// Peer counts and relay activation.
    pub fn network_info(&self) -> (r: ManagedNetworkInfo)
        ensures
            r == self.network_info,
    {
        self.network_info
    }

    /// Mempool size facts.
    pub fn mempool_info(&self) -> (r: ManagedMempoolInfo)
        ensures
            r == self.mempool_info,
    {
        self.mempool_info
    }

    /// Block-relay evidence as reported.
    pub fn block_relay_evidence_status(&self) -> (r: BlockRelayEvidenceStatus)
        requires
            self.wf(),
        ensures
            r == self.block_relay_evidence.observed_status_spec(
                self.compact_peers@,
                self.block_serving_enabled,
                self.compact_relay_enabled,
            ),
    {
        self.block_relay_evidence.observed_status(&self.compact_peers, self.block_serving_enabled, self.compact_relay_enabled)
    }

    /// Blocks written to peers so far.
    pub fn block_served_write_count(&self) -> (r: u64)
        ensures
            r == self.block_relay_evidence.served_count,
    {
        self.block_relay_evidence.served_count
    }

    /// Members still awaiting their first broadcast.
    pub fn unbroadcast_member_count(&self) -> (r: u64)
        ensures
            r == self.authority.unbroadcast_members@.len(),
    {
        self.authority.unbroadcast_members.len() as u64
    }

    /// Peer-policy evidence.
    pub fn peer_policy_info(&self) -> (r: ManagedPeerPolicyInfo)
        ensures
            r == self.peer_policy,
    {
        self.peer_policy
    }

    /// Resource-governance evidence.
    pub fn resource_governance_info(&self) -> (r: ManagedResourceGovernanceInfo)
        ensures
            r == self.resource_governance,
    {
        self.resource_governance
    }

    /// Address-boundary evidence.
    pub fn address_boundary_info(&self) -> (r: ManagedAddressBoundaryInfo)
        ensures
            r.local_advertisement_candidates@ == self.address_boundary.local_advertisement_candidates@,
            r.suppressed_advertisements@ == self.address_boundary.suppressed_advertisements@,
            r.getaddr_responses_served == self.address_boundary.getaddr_responses_served,
            r.getaddr_requests_suppressed == self.address_boundary.getaddr_requests_suppressed,
            r.learned_address_entries == self.address_boundary.learned_address_entries,
            r.learned_address_rejections == self.address_boundary.learned_address_rejections,
            r.maybe_latest_address_decision == self.address_boundary.maybe_latest_address_decision,
    {
        ManagedAddressBoundaryInfo {
            local_advertisement_candidates: copy_vec(&self.address_boundary.local_advertisement_candidates),
            suppressed_advertisements: copy_vec(&self.address_boundary.suppressed_advertisements),
            getaddr_responses_served: self.address_boundary.getaddr_responses_served,
            getaddr_requests_suppressed: self.address_boundary.getaddr_requests_suppressed,
            learned_address_entries: self.address_boundary.learned_address_entries,
            learned_address_rejections: self.address_boundary.learned_address_rejections,
            maybe_latest_address_decision: self.address_boundary.maybe_latest_address_decision,
        }
    }

    /// The latest mempool recovery summary, if a recovery ran.
    pub fn latest_mempool_recovery_summary(&self) -> (r: Option<ManagedMempoolRecoverySummary>)
        ensures
            same_optional_summary(r, self.latest_mempool_recovery),
    {
        copy_optional_summary(&self.latest_mempool_recovery)
    }

    /// Records that recovery evidence is unavailable for `category`: the
    /// latest summary is dropped and the category kept.
    pub fn record_mempool_recovery_unavailable(&mut self, category: SyncRecoveryCategory)
        requires
            old(self).wf(),
        ensures
            final(self).wf(),
            final(self).latest_mempool_recovery is None,
            final(self).latest_mempool_recovery_storage_error == Some(category),
            final(self).authority == old(self).authority,
            final(self).block_relay_evidence == old(self).block_relay_evidence,
            *final(self) == (ManagedPeerNetwork {
                latest_mempool_recovery: None,
                latest_mempool_recovery_storage_error: Some(category),
                ..*old(self)
            }),
    {
        self.latest_mempool_recovery = None;
        self.latest_mempool_recovery_storage_error = Some(category);
    }

    /// Records a storage failure of recovery by its category.
    pub fn record_mempool_recovery_storage_error(&mut self, error: &StorageError)
        requires
            old(self).wf(),
        ensures
            final(self).wf(),
            final(self).latest_mempool_recovery is None,
            final(self).latest_mempool_recovery_storage_error == Some(recovery_category_spec(*error)),
            final(self).authority == old(self).authority,
            final(self).block_relay_evidence == old(self).block_relay_evidence,
            *final(self) == (ManagedPeerNetwork {
                latest_mempool_recovery: None,
                latest_mempool_recovery_storage_error: Some(recovery_category_spec(*error)),
                ..*old(self)
            }),
    {
        let category = error.recovery_category();
        self.record_mempool_recovery_unavailable(category);
    }

    /// The category of the latest recovery storage failure, if any.
    pub fn latest_mempool_recovery_storage_error(&self) -> (r: Option<SyncRecoveryCategory>)
        ensures
            r == self.latest_mempool_recovery_storage_error,
    {
        self.latest_mempool_recovery_storage_error
    }

    /// Installs a recovery summary and clears any storage failure.
    pub fn install_mempool_recovery_summary(&mut self, summary: ManagedMempoolRecoverySummary)
        requires
            old(self).wf(),
        ensures
            final(self).wf(),
            final(self).latest_mempool_recovery == Some(summary),
            final(self).latest_mempool_recovery_storage_error is None,
            final(self).authority == old(self).authority,
    {
        self.latest_mempool_recovery = Some(summary);
        self.latest_mempool_recovery_storage_error = None;
    }

    /// Fan-out bookkeeping as reported.
    pub fn relay_fanout_info(&self) -> (r: ManagedRelayFanoutInfo)
        ensures
            r.known_transactions == self.relay_fanout.known_transactions,
            r.queued_peers == self.relay_fanout.queued_peers,
            r.queued_transactions == self.relay_fanout.queued_transactions,
            r.latest_actions@ == self.relay_fanout.latest_actions@,
    {
        ManagedRelayFanoutInfo {
            known_transactions: self.relay_fanout.known_transactions,
            queued_peers: self.relay_fanout.queued_peers,
            queued_transactions: self.relay_fanout.queued_transactions,
            latest_actions: copy_vec(&self.relay_fanout.latest_actions),
        }
    }

    /// Transaction-serving bookkeeping as reported.
    pub fn relay_serving_info(&self) -> (r: ManagedRelayServingInfo)
        ensures
            r.serveable_transactions == self.relay_serving.serveable_transactions,
            r.known_status_transactions == self.relay_serving.known_status_transactions,
            r.latest_outcomes@ == self.relay_serving.latest_outcomes@,
    {
        ManagedRelayServingInfo {
            serveable_transactions: self.relay_serving.serveable_transactions,
            known_status_transactions: self.relay_serving.known_status_transactions,
            latest_outcomes: copy_vec(&self.relay_serving.latest_outcomes),
        }
    }

    /// The evidence of the latest local submission, if any.
    pub fn latest_local_submission_evidence(&self) -> (r: Option<LocalRelaySubmissionEvidence>)
        ensures
            match (r, self.latest_local_submission) {
                (Some(a), Some(b)) => same_submission(a, b),
                (None, None) => true,
                _ => false,
            },
    {
        match &self.latest_local_submission {
            Some(e) => Some(
                LocalRelaySubmissionEvidence {
                    labels: copy_vec(&e.labels),
                    queued_count: e.queued_count,
                    suppressed_count: e.suppressed_count,
                    not_eligible_count: e.not_eligible_count,
                    relay_disabled_count: e.relay_disabled_count,
                    maybe_rebroadcast: e.maybe_rebroadcast,
                },
            ),
            None => None,
        }
    }

    /// Relay evidence as reported.
    pub fn relay_evidence_status(&self) -> (r: RelayEvidenceStatus)
        requires
            self.wf(),
        ensures
            r == relay_status_spec(
                RelayActivationEvidence { enabled: self.relay_enabled },
                self.download_eligibility,
                recovery_field_spec(self),
                latest_labels(self),
                self.relay_fanout.latest_actions@,
                self.relay_serving.latest_outcomes@,
            ),
    {
        let recovery = if self.latest_mempool_recovery_storage_error.is_some() {
            RelayEvidenceField::Unavailable(relay_recovery_evidence_unavailable_reason())
        } else {
            match &self.latest_mempool_recovery {
                Some(s) => RelayEvidenceField::Implemented(s.relay_recovery_counters()),
                None => RelayEvidenceField::Implemented(
                    RelayRecoveryCounters {
                        recovered_count: 0,
                        dropped_confirmed_count: 0,
                        dropped_duplicate_count: 0,
                        dropped_missing_parent_count: 0,
                        dropped_policy_incompatible_count: 0,
                        dropped_expired_count: 0,
                        dropped_evicted_count: 0,
                    },
                ),
            }
        };
        let maybe_local = match &self.latest_local_submission {
            Some(e) => Some(e),
            None => None,
        };
        relay_evidence_status_from_parts(
            RelayActivationEvidence { enabled: self.relay_enabled },
            self.download_eligibility,
            recovery,
            maybe_local,
            &self.relay_fanout,
            &self.relay_serving,
        )
    }

    /// Records a block-serving decision, and its presence facts into the
    /// have-bytes evidence.
    pub fn record_block_serving_evidence(&mut self, kind: InventoryKind, decision: &ManagedBlockServeDecision)
        requires
            old(self).wf(),
            old(self).block_relay_evidence.block_serving_fits(kind, *decision),
        ensures
            final(self).wf(),
            final(self).block_relay_evidence == old(self).block_relay_evidence.after_block_serving(kind, *decision),
            final(self).have_bytes == old(self).have_bytes.after_have_bytes(decision.presence),
            *final(self) == (ManagedPeerNetwork {
                block_relay_evidence: final(self).block_relay_evidence,
                have_bytes: final(self).have_bytes,
                ..*old(self)
            }),
    {
        self.block_relay_evidence.record_block_serving(kind, decision);
        self.have_bytes.record_have_bytes(decision.presence);
    }

    /// Acknowledges one written wire message: a full block counts as served.
    pub fn acknowledge_wire_message_written(&mut self, kind: WireMessageKind)
        requires
            old(self).wf(),
            kind == WireMessageKind::Block ==> old(self).block_relay_evidence.served_count < u64::MAX,
        ensures
            final(self).wf(),
            final(self).block_relay_evidence == if kind == WireMessageKind::Block {
                ManagedBlockRelayEvidenceState {
                    observed: true,
                    served_count: inc(old(self).block_relay_evidence.served_count),
                    ..old(self).block_relay_evidence
                }
            } else {
                old(self).block_relay_evidence
            },
            *final(self) == (ManagedPeerNetwork { block_relay_evidence: final(self).block_relay_evidence, ..*old(self) }),
    {
        self.block_relay_evidence.record_wire_message_written(kind);
    }

    /// Records the end of one serve intent: its decision, as any
    /// block-serving decision is recorded, and the block as served when it
    /// was written.
    pub fn complete_block_serve(&mut self, completion: &ManagedBlockServeCompletion)
        requires
            old(self).wf(),
            old(self).block_relay_evidence.block_serving_fits(completion.request.inventory_type, completion.decision),
            completion.outcome == ManagedBlockServeCompletionOutcome::Written ==> old(
                self,
            ).block_relay_evidence.served_count < u64::MAX,
        ensures
            final(self).wf(),
            final(self).have_bytes == old(self).have_bytes.after_have_bytes(completion.decision.presence),
            final(self).block_relay_evidence == ({
                let recorded = old(self).block_relay_evidence.after_block_serving(
                    completion.request.inventory_type,
                    completion.decision,
                );
                if completion.outcome == ManagedBlockServeCompletionOutcome::Written {
                    ManagedBlockRelayEvidenceState { observed: true, served_count: inc(recorded.served_count), ..recorded }
                } else {
                    recorded
                }
            }),
            *final(self) == (ManagedPeerNetwork {
                block_relay_evidence: final(self).block_relay_evidence,
                have_bytes: final(self).have_bytes,
                ..*old(self)
            }),
    {
        let request = completion.request();
        let decision = completion.decision();
        self.record_block_serving_evidence(request.inventory_type, &decision);
        if completion.records_served_effect() {
            self.block_relay_evidence.record_block_served();
        }
    }

    /// Records one have-bytes presence decision.
    pub fn record_have_bytes(&mut self, presence: BlockServingPresenceFacts)
        requires
            old(self).wf(),
        ensures
            final(self).wf(),
            final(self).have_bytes == old(self).have_bytes.after_have_bytes(presence),
            *final(self) == (ManagedPeerNetwork { have_bytes: final(self).have_bytes, ..*old(self) }),
            final(self).authority == old(self).authority,
            final(self).block_relay_evidence == old(self).block_relay_evidence,
    {
        self.have_bytes.record_have_bytes(presence);
    }

    /// Records a chainstate flush.
    pub fn record_chainstate_flush(&mut self, flush: ChainstateFlushEvidence)
        requires
            old(self).wf(),
        ensures
            final(self).wf(),
            final(self).maybe_chainstate_flush == Some(flush),
            final(self).authority == old(self).authority,
            final(self).block_relay_evidence == old(self).block_relay_evidence,
            *final(self) == (ManagedPeerNetwork { maybe_chainstate_flush: Some(flush), ..*old(self) }),
    {
        self.maybe_chainstate_flush = Some(flush);
    }

    /// Chainstate durability: unavailable before the first flush, otherwise
    /// the last flush with the have-bytes evidence.
    pub fn chainstate_durability(&self) -> (r: FieldAvailability<ChainstateDurabilityEvidence>)
        ensures
            r == chainstate_durability_spec(self.maybe_chainstate_flush, self.have_bytes),
    {
        match self.maybe_chainstate_flush {
            Some(flush) => {
                let h = self.have_bytes.snapshot();
                FieldAvailability::Available(
                    ChainstateDurabilityEvidence {
                        last_flush_reason: flush.last_flush_reason,
                        write_kind: flush.write_kind,
                        last_serving_status: h.last_serving_status,
                        last_payload_present: h.last_payload_present,
                        last_index_known: h.last_index_known,
                        last_validated_on_active_chain: h.last_validated_on_active_chain,
                        available_count: h.available_count,
                        unavailable_count: h.unavailable_count,
                        index_known_without_payload_count: h.index_known_without_payload_count,
                    },
                )
            },
            None => FieldAvailability::Unavailable(chainstate_durability_unavailable_reason()),
        }
    }

    /// Every read model, copied out into one identifier-free snapshot.
    pub fn operator_snapshot(&self) -> (r: ManagedNetworkOperatorSnapshot)
        requires
            self.wf(),
        ensures
            r.network == self.network_info,
            r.mempool == self.mempool_info,
            r.relay == relay_status_spec(
                RelayActivationEvidence { enabled: self.relay_enabled },
                self.download_eligibility,
                recovery_field_spec(self),
                latest_labels(self),
                self.relay_fanout.latest_actions@,
                self.relay_serving.latest_outcomes@,
            ),
            r.block_relay == self.block_relay_evidence.observed_status_spec(
                self.compact_peers@,
                self.block_serving_enabled,
                self.compact_relay_enabled,
            ),
            r.block_served_count == self.block_relay_evidence.served_count,
            r.peer_policy == self.peer_policy,
            r.resource_governance == self.resource_governance,
            r.pressure_removal_count == self.authority.lifecycle_evidence.pressure_removals,
            r.checkpoint == crate::checkpoint_evidence::evidence_of(
                self.authority.checkpoint_evidence,
                self.authority.lifecycle_generation,
                self.authority.dirty_generation,
                self.rolling_fee_last_update,
                OPERATOR_CHECKPOINT_INTERVAL_SECONDS,
            ),
            same_optional_summary(r.recovery, self.latest_mempool_recovery),
            r.unbroadcast_member_count == self.authority.unbroadcast_members@.len(),
            r.queued_transactions == self.relay_fanout.queued_transactions,
            r.announced_count == r.relay.counters.announced_count,
            r.retry_clears == self.authority.lifecycle_evidence.retry_clears,
            r.admitted_members == self.authority.lifecycle_evidence.admitted_members,
            r.removed_members == self.authority.lifecycle_evidence.removed_members,
            r.chainstate_durability == chainstate_durability_spec(self.maybe_chainstate_flush, self.have_bytes),
            r.address_boundary.same_evidence(self.address_boundary),
    {
        let relay = self.relay_evidence_status();
        let announced_count = relay.counters.announced_count;
        ManagedNetworkOperatorSnapshot {
            network: self.network_info,
            mempool: self.mempool_info,
            relay,
            block_relay: self.block_relay_evidence_status(),
            block_served_count: self.block_relay_evidence.served_count,
            address_boundary: self.address_boundary_info(),
            peer_policy: self.peer_policy,
            resource_governance: self.resource_governance,
            pressure_removal_count: self.authority.lifecycle_evidence.pressure_removals,
            checkpoint: self.authority.checkpoint_evidence(self.rolling_fee_last_update, OPERATOR_CHECKPOINT_INTERVAL_SECONDS),
            recovery: self.latest_mempool_recovery_summary(),
            unbroadcast_member_count: self.unbroadcast_member_count(),
            queued_transactions: self.relay_fanout.queued_transactions,
            announced_count,
            retry_clears: self.authority.lifecycle_evidence.retry_clears,
            admitted_members: self.authority.lifecycle_evidence.admitted_members,
            removed_members: self.authority.lifecycle_evidence.removed_members,
            chainstate_durability: self.chainstate_durability(),
        }
    }
}

} // verus!
