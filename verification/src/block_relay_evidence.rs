//! Block-relay evidence: counters of block serving, compact announcements,
//! reconstruction, missing transactions, fallbacks and cleanup.
use vstd::prelude::*;
use crate::block_serving::{
    BlockServingEligibilityReason, BlockServingStatusLabel, CompactBlockTxnServeOutcome, InventoryKind,
    ManagedBlockServeCompletion, ManagedBlockServeCompletionOutcome, ManagedBlockServeDecision,
};

verus! {

/// `n + 1` as a counter value.
pub open spec fn inc(n: u64) -> u64 {
    (n + 1) as u64
}

/// `n + k` as a counter value.
pub open spec fn plus(n: u64, k: int) -> u64 {
    (n + k) as u64
}

/// Eligibility outcomes of block-serving requests.
#[derive(Debug, Clone, Copy, PartialEq, Eq, Structural, Default)]
pub struct BlockServingEligibilityCounters {
    pub eligible_peer_count: u64,
    pub ineligible_peer_count: u64,
    pub disabled_count: u64,
    pub activation_required_count: u64,
    pub inbound_serving_required_count: u64,
    pub permission_required_count: u64,
    pub protected_not_serving_count: u64,
    pub status_unavailable_count: u64,
    pub permission_effect_inactive_count: u64,
}

/// Block-status labels of block-serving requests.
#[derive(Debug, Clone, Copy, PartialEq, Eq, Structural, Default)]
pub struct BlockServingStatusCounters {
    pub validated_count: u64,
    pub available_count: u64,
    pub stale_count: u64,
    pub side_chain_count: u64,
    pub pruned_count: u64,
    pub unavailable_count: u64,
    pub unvalidated_count: u64,
    pub unknown_count: u64,
    pub suppressed_count: u64,
}

/// Outcomes of compact-block announcements.
#[derive(Debug, Clone, Copy, PartialEq, Eq, Structural, Default)]
pub struct CompactRelayAnnouncementCounters {
    pub compact_announced_count: u64,
    pub compact_headers_fallback_count: u64,
    pub compact_inventory_fallback_count: u64,
    pub compact_suppressed_count: u64,
}

/// Compact-block reconstructions and malformed requests.
#[derive(Debug, Clone, Copy, PartialEq, Eq, Structural, Default)]
pub struct CompactRelayReconstructionCounters {
    pub compact_reconstructed_count: u64,
    pub compact_malformed_count: u64,
}

/// Missing-transaction requests sent and serves suppressed.
#[derive(Debug, Clone, Copy, PartialEq, Eq, Structural, Default)]
pub struct CompactRelayMissingTransactionCounters {
    pub compact_missing_tx_requested_count: u64,
    pub compact_missing_tx_suppressed_count: u64,
}

/// Full-block fallbacks and timeouts.
#[derive(Debug, Clone, Copy, PartialEq, Eq, Structural, Default)]
pub struct CompactRelayFallbackCounters {
    pub compact_fallback_count: u64,
    pub compact_timeout_count: u64,
}

/// Compact downloads removed, by cause.
#[derive(Debug, Clone, Copy, PartialEq, Eq, Structural, Default)]
pub struct CompactRelayCleanupCounters {
    pub compact_cleanup_count: u64,
    pub compact_download_peer_disconnect_count: u64,
    pub compact_download_timeout_count: u64,
    pub compact_download_reorg_count: u64,
    pub compact_download_restart_count: u64,
    pub compact_download_block_connected_count: u64,
}

/// Why a compact announcement went out as it did, or did not.
#[derive(Debug, Clone, Copy, PartialEq, Eq, Structural, Hash)]
pub enum CompactAnnouncementReason {
    CompactAnnounced,
    CompactHeadersFallback,
    CompactInventoryFallback,
    CompactRelayDisabled,
    CompactPeerNotNegotiated,
    CompactUnsupportedVersion,
    CompactHighBandwidthNotRequested,
    CompactHeaderContinuityMissing,
    CompactPeerAlreadyHasHeader,
    CompactBlockUnavailable,
    CompactResourceLimited,
}

/// Why compact downloads were removed.
#[derive(Debug, Clone, Copy, PartialEq, Eq, Structural, Hash)]
pub enum CompactDownloadCleanupCause {
    PeerDisconnect,
    Timeout,
    Reorg,
    RuntimeRestart,
    BlockConnected,
}

/// The kind of a wire message, as far as block-relay evidence reads it.
#[derive(Debug, Clone, Copy, PartialEq, Eq, Structural, Hash)]
pub enum WireMessageKind {
    Block,
    CompactBlock,
    Headers,
    Inv,
    GetData,
    GetBlockTxn,
    BlockTxn,
    Verack,
    Other,
}

/// The announcement evidence that writing a message of `kind` achieves.
pub open spec fn announce_reason_spec(kind: WireMessageKind) -> Option<CompactAnnouncementReason> {
    match kind {
        WireMessageKind::CompactBlock => Some(CompactAnnouncementReason::CompactAnnounced),
        WireMessageKind::Headers => Some(CompactAnnouncementReason::CompactHeadersFallback),
        WireMessageKind::Inv => Some(CompactAnnouncementReason::CompactInventoryFallback),
        _ => None,
    }
}

/// Derives achieved-effect evidence solely from the written message's kind.
pub fn compact_announce_evidence_reason(kind: WireMessageKind) -> (r: Option<CompactAnnouncementReason>)
    ensures
        r == announce_reason_spec(kind),
{
    match kind {
        WireMessageKind::CompactBlock => Some(CompactAnnouncementReason::CompactAnnounced),
        WireMessageKind::Headers => Some(CompactAnnouncementReason::CompactHeadersFallback),
        WireMessageKind::Inv => Some(CompactAnnouncementReason::CompactInventoryFallback),
        _ => None,
    }
}

/// A peer action emitted by compact-block download handling.
#[derive(Debug, Clone, PartialEq, Eq)]
pub enum CompactDownloadAction {
    SendGetBlockTxn,
    SendGetData(Vec<InventoryKind>),
    ReceivedBlock,
    Other,
}

/// Whether an inventory list asks for a full block.
pub open spec fn requests_block(kinds: Seq<InventoryKind>) -> bool {
    exists|i: int| 0 <= i < kinds.len() && kinds[i] == InventoryKind::Block
}

/// How many of `actions` send a `getblocktxn`.
pub open spec fn count_requested(actions: Seq<CompactDownloadAction>) -> nat
    decreases actions.len(),
{
    if actions.len() == 0 {
        0
    } else {
        count_requested(actions.drop_last()) + if actions.last() is SendGetBlockTxn {
            1nat
        } else {
            0nat
        }
    }
}

/// How many of `actions` fall back to a full-block `getdata`.
pub open spec fn count_fallbacks(actions: Seq<CompactDownloadAction>) -> nat
    decreases actions.len(),
{
    if actions.len() == 0 {
        0
    } else {
        count_fallbacks(actions.drop_last()) + if actions.last() matches CompactDownloadAction::SendGetData(kinds)
            && requests_block(kinds@) {
            1nat
        } else {
            0nat
        }
    }
}

/// How many of `actions` report a reconstructed block.
pub open spec fn count_received(actions: Seq<CompactDownloadAction>) -> nat
    decreases actions.len(),
{
    if actions.len() == 0 {
        0
    } else {
        count_received(actions.drop_last()) + if actions.last() is ReceivedBlock {
            1nat
        } else {
            0nat
        }
    }
}

/// Block-relay evidence kept by a managed network.
#[derive(Debug, Clone, Copy, PartialEq, Eq, Structural, Default)]
pub struct ManagedBlockRelayEvidenceState {
    pub observed: bool,
    pub served_count: u64,
    pub block_serving_eligibility: BlockServingEligibilityCounters,
    pub block_serving_status: BlockServingStatusCounters,
    pub announcement: CompactRelayAnnouncementCounters,
    pub reconstruction: CompactRelayReconstructionCounters,
    pub missing_transaction: CompactRelayMissingTransactionCounters,
    pub fallback: CompactRelayFallbackCounters,
    pub cleanup: CompactRelayCleanupCounters,
}

/// Eligibility counters after one request with `reason`.
pub open spec fn eligibility_after(
    c: BlockServingEligibilityCounters,
    reason: BlockServingEligibilityReason,
) -> BlockServingEligibilityCounters {
    let c2 = if reason == BlockServingEligibilityReason::Eligible {
        BlockServingEligibilityCounters { eligible_peer_count: inc(c.eligible_peer_count), ..c }
    } else {
        BlockServingEligibilityCounters { ineligible_peer_count: inc(c.ineligible_peer_count), ..c }
    };
    match reason {
        BlockServingEligibilityReason::Eligible => c2,
        BlockServingEligibilityReason::Disabled => BlockServingEligibilityCounters {
            disabled_count: inc(c.disabled_count),
            ..c2
        },
        BlockServingEligibilityReason::ActivationRequired => BlockServingEligibilityCounters {
            activation_required_count: inc(c.activation_required_count),
            ..c2
        },
        BlockServingEligibilityReason::InboundServingRequired => BlockServingEligibilityCounters {
            inbound_serving_required_count: inc(c.inbound_serving_required_count),
            ..c2
        },
        BlockServingEligibilityReason::PermissionRequired => BlockServingEligibilityCounters {
            permission_required_count: inc(c.permission_required_count),
            ..c2
        },
        BlockServingEligibilityReason::ProtectedNotServing => BlockServingEligibilityCounters {
            protected_not_serving_count: inc(c.protected_not_serving_count),
            ..c2
        },
        BlockServingEligibilityReason::StatusUnavailable => BlockServingEligibilityCounters {
            status_unavailable_count: inc(c.status_unavailable_count),
            ..c2
        },
        BlockServingEligibilityReason::PermissionEffectInactive => BlockServingEligibilityCounters {
            permission_effect_inactive_count: inc(c.permission_effect_inactive_count),
            ..c2
        },
    }
}

/// Whether the counters touched by one request with `reason` have room.
pub open spec fn eligibility_fits(c: BlockServingEligibilityCounters, reason: BlockServingEligibilityReason) -> bool {
    &&& c.eligible_peer_count < u64::MAX
    &&& c.ineligible_peer_count < u64::MAX
    &&& match reason {
        BlockServingEligibilityReason::Eligible => true,
        BlockServingEligibilityReason::Disabled => c.disabled_count < u64::MAX,
        BlockServingEligibilityReason::ActivationRequired => c.activation_required_count < u64::MAX,
        BlockServingEligibilityReason::InboundServingRequired => c.inbound_serving_required_count < u64::MAX,
        BlockServingEligibilityReason::PermissionRequired => c.permission_required_count < u64::MAX,
        BlockServingEligibilityReason::ProtectedNotServing => c.protected_not_serving_count < u64::MAX,
        BlockServingEligibilityReason::StatusUnavailable => c.status_unavailable_count < u64::MAX,
        BlockServingEligibilityReason::PermissionEffectInactive => c.permission_effect_inactive_count < u64::MAX,
    }
}

/// The status counter that `label` increments.
pub open spec fn status_counter(c: BlockServingStatusCounters, label: BlockServingStatusLabel) -> u64 {
    match label {
        BlockServingStatusLabel::Validated => c.validated_count,
        BlockServingStatusLabel::Available => c.available_count,
        BlockServingStatusLabel::Stale => c.stale_count,
        BlockServingStatusLabel::SideChain => c.side_chain_count,
        BlockServingStatusLabel::Pruned => c.pruned_count,
        BlockServingStatusLabel::Unavailable => c.unavailable_count,
        BlockServingStatusLabel::Unvalidated => c.unvalidated_count,
        BlockServingStatusLabel::Unknown => c.unknown_count,
        BlockServingStatusLabel::Suppressed => c.suppressed_count,
    }
}

/// Status counters after one request with `label`.
pub open spec fn status_after(c: BlockServingStatusCounters, label: BlockServingStatusLabel) -> BlockServingStatusCounters {
    match label {
        BlockServingStatusLabel::Validated => BlockServingStatusCounters { validated_count: inc(c.validated_count), ..c },
        BlockServingStatusLabel::Available => BlockServingStatusCounters { available_count: inc(c.available_count), ..c },
        BlockServingStatusLabel::Stale => BlockServingStatusCounters { stale_count: inc(c.stale_count), ..c },
        BlockServingStatusLabel::SideChain => BlockServingStatusCounters { side_chain_count: inc(c.side_chain_count), ..c },
        BlockServingStatusLabel::Pruned => BlockServingStatusCounters { pruned_count: inc(c.pruned_count), ..c },
        BlockServingStatusLabel::Unavailable => BlockServingStatusCounters {
            unavailable_count: inc(c.unavailable_count),
            ..c
        },
        BlockServingStatusLabel::Unvalidated => BlockServingStatusCounters {
            unvalidated_count: inc(c.unvalidated_count),
            ..c
        },
        BlockServingStatusLabel::Unknown => BlockServingStatusCounters { unknown_count: inc(c.unknown_count), ..c },
        BlockServingStatusLabel::Suppressed => BlockServingStatusCounters {
            suppressed_count: inc(c.suppressed_count),
            ..c
        },
    }
}

/// Announcement counters after one announcement with `reason`.
pub open spec fn announcement_after(
    c: CompactRelayAnnouncementCounters,
    reason: CompactAnnouncementReason,
) -> CompactRelayAnnouncementCounters {
    match reason {
        CompactAnnouncementReason::CompactAnnounced => CompactRelayAnnouncementCounters {
            compact_announced_count: inc(c.compact_announced_count),
            ..c
        },
        CompactAnnouncementReason::CompactHeadersFallback => CompactRelayAnnouncementCounters {
            compact_headers_fallback_count: inc(c.compact_headers_fallback_count),
            ..c
        },
        CompactAnnouncementReason::CompactInventoryFallback => CompactRelayAnnouncementCounters {
            compact_inventory_fallback_count: inc(c.compact_inventory_fallback_count),
            ..c
        },
        _ => CompactRelayAnnouncementCounters { compact_suppressed_count: inc(c.compact_suppressed_count), ..c },
    }
}

/// The announcement counter that `reason` increments.
pub open spec fn announcement_counter(c: CompactRelayAnnouncementCounters, reason: CompactAnnouncementReason) -> u64 {
    match reason {
        CompactAnnouncementReason::CompactAnnounced => c.compact_announced_count,
        CompactAnnouncementReason::CompactHeadersFallback => c.compact_headers_fallback_count,
        CompactAnnouncementReason::CompactInventoryFallback => c.compact_inventory_fallback_count,
        _ => c.compact_suppressed_count,
    }
}

/// Cleanup and fallback counters after removing `n` downloads for `cause`.
pub open spec fn cleanup_after(
    c: CompactRelayCleanupCounters,
    f: CompactRelayFallbackCounters,
    cause: CompactDownloadCleanupCause,
    n: int,
) -> (CompactRelayCleanupCounters, CompactRelayFallbackCounters) {
    let c2 = CompactRelayCleanupCounters { compact_cleanup_count: plus(c.compact_cleanup_count, n), ..c };
    match cause {
        CompactDownloadCleanupCause::PeerDisconnect => (
            CompactRelayCleanupCounters {
                compact_download_peer_disconnect_count: plus(c.compact_download_peer_disconnect_count, n),
                ..c2
            },
            f,
        ),
        CompactDownloadCleanupCause::Timeout => (
            CompactRelayCleanupCounters {
                compact_download_timeout_count: plus(c.compact_download_timeout_count, n),
                ..c2
            },
            CompactRelayFallbackCounters {
                compact_timeout_count: plus(f.compact_timeout_count, n),
                compact_fallback_count: plus(f.compact_fallback_count, n),
            },
        ),
        CompactDownloadCleanupCause::Reorg => (
            CompactRelayCleanupCounters {
                compact_download_reorg_count: plus(c.compact_download_reorg_count, n),
                ..c2
            },
            f,
        ),
        CompactDownloadCleanupCause::RuntimeRestart => (
            CompactRelayCleanupCounters {
                compact_download_restart_count: plus(c.compact_download_restart_count, n),
                ..c2
            },
            f,
        ),
        CompactDownloadCleanupCause::BlockConnected => (
            CompactRelayCleanupCounters {
                compact_download_block_connected_count: plus(c.compact_download_block_connected_count, n),
                ..c2
            },
            f,
        ),
    }
}

/// Whether removing `n` downloads for `cause` keeps every touched counter in range.
pub open spec fn cleanup_fits(
    c: CompactRelayCleanupCounters,
    f: CompactRelayFallbackCounters,
    cause: CompactDownloadCleanupCause,
    n: int,
) -> bool {
    &&& c.compact_cleanup_count + n <= u64::MAX
    &&& match cause {
        CompactDownloadCleanupCause::PeerDisconnect => c.compact_download_peer_disconnect_count + n <= u64::MAX,
        CompactDownloadCleanupCause::Timeout => {
            &&& c.compact_download_timeout_count + n <= u64::MAX
            &&& f.compact_timeout_count + n <= u64::MAX
            &&& f.compact_fallback_count + n <= u64::MAX
        },
        CompactDownloadCleanupCause::Reorg => c.compact_download_reorg_count + n <= u64::MAX,
        CompactDownloadCleanupCause::RuntimeRestart => c.compact_download_restart_count + n <= u64::MAX,
        CompactDownloadCleanupCause::BlockConnected => c.compact_download_block_connected_count + n <= u64::MAX,
    }
}

impl ManagedBlockRelayEvidenceState {
    /// No evidence yet.
    pub open spec fn empty_spec() -> Self {
        ManagedBlockRelayEvidenceState {
            observed: false,
            served_count: 0,
            block_serving_eligibility: BlockServingEligibilityCounters {
                eligible_peer_count: 0,
                ineligible_peer_count: 0,
                disabled_count: 0,
                activation_required_count: 0,
                inbound_serving_required_count: 0,
                permission_required_count: 0,
                protected_not_serving_count: 0,
                status_unavailable_count: 0,
                permission_effect_inactive_count: 0,
            },
            block_serving_status: BlockServingStatusCounters {
                validated_count: 0,
                available_count: 0,
                stale_count: 0,
                side_chain_count: 0,
                pruned_count: 0,
                unavailable_count: 0,
                unvalidated_count: 0,
                unknown_count: 0,
                suppressed_count: 0,
            },
            announcement: CompactRelayAnnouncementCounters {
                compact_announced_count: 0,
                compact_headers_fallback_count: 0,
                compact_inventory_fallback_count: 0,
                compact_suppressed_count: 0,
            },
            reconstruction: CompactRelayReconstructionCounters { compact_reconstructed_count: 0, compact_malformed_count: 0 },
            missing_transaction: CompactRelayMissingTransactionCounters {
                compact_missing_tx_requested_count: 0,
                compact_missing_tx_suppressed_count: 0,
            },
            fallback: CompactRelayFallbackCounters { compact_fallback_count: 0, compact_timeout_count: 0 },
            cleanup: CompactRelayCleanupCounters {
                compact_cleanup_count: 0,
                compact_download_peer_disconnect_count: 0,
                compact_download_timeout_count: 0,
                compact_download_reorg_count: 0,
                compact_download_restart_count: 0,
                compact_download_block_connected_count: 0,
            },
        }
    }

    /// Starts with no evidence.
    pub fn new() -> (r: Self)
        ensures
            r == Self::empty_spec(),
    {
        ManagedBlockRelayEvidenceState {
            observed: false,
            served_count: 0,
            block_serving_eligibility: BlockServingEligibilityCounters {
                eligible_peer_count: 0,
                ineligible_peer_count: 0,
                disabled_count: 0,
                activation_required_count: 0,
                inbound_serving_required_count: 0,
                permission_required_count: 0,
                protected_not_serving_count: 0,
                status_unavailable_count: 0,
                permission_effect_inactive_count: 0,
            },
            block_serving_status: BlockServingStatusCounters {
                validated_count: 0,
                available_count: 0,
                stale_count: 0,
                side_chain_count: 0,
                pruned_count: 0,
                unavailable_count: 0,
                unvalidated_count: 0,
                unknown_count: 0,
                suppressed_count: 0,
            },
            announcement: CompactRelayAnnouncementCounters {
                compact_announced_count: 0,
                compact_headers_fallback_count: 0,
                compact_inventory_fallback_count: 0,
                compact_suppressed_count: 0,
            },
            reconstruction: CompactRelayReconstructionCounters { compact_reconstructed_count: 0, compact_malformed_count: 0 },
            missing_transaction: CompactRelayMissingTransactionCounters {
                compact_missing_tx_requested_count: 0,
                compact_missing_tx_suppressed_count: 0,
            },
            fallback: CompactRelayFallbackCounters { compact_fallback_count: 0, compact_timeout_count: 0 },
            cleanup: CompactRelayCleanupCounters {
                compact_cleanup_count: 0,
                compact_download_peer_disconnect_count: 0,
                compact_download_timeout_count: 0,
                compact_download_reorg_count: 0,
                compact_download_restart_count: 0,
                compact_download_block_connected_count: 0,
            },
        }
    }

    /// Marks that block relay has been observed.
    pub fn note_observed(&mut self)
        ensures
            *final(self) == (ManagedBlockRelayEvidenceState { observed: true, ..*old(self) }),
    {
        self.observed = true;
    }

    /// Counts a written wire message when it carried a full block.
    pub fn record_wire_message_written(&mut self, kind: WireMessageKind)
        requires
            kind == WireMessageKind::Block ==> old(self).served_count < u64::MAX,
        ensures
            kind != WireMessageKind::Block ==> *final(self) == *old(self),
            kind == WireMessageKind::Block ==> *final(self) == (ManagedBlockRelayEvidenceState {
                observed: true,
                served_count: inc(old(self).served_count),
                ..*old(self)
            }),
    {
        if kind != WireMessageKind::Block {
            return ;
        }
        self.note_observed();
        self.served_count = self.served_count + 1;
    }

    /// Counts one block served.
    pub fn record_block_served(&mut self)
        requires
            old(self).served_count < u64::MAX,
        ensures
            *final(self) == (ManagedBlockRelayEvidenceState {
                observed: true,
                served_count: inc(old(self).served_count),
                ..*old(self)
            }),
    {
        self.note_observed();
        self.served_count = self.served_count + 1;
    }

    /// The state after recording one block-serving decision.
    pub open spec fn after_block_serving(self, kind: InventoryKind, decision: ManagedBlockServeDecision) -> Self {
        ManagedBlockRelayEvidenceState {
            observed: true,
            block_serving_eligibility: eligibility_after(self.block_serving_eligibility, decision.eligibility_reason),
            block_serving_status: status_after(self.block_serving_status, decision.status_label),
            announcement: if kind == InventoryKind::CompactBlock {
                CompactRelayAnnouncementCounters {
                    compact_suppressed_count: inc(self.announcement.compact_suppressed_count),
                    ..self.announcement
                }
            } else {
                self.announcement
            },
            ..self
        }
    }

    /// Whether recording one block-serving decision keeps every touched counter in range.
    pub open spec fn block_serving_fits(self, kind: InventoryKind, decision: ManagedBlockServeDecision) -> bool {
        &&& eligibility_fits(self.block_serving_eligibility, decision.eligibility_reason)
        &&& status_counter(self.block_serving_status, decision.status_label) < u64::MAX
        &&& kind == InventoryKind::CompactBlock ==> self.announcement.compact_suppressed_count < u64::MAX
    }

    /// Counts one block-serving decision by eligibility and status; a
    /// compact-block request also counts as a suppressed announcement.
    pub fn record_block_serving(&mut self, kind: InventoryKind, decision: &ManagedBlockServeDecision)
        requires
            old(self).block_serving_fits(kind, *decision),
        ensures
            *final(self) == old(self).after_block_serving(kind, *decision),
    {
        self.note_observed();
        let mut e = self.block_serving_eligibility;
        match decision.eligibility_reason {
            BlockServingEligibilityReason::Eligible => {
                e.eligible_peer_count = e.eligible_peer_count + 1;
            },
            BlockServingEligibilityReason::Disabled => {
                e.ineligible_peer_count = e.ineligible_peer_count + 1;
                e.disabled_count = e.disabled_count + 1;
            },
            BlockServingEligibilityReason::ActivationRequired => {
                e.ineligible_peer_count = e.ineligible_peer_count + 1;
                e.activation_required_count = e.activation_required_count + 1;
            },
            BlockServingEligibilityReason::InboundServingRequired => {
                e.ineligible_peer_count = e.ineligible_peer_count + 1;
                e.inbound_serving_required_count = e.inbound_serving_required_count + 1;
            },
            BlockServingEligibilityReason::PermissionRequired => {
                e.ineligible_peer_count = e.ineligible_peer_count + 1;
                e.permission_required_count = e.permission_required_count + 1;
            },
            BlockServingEligibilityReason::ProtectedNotServing => {
                e.ineligible_peer_count = e.ineligible_peer_count + 1;
                e.protected_not_serving_count = e.protected_not_serving_count + 1;
            },
            BlockServingEligibilityReason::StatusUnavailable => {
                e.ineligible_peer_count = e.ineligible_peer_count + 1;
                e.status_unavailable_count = e.status_unavailable_count + 1;
            },
            BlockServingEligibilityReason::PermissionEffectInactive => {
                e.ineligible_peer_count = e.ineligible_peer_count + 1;
                e.permission_effect_inactive_count = e.permission_effect_inactive_count + 1;
            },
        }
        self.block_serving_eligibility = e;
        let mut s = self.block_serving_status;
        match decision.status_label {
            BlockServingStatusLabel::Validated => s.validated_count = s.validated_count + 1,
            BlockServingStatusLabel::Available => s.available_count = s.available_count + 1,
            BlockServingStatusLabel::Stale => s.stale_count = s.stale_count + 1,
            BlockServingStatusLabel::SideChain => s.side_chain_count = s.side_chain_count + 1,
            BlockServingStatusLabel::Pruned => s.pruned_count = s.pruned_count + 1,
            BlockServingStatusLabel::Unavailable => s.unavailable_count = s.unavailable_count + 1,
            BlockServingStatusLabel::Unvalidated => s.unvalidated_count = s.unvalidated_count + 1,
            BlockServingStatusLabel::Unknown => s.unknown_count = s.unknown_count + 1,
            BlockServingStatusLabel::Suppressed => s.suppressed_count = s.suppressed_count + 1,
        }
        self.block_serving_status = s;
        if kind == InventoryKind::CompactBlock {
            self.announcement.compact_suppressed_count = self.announcement.compact_suppressed_count + 1;
        }
    }

    /// Counts one compact announcement by its reason.
    pub fn record_announcement(&mut self, reason: CompactAnnouncementReason)
        requires
            announcement_counter(old(self).announcement, reason) < u64::MAX,
        ensures
            *final(self) == (ManagedBlockRelayEvidenceState {
                observed: true,
                announcement: announcement_after(old(self).announcement, reason),
                ..*old(self)
            }),
    {
        self.note_observed();
        match reason {
            CompactAnnouncementReason::CompactAnnounced => {
                self.announcement.compact_announced_count = self.announcement.compact_announced_count + 1;
            },
            CompactAnnouncementReason::CompactHeadersFallback => {
                self.announcement.compact_headers_fallback_count = self.announcement.compact_headers_fallback_count
                    + 1;
            },
            CompactAnnouncementReason::CompactInventoryFallback => {
                self.announcement.compact_inventory_fallback_count =
                self.announcement.compact_inventory_fallback_count + 1;
            },
            _ => {
                self.announcement.compact_suppressed_count = self.announcement.compact_suppressed_count + 1;
            },
        }
    }

    /// Counts one compact `getblocktxn` serve outcome.
    pub fn record_compact_block_txn_serve_outcome(&mut self, outcome: CompactBlockTxnServeOutcome)
        requires
            outcome is Suppressed ==> old(self).missing_transaction.compact_missing_tx_suppressed_count < u64::MAX,
            outcome is Malformed ==> old(self).reconstruction.compact_malformed_count < u64::MAX,
        ensures
            outcome is Served ==> *final(self) == (ManagedBlockRelayEvidenceState { observed: true, ..*old(self) }),
            outcome is Suppressed ==> *final(self) == (ManagedBlockRelayEvidenceState {
                observed: true,
                missing_transaction: CompactRelayMissingTransactionCounters {
                    compact_missing_tx_suppressed_count: inc(
                        old(self).missing_transaction.compact_missing_tx_suppressed_count,
                    ),
                    ..old(self).missing_transaction
                },
                ..*old(self)
            }),
            outcome is Malformed ==> *final(self) == (ManagedBlockRelayEvidenceState {
                observed: true,
                reconstruction: CompactRelayReconstructionCounters {
                    compact_malformed_count: inc(old(self).reconstruction.compact_malformed_count),
                    ..old(self).reconstruction
                },
                ..*old(self)
            }),
    {
        self.note_observed();
        match outcome {
            CompactBlockTxnServeOutcome::Served => {},
            CompactBlockTxnServeOutcome::Suppressed(_) => {
                self.missing_transaction.compact_missing_tx_suppressed_count =
                self.missing_transaction.compact_missing_tx_suppressed_count + 1;
            },
            CompactBlockTxnServeOutcome::Malformed(_) => {
                self.reconstruction.compact_malformed_count = self.reconstruction.compact_malformed_count + 1;
            },
        }
    }

    /// Counts `removed_count` compact downloads removed for `cause`; a
    /// timeout also counts as a timeout and a full-block fallback.
    pub fn record_cleanup(&mut self, cause: CompactDownloadCleanupCause, removed_count: usize)
        requires
            cleanup_fits(old(self).cleanup, old(self).fallback, cause, removed_count as int),
        ensures
            removed_count == 0 ==> *final(self) == *old(self),
            removed_count > 0 ==> *final(self) == (ManagedBlockRelayEvidenceState {
                observed: true,
                cleanup: cleanup_after(old(self).cleanup, old(self).fallback, cause, removed_count as int).0,
                fallback: cleanup_after(old(self).cleanup, old(self).fallback, cause, removed_count as int).1,
                ..*old(self)
            }),
    {
        if removed_count == 0 {
            return ;
        }
        self.note_observed();
        let n = removed_count as u64;
        self.cleanup.compact_cleanup_count = self.cleanup.compact_cleanup_count + n;
        match cause {
            CompactDownloadCleanupCause::PeerDisconnect => {
                self.cleanup.compact_download_peer_disconnect_count = self.cleanup.compact_download_peer_disconnect_count
                    + n;
            },
            CompactDownloadCleanupCause::Timeout => {
                self.cleanup.compact_download_timeout_count = self.cleanup.compact_download_timeout_count + n;
                self.fallback.compact_timeout_count = self.fallback.compact_timeout_count + n;
                self.fallback.compact_fallback_count = self.fallback.compact_fallback_count + n;
            },
            CompactDownloadCleanupCause::Reorg => {
                self.cleanup.compact_download_reorg_count = self.cleanup.compact_download_reorg_count + n;
            },
            CompactDownloadCleanupCause::RuntimeRestart => {
                self.cleanup.compact_download_restart_count = self.cleanup.compact_download_restart_count + n;
            },
            CompactDownloadCleanupCause::BlockConnected => {
                self.cleanup.compact_download_block_connected_count = self.cleanup.compact_download_block_connected_count
                    + n;
            },
        }
    }
}

/// What a peer advertised of compact-block relay.
#[derive(Debug, Clone, Copy, PartialEq, Eq, Structural, Hash)]
pub enum CompactRelayCapability {
    Unknown,
    Supported { version: u64 },
    Unsupported { version: u64 },
}

/// A peer's stated bandwidth preference for compact blocks.
#[derive(Debug, Clone, Copy, PartialEq, Eq, Structural, Hash)]
pub enum CompactRelayPreference {
    Unknown,
    Requested,
    NotRequested,
}

/// The compact-relay facts of one live peer.
#[derive(Debug, Clone, Copy, PartialEq, Eq, Structural)]
pub struct CompactPeerFacts {
    pub capability: CompactRelayCapability,
    pub high_bandwidth_preference: CompactRelayPreference,
    pub low_bandwidth_preference: CompactRelayPreference,
    pub in_flight_count: u64,
    pub getblocktxn_in_flight_count: u64,
}

/// Negotiated compact-relay modes over live peers.
#[derive(Debug, Clone, Copy, PartialEq, Eq, Structural, Default)]
pub struct CompactRelayNegotiationCounters {
    pub version2_high_bandwidth_count: u64,
    pub version2_low_bandwidth_count: u64,
    pub unsupported_version_count: u64,
}

/// Compact downloads in flight over live peers.
#[derive(Debug, Clone, Copy, PartialEq, Eq, Structural, Default)]
pub struct CompactRelayInFlightCounters {
    pub in_flight_count: u64,
    pub peers_with_in_flight_count: u64,
    pub getblocktxn_in_flight_count: u64,
}

/// Whether a peer carries any compact-relay state.
pub open spec fn peer_is_live(p: CompactPeerFacts) -> bool {
    ||| !(p.capability is Unknown)
    ||| !(p.high_bandwidth_preference is Unknown)
    ||| !(p.low_bandwidth_preference is Unknown)
    ||| p.in_flight_count > 0
}

/// Whether a peer negotiated version-2 high-bandwidth relay.
pub open spec fn is_v2_high(p: CompactPeerFacts) -> bool {
    p.capability == CompactRelayCapability::Supported { version: 2 } && p.high_bandwidth_preference
        == CompactRelayPreference::Requested
}

/// Whether a peer negotiated version-2 low-bandwidth relay (and not high).
pub open spec fn is_v2_low(p: CompactPeerFacts) -> bool {
    p.capability == CompactRelayCapability::Supported { version: 2 } && p.high_bandwidth_preference
        != CompactRelayPreference::Requested && p.low_bandwidth_preference == CompactRelayPreference::Requested
}

/// How many peers satisfy `f`.
pub open spec fn count_peers(peers: Seq<CompactPeerFacts>, f: spec_fn(CompactPeerFacts) -> bool) -> nat
    decreases peers.len(),
{
    if peers.len() == 0 {
        0
    } else {
        count_peers(peers.drop_last(), f) + if f(peers.last()) {
            1nat
        } else {
            0nat
        }
    }
}

/// The sum of in-flight downloads over `peers`.
pub open spec fn sum_in_flight(peers: Seq<CompactPeerFacts>) -> nat
    decreases peers.len(),
{
    if peers.len() == 0 {
        0
    } else {
        sum_in_flight(peers.drop_last()) + peers.last().in_flight_count as nat
    }
}

/// The sum of `getblocktxn` requests in flight over peers with downloads in flight.
pub open spec fn sum_getblocktxn(peers: Seq<CompactPeerFacts>) -> nat
    decreases peers.len(),
{
    if peers.len() == 0 {
        0
    } else {
        sum_getblocktxn(peers.drop_last()) + if peers.last().in_flight_count > 0 {
            peers.last().getblocktxn_in_flight_count as nat
        } else {
            0nat
        }
    }
}

proof fn lemma_count_peers_bounded(peers: Seq<CompactPeerFacts>, f: spec_fn(CompactPeerFacts) -> bool)
    ensures
        count_peers(peers, f) <= peers.len(),
    decreases peers.len(),
{
    if peers.len() > 0 {
        lemma_count_peers_bounded(peers.drop_last(), f);
    }
}

proof fn lemma_sums_monotone(peers: Seq<CompactPeerFacts>, i: int)
    requires
        0 <= i <= peers.len(),
    ensures
        sum_in_flight(peers.take(i)) <= sum_in_flight(peers),
        sum_getblocktxn(peers.take(i)) <= sum_getblocktxn(peers),
    decreases peers.len() - i,
{
    if i < peers.len() {
        lemma_sums_monotone(peers, i + 1);
        assert(peers.take(i + 1).drop_last() =~= peers.take(i));
    } else {
        assert(peers.take(i) =~= peers);
    }
}

/// Whether any peer carries compact-relay state.
pub fn has_live_compact_state(peers: &Vec<CompactPeerFacts>) -> (r: bool)
    ensures
        r == exists|i: int| 0 <= i < peers@.len() && peer_is_live(#[trigger] peers@[i]),
{
    let mut i: usize = 0;
    while i < peers.len()
        invariant
            i <= peers@.len(),
            forall|j: int| 0 <= j < i ==> !peer_is_live(#[trigger] peers@[j]),
        decreases peers@.len() - i,
    {
        let p = peers[i];
        let live = !matches!(p.capability, CompactRelayCapability::Unknown)
            || !matches!(p.high_bandwidth_preference, CompactRelayPreference::Unknown)
            || !matches!(p.low_bandwidth_preference, CompactRelayPreference::Unknown)
            || p.in_flight_count > 0;
        if live {
            assert(peer_is_live(peers@[i as int]));
            return true;
        }
        i = i + 1;
    }
    false
}

/// The negotiated modes counted over `peers`.
pub fn negotiation_counters(peers: &Vec<CompactPeerFacts>) -> (r: CompactRelayNegotiationCounters)
    ensures
        r.version2_high_bandwidth_count == count_peers(peers@, |p: CompactPeerFacts| is_v2_high(p)),
        r.version2_low_bandwidth_count == count_peers(peers@, |p: CompactPeerFacts| is_v2_low(p)),
        r.unsupported_version_count == count_peers(
            peers@,
            |p: CompactPeerFacts| p.capability is Unsupported,
        ),
{
    let ghost fh = |p: CompactPeerFacts| is_v2_high(p);
    let ghost fl = |p: CompactPeerFacts| is_v2_low(p);
    let ghost fu = |p: CompactPeerFacts| p.capability is Unsupported;
    let mut counters = CompactRelayNegotiationCounters {
        version2_high_bandwidth_count: 0,
        version2_low_bandwidth_count: 0,
        unsupported_version_count: 0,
    };
    let mut i: usize = 0;
    while i < peers.len()
        invariant
            i <= peers@.len(),
            counters.version2_high_bandwidth_count == count_peers(peers@.take(i as int), fh),
            counters.version2_low_bandwidth_count == count_peers(peers@.take(i as int), fl),
            counters.unsupported_version_count == count_peers(peers@.take(i as int), fu),
            fh == (|p: CompactPeerFacts| is_v2_high(p)),
            fl == (|p: CompactPeerFacts| is_v2_low(p)),
            fu == (|p: CompactPeerFacts| p.capability is Unsupported),
        decreases peers@.len() - i,
    {
        let p = peers[i];
        proof {
            assert(peers@.take(i + 1).drop_last() =~= peers@.take(i as int));
            assert(peers@.take(i + 1).last() == p);
            lemma_count_peers_bounded(peers@.take(i as int), fh);
            lemma_count_peers_bounded(peers@.take(i as int), fl);
            lemma_count_peers_bounded(peers@.take(i as int), fu);
        }
        let v2 = match p.capability {
            CompactRelayCapability::Supported { version } => version == 2,
            _ => false,
        };
        if v2 && matches!(p.high_bandwidth_preference, CompactRelayPreference::Requested) {
            counters.version2_high_bandwidth_count = counters.version2_high_bandwidth_count + 1;
        } else if v2 && matches!(p.low_bandwidth_preference, CompactRelayPreference::Requested) {
            counters.version2_low_bandwidth_count = counters.version2_low_bandwidth_count + 1;
        } else if matches!(p.capability, CompactRelayCapability::Unsupported { .. }) {
            counters.unsupported_version_count = counters.unsupported_version_count + 1;
        }
        i = i + 1;
    }
    assert(peers@.take(peers@.len() as int) =~= peers@);
    counters
}

/// The downloads in flight counted over `peers`.
pub fn in_flight_counters(peers: &Vec<CompactPeerFacts>) -> (r: CompactRelayInFlightCounters)
    requires
        sum_in_flight(peers@) <= u64::MAX,
        sum_getblocktxn(peers@) <= u64::MAX,
    ensures
        r.in_flight_count == sum_in_flight(peers@),
        r.peers_with_in_flight_count == count_peers(peers@, |p: CompactPeerFacts| p.in_flight_count > 0),
        r.getblocktxn_in_flight_count == sum_getblocktxn(peers@),
{
    let ghost fp = |p: CompactPeerFacts| p.in_flight_count > 0;
    let mut counters = CompactRelayInFlightCounters {
        in_flight_count: 0,
        peers_with_in_flight_count: 0,
        getblocktxn_in_flight_count: 0,
    };
    let mut i: usize = 0;
    while i < peers.len()
        invariant
            i <= peers@.len(),
            sum_in_flight(peers@) <= u64::MAX,
            sum_getblocktxn(peers@) <= u64::MAX,
            counters.in_flight_count == sum_in_flight(peers@.take(i as int)),
            counters.peers_with_in_flight_count == count_peers(peers@.take(i as int), fp),
            counters.getblocktxn_in_flight_count == sum_getblocktxn(peers@.take(i as int)),
            fp == (|p: CompactPeerFacts| p.in_flight_count > 0),
        decreases peers@.len() - i,
    {
        let p = peers[i];
        proof {
            assert(peers@.take(i + 1).drop_last() =~= peers@.take(i as int));
            assert(peers@.take(i + 1).last() == p);
            lemma_sums_monotone(peers@, i + 1);
            lemma_count_peers_bounded(peers@.take(i as int), fp);
        }
        if p.in_flight_count > 0 {
            counters.in_flight_count = counters.in_flight_count + p.in_flight_count;
            counters.peers_with_in_flight_count = counters.peers_with_in_flight_count + 1;
            counters.getblocktxn_in_flight_count = counters.getblocktxn_in_flight_count
                + p.getblocktxn_in_flight_count;
        }
        i = i + 1;
    }
    assert(peers@.take(peers@.len() as int) =~= peers@);
    counters
}

proof fn lemma_action_counts_monotone(actions: Seq<CompactDownloadAction>, i: int)
    requires
        0 <= i <= actions.len(),
    ensures
        count_requested(actions.take(i)) <= count_requested(actions),
        count_fallbacks(actions.take(i)) <= count_fallbacks(actions),
        count_received(actions.take(i)) <= count_received(actions),
    decreases actions.len() - i,
{
    if i < actions.len() {
        lemma_action_counts_monotone(actions, i + 1);
        assert(actions.take(i + 1).drop_last() =~= actions.take(i));
    } else {
        assert(actions.take(i) =~= actions);
    }
}

/// Whether `kinds` holds a full-block request.
fn any_block_request(kinds: &Vec<InventoryKind>) -> (r: bool)
    ensures
        r == requests_block(kinds@),
{
    let mut i: usize = 0;
    while i < kinds.len()
        invariant
            i <= kinds@.len(),
            forall|j: int| 0 <= j < i ==> kinds@[j] != InventoryKind::Block,
        decreases kinds@.len() - i,
    {
        if kinds[i] == InventoryKind::Block {
            return true;
        }
        i = i + 1;
    }
    false
}

/// Block-serving activation as configured.
#[derive(Debug, Clone, Copy, PartialEq, Eq, Structural)]
pub struct BlockServingActivationEvidence {
    pub block_serving_enabled: bool,
    pub compact_relay_enabled: bool,
}

/// Block-serving evidence: activation and the request counters.
#[derive(Debug, Clone, Copy, PartialEq, Eq, Structural)]
pub struct BlockServingEvidenceStatus {
    pub activation: BlockServingActivationEvidence,
    pub eligibility: BlockServingEligibilityCounters,
    pub status: BlockServingStatusCounters,
}

/// Every block-relay counter, once relay has been observed.
#[derive(Debug, Clone, Copy, PartialEq, Eq, Structural)]
pub struct BlockRelayEvidenceCounters {
    pub block_serving: BlockServingEvidenceStatus,
    pub negotiation: CompactRelayNegotiationCounters,
    pub announcement: CompactRelayAnnouncementCounters,
    pub reconstruction: CompactRelayReconstructionCounters,
    pub missing_transaction: CompactRelayMissingTransactionCounters,
    pub fallback: CompactRelayFallbackCounters,
    pub in_flight: CompactRelayInFlightCounters,
    pub cleanup: CompactRelayCleanupCounters,
}

/// Block-relay evidence as reported: unavailable until anything was observed.
#[derive(Debug, Clone, Copy, PartialEq, Eq, Structural)]
pub enum BlockRelayEvidenceStatus {
    Unavailable,
    Observed(BlockRelayEvidenceCounters),
}

/// The reported status and the count of blocks served.
#[derive(Debug, Clone, Copy, PartialEq, Eq, Structural)]
pub struct BlockRelayRuntimeEvidenceSnapshot {
    pub status: BlockRelayEvidenceStatus,
    pub served_count: u64,
}

impl ManagedBlockRelayEvidenceState {
    /// Counts the `getblocktxn` requests, full-block fallbacks and
    /// reconstructed blocks among `actions`.
    pub fn record_compact_download_actions(&mut self, actions: &Vec<CompactDownloadAction>)
        requires
            old(self).missing_transaction.compact_missing_tx_requested_count + count_requested(actions@)
                <= u64::MAX,
            old(self).fallback.compact_fallback_count + count_fallbacks(actions@) <= u64::MAX,
            old(self).reconstruction.compact_reconstructed_count + count_received(actions@) <= u64::MAX,
        ensures
            actions@.len() == 0 ==> *final(self) == *old(self),
            actions@.len() > 0 ==> *final(self) == (ManagedBlockRelayEvidenceState {
                observed: true,
                missing_transaction: CompactRelayMissingTransactionCounters {
                    compact_missing_tx_requested_count: plus(
                        old(self).missing_transaction.compact_missing_tx_requested_count,
                        count_requested(actions@) as int,
                    ),
                    ..old(self).missing_transaction
                },
                fallback: CompactRelayFallbackCounters {
                    compact_fallback_count: plus(old(self).fallback.compact_fallback_count, count_fallbacks(actions@) as int),
                    ..old(self).fallback
                },
                reconstruction: CompactRelayReconstructionCounters {
                    compact_reconstructed_count: plus(
                        old(self).reconstruction.compact_reconstructed_count,
                        count_received(actions@) as int,
                    ),
                    ..old(self).reconstruction
                },
                ..*old(self)
            }),
    {
        if actions.len() == 0 {
            return ;
        }
        self.note_observed();
        let ghost start = *self;
        let mut i: usize = 0;
        while i < actions.len()
            invariant
                i <= actions@.len(),
                start.missing_transaction.compact_missing_tx_requested_count + count_requested(actions@) <= u64::MAX,
                start.fallback.compact_fallback_count + count_fallbacks(actions@) <= u64::MAX,
                start.reconstruction.compact_reconstructed_count + count_received(actions@) <= u64::MAX,
                *self == (ManagedBlockRelayEvidenceState {
                    missing_transaction: CompactRelayMissingTransactionCounters {
                        compact_missing_tx_requested_count: plus(
                            start.missing_transaction.compact_missing_tx_requested_count,
                            count_requested(actions@.take(i as int)) as int,
                        ),
                        ..start.missing_transaction
                    },
                    fallback: CompactRelayFallbackCounters {
                        compact_fallback_count: plus(
                            start.fallback.compact_fallback_count,
                            count_fallbacks(actions@.take(i as int)) as int,
                        ),
                        ..start.fallback
                    },
                    reconstruction: CompactRelayReconstructionCounters {
                        compact_reconstructed_count: plus(
                            start.reconstruction.compact_reconstructed_count,
                            count_received(actions@.take(i as int)) as int,
                        ),
                        ..start.reconstruction
                    },
                    ..start
                }),
            decreases actions@.len() - i,
        {
            proof {
                assert(actions@.take(i + 1).drop_last() =~= actions@.take(i as int));
                assert(actions@.take(i + 1).last() == actions@[i as int]);
                lemma_action_counts_monotone(actions@, i + 1);
            }
            match &actions[i] {
                CompactDownloadAction::SendGetBlockTxn => {
                    self.missing_transaction.compact_missing_tx_requested_count =
                    self.missing_transaction.compact_missing_tx_requested_count + 1;
                },
                CompactDownloadAction::SendGetData(kinds) => {
                    if any_block_request(kinds) {
                        self.fallback.compact_fallback_count = self.fallback.compact_fallback_count + 1;
                    }
                },
                CompactDownloadAction::ReceivedBlock => {
                    self.reconstruction.compact_reconstructed_count = self.reconstruction.compact_reconstructed_count
                        + 1;
                },
                CompactDownloadAction::Other => {},
            }
            i = i + 1;
        }
        assert(actions@.take(actions@.len() as int) =~= actions@);
    }

    /// The evidence as reported, given the live peers' compact facts and
    /// the block-relay activation.
    pub open spec fn observed_status_spec(
        self,
        peers: Seq<CompactPeerFacts>,
        block_serving_enabled: bool,
        compact_relay_enabled: bool,
    ) -> BlockRelayEvidenceStatus {
        if !self.observed && !(exists|i: int| 0 <= i < peers.len() && peer_is_live(#[trigger] peers[i])) {
            BlockRelayEvidenceStatus::Unavailable
        } else {
            BlockRelayEvidenceStatus::Observed(
                BlockRelayEvidenceCounters {
                    block_serving: BlockServingEvidenceStatus {
                        activation: BlockServingActivationEvidence { block_serving_enabled, compact_relay_enabled },
                        eligibility: self.block_serving_eligibility,
                        status: self.block_serving_status,
                    },
                    negotiation: CompactRelayNegotiationCounters {
                        version2_high_bandwidth_count: count_peers(peers, |p: CompactPeerFacts| is_v2_high(p)) as u64,
                        version2_low_bandwidth_count: count_peers(peers, |p: CompactPeerFacts| is_v2_low(p)) as u64,
                        unsupported_version_count: count_peers(
                            peers,
                            |p: CompactPeerFacts| p.capability is Unsupported,
                        ) as u64,
                    },
                    announcement: self.announcement,
                    reconstruction: self.reconstruction,
                    missing_transaction: self.missing_transaction,
                    fallback: self.fallback,
                    in_flight: CompactRelayInFlightCounters {
                        in_flight_count: sum_in_flight(peers) as u64,
                        peers_with_in_flight_count: count_peers(
                            peers,
                            |p: CompactPeerFacts| p.in_flight_count > 0,
                        ) as u64,
                        getblocktxn_in_flight_count: sum_getblocktxn(peers) as u64,
                    },
                    cleanup: self.cleanup,
                },
            )
        }
    }

    /// The evidence as reported: unavailable until relay was observed or a
    /// peer carries compact state; otherwise every counter.
    pub fn observed_status(
        &self,
        peers: &Vec<CompactPeerFacts>,
        block_serving_enabled: bool,
        compact_relay_enabled: bool,
    ) -> (r: BlockRelayEvidenceStatus)
        requires
            sum_in_flight(peers@) <= u64::MAX,
            sum_getblocktxn(peers@) <= u64::MAX,
        ensures
            r == self.observed_status_spec(peers@, block_serving_enabled, compact_relay_enabled),
    {
        if !self.observed && !has_live_compact_state(peers) {
            return BlockRelayEvidenceStatus::Unavailable;
        }
        let negotiation = negotiation_counters(peers);
        let in_flight = in_flight_counters(peers);
        BlockRelayEvidenceStatus::Observed(
            BlockRelayEvidenceCounters {
                block_serving: BlockServingEvidenceStatus {
                    activation: BlockServingActivationEvidence { block_serving_enabled, compact_relay_enabled },
                    eligibility: self.block_serving_eligibility,
                    status: self.block_serving_status,
                },
                negotiation,
                announcement: self.announcement,
                reconstruction: self.reconstruction,
                missing_transaction: self.missing_transaction,
                fallback: self.fallback,
                in_flight,
                cleanup: self.cleanup,
            },
        )
    }

    /// The reported status and the count of blocks served.
    pub fn runtime_snapshot(
        &self,
        peers: &Vec<CompactPeerFacts>,
        block_serving_enabled: bool,
        compact_relay_enabled: bool,
    ) -> (r: BlockRelayRuntimeEvidenceSnapshot)
        requires
            sum_in_flight(peers@) <= u64::MAX,
            sum_getblocktxn(peers@) <= u64::MAX,
        ensures
            r.status == self.observed_status_spec(peers@, block_serving_enabled, compact_relay_enabled),
            r.served_count == self.served_count,
    {
        BlockRelayRuntimeEvidenceSnapshot {
            status: self.observed_status(peers, block_serving_enabled, compact_relay_enabled),
            served_count: self.served_count,
        }
    }

    /// Records a finished block serve: its decision always, and one block
    /// served when the completion wrote one.
    pub fn complete_block_serve(&mut self, completion: &ManagedBlockServeCompletion)
        requires
            old(self).block_serving_fits(completion.request.inventory_type, completion.decision),
            completion.outcome == ManagedBlockServeCompletionOutcome::Written ==> old(self).served_count < u64::MAX,
        ensures
            completion.outcome == ManagedBlockServeCompletionOutcome::Written ==> *final(self) == (ManagedBlockRelayEvidenceState {
                served_count: inc(old(self).served_count),
                ..old(self).after_block_serving(completion.request.inventory_type, completion.decision)
            }),
            completion.outcome != ManagedBlockServeCompletionOutcome::Written ==> *final(self) == old(self).after_block_serving(
                completion.request.inventory_type,
                completion.decision,
            ),
    {
        self.record_block_serving(completion.request.inventory_type, &completion.decision);
        if completion.records_served_effect() {
            self.record_block_served();
        }
    }
}

} // verus!
