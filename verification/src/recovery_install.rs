//! Validation of a prepared mempool recovery before it replaces a fresh
//! startup authority, and the plan it installs.
use vstd::prelude::*;
use crate::effects::PolicyTime;
use crate::generation::{AuthorityEpoch, LifecycleGeneration};
use crate::identity::{Hash32, MemberIdentity, copy_vec, members_contain};
use crate::lifecycle::{LifecycleEvidenceSnapshot, LifecycleReconciliationReport, zero_evidence};
use crate::checkpoint_evidence::fresh_checkpoint_state;
use crate::network::{ManagedNetworkError, ManagedPeerNetwork};
use crate::recovery::{
    ManagedMempoolRecoverySummary, MempoolRecoveryRecord, RecoveryClassification, has_txid, members_have_txid,
};

verus! {

/// Why a prepared recovery may not be installed.
#[derive(Debug, Clone, Copy, PartialEq, Eq, Structural, Hash)]
pub enum RecoveryInstallError {
    StaleAuthorityEpoch,
    StaleChainstate,
    NonFreshAuthority,
    PendingLifecycleEffects,
    InvalidPreparedRecovery,
}

impl RecoveryInstallError {
    pub fn message(&self) -> (r: &'static str)
        ensures
            r == (match self {
                RecoveryInstallError::StaleAuthorityEpoch => "prepared recovery belongs to another authority incarnation",
                RecoveryInstallError::StaleChainstate => "chainstate changed after mempool recovery preparation",
                RecoveryInstallError::NonFreshAuthority => "mempool recovery requires a fresh startup authority",
                RecoveryInstallError::PendingLifecycleEffects => "mempool recovery cannot replace pending lifecycle effects",
                RecoveryInstallError::InvalidPreparedRecovery => "prepared mempool recovery is internally inconsistent",
            }),
    {
        match self {
            RecoveryInstallError::StaleAuthorityEpoch => "prepared recovery belongs to another authority incarnation",
            RecoveryInstallError::StaleChainstate => "chainstate changed after mempool recovery preparation",
            RecoveryInstallError::NonFreshAuthority => "mempool recovery requires a fresh startup authority",
            RecoveryInstallError::PendingLifecycleEffects => "mempool recovery cannot replace pending lifecycle effects",
            RecoveryInstallError::InvalidPreparedRecovery => "prepared mempool recovery is internally inconsistent",
        }
    }
}

/// A recovery prepared from a snapshot, before installation.
#[derive(Debug, Clone, PartialEq, Eq)]
pub struct PreparedMempoolRecovery {
    pub authority_epoch: AuthorityEpoch,
    pub maybe_chainstate_tip: Option<Hash32>,
    pub staged_members: Vec<MemberIdentity>,
    pub recovery_records: Vec<MempoolRecoveryRecord>,
    pub unbroadcast_members: Vec<MemberIdentity>,
    pub ordered_survivors: Vec<MemberIdentity>,
    pub captured_generation: Option<u64>,
    pub captured_at: Option<PolicyTime>,
    pub startup_at: PolicyTime,
}

/// What the peer manager reports of its transaction lifecycle state.
#[derive(Debug, Clone, Copy, PartialEq, Eq, Structural)]
pub struct PeerLifecycleFacts {
    pub candidate_count: usize,
    pub in_flight_count: usize,
    pub already_have_count: usize,
    pub known_identities: usize,
    pub orphan_transactions: usize,
    pub candidate_cursors: usize,
    pub accepted_packages: usize,
    pub compact_download_peers: usize,
}

/// Whether the peer manager holds no transaction lifecycle state.
pub open spec fn peer_idle(p: PeerLifecycleFacts) -> bool {
    p.candidate_count == 0 && p.in_flight_count == 0 && p.already_have_count == 0 && p.known_identities == 0
        && p.orphan_transactions == 0 && p.candidate_cursors == 0 && p.accepted_packages == 0
        && p.compact_download_peers == 0
}

/// Whether `network` is still the fresh startup authority: empty mempool,
/// initial generation, nothing dirty, zero evidence, no checkpoint ever
/// attempted, no recovery installed, every projection reconciled, and an
/// idle peer lifecycle.
pub open spec fn fresh_spec(
    network: &ManagedPeerNetwork,
    mempool_empty: bool,
    report: LifecycleReconciliationReport,
    peer: PeerLifecycleFacts,
) -> bool {
    &&& mempool_empty
    &&& network.authority.lifecycle_generation == LifecycleGeneration(0)
    &&& network.authority.dirty_generation is None
    &&& network.authority.lifecycle_evidence == zero_evidence()
    &&& network.authority.checkpoint_evidence == fresh_checkpoint_state()
    &&& network.latest_mempool_recovery is None
    &&& (forall|i: int| 0 <= i < 7 ==> report.counts@[i] == 0)
    &&& peer_idle(peer)
}

/// Whether `network` is still the fresh startup authority.
pub fn is_fresh_for_recovery_install(
    network: &ManagedPeerNetwork,
    mempool_empty: bool,
    report: &LifecycleReconciliationReport,
    peer: PeerLifecycleFacts,
) -> (r: bool)
    ensures
        r == fresh_spec(network, mempool_empty, *report, peer),
{
    mempool_empty && network.authority.lifecycle_generation.0 == 0 && network.authority.dirty_generation.is_none()
        && network.authority.lifecycle_evidence.committed_transitions == 0
        && network.authority.lifecycle_evidence.admitted_members == 0
        && network.authority.lifecycle_evidence.removed_members == 0
        && network.authority.lifecycle_evidence.retry_clears == 0
        && network.authority.lifecycle_evidence.replacement_removals == 0
        && network.authority.lifecycle_evidence.expiry_removals == 0
        && network.authority.lifecycle_evidence.pressure_removals == 0
        && network.authority.lifecycle_evidence.block_confirmation_removals == 0
        && network.authority.lifecycle_evidence.block_conflict_removals == 0
        && network.authority.lifecycle_evidence.reorg_removals == 0
        && network.authority.checkpoint_evidence.is_fresh_start() && network.latest_mempool_recovery.is_none()
        && report.is_clean() && peer.candidate_count == 0 && peer.in_flight_count == 0 && peer.already_have_count == 0
        && peer.known_identities == 0 && peer.orphan_transactions == 0 && peer.candidate_cursors == 0
        && peer.accepted_packages == 0 && peer.compact_download_peers == 0
}

/// What installing a validated recovery sets.
#[derive(Debug, Clone, PartialEq, Eq)]
pub struct RecoveryInstallPlan {
    pub generation: LifecycleGeneration,
    pub maybe_captured_at: Option<PolicyTime>,
    pub lifecycle_evidence: LifecycleEvidenceSnapshot,
    pub summary: ManagedMempoolRecoverySummary,
    pub unbroadcast_members: Vec<MemberIdentity>,
    pub ordered_survivors: Vec<MemberIdentity>,
}

/// The generation a recovery installs.
pub open spec fn install_generation(p: PreparedMempoolRecovery) -> LifecycleGeneration {
    match p.captured_generation {
        Some(g) => LifecycleGeneration(g),
        None => LifecycleGeneration(0),
    }
}

/// Whether the survivors are exactly the staged members, each once, and
/// the unbroadcast members are staged too.
pub open spec fn survivors_consistent(p: PreparedMempoolRecovery) -> bool {
    &&& p.ordered_survivors@.to_set() == p.staged_members@.to_set()
    &&& p.ordered_survivors@.len() == p.staged_members@.len()
    &&& p.unbroadcast_members@.to_set().subset_of(p.staged_members@.to_set())
}

/// Whether no two staged members share a txid.
pub open spec fn staged_txids_distinct(staged: Seq<MemberIdentity>) -> bool {
    forall|i: int, j: int| 0 <= i < staged.len() && 0 <= j < staged.len() && i != j ==> staged[i].txid != staged[j].txid
}

fn all_contained(v: &Vec<MemberIdentity>, w: &Vec<MemberIdentity>) -> (r: bool)
    ensures
        r == v@.to_set().subset_of(w@.to_set()),
{
    let mut i: usize = 0;
    while i < v.len()
        invariant
            i <= v@.len(),
            forall|j: int| 0 <= j < i ==> w@.contains(#[trigger] v@[j]),
        decreases v@.len() - i,
    {
        if !members_contain(w, v[i]) {
            assert(v@.to_set().contains(v@[i as int]));
            return false;
        }
        i = i + 1;
    }
    assert forall|m: MemberIdentity| v@.to_set().contains(m) implies w@.to_set().contains(m) by {
        let j = choose|j: int| 0 <= j < v@.len() && v@[j] == m;
        assert(w@.contains(v@[j]));
    }
    true
}

/// Validates a prepared recovery against the live authority and plans its
/// installation. The checks run in order: the authority epoch, the
/// chainstate tip, the captured generation and capture time, freshness,
/// pending lifecycle effects, and the consistency of the survivors with the
/// staged mempool.
pub fn prepare_recovery_install(
    network: &ManagedPeerNetwork,
    current_tip: Option<Hash32>,
    mempool_empty: bool,
    report: &LifecycleReconciliationReport,
    peer: PeerLifecycleFacts,
    prepared: PreparedMempoolRecovery,
) -> (r: Result<RecoveryInstallPlan, RecoveryInstallError>)
    requires
        network.wf(),
        staged_txids_distinct(prepared.staged_members@),
    ensures
        prepared.authority_epoch != network.authority.authority_epoch ==> r == Err::<
            RecoveryInstallPlan,
            RecoveryInstallError,
        >(RecoveryInstallError::StaleAuthorityEpoch),
        prepared.authority_epoch == network.authority.authority_epoch && prepared.maybe_chainstate_tip != current_tip
            ==> r == Err::<RecoveryInstallPlan, RecoveryInstallError>(RecoveryInstallError::StaleChainstate),
        prepared.authority_epoch == network.authority.authority_epoch && prepared.maybe_chainstate_tip == current_tip
            ==> {
            let invalid_capture = install_generation(prepared).0 == u64::MAX || (prepared.captured_generation is Some
                != prepared.captured_at is Some);
            let fresh = fresh_spec(network, mempool_empty, *report, peer);
            let pending = network.authority.peer_effect_ledger.core.pending@.len() > 0
                || network.authority.snapshot_effect_ledger.core.pending@.len() > 0;
            &&& invalid_capture ==> r == Err::<RecoveryInstallPlan, RecoveryInstallError>(
                RecoveryInstallError::InvalidPreparedRecovery,
            )
            &&& !invalid_capture && !fresh ==> r == Err::<RecoveryInstallPlan, RecoveryInstallError>(
                RecoveryInstallError::NonFreshAuthority,
            )
            &&& !invalid_capture && fresh && pending ==> r == Err::<RecoveryInstallPlan, RecoveryInstallError>(
                RecoveryInstallError::PendingLifecycleEffects,
            )
            &&& !invalid_capture && fresh && !pending && !survivors_consistent(prepared) ==> r == Err::<
                RecoveryInstallPlan,
                RecoveryInstallError,
            >(RecoveryInstallError::InvalidPreparedRecovery)
            &&& !invalid_capture && fresh && !pending && survivors_consistent(prepared) ==> (r matches Ok(plan) && {
                &&& plan.generation == install_generation(prepared)
                &&& plan.maybe_captured_at == prepared.captured_at
                &&& plan.lifecycle_evidence == (LifecycleEvidenceSnapshot {
                    committed_transitions: install_generation(prepared).0,
                    admitted_members: prepared.staged_members@.len() as u64,
                    ..zero_evidence()
                })
                &&& plan.summary.records@ == prepared.recovery_records@
                &&& plan.summary.counts_match(prepared.recovery_records@)
                &&& plan.unbroadcast_members@ == prepared.unbroadcast_members@
                &&& plan.ordered_survivors@ == prepared.ordered_survivors@
            })
        },
{
    if prepared.authority_epoch.0 != network.authority.authority_epoch.0 {
        return Err(RecoveryInstallError::StaleAuthorityEpoch);
    }
    if prepared.maybe_chainstate_tip != current_tip {
        return Err(RecoveryInstallError::StaleChainstate);
    }
    let generation = match prepared.captured_generation {
        Some(g) => LifecycleGeneration(g),
        None => LifecycleGeneration::initial(),
    };
    if generation.0 == u64::MAX {
        return Err(RecoveryInstallError::InvalidPreparedRecovery);
    }
    if prepared.captured_generation.is_some() != prepared.captured_at.is_some() {
        return Err(RecoveryInstallError::InvalidPreparedRecovery);
    }
    if !is_fresh_for_recovery_install(network, mempool_empty, report, peer) {
        return Err(RecoveryInstallError::NonFreshAuthority);
    }
    if network.authority.peer_effect_ledger.has_pending() || network.authority.snapshot_effect_ledger.has_pending() {
        return Err(RecoveryInstallError::PendingLifecycleEffects);
    }
    let same_members = all_contained(&prepared.ordered_survivors, &prepared.staged_members) && all_contained(
        &prepared.staged_members,
        &prepared.ordered_survivors,
    );
    proof {
        if same_members {
            assert(prepared.ordered_survivors@.to_set() =~= prepared.staged_members@.to_set());
        }
    }
    if !same_members || prepared.ordered_survivors.len() != prepared.staged_members.len() || !all_contained(
        &prepared.unbroadcast_members,
        &prepared.staged_members,
    ) {
        return Err(RecoveryInstallError::InvalidPreparedRecovery);
    }
    let admitted_members = prepared.staged_members.len() as u64;
    let summary = ManagedMempoolRecoverySummary::from_records(prepared.recovery_records);
    Ok(
        RecoveryInstallPlan {
            generation,
            maybe_captured_at: prepared.captured_at,
            lifecycle_evidence: LifecycleEvidenceSnapshot {
                committed_transitions: generation.0,
                admitted_members,
                removed_members: 0,
                retry_clears: 0,
                replacement_removals: 0,
                expiry_removals: 0,
                pressure_removals: 0,
                block_confirmation_removals: 0,
                block_conflict_removals: 0,
                reorg_removals: 0,
            },
            summary,
            unbroadcast_members: prepared.unbroadcast_members,
            ordered_survivors: prepared.ordered_survivors,
        },
    )
}

/// Whether every member of `a` shares its txid with some member of `b`.
pub open spec fn txids_covered(a: Seq<MemberIdentity>, b: Seq<MemberIdentity>) -> bool {
    forall|i: int| 0 <= i < a.len() ==> has_txid(b, #[trigger] a[i].txid)
}

/// Whether `a` and `b` hold the same set of txids.
pub open spec fn same_txids(a: Seq<MemberIdentity>, b: Seq<MemberIdentity>) -> bool {
    txids_covered(a, b) && txids_covered(b, a)
}

fn all_txids_covered(a: &Vec<MemberIdentity>, b: &Vec<MemberIdentity>) -> (r: bool)
    ensures
        r == txids_covered(a@, b@),
{
    let mut i: usize = 0;
    while i < a.len()
        invariant
            i <= a@.len(),
            forall|j: int| 0 <= j < i ==> has_txid(b@, #[trigger] a@[j].txid),
        decreases a@.len() - i,
    {
        if !members_have_txid(b, a[i].txid) {
            return false;
        }
        i = i + 1;
    }
    true
}

/// Puts a prepared recovery together from its classification, the members
/// of the staged mempool rebuilt from the survivors, and the binding values:
/// the authority epoch, the chainstate tip it was replayed against, the
/// snapshot's captured generation and time, and the startup time. The staged
/// mempool must hold exactly the txids of the final replayed mempool;
/// otherwise the reconstruction diverged and nothing is prepared.
pub fn assemble_prepared_recovery(
    classification: RecoveryClassification,
    final_members: &Vec<MemberIdentity>,
    staged_members: Vec<MemberIdentity>,
    authority_epoch: AuthorityEpoch,
    maybe_chainstate_tip: Option<Hash32>,
    captured_generation: Option<u64>,
    captured_at: Option<PolicyTime>,
    startup_at: PolicyTime,
) -> (r: Result<PreparedMempoolRecovery, ManagedNetworkError>)
    ensures
        r is Ok <==> same_txids(staged_members@, final_members@),
        r matches Err(e) ==> e == ManagedNetworkError::LifecycleEffect("final mempool recovery membership diverged"),
        r matches Ok(p) ==> {
            &&& p.authority_epoch == authority_epoch
            &&& p.maybe_chainstate_tip == maybe_chainstate_tip
            &&& p.staged_members@ == staged_members@
            &&& p.recovery_records@ == classification.recovery_records@
            &&& p.unbroadcast_members@ == classification.unbroadcast_members@
            &&& p.ordered_survivors@ == classification.ordered_survivors@
            &&& p.captured_generation == captured_generation
            &&& p.captured_at == captured_at
            &&& p.startup_at == startup_at
        },
{
    if !all_txids_covered(&staged_members, final_members) || !all_txids_covered(final_members, &staged_members) {
        return Err(ManagedNetworkError::LifecycleEffect("final mempool recovery membership diverged"));
    }
    Ok(
        PreparedMempoolRecovery {
            authority_epoch,
            maybe_chainstate_tip,
            staged_members,
            recovery_records: classification.recovery_records,
            unbroadcast_members: classification.unbroadcast_members,
            ordered_survivors: classification.ordered_survivors,
            captured_generation,
            captured_at,
            startup_at,
        },
    )
}

} // verus!
