//! The mempool outcome of a singleton submission, read from its package
//! member result, and what each outcome calls for: the orphan-reconsideration
//! status, the serving status of removed members, the feedback of package
//! members and the compatibility admission result.
use vstd::prelude::*;
use crate::identity::{MemberIdentity, PeerId, Txid, Wtxid};
use crate::lifecycle::{MempoolRemovalCause, RemovedMember};
use crate::relay_evidence::{MempoolOutcomeKind, TxServingRecordStatus};
use crate::admission::{HardMemberFailure, PackageMemberResult, ReconsiderableMemberFailure};

verus! {

/// Why the mempool rejected a transaction, as far as admission tells it.
#[derive(Debug, Clone, Copy, PartialEq, Eq, Structural, Hash)]
pub enum RejectionCategory {
    InternalInvariant,
    NonStandard,
    ReplacementRejected,
    RelayFeeTooLow,
    Other,
}

/// The mempool's decision on one transaction, with its identities and the
/// txids it replaced, evicted or misses.
#[derive(Debug, Clone, PartialEq, Eq)]
pub enum MempoolOutcome {
    Accepted { txid: Txid, wtxid: Wtxid, evicted: Vec<Txid> },
    Replaced { txid: Txid, wtxid: Wtxid, replaced: Vec<Txid>, evicted: Vec<Txid> },
    Duplicate { txid: Txid },
    Orphaned { txid: Txid, wtxid: Wtxid, missing_parents: Vec<Txid> },
    Rejected { txid: Txid, wtxid: Wtxid, category: RejectionCategory },
    Evicted { txid: Txid, wtxid: Wtxid },
    Expired { txid: Txid, wtxid: Wtxid },
}

/// A mempool outcome with its txid lists as sequences.
pub enum OutcomeView {
    Accepted { txid: Txid, wtxid: Wtxid, evicted: Seq<Txid> },
    Replaced { txid: Txid, wtxid: Wtxid, replaced: Seq<Txid>, evicted: Seq<Txid> },
    Duplicate { txid: Txid },
    Orphaned { txid: Txid, wtxid: Wtxid, missing_parents: Seq<Txid> },
    Rejected { txid: Txid, wtxid: Wtxid, category: RejectionCategory },
    Evicted { txid: Txid, wtxid: Wtxid },
    Expired { txid: Txid, wtxid: Wtxid },
}

impl View for MempoolOutcome {
    type V = OutcomeView;

    open spec fn view(&self) -> OutcomeView {
        match self {
            MempoolOutcome::Accepted { txid, wtxid, evicted } => OutcomeView::Accepted {
                txid: *txid,
                wtxid: *wtxid,
                evicted: evicted@,
            },
            MempoolOutcome::Replaced { txid, wtxid, replaced, evicted } => OutcomeView::Replaced {
                txid: *txid,
                wtxid: *wtxid,
                replaced: replaced@,
                evicted: evicted@,
            },
            MempoolOutcome::Duplicate { txid } => OutcomeView::Duplicate { txid: *txid },
            MempoolOutcome::Orphaned { txid, wtxid, missing_parents } => OutcomeView::Orphaned {
                txid: *txid,
                wtxid: *wtxid,
                missing_parents: missing_parents@,
            },
            MempoolOutcome::Rejected { txid, wtxid, category } => OutcomeView::Rejected {
                txid: *txid,
                wtxid: *wtxid,
                category: *category,
            },
            MempoolOutcome::Evicted { txid, wtxid } => OutcomeView::Evicted { txid: *txid, wtxid: *wtxid },
            MempoolOutcome::Expired { txid, wtxid } => OutcomeView::Expired { txid: *txid, wtxid: *wtxid },
        }
    }
}

/// The kind of an outcome.
pub open spec fn outcome_kind_spec(o: OutcomeView) -> MempoolOutcomeKind {
    match o {
        OutcomeView::Accepted { .. } => MempoolOutcomeKind::Accepted,
        OutcomeView::Replaced { .. } => MempoolOutcomeKind::Replaced,
        OutcomeView::Duplicate { .. } => MempoolOutcomeKind::Duplicate,
        OutcomeView::Orphaned { .. } => MempoolOutcomeKind::Orphaned,
        OutcomeView::Rejected { .. } => MempoolOutcomeKind::Rejected,
        OutcomeView::Evicted { .. } => MempoolOutcomeKind::Evicted,
        OutcomeView::Expired { .. } => MempoolOutcomeKind::Expired,
    }
}

impl MempoolOutcome {
    /// The kind of this outcome.
    pub fn kind(&self) -> (r: MempoolOutcomeKind)
        ensures
            r == outcome_kind_spec(self@),
    {
        match self {
            MempoolOutcome::Accepted { .. } => MempoolOutcomeKind::Accepted,
            MempoolOutcome::Replaced { .. } => MempoolOutcomeKind::Replaced,
            MempoolOutcome::Duplicate { .. } => MempoolOutcomeKind::Duplicate,
            MempoolOutcome::Orphaned { .. } => MempoolOutcomeKind::Orphaned,
            MempoolOutcome::Rejected { .. } => MempoolOutcomeKind::Rejected,
            MempoolOutcome::Evicted { .. } => MempoolOutcomeKind::Evicted,
            MempoolOutcome::Expired { .. } => MempoolOutcomeKind::Expired,
        }
    }
}

/// The txids of the members removed for `cause`, in order.
pub open spec fn removed_txids_spec(removed: Seq<RemovedMember>, cause: MempoolRemovalCause) -> Seq<Txid>
    decreases removed.len(),
{
    if removed.len() == 0 {
        Seq::empty()
    } else {
        let rest = removed_txids_spec(removed.drop_last(), cause);
        if removed.last().cause == cause {
            rest.push(removed.last().member.txid)
        } else {
            rest
        }
    }
}

/// The txids of the members removed for `cause`, in order.
pub fn removed_txids(removed: &Vec<RemovedMember>, cause: MempoolRemovalCause) -> (r: Vec<Txid>)
    ensures
        r@ == removed_txids_spec(removed@, cause),
{
    let mut out: Vec<Txid> = Vec::new();
    let mut i: usize = 0;
    while i < removed.len()
        invariant
            i <= removed@.len(),
            out@ == removed_txids_spec(removed@.take(i as int), cause),
        decreases removed@.len() - i,
    {
        assert(removed@.take(i as int + 1).drop_last() =~= removed@.take(i as int));
        if removed[i].cause == cause {
            out.push(removed[i].member.txid);
        }
        i = i + 1;
    }
    assert(removed@.take(removed@.len() as int) =~= removed@);
    out
}

/// The rejection category a hard member failure is reported under.
pub open spec fn hard_category_spec(failure: HardMemberFailure) -> RejectionCategory {
    match failure {
        HardMemberFailure::Policy => RejectionCategory::InternalInvariant,
        HardMemberFailure::TrucPolicy => RejectionCategory::NonStandard,
        HardMemberFailure::EphemeralPolicy => RejectionCategory::NonStandard,
        HardMemberFailure::PackageReplacement => RejectionCategory::ReplacementRejected,
    }
}

/// The rejection category a hard member failure is reported under.
pub fn hard_rejection_category(failure: HardMemberFailure) -> (r: RejectionCategory)
    ensures
        r == hard_category_spec(failure),
{
    match failure {
        HardMemberFailure::Policy => RejectionCategory::InternalInvariant,
        HardMemberFailure::TrucPolicy => RejectionCategory::NonStandard,
        HardMemberFailure::EphemeralPolicy => RejectionCategory::NonStandard,
        HardMemberFailure::PackageReplacement => RejectionCategory::ReplacementRejected,
    }
}

/// The outcome a singleton member result stands for, given the members the
/// submission removed: a present member was accepted, or replaced what the
/// submission removed for replacement; an already present one is a
/// duplicate; missing inputs make an orphan; fee and replacement failures
/// and hard failures are rejections; a member trimmed away was evicted.
pub open spec fn member_outcome_spec(member: PackageMemberResult, removed: Seq<RemovedMember>) -> OutcomeView {
    let id = member.requested_spec();
    match member {
        PackageMemberResult::FinallyPresent(_) => {
            let replaced = removed_txids_spec(removed, MempoolRemovalCause::Replacement);
            let evicted = removed_txids_spec(removed, MempoolRemovalCause::Pressure);
            if replaced.len() == 0 {
                OutcomeView::Accepted { txid: id.txid, wtxid: id.wtxid, evicted }
            } else {
                OutcomeView::Replaced { txid: id.txid, wtxid: id.wtxid, replaced, evicted }
            }
        },
        PackageMemberResult::AlreadyPresent(_) => OutcomeView::Duplicate { txid: id.txid },
        PackageMemberResult::SameTxidDifferentWitness(_) => OutcomeView::Duplicate { txid: id.txid },
        PackageMemberResult::HardRejected(_, failure) => OutcomeView::Rejected {
            txid: id.txid,
            wtxid: id.wtxid,
            category: hard_category_spec(failure),
        },
        PackageMemberResult::Reconsiderable(_, failure) => match failure {
            ReconsiderableMemberFailure::MissingInputs { missing_parents } => OutcomeView::Orphaned {
                txid: id.txid,
                wtxid: id.wtxid,
                missing_parents: missing_parents@,
            },
            ReconsiderableMemberFailure::PackageFee => OutcomeView::Rejected {
                txid: id.txid,
                wtxid: id.wtxid,
                category: RejectionCategory::RelayFeeTooLow,
            },
            ReconsiderableMemberFailure::PackageReplacement => OutcomeView::Rejected {
                txid: id.txid,
                wtxid: id.wtxid,
                category: RejectionCategory::ReplacementRejected,
            },
        },
        PackageMemberResult::PostTrimAbsent(_) => OutcomeView::Evicted { txid: id.txid, wtxid: id.wtxid },
    }
}

/// The outcome of a singleton submission from its member result and the
/// members it removed.
pub fn singleton_transition_from_member(member: &PackageMemberResult, removed: &Vec<RemovedMember>) -> (r: MempoolOutcome)
    ensures
        r@ == member_outcome_spec(*member, removed@),
{
    let id = member.requested_identity();
    match member {
        PackageMemberResult::FinallyPresent(_) => {
            let replaced = removed_txids(removed, MempoolRemovalCause::Replacement);
            let evicted = removed_txids(removed, MempoolRemovalCause::Pressure);
            if replaced.len() == 0 {
                MempoolOutcome::Accepted { txid: id.txid, wtxid: id.wtxid, evicted }
            } else {
                MempoolOutcome::Replaced { txid: id.txid, wtxid: id.wtxid, replaced, evicted }
            }
        },
        PackageMemberResult::AlreadyPresent(_) => MempoolOutcome::Duplicate { txid: id.txid },
        PackageMemberResult::SameTxidDifferentWitness(_) => MempoolOutcome::Duplicate { txid: id.txid },
        PackageMemberResult::HardRejected(_, failure) => MempoolOutcome::Rejected {
            txid: id.txid,
            wtxid: id.wtxid,
            category: hard_rejection_category(*failure),
        },
        PackageMemberResult::Reconsiderable(_, failure) => match failure {
            ReconsiderableMemberFailure::MissingInputs { missing_parents } => MempoolOutcome::Orphaned {
                txid: id.txid,
                wtxid: id.wtxid,
                missing_parents: missing_parents.clone(),
            },
            ReconsiderableMemberFailure::PackageFee => MempoolOutcome::Rejected {
                txid: id.txid,
                wtxid: id.wtxid,
                category: RejectionCategory::RelayFeeTooLow,
            },
            ReconsiderableMemberFailure::PackageReplacement => MempoolOutcome::Rejected {
                txid: id.txid,
                wtxid: id.wtxid,
                category: RejectionCategory::ReplacementRejected,
            },
        },
        PackageMemberResult::PostTrimAbsent(_) => MempoolOutcome::Evicted { txid: id.txid, wtxid: id.wtxid },
    }
}

/// What an orphan's reconsideration came to.
#[derive(Debug, Clone, Copy, PartialEq, Eq, Structural, Hash)]
pub enum OrphanReconsiderationStatus {
    Accepted,
    StillMissingParent,
    Rejected,
    Evicted,
    Expired,
}

/// The reconsideration status of an outcome: admitted or already present
/// counts as accepted, an orphan still misses a parent.
pub open spec fn reconsideration_spec(kind: MempoolOutcomeKind) -> OrphanReconsiderationStatus {
    match kind {
        MempoolOutcomeKind::Accepted => OrphanReconsiderationStatus::Accepted,
        MempoolOutcomeKind::Duplicate => OrphanReconsiderationStatus::Accepted,
        MempoolOutcomeKind::Replaced => OrphanReconsiderationStatus::Accepted,
        MempoolOutcomeKind::Orphaned => OrphanReconsiderationStatus::StillMissingParent,
        MempoolOutcomeKind::Rejected => OrphanReconsiderationStatus::Rejected,
        MempoolOutcomeKind::Evicted => OrphanReconsiderationStatus::Evicted,
        MempoolOutcomeKind::Expired => OrphanReconsiderationStatus::Expired,
    }
}

/// The reconsideration status of an outcome.
pub fn reconsideration_status(outcome: &MempoolOutcome) -> (r: OrphanReconsiderationStatus)
    ensures
        r == reconsideration_spec(outcome_kind_spec(outcome@)),
{
    match outcome.kind() {
        MempoolOutcomeKind::Accepted => OrphanReconsiderationStatus::Accepted,
        MempoolOutcomeKind::Duplicate => OrphanReconsiderationStatus::Accepted,
        MempoolOutcomeKind::Replaced => OrphanReconsiderationStatus::Accepted,
        MempoolOutcomeKind::Orphaned => OrphanReconsiderationStatus::StillMissingParent,
        MempoolOutcomeKind::Rejected => OrphanReconsiderationStatus::Rejected,
        MempoolOutcomeKind::Evicted => OrphanReconsiderationStatus::Evicted,
        MempoolOutcomeKind::Expired => OrphanReconsiderationStatus::Expired,
    }
}

/// The serving status a removed member's record takes: block confirmation
/// and block conflict both count as confirmed, a reorg makes it stale.
pub open spec fn serving_status_spec(cause: MempoolRemovalCause) -> TxServingRecordStatus {
    match cause {
        MempoolRemovalCause::Replacement => TxServingRecordStatus::Replaced,
        MempoolRemovalCause::Expiry => TxServingRecordStatus::Expired,
        MempoolRemovalCause::Pressure => TxServingRecordStatus::Evicted,
        MempoolRemovalCause::BlockConfirmation => TxServingRecordStatus::Confirmed,
        MempoolRemovalCause::BlockConflict => TxServingRecordStatus::Confirmed,
        MempoolRemovalCause::Reorg => TxServingRecordStatus::Stale,
    }
}

/// The serving status a removed member's record takes.
pub fn serving_status_for_removal(cause: MempoolRemovalCause) -> (r: TxServingRecordStatus)
    ensures
        r == serving_status_spec(cause),
{
    match cause {
        MempoolRemovalCause::Replacement => TxServingRecordStatus::Replaced,
        MempoolRemovalCause::Expiry => TxServingRecordStatus::Expired,
        MempoolRemovalCause::Pressure => TxServingRecordStatus::Evicted,
        MempoolRemovalCause::BlockConfirmation => TxServingRecordStatus::Confirmed,
        MempoolRemovalCause::BlockConflict => TxServingRecordStatus::Confirmed,
        MempoolRemovalCause::Reorg => TxServingRecordStatus::Stale,
    }
}

/// How a submitted package ended.
#[derive(Debug, Clone, Copy, PartialEq, Eq, Structural, Hash)]
pub enum PackageStatus {
    Complete,
    Partial,
    Failed,
}

/// A package that did not complete is remembered as reconsiderable.
pub fn package_status_records_reconsiderable(status: PackageStatus) -> (r: bool)
    ensures
        r == (status != PackageStatus::Complete),
{
    match status {
        PackageStatus::Complete => false,
        PackageStatus::Partial => true,
        PackageStatus::Failed => true,
    }
}

/// The feedback one package member gives the peer manager.
#[derive(Debug, Clone, PartialEq, Eq)]
pub enum MemberFeedback {
    /// Record the orphan-reconsideration status of the wtxid.
    Reconsidered { wtxid: Wtxid, status: OrphanReconsiderationStatus },
    /// Remember a hard reject, then record the wtxid as rejected.
    HardReject { wtxid: Wtxid },
    /// Remember a reconsiderable transaction, then record the wtxid as rejected.
    ReconsiderableTransaction { wtxid: Wtxid },
    /// Stage the transaction as an orphan missing these parents.
    StageMissingParent { txid: Txid, wtxid: Wtxid, missing_parents: Vec<Txid> },
}

/// The feedback of a member result: present members were accepted, a
/// trimmed one evicted; failures are remembered; missing inputs stage an orphan.
pub fn package_member_feedback(member: &PackageMemberResult) -> (r: MemberFeedback)
    ensures
        ({
            let id = member.requested_spec();
            match member {
                PackageMemberResult::FinallyPresent(_) => r == MemberFeedback::Reconsidered {
                    wtxid: id.wtxid,
                    status: OrphanReconsiderationStatus::Accepted,
                },
                PackageMemberResult::AlreadyPresent(_) => r == MemberFeedback::Reconsidered {
                    wtxid: id.wtxid,
                    status: OrphanReconsiderationStatus::Accepted,
                },
                PackageMemberResult::SameTxidDifferentWitness(_) => r == MemberFeedback::Reconsidered {
                    wtxid: id.wtxid,
                    status: OrphanReconsiderationStatus::Accepted,
                },
                PackageMemberResult::HardRejected(_, _) => r == MemberFeedback::HardReject { wtxid: id.wtxid },
                PackageMemberResult::Reconsiderable(_, failure) => match failure {
                    ReconsiderableMemberFailure::MissingInputs { missing_parents } => r matches MemberFeedback::StageMissingParent {
                        txid,
                        wtxid,
                        missing_parents: staged,
                    } && txid == id.txid && wtxid == id.wtxid && staged@ == missing_parents@,
                    _ => r == MemberFeedback::ReconsiderableTransaction { wtxid: id.wtxid },
                },
                PackageMemberResult::PostTrimAbsent(_) => r == MemberFeedback::Reconsidered {
                    wtxid: id.wtxid,
                    status: OrphanReconsiderationStatus::Evicted,
                },
            }
        }),
{
    let id = member.requested_identity();
    match member {
        PackageMemberResult::FinallyPresent(_) | PackageMemberResult::AlreadyPresent(_)
        | PackageMemberResult::SameTxidDifferentWitness(_) => MemberFeedback::Reconsidered {
            wtxid: id.wtxid,
            status: OrphanReconsiderationStatus::Accepted,
        },
        PackageMemberResult::HardRejected(_, _) => MemberFeedback::HardReject { wtxid: id.wtxid },
        PackageMemberResult::Reconsiderable(_, failure) => match failure {
            ReconsiderableMemberFailure::MissingInputs { missing_parents } => MemberFeedback::StageMissingParent {
                txid: id.txid,
                wtxid: id.wtxid,
                missing_parents: missing_parents.clone(),
            },
            _ => MemberFeedback::ReconsiderableTransaction { wtxid: id.wtxid },
        },
        PackageMemberResult::PostTrimAbsent(_) => MemberFeedback::Reconsidered {
            wtxid: id.wtxid,
            status: OrphanReconsiderationStatus::Evicted,
        },
    }
}

/// What the network does after a peer transaction's outcome.
#[derive(Debug, Clone, PartialEq, Eq)]
pub enum AdmissionFollowUp {
    /// Store the admitted transaction and reconsider orphans waiting on it.
    ApplyAndReconsiderChildren { txid: Txid },
    /// Keep the body for compact reconstruction and stage it as an orphan.
    StageOrphan { txid: Txid, wtxid: Wtxid, missing_parents: Vec<Txid> },
    /// Offer the rejected body to the compact extra buffer, subject to its guard.
    OfferRejected { wtxid: Wtxid },
    Nothing,
}

/// The follow-up an outcome calls for.
pub fn admission_follow_up(outcome: &MempoolOutcome) -> (r: AdmissionFollowUp)
    ensures
        match outcome@ {
            OutcomeView::Accepted { txid, .. } => r == AdmissionFollowUp::ApplyAndReconsiderChildren { txid },
            OutcomeView::Replaced { txid, .. } => r == AdmissionFollowUp::ApplyAndReconsiderChildren { txid },
            OutcomeView::Orphaned { txid, wtxid, missing_parents } => r matches AdmissionFollowUp::StageOrphan {
                txid: t,
                wtxid: w,
                missing_parents: m,
            } && t == txid && w == wtxid && m@ == missing_parents,
            OutcomeView::Rejected { wtxid, .. } => r == AdmissionFollowUp::OfferRejected { wtxid },
            _ => r == AdmissionFollowUp::Nothing,
        },
{
    match outcome {
        MempoolOutcome::Accepted { txid, .. } => AdmissionFollowUp::ApplyAndReconsiderChildren { txid: *txid },
        MempoolOutcome::Replaced { txid, .. } => AdmissionFollowUp::ApplyAndReconsiderChildren { txid: *txid },
        MempoolOutcome::Orphaned { txid, wtxid, missing_parents } => AdmissionFollowUp::StageOrphan {
            txid: *txid,
            wtxid: *wtxid,
            missing_parents: missing_parents.clone(),
        },
        MempoolOutcome::Rejected { wtxid, .. } => AdmissionFollowUp::OfferRejected { wtxid: *wtxid },
        _ => AdmissionFollowUp::Nothing,
    }
}

/// One action of the orphanage.
#[derive(Debug, Clone, Copy, PartialEq, Eq, Structural)]
pub enum OrphanAction {
    /// Ask a peer for a missing parent, by txid where `maybe_parent_txid` holds
    /// one (by wtxid otherwise).
    RequestParent { peer_id: PeerId, maybe_parent_txid: Option<Txid> },
    Evicted { txid: Txid, wtxid: Wtxid },
    Expired { txid: Txid, wtxid: Wtxid },
    PeerCleanup,
    Reconsidered,
    Reconsider,
}

/// The outcome an orphan action reports: eviction and expiry only.
pub fn orphan_action_outcome(action: OrphanAction) -> (r: Option<MempoolOutcome>)
    ensures
        match action {
            OrphanAction::Evicted { txid, wtxid } => r matches Some(o) && o@ == (OutcomeView::Evicted { txid, wtxid }),
            OrphanAction::Expired { txid, wtxid } => r matches Some(o) && o@ == (OutcomeView::Expired { txid, wtxid }),
            _ => r is None,
        },
{
    match action {
        OrphanAction::Evicted { txid, wtxid } => Some(MempoolOutcome::Evicted { txid, wtxid }),
        OrphanAction::Expired { txid, wtxid } => Some(MempoolOutcome::Expired { txid, wtxid }),
        _ => None,
    }
}

/// What applying an orphan action does.
#[derive(Debug, Clone, PartialEq, Eq)]
pub enum OrphanActionEffect {
    /// Request the missing parent by txid from the peer.
    RequestParent { peer_id: PeerId, parent_txid: Txid },
    /// Report the outcome among the reconsidered ones.
    Reconsidered(MempoolOutcome),
    Nothing,
}

/// A parent request by txid is sent; eviction and expiry are reported; every
/// other orphan action does nothing here.
pub fn orphan_action_effect(action: OrphanAction) -> (r: OrphanActionEffect)
    ensures
        match action {
            OrphanAction::RequestParent { peer_id, maybe_parent_txid } => match maybe_parent_txid {
                Some(parent_txid) => r == OrphanActionEffect::RequestParent { peer_id, parent_txid },
                None => r == OrphanActionEffect::Nothing,
            },
            OrphanAction::Evicted { txid, wtxid } => r matches OrphanActionEffect::Reconsidered(o)
                && o@ == (OutcomeView::Evicted { txid, wtxid }),
            OrphanAction::Expired { txid, wtxid } => r matches OrphanActionEffect::Reconsidered(o)
                && o@ == (OutcomeView::Expired { txid, wtxid }),
            _ => r == OrphanActionEffect::Nothing,
        },
{
    match action {
        OrphanAction::RequestParent { peer_id, maybe_parent_txid } => match maybe_parent_txid {
            Some(parent_txid) => OrphanActionEffect::RequestParent { peer_id, parent_txid },
            None => OrphanActionEffect::Nothing,
        },
        OrphanAction::Evicted { .. } | OrphanAction::Expired { .. } => match orphan_action_outcome(action) {
            Some(outcome) => OrphanActionEffect::Reconsidered(outcome),
            None => OrphanActionEffect::Nothing,
        },
        _ => OrphanActionEffect::Nothing,
    }
}

/// The first member of `admitted` with txid `t`, searching from index `i`.
pub open spec fn first_admitted_with(admitted: Seq<MemberIdentity>, i: nat, t: Txid) -> Option<MemberIdentity>
    decreases admitted.len() - i,
{
    if i >= admitted.len() {
        None
    } else if admitted[i as int].txid == t {
        Some(admitted[i as int])
    } else {
        first_admitted_with(admitted, i + 1, t)
    }
}

/// An admitted transaction is stored when the first admitted member with its
/// txid is present in the final membership.
pub fn should_store_admitted(
    admitted_txid: Txid,
    admitted: &Vec<MemberIdentity>,
    final_present: &Vec<MemberIdentity>,
) -> (r: bool)
    ensures
        r == (match first_admitted_with(admitted@, 0, admitted_txid) {
            Some(m) => final_present@.contains(m),
            None => false,
        }),
{
    let mut i: usize = 0;
    while i < admitted.len()
        invariant
            i <= admitted@.len(),
            first_admitted_with(admitted@, 0, admitted_txid) == first_admitted_with(admitted@, i as nat, admitted_txid),
        decreases admitted@.len() - i,
    {
        let m = admitted[i];
        if m.txid == admitted_txid {
            assert(first_admitted_with(admitted@, 0, admitted_txid) == Some(m));
            let mut j: usize = 0;
            while j < final_present.len()
                invariant
                    first_admitted_with(admitted@, 0, admitted_txid) == Some(m),
                    j <= final_present@.len(),
                    forall|k: int| 0 <= k < j ==> final_present@[k] != m,
                decreases final_present@.len() - j,
            {
                if final_present[j] == m {
                    assert(final_present@[j as int] == m);
                    return true;
                }
                j = j + 1;
            }
            return false;
        }
        i = i + 1;
    }
    false
}

/// An outpoint: the txid it spends from and the output index.
#[derive(Debug, Clone, Copy, PartialEq, Eq, Structural, Hash)]
pub struct OutPoint {
    pub txid: Txid,
    pub vout: u32,
}

/// The result of a successful compatibility admission.
#[derive(Debug, Clone, PartialEq, Eq)]
pub struct AdmissionResult {
    pub accepted: Txid,
    pub replaced: Vec<Txid>,
    pub evicted: Vec<Txid>,
}

/// Why a compatibility admission failed.
#[derive(Debug, Clone, Copy, PartialEq, Eq, Structural)]
pub enum AdmissionError {
    DuplicateTransaction { txid: Txid },
    MissingInput { outpoint: OutPoint },
    CandidateEvicted { txid: Txid },
    Validation { category: RejectionCategory },
    /// An orphan outcome none of whose missing parents the transaction spends.
    OrphanWithoutMissingInput { txid: Txid },
    /// A new local transaction reported as expired.
    ExpiredLocalTransaction { txid: Txid },
}

/// The first input, from index `i`, that spends one of `missing`.
pub open spec fn first_missing_input(inputs: Seq<OutPoint>, i: nat, missing: Seq<Txid>) -> Option<OutPoint>
    decreases inputs.len() - i,
{
    if i >= inputs.len() {
        None
    } else if missing.contains(inputs[i as int].txid) {
        Some(inputs[i as int])
    } else {
        first_missing_input(inputs, i + 1, missing)
    }
}

fn txids_contain(v: &Vec<Txid>, t: Txid) -> (r: bool)
    ensures
        r == v@.contains(t),
{
    let mut j: usize = 0;
    while j < v.len()
        invariant
            j <= v@.len(),
            forall|k: int| 0 <= k < j ==> v@[k] != t,
        decreases v@.len() - j,
    {
        if v[j] == t {
            return true;
        }
        j = j + 1;
    }
    false
}

fn find_missing_input(inputs: &Vec<OutPoint>, missing: &Vec<Txid>) -> (r: Option<OutPoint>)
    ensures
        r == first_missing_input(inputs@, 0, missing@),
{
    let mut i: usize = 0;
    while i < inputs.len()
        invariant
            i <= inputs@.len(),
            first_missing_input(inputs@, 0, missing@) == first_missing_input(inputs@, i as nat, missing@),
        decreases inputs@.len() - i,
    {
        if txids_contain(missing, inputs[i].txid) {
            return Some(inputs[i]);
        }
        i = i + 1;
    }
    None
}

/// The compatibility result of an outcome for a transaction spending
/// `inputs`: admission reports the accepted txid with what it replaced and
/// evicted; every other outcome is an error, an orphan naming its first
/// input that spends a missing parent.
pub fn admission_result_from_transition(inputs: &Vec<OutPoint>, outcome: MempoolOutcome) -> (r: Result<AdmissionResult, AdmissionError>)
    ensures
        match outcome@ {
            OutcomeView::Accepted { txid, evicted, .. } => r matches Ok(a) && a.accepted == txid
                && a.replaced@.len() == 0 && a.evicted@ == evicted,
            OutcomeView::Replaced { txid, replaced, evicted, .. } => r matches Ok(a) && a.accepted == txid
                && a.replaced@ == replaced && a.evicted@ == evicted,
            OutcomeView::Duplicate { txid } => r == Err::<AdmissionResult, AdmissionError>(AdmissionError::DuplicateTransaction { txid }),
            OutcomeView::Orphaned { txid, missing_parents, .. } => match first_missing_input(inputs@, 0, missing_parents) {
                Some(outpoint) => r == Err::<AdmissionResult, AdmissionError>(AdmissionError::MissingInput { outpoint }),
                None => r == Err::<AdmissionResult, AdmissionError>(AdmissionError::OrphanWithoutMissingInput { txid }),
            },
            OutcomeView::Evicted { txid, .. } => r == Err::<AdmissionResult, AdmissionError>(AdmissionError::CandidateEvicted { txid }),
            OutcomeView::Rejected { category, .. } => r == Err::<AdmissionResult, AdmissionError>(AdmissionError::Validation { category }),
            OutcomeView::Expired { txid, .. } => r == Err::<AdmissionResult, AdmissionError>(AdmissionError::ExpiredLocalTransaction { txid }),
        },
{
    match outcome {
        MempoolOutcome::Accepted { txid, evicted, .. } => Ok(AdmissionResult { accepted: txid, replaced: Vec::new(), evicted }),
        MempoolOutcome::Replaced { txid, replaced, evicted, .. } => Ok(AdmissionResult { accepted: txid, replaced, evicted }),
        MempoolOutcome::Duplicate { txid } => Err(AdmissionError::DuplicateTransaction { txid }),
        MempoolOutcome::Orphaned { txid, missing_parents, .. } => match find_missing_input(inputs, &missing_parents) {
            Some(outpoint) => Err(AdmissionError::MissingInput { outpoint }),
            None => Err(AdmissionError::OrphanWithoutMissingInput { txid }),
        },
        MempoolOutcome::Evicted { txid, .. } => Err(AdmissionError::CandidateEvicted { txid }),
        MempoolOutcome::Rejected { category, .. } => Err(AdmissionError::Validation { category }),
        MempoolOutcome::Expired { txid, .. } => Err(AdmissionError::ExpiredLocalTransaction { txid }),
    }
}

} // verus!
