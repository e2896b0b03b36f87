//! Decisions of peer transaction admission that do not need the mempool:
//! when a singleton result warrants a package retry, and how produced
//! messages are routed between the requesting peer and other peers.
use vstd::prelude::*;
use crate::identity::{MemberIdentity, PeerId, Txid, Wtxid};

verus! {

/// Why a package member failed in a way a package submission may fix.
#[derive(Debug, Clone, PartialEq, Eq)]
pub enum ReconsiderableMemberFailure {
    MissingInputs { missing_parents: Vec<Txid> },
    PackageFee,
    PackageReplacement,
}

/// Why a package member failed for good.
#[derive(Debug, Clone, Copy, PartialEq, Eq, Structural, Hash)]
pub enum HardMemberFailure {
    Policy,
    TrucPolicy,
    EphemeralPolicy,
    PackageReplacement,
}

/// The result of one package member, with the identity it was submitted under.
#[derive(Debug, Clone, PartialEq, Eq)]
pub enum PackageMemberResult {
    FinallyPresent(MemberIdentity),
    AlreadyPresent(MemberIdentity),
    SameTxidDifferentWitness(MemberIdentity),
    HardRejected(MemberIdentity, HardMemberFailure),
    Reconsiderable(MemberIdentity, ReconsiderableMemberFailure),
    PostTrimAbsent(MemberIdentity),
}

impl PackageMemberResult {
    pub open spec fn requested_spec(&self) -> MemberIdentity {
        match self {
            PackageMemberResult::FinallyPresent(id) => *id,
            PackageMemberResult::AlreadyPresent(id) => *id,
            PackageMemberResult::SameTxidDifferentWitness(id) => *id,
            PackageMemberResult::HardRejected(id, _) => *id,
            PackageMemberResult::Reconsiderable(id, _) => *id,
            PackageMemberResult::PostTrimAbsent(id) => *id,
        }
    }

    /// The identity the member was submitted under.
    pub fn requested_identity(&self) -> (r: MemberIdentity)
        ensures
            r == self.requested_spec(),
    {
        match self {
            PackageMemberResult::FinallyPresent(id) => *id,
            PackageMemberResult::AlreadyPresent(id) => *id,
            PackageMemberResult::SameTxidDifferentWitness(id) => *id,
            PackageMemberResult::HardRejected(id, _) => *id,
            PackageMemberResult::Reconsiderable(id, _) => *id,
            PackageMemberResult::PostTrimAbsent(id) => *id,
        }
    }
}

/// A fee or replacement failure that a package submission may fix.
pub open spec fn is_package_fixable(member: PackageMemberResult) -> bool {
    member matches PackageMemberResult::Reconsiderable(_, f) && (f is PackageFee || f is PackageReplacement)
}

/// A replacement failure, reconsiderable or not.
pub open spec fn is_package_replacement(member: PackageMemberResult) -> bool {
    ||| member matches PackageMemberResult::HardRejected(_, f) && f == HardMemberFailure::PackageReplacement
    ||| member matches PackageMemberResult::Reconsiderable(_, f) && f is PackageReplacement
}

/// What a singleton submission's member result calls for.
#[derive(Debug, Clone, Copy, PartialEq, Eq, Structural)]
pub struct SingletonRetryPlan {
    /// Retry the transaction as a same-peer package.
    pub reconsiderable: bool,
    /// Resubmit as a plain singleton because the failure was a package replacement.
    pub singleton_package_replacement: bool,
}

/// A fee or replacement failure may succeed as a package; any replacement
/// failure, reconsiderable or not, is resubmitted as a singleton.
pub fn classify_singleton_member(member: &PackageMemberResult) -> (r: SingletonRetryPlan)
    ensures
        r.reconsiderable == is_package_fixable(*member),
        r.singleton_package_replacement == is_package_replacement(*member),
{
    let reconsiderable = match member {
        PackageMemberResult::Reconsiderable(_, ReconsiderableMemberFailure::PackageFee) => true,
        PackageMemberResult::Reconsiderable(_, ReconsiderableMemberFailure::PackageReplacement) => true,
        _ => false,
    };
    let singleton_package_replacement = match member {
        PackageMemberResult::HardRejected(_, HardMemberFailure::PackageReplacement) => true,
        PackageMemberResult::Reconsiderable(_, ReconsiderableMemberFailure::PackageReplacement) => true,
        _ => false,
    };
    SingletonRetryPlan { reconsiderable, singleton_package_replacement }
}

/// What a singleton member result records against its wtxid.
#[derive(Debug, Clone, Copy, PartialEq, Eq, Structural)]
pub enum SingletonRejectEvidence {
    Nothing,
    HardReject(Wtxid),
    ReconsiderableTransaction(Wtxid),
}

/// A policy hard rejection is remembered as a hard reject; a fee or
/// replacement failure as a reconsiderable transaction; nothing else is.
pub fn singleton_reject_evidence(member: &PackageMemberResult) -> (r: SingletonRejectEvidence)
    ensures
        r == (if member matches PackageMemberResult::HardRejected(_, f) && f != HardMemberFailure::PackageReplacement {
            SingletonRejectEvidence::HardReject(member.requested_spec().wtxid)
        } else if is_package_fixable(*member) {
            SingletonRejectEvidence::ReconsiderableTransaction(member.requested_spec().wtxid)
        } else {
            SingletonRejectEvidence::Nothing
        }),
{
    match member {
        PackageMemberResult::HardRejected(id, HardMemberFailure::PackageReplacement) => SingletonRejectEvidence::Nothing,
        PackageMemberResult::HardRejected(id, _) => SingletonRejectEvidence::HardReject(id.wtxid),
        PackageMemberResult::Reconsiderable(id, ReconsiderableMemberFailure::PackageFee) => SingletonRejectEvidence::ReconsiderableTransaction(id.wtxid),
        PackageMemberResult::Reconsiderable(id, ReconsiderableMemberFailure::PackageReplacement) => SingletonRejectEvidence::ReconsiderableTransaction(id.wtxid),
        _ => SingletonRejectEvidence::Nothing,
    }
}

/// The predicate "addressed to `peer`".
pub open spec fn addressed_to<M>(peer: PeerId) -> spec_fn((PeerId, M)) -> bool {
    |p: (PeerId, M)| p.0 == peer
}

/// The predicate "addressed to another peer than `peer`".
pub open spec fn addressed_elsewhere<M>(peer: PeerId) -> spec_fn((PeerId, M)) -> bool {
    |p: (PeerId, M)| p.0 != peer
}

/// The message of an addressed message.
pub open spec fn payload<M>() -> spec_fn((PeerId, M)) -> M {
    |p: (PeerId, M)| p.1
}

/// The messages of `s` addressed to `peer`, in order.
pub open spec fn to_peer<M>(s: Seq<(PeerId, M)>, peer: PeerId) -> Seq<M> {
    s.filter(addressed_to(peer)).map_values(payload())
}

/// The messages of `s` addressed elsewhere, in order.
pub open spec fn to_others<M>(s: Seq<(PeerId, M)>, peer: PeerId) -> Seq<(PeerId, M)> {
    s.filter(addressed_elsewhere(peer))
}

/// Routes produced messages: those for `peer_id` join its outbound queue,
/// the others join the targeted queue, each in order.
pub fn route_peer_messages<M>(
    peer_id: PeerId,
    messages: Vec<(PeerId, M)>,
    outbound: &mut Vec<M>,
    targeted: &mut Vec<(PeerId, M)>,
)
    ensures
        final(outbound)@ == old(outbound)@ + to_peer(messages@, peer_id),
        final(targeted)@ == old(targeted)@ + to_others(messages@, peer_id),
{
    let ghost all = messages@;
    let ghost fa = addressed_to::<M>(peer_id);
    let ghost fb = addressed_elsewhere::<M>(peer_id);
    let ghost g = payload::<M>();
    let ghost out0 = outbound@;
    let ghost tar0 = targeted@;
    let n = messages.len();
    assert(all.len() == n);
    let mut rest = messages;
    let mut k: usize = 0;
    assert(rest@ =~= all.subrange(0, all.len() as int));
    while rest.len() > 0
        invariant
            k <= all.len(),
            all.len() <= usize::MAX,
            rest@ == all.subrange(k as int, all.len() as int),
            fa == addressed_to::<M>(peer_id),
            fb == addressed_elsewhere::<M>(peer_id),
            g == payload::<M>(),
            outbound@ == out0 + all.take(k as int).filter(fa).map_values(g),
            targeted@ == tar0 + all.take(k as int).filter(fb),
        decreases rest@.len(),
    {
        let ghost item = all[k as int];
        proof {
            all.take(k as int).lemma_filter_push(item, fa);
            all.take(k as int).lemma_filter_push(item, fb);
            assert(all.take(k + 1) =~= all.take(k as int).push(item));
        }
        let (target, message) = rest.remove(0);
        if target == peer_id {
            outbound.push(message);
            proof {
                assert(all.take(k as int).filter(fa).push(item).map_values(g) =~= all.take(k as int).filter(
                    fa,
                ).map_values(g).push(item.1));
            }
        } else {
            targeted.push((target, message));
        }
        k = k + 1;
    }
    assert(all.take(k as int) =~= all);
}

} // verus!
