//! Inbound admission evidence: counters of admitted and rejected inbound
//! peers by class and reason, and the permission effects observed so far,
//! each kept once and in order.
use vstd::prelude::*;
use crate::identity::copy_vec;

verus! {

/// How a peer connection is classed.
#[derive(Debug, Clone, Copy, PartialEq, Eq, Structural, Hash)]
pub enum PeerConnectionClass {
    OrdinaryInbound,
    PermissionedInbound,
    ProtectedInbound,
    Outbound,
    ManualConfigured,
}

/// The inbound slot an admission used or asked for.
#[derive(Debug, Clone, Copy, PartialEq, Eq, Structural, Hash)]
pub enum InboundAdmissionSlotClass {
    Ordinary,
    Reserved,
}

/// Why an inbound peer was refused.
#[derive(Debug, Clone, Copy, PartialEq, Eq, Structural, Hash)]
pub enum InboundAdmissionRejectionReason {
    CapReached,
    ReservedSlotUnavailable,
    DuplicateEndpoint,
    DuplicatePeerId,
    SelfConnection,
    Shutdown,
}

/// A permission effect, by its position in the order of permission effects.
pub type PermissionEffectCode = u8;

/// The permission decision of one inbound peer: its class and the effects
/// that are active and inactive for it.
#[derive(Debug, Clone, PartialEq, Eq)]
pub struct ManagedInboundPermissionDecisionInfo {
    pub connection_class: PeerConnectionClass,
    pub active_effects: Vec<PermissionEffectCode>,
    pub inactive_effects: Vec<PermissionEffectCode>,
}

/// The record of an admitted inbound peer.
#[derive(Debug, Clone, PartialEq, Eq)]
pub struct InboundPeerRecord {
    pub connection_class: PeerConnectionClass,
    pub slot_class: InboundAdmissionSlotClass,
    pub permission_decision: ManagedInboundPermissionDecisionInfo,
}

/// A refused inbound peer: the reason and the slot it asked for.
#[derive(Debug, Clone, Copy, PartialEq, Eq, Structural)]
pub struct InboundAdmissionRejection {
    pub reason: InboundAdmissionRejectionReason,
    pub slot_class: InboundAdmissionSlotClass,
}

/// `s` is in strictly increasing order, so each item occurs once.
pub open spec fn strictly_increasing(s: Seq<PermissionEffectCode>) -> bool {
    forall|i: int, j: int| 0 <= i < j < s.len() ==> s[i] < s[j]
}

/// Inbound admission evidence as reported.
#[derive(Debug, Clone, PartialEq, Eq)]
pub struct ManagedInboundAdmissionInfo {
    pub admitted_inbound_peers: usize,
    pub rejected_inbound_peers: usize,
    pub ordinary_inbound_admits: usize,
    pub permissioned_inbound_admits: usize,
    pub protected_inbound_admits: usize,
    pub reserved_inbound_admits: usize,
    pub active_permission_effect_observations: usize,
    pub inactive_permission_effect_observations: usize,
    pub observed_active_permission_effects: Vec<PermissionEffectCode>,
    pub observed_inactive_permission_effects: Vec<PermissionEffectCode>,
    pub cap_rejections: usize,
    pub reserved_slot_rejections: usize,
    pub duplicate_endpoint_rejections: usize,
    pub duplicate_identity_rejections: usize,
    pub self_connection_rejections: usize,
    pub shutdown_rejections: usize,
    pub maybe_latest_rejection_reason: Option<InboundAdmissionRejectionReason>,
    pub maybe_latest_rejection_slot_class: Option<InboundAdmissionSlotClass>,
    pub maybe_latest_permission_decision: Option<ManagedInboundPermissionDecisionInfo>,
}

/// Inserts `x` into the strictly increasing `v`, unless it is there already.
pub fn insert_effect(v: &mut Vec<PermissionEffectCode>, x: PermissionEffectCode)
    requires
        strictly_increasing(old(v)@),
    ensures
        strictly_increasing(final(v)@),
        final(v)@.to_set() == old(v)@.to_set().insert(x),
{
    let ghost s = v@;
    let mut p: usize = 0;
    while p < v.len() && v[p] < x
        invariant
            v@ == s,
            strictly_increasing(s),
            p <= s.len(),
            forall|k: int| 0 <= k < p ==> s[k] < x,
        decreases s.len() - p,
    {
        p = p + 1;
    }
    if p < v.len() && v[p] == x {
        assert(s.to_set().insert(x) =~= s.to_set()) by {
            assert(s.contains(x)) by {
                assert(s[p as int] == x);
            }
        }
        return;
    }
    v.insert(p, x);
    proof {
        let t = v@;
        assert(t =~= s.take(p as int).push(x) + s.skip(p as int));
        assert forall|i: int, j: int| 0 <= i < j < t.len() implies t[i] < t[j] by {
            if j < p {
            } else if j == p {
            } else if i < p {
                assert(t[j] == s[j - 1]);
            } else if i == p {
                assert(t[j] == s[j - 1]);
                assert(s[p as int] > x);
                assert(s[p as int] <= s[j - 1]);
            } else {
                assert(t[i] == s[i - 1] && t[j] == s[j - 1]);
            }
        }
        assert forall|y: PermissionEffectCode| t.to_set().contains(y) <==> s.to_set().insert(x).contains(y) by {
            if t.to_set().contains(y) {
                let k = choose|k: int| 0 <= k < t.len() && t[k] == y;
                if k < p {
                    assert(s[k] == y);
                } else if k > p {
                    assert(s[k - 1] == y);
                }
            }
            if s.to_set().insert(x).contains(y) {
                if y == x {
                    assert(t[p as int] == x);
                } else {
                    let k = choose|k: int| 0 <= k < s.len() && s[k] == y;
                    if k < p {
                        assert(t[k] == y);
                    } else {
                        assert(t[k + 1] == y);
                    }
                }
            }
        }
        assert(t.to_set() =~= s.to_set().insert(x));
    }
}

/// Adds each effect of `effects` to the strictly increasing `v`.
pub fn record_effects(v: &mut Vec<PermissionEffectCode>, effects: &Vec<PermissionEffectCode>)
    requires
        strictly_increasing(old(v)@),
    ensures
        strictly_increasing(final(v)@),
        final(v)@.to_set() == old(v)@.to_set() + effects@.to_set(),
{
    let ghost s = v@;
    let mut i: usize = 0;
    while i < effects.len()
        invariant
            i <= effects@.len(),
            strictly_increasing(v@),
            v@.to_set() == s.to_set() + effects@.take(i as int).to_set(),
        decreases effects@.len() - i,
    {
        insert_effect(v, effects[i]);
        proof {
            assert(effects@.take(i as int + 1) =~= effects@.take(i as int).push(effects@[i as int]));
            effects@.take(i as int).lemma_push_to_set_commute(effects@[i as int]);
            assert(v@.to_set() =~= s.to_set() + effects@.take(i as int + 1).to_set());
        }
        i = i + 1;
    }
    assert(effects@.take(effects@.len() as int) =~= effects@);
}

impl ManagedInboundAdmissionInfo {
    /// The observed effects are each kept once and in order.
    pub open spec fn wf(&self) -> bool {
        &&& strictly_increasing(self.observed_active_permission_effects@)
        &&& strictly_increasing(self.observed_inactive_permission_effects@)
    }

    /// Whether nothing has been recorded yet.
    pub open spec fn is_fresh_spec(&self) -> bool {
        &&& self.admitted_inbound_peers == 0
        &&& self.rejected_inbound_peers == 0
        &&& self.ordinary_inbound_admits == 0
        &&& self.permissioned_inbound_admits == 0
        &&& self.protected_inbound_admits == 0
        &&& self.reserved_inbound_admits == 0
        &&& self.active_permission_effect_observations == 0
        &&& self.inactive_permission_effect_observations == 0
        &&& self.observed_active_permission_effects@.len() == 0
        &&& self.observed_inactive_permission_effects@.len() == 0
        &&& self.cap_rejections == 0
        &&& self.reserved_slot_rejections == 0
        &&& self.duplicate_endpoint_rejections == 0
        &&& self.duplicate_identity_rejections == 0
        &&& self.self_connection_rejections == 0
        &&& self.shutdown_rejections == 0
        &&& self.maybe_latest_rejection_reason is None
        &&& self.maybe_latest_rejection_slot_class is None
        &&& self.maybe_latest_permission_decision is None
    }

    /// Evidence before any inbound peer.
    pub fn new() -> (r: Self)
        ensures
            r.wf(),
            r.is_fresh_spec(),
            r.admitted_inbound_peers == 0,
            r.rejected_inbound_peers == 0,
            r.ordinary_inbound_admits == 0,
            r.permissioned_inbound_admits == 0,
            r.protected_inbound_admits == 0,
            r.reserved_inbound_admits == 0,
            r.active_permission_effect_observations == 0,
            r.inactive_permission_effect_observations == 0,
            r.observed_active_permission_effects@.len() == 0,
            r.observed_inactive_permission_effects@.len() == 0,
            r.cap_rejections == 0,
            r.reserved_slot_rejections == 0,
            r.duplicate_endpoint_rejections == 0,
            r.duplicate_identity_rejections == 0,
            r.self_connection_rejections == 0,
            r.shutdown_rejections == 0,
            r.maybe_latest_rejection_reason is None,
            r.maybe_latest_rejection_slot_class is None,
            r.maybe_latest_permission_decision is None,
    {
        ManagedInboundAdmissionInfo {
            admitted_inbound_peers: 0,
            rejected_inbound_peers: 0,
            ordinary_inbound_admits: 0,
            permissioned_inbound_admits: 0,
            protected_inbound_admits: 0,
            reserved_inbound_admits: 0,
            active_permission_effect_observations: 0,
            inactive_permission_effect_observations: 0,
            observed_active_permission_effects: Vec::new(),
            observed_inactive_permission_effects: Vec::new(),
            cap_rejections: 0,
            reserved_slot_rejections: 0,
            duplicate_endpoint_rejections: 0,
            duplicate_identity_rejections: 0,
            self_connection_rejections: 0,
            shutdown_rejections: 0,
            maybe_latest_rejection_reason: None,
            maybe_latest_rejection_slot_class: None,
            maybe_latest_permission_decision: None,
        }
    }

    /// Records an admitted inbound peer: one more admit, one more of its
    /// class and of a reserved slot where it used one, its effects counted
    /// and added to the observed ones, the latest rejection cleared and its
    /// permission decision kept as the latest.
    pub fn record_admit(&mut self, record: &InboundPeerRecord)
        requires
            old(self).wf(),
            old(self).admitted_inbound_peers < usize::MAX,
            old(self).ordinary_inbound_admits < usize::MAX,
            old(self).permissioned_inbound_admits < usize::MAX,
            old(self).protected_inbound_admits < usize::MAX,
            old(self).reserved_inbound_admits < usize::MAX,
            old(self).active_permission_effect_observations + record.permission_decision.active_effects@.len()
                <= usize::MAX,
            old(self).inactive_permission_effect_observations + record.permission_decision.inactive_effects@.len()
                <= usize::MAX,
        ensures
            final(self).wf(),
            final(self).admitted_inbound_peers == old(self).admitted_inbound_peers + 1,
            final(self).rejected_inbound_peers == old(self).rejected_inbound_peers,
            final(self).ordinary_inbound_admits == old(self).ordinary_inbound_admits
                + if record.connection_class == PeerConnectionClass::OrdinaryInbound { 1int } else { 0int },
            final(self).permissioned_inbound_admits == old(self).permissioned_inbound_admits
                + if record.connection_class == PeerConnectionClass::PermissionedInbound { 1int } else { 0int },
            final(self).protected_inbound_admits == old(self).protected_inbound_admits
                + if record.connection_class == PeerConnectionClass::ProtectedInbound { 1int } else { 0int },
            final(self).reserved_inbound_admits == old(self).reserved_inbound_admits
                + if record.slot_class == InboundAdmissionSlotClass::Reserved { 1int } else { 0int },
            final(self).active_permission_effect_observations == old(self).active_permission_effect_observations
                + record.permission_decision.active_effects@.len(),
            final(self).inactive_permission_effect_observations == old(self).inactive_permission_effect_observations
                + record.permission_decision.inactive_effects@.len(),
            final(self).observed_active_permission_effects@.to_set() == old(self).observed_active_permission_effects@.to_set()
                + record.permission_decision.active_effects@.to_set(),
            final(self).observed_inactive_permission_effects@.to_set()
                == old(self).observed_inactive_permission_effects@.to_set()
                + record.permission_decision.inactive_effects@.to_set(),
            final(self).cap_rejections == old(self).cap_rejections,
            final(self).reserved_slot_rejections == old(self).reserved_slot_rejections,
            final(self).duplicate_endpoint_rejections == old(self).duplicate_endpoint_rejections,
            final(self).duplicate_identity_rejections == old(self).duplicate_identity_rejections,
            final(self).self_connection_rejections == old(self).self_connection_rejections,
            final(self).shutdown_rejections == old(self).shutdown_rejections,
            final(self).maybe_latest_rejection_reason is None,
            final(self).maybe_latest_rejection_slot_class is None,
            final(self).maybe_latest_permission_decision matches Some(d) && d.connection_class
                == record.permission_decision.connection_class && d.active_effects@
                == record.permission_decision.active_effects@ && d.inactive_effects@
                == record.permission_decision.inactive_effects@,
    {
        self.admitted_inbound_peers = self.admitted_inbound_peers + 1;
        self.maybe_latest_rejection_reason = None;
        self.maybe_latest_rejection_slot_class = None;
        match record.connection_class {
            PeerConnectionClass::OrdinaryInbound => self.ordinary_inbound_admits = self.ordinary_inbound_admits + 1,
            PeerConnectionClass::PermissionedInbound => {
                self.permissioned_inbound_admits = self.permissioned_inbound_admits + 1
            },
            PeerConnectionClass::ProtectedInbound => self.protected_inbound_admits = self.protected_inbound_admits + 1,
            PeerConnectionClass::Outbound | PeerConnectionClass::ManualConfigured => {},
        }
        if record.slot_class == InboundAdmissionSlotClass::Reserved {
            self.reserved_inbound_admits = self.reserved_inbound_admits + 1;
        }
        self.active_permission_effect_observations = self.active_permission_effect_observations
            + record.permission_decision.active_effects.len();
        self.inactive_permission_effect_observations = self.inactive_permission_effect_observations
            + record.permission_decision.inactive_effects.len();
        record_effects(&mut self.observed_active_permission_effects, &record.permission_decision.active_effects);
        record_effects(&mut self.observed_inactive_permission_effects, &record.permission_decision.inactive_effects);
        let decision = ManagedInboundPermissionDecisionInfo {
            connection_class: record.permission_decision.connection_class,
            active_effects: copy_vec(&record.permission_decision.active_effects),
            inactive_effects: copy_vec(&record.permission_decision.inactive_effects),
        };
        self.maybe_latest_permission_decision = Some(decision);
    }

    /// Records a refused inbound peer: one more rejection, one more of its
    /// reason, the reason and slot kept as the latest and the latest
    /// permission decision cleared.
    pub fn record_rejection(&mut self, rejection: &InboundAdmissionRejection)
        requires
            old(self).rejected_inbound_peers < usize::MAX,
            old(self).cap_rejections < usize::MAX,
            old(self).reserved_slot_rejections < usize::MAX,
            old(self).duplicate_endpoint_rejections < usize::MAX,
            old(self).duplicate_identity_rejections < usize::MAX,
            old(self).self_connection_rejections < usize::MAX,
            old(self).shutdown_rejections < usize::MAX,
        ensures
            old(self).wf() ==> final(self).wf(),
            final(self).rejected_inbound_peers == old(self).rejected_inbound_peers + 1,
            final(self).admitted_inbound_peers == old(self).admitted_inbound_peers,
            final(self).ordinary_inbound_admits == old(self).ordinary_inbound_admits,
            final(self).permissioned_inbound_admits == old(self).permissioned_inbound_admits,
            final(self).protected_inbound_admits == old(self).protected_inbound_admits,
            final(self).reserved_inbound_admits == old(self).reserved_inbound_admits,
            final(self).active_permission_effect_observations == old(self).active_permission_effect_observations,
            final(self).inactive_permission_effect_observations == old(self).inactive_permission_effect_observations,
            final(self).observed_active_permission_effects@ == old(self).observed_active_permission_effects@,
            final(self).observed_inactive_permission_effects@ == old(self).observed_inactive_permission_effects@,
            final(self).cap_rejections == old(self).cap_rejections
                + if rejection.reason == InboundAdmissionRejectionReason::CapReached { 1int } else { 0int },
            final(self).reserved_slot_rejections == old(self).reserved_slot_rejections
                + if rejection.reason == InboundAdmissionRejectionReason::ReservedSlotUnavailable { 1int } else { 0int },
            final(self).duplicate_endpoint_rejections == old(self).duplicate_endpoint_rejections
                + if rejection.reason == InboundAdmissionRejectionReason::DuplicateEndpoint { 1int } else { 0int },
            final(self).duplicate_identity_rejections == old(self).duplicate_identity_rejections
                + if rejection.reason == InboundAdmissionRejectionReason::DuplicatePeerId { 1int } else { 0int },
            final(self).self_connection_rejections == old(self).self_connection_rejections
                + if rejection.reason == InboundAdmissionRejectionReason::SelfConnection { 1int } else { 0int },
            final(self).shutdown_rejections == old(self).shutdown_rejections
                + if rejection.reason == InboundAdmissionRejectionReason::Shutdown { 1int } else { 0int },
            final(self).maybe_latest_rejection_reason == Some(rejection.reason),
            final(self).maybe_latest_rejection_slot_class == Some(rejection.slot_class),
            final(self).maybe_latest_permission_decision is None,
    {
        self.rejected_inbound_peers = self.rejected_inbound_peers + 1;
        self.maybe_latest_rejection_reason = Some(rejection.reason);
        self.maybe_latest_rejection_slot_class = Some(rejection.slot_class);
        self.maybe_latest_permission_decision = None;
        match rejection.reason {
            InboundAdmissionRejectionReason::CapReached => self.cap_rejections = self.cap_rejections + 1,
            InboundAdmissionRejectionReason::ReservedSlotUnavailable => {
                self.reserved_slot_rejections = self.reserved_slot_rejections + 1
            },
            InboundAdmissionRejectionReason::DuplicateEndpoint => {
                self.duplicate_endpoint_rejections = self.duplicate_endpoint_rejections + 1
            },
            InboundAdmissionRejectionReason::DuplicatePeerId => {
                self.duplicate_identity_rejections = self.duplicate_identity_rejections + 1
            },
            InboundAdmissionRejectionReason::SelfConnection => {
                self.self_connection_rejections = self.self_connection_rejections + 1
            },
            InboundAdmissionRejectionReason::Shutdown => self.shutdown_rejections = self.shutdown_rejections + 1,
        }
    }
}

/// The handshake state of an inbound peer's record.
#[derive(Debug, Clone, Copy, PartialEq, Eq, Structural, Hash)]
pub enum InboundHandshakeState {
    Pending,
    Established,
    Disconnected,
}

/// A peer is active unless its inbound record says it disconnected; a peer
/// without an inbound record is active.
pub fn is_active_inbound_peer(maybe_handshake_state: Option<InboundHandshakeState>) -> (r: bool)
    ensures
        r == !(maybe_handshake_state == Some(InboundHandshakeState::Disconnected)),
{
    match maybe_handshake_state {
        Some(InboundHandshakeState::Disconnected) => false,
        _ => true,
    }
}

} // verus!
