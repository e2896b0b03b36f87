//! Operator-facing summaries of peer-policy, resource-governance and
//! address-boundary decisions.
use vstd::prelude::*;

verus! {

/// `value` as a `u32`, clamped at `u32::MAX`.
pub open spec fn clamp_u32(value: int) -> u32 {
    if value > u32::MAX {
        u32::MAX
    } else {
        value as u32
    }
}

/// `value` as a `u32`, clamped at `u32::MAX`.
pub fn usize_to_u32(value: usize) -> (r: u32)
    ensures
        r == clamp_u32(value as int),
{
    if value > 4294967295usize {
        u32::MAX
    } else {
        value as u32
    }
}

/// `n + 1`, clamped at `u32::MAX`.
pub open spec fn sat_inc32(n: u32) -> u32 {
    clamp_u32(n + 1)
}

/// One address-boundary decision as reported.
#[derive(Debug, Clone, Copy, PartialEq, Eq, Structural)]
pub struct InboundAddressDecisionEvent {
    pub outcome: AddressDecisionOutcome,
    pub label: AddressDecisionLabel,
    pub source: AddressDecisionSource,
}

/// The label of an address-boundary decision.
#[derive(Debug, Clone, Copy, PartialEq, Eq, Structural, Hash)]
pub enum AddressDecisionLabel {
    AdvertiseCandidate,
    AdvertiseSuppressed,
    GetAddrServed,
    GetAddrSuppressed,
    LearnedAccepted,
    LearnedRejected,
    FullRelayDeferred,
}

/// The outcome of an address-boundary decision.
#[derive(Debug, Clone, Copy, PartialEq, Eq, Structural, Hash)]
pub enum AddressDecisionOutcome {
    Accepted,
    Suppressed,
    Served,
    Rejected,
    Deferred,
}

impl AddressDecisionOutcome {
    pub fn as_str(self) -> (r: &'static str)
        ensures
            r == (match self {
                AddressDecisionOutcome::Accepted => "accepted",
                AddressDecisionOutcome::Suppressed => "suppressed",
                AddressDecisionOutcome::Served => "served",
                AddressDecisionOutcome::Rejected => "rejected",
                AddressDecisionOutcome::Deferred => "deferred",
            }),
    {
        match self {
            AddressDecisionOutcome::Accepted => "accepted",
            AddressDecisionOutcome::Suppressed => "suppressed",
            AddressDecisionOutcome::Served => "served",
            AddressDecisionOutcome::Rejected => "rejected",
            AddressDecisionOutcome::Deferred => "deferred",
        }
    }
}

/// Where an address-boundary decision came from.
#[derive(Debug, Clone, Copy, PartialEq, Eq, Structural, Hash)]
pub enum AddressDecisionSource {
    LocalListener,
    InboundAddr,
}

impl AddressDecisionSource {
    pub fn as_str(self) -> (r: &'static str)
        ensures
            r == (match self {
                AddressDecisionSource::LocalListener => "source_local_listener",
                AddressDecisionSource::InboundAddr => "source_inbound_addr",
            }),
    {
        match self {
            AddressDecisionSource::LocalListener => "source_local_listener",
            AddressDecisionSource::InboundAddr => "source_inbound_addr",
        }
    }
}

/// The outcome of a decision with `label`.
pub open spec fn address_outcome_spec(label: AddressDecisionLabel) -> AddressDecisionOutcome {
    match label {
        AddressDecisionLabel::AdvertiseCandidate | AddressDecisionLabel::LearnedAccepted => AddressDecisionOutcome::Accepted,
        AddressDecisionLabel::AdvertiseSuppressed | AddressDecisionLabel::GetAddrSuppressed => {
            AddressDecisionOutcome::Suppressed
        },
        AddressDecisionLabel::GetAddrServed => AddressDecisionOutcome::Served,
        AddressDecisionLabel::LearnedRejected => AddressDecisionOutcome::Rejected,
        AddressDecisionLabel::FullRelayDeferred => AddressDecisionOutcome::Deferred,
    }
}

/// The outcome of a decision with `label`.
pub fn address_decision_outcome(label: AddressDecisionLabel) -> (r: AddressDecisionOutcome)
    ensures
        r == address_outcome_spec(label),
{
    match label {
        AddressDecisionLabel::AdvertiseCandidate | AddressDecisionLabel::LearnedAccepted => AddressDecisionOutcome::Accepted,
        AddressDecisionLabel::AdvertiseSuppressed | AddressDecisionLabel::GetAddrSuppressed => {
            AddressDecisionOutcome::Suppressed
        },
        AddressDecisionLabel::GetAddrServed => AddressDecisionOutcome::Served,
        AddressDecisionLabel::LearnedRejected => AddressDecisionOutcome::Rejected,
        AddressDecisionLabel::FullRelayDeferred => AddressDecisionOutcome::Deferred,
    }
}

/// The source of a peer-side decision with `label`.
pub fn address_decision_source(label: AddressDecisionLabel) -> (r: AddressDecisionSource)
    ensures
        r == if label == AddressDecisionLabel::AdvertiseCandidate || label == AddressDecisionLabel::AdvertiseSuppressed {
            AddressDecisionSource::LocalListener
        } else {
            AddressDecisionSource::InboundAddr
        },
{
    match label {
        AddressDecisionLabel::AdvertiseCandidate | AddressDecisionLabel::AdvertiseSuppressed => {
            AddressDecisionSource::LocalListener
        },
        _ => AddressDecisionSource::InboundAddr,
    }
}

/// Address-boundary evidence as reported.
#[derive(Debug, Clone, PartialEq, Eq)]
pub struct ManagedAddressBoundaryInfo {
    pub local_advertisement_candidates: Vec<InboundAddressDecisionEvent>,
    pub suppressed_advertisements: Vec<InboundAddressDecisionEvent>,
    pub getaddr_responses_served: u32,
    pub getaddr_requests_suppressed: u32,
    pub learned_address_entries: u32,
    pub learned_address_rejections: u32,
    pub maybe_latest_address_decision: Option<InboundAddressDecisionEvent>,
}

impl ManagedAddressBoundaryInfo {
    /// No address-boundary evidence.
    pub fn new() -> (r: Self)
        ensures
            r.local_advertisement_candidates@.len() == 0,
            r.suppressed_advertisements@.len() == 0,
            r.getaddr_responses_served == 0,
            r.getaddr_requests_suppressed == 0,
            r.learned_address_entries == 0,
            r.learned_address_rejections == 0,
            r.maybe_latest_address_decision is None,
    {
        ManagedAddressBoundaryInfo {
            local_advertisement_candidates: Vec::new(),
            suppressed_advertisements: Vec::new(),
            getaddr_responses_served: 0,
            getaddr_requests_suppressed: 0,
            learned_address_entries: 0,
            learned_address_rejections: 0,
            maybe_latest_address_decision: None,
        }
    }

    /// Whether `self` and `other` hold the same evidence.
    pub open spec fn same_evidence(&self, other: ManagedAddressBoundaryInfo) -> bool {
        &&& self.local_advertisement_candidates@ == other.local_advertisement_candidates@
        &&& self.suppressed_advertisements@ == other.suppressed_advertisements@
        &&& self.getaddr_responses_served == other.getaddr_responses_served
        &&& self.getaddr_requests_suppressed == other.getaddr_requests_suppressed
        &&& self.learned_address_entries == other.learned_address_entries
        &&& self.learned_address_rejections == other.learned_address_rejections
        &&& self.maybe_latest_address_decision == other.maybe_latest_address_decision
    }

    /// Whether nothing has been recorded.
    pub open spec fn is_empty_spec(&self) -> bool {
        &&& self.local_advertisement_candidates@.len() == 0
        &&& self.suppressed_advertisements@.len() == 0
        &&& self.getaddr_responses_served == 0
        &&& self.getaddr_requests_suppressed == 0
        &&& self.learned_address_entries == 0
        &&& self.learned_address_rejections == 0
        &&& self.maybe_latest_address_decision is None
    }

    /// Whether nothing has been recorded.
    pub fn is_empty(&self) -> (r: bool)
        ensures
            r == self.is_empty_spec(),
    {
        self.local_advertisement_candidates.len() == 0 && self.suppressed_advertisements.len() == 0
            && self.getaddr_responses_served == 0 && self.getaddr_requests_suppressed == 0
            && self.learned_address_entries == 0 && self.learned_address_rejections == 0
            && self.maybe_latest_address_decision.is_none()
    }
}

/// Why the eviction policy chose or declined to evict.
#[derive(Debug, Clone, Copy, PartialEq, Eq)]
pub enum EvictionDecision {
    Select { reason: &'static str },
    Suppress { reason: &'static str, protected_peer_count: usize },
}

/// The response a misbehavior policy chose.
#[derive(Debug, Clone, Copy, PartialEq, Eq, Structural, Hash)]
pub enum MisbehaviorResponse {
    ObserveOnly,
    Disconnect,
    Discourage,
    Ban,
    ProtectedNoAction,
}

impl MisbehaviorResponse {
    pub fn as_str(self) -> (r: &'static str)
        ensures
            r == (match self {
                MisbehaviorResponse::ObserveOnly => "observe_only",
                MisbehaviorResponse::Disconnect => "disconnect",
                MisbehaviorResponse::Discourage => "discourage",
                MisbehaviorResponse::Ban => "ban",
                MisbehaviorResponse::ProtectedNoAction => "protected_no_action",
            }),
    {
        match self {
            MisbehaviorResponse::ObserveOnly => "observe_only",
            MisbehaviorResponse::Disconnect => "disconnect",
            MisbehaviorResponse::Discourage => "discourage",
            MisbehaviorResponse::Ban => "ban",
            MisbehaviorResponse::ProtectedNoAction => "protected_no_action",
        }
    }
}

/// One misbehavior decision: its response and the misbehavior's kind.
#[derive(Debug, Clone, Copy, PartialEq, Eq)]
pub struct MisbehaviorDecision {
    pub response: MisbehaviorResponse,
    pub kind: &'static str,
}

/// Who asked for a ban.
#[derive(Debug, Clone, Copy, PartialEq, Eq, Structural, Hash)]
pub enum BanSource {
    MisbehaviorPolicy,
    Manual,
    Other,
}

/// The reported source of a ban from `source`.
pub fn peer_policy_source(source: BanSource) -> (r: &'static str)
    ensures
        r == (match source {
            BanSource::MisbehaviorPolicy => "source_misbehavior_policy",
            BanSource::Manual => "source_manual_ban",
            BanSource::Other => "source_ban_policy",
        }),
{
    match source {
        BanSource::MisbehaviorPolicy => "source_misbehavior_policy",
        BanSource::Manual => "source_manual_ban",
        BanSource::Other => "source_ban_policy",
    }
}

/// A ban decision: the ban is active or has expired.
#[derive(Debug, Clone, Copy, PartialEq, Eq)]
pub enum BanDecision {
    Active { reason: &'static str, source: BanSource },
    Expired { reason: &'static str, source: BanSource },
}

/// An unban decision.
#[derive(Debug, Clone, Copy, PartialEq, Eq, Structural, Hash)]
pub enum UnbanDecision {
    Unbanned,
    NotFound,
    AlreadyExpired,
}

/// The reported reason of an unban decision.
pub fn unban_decision_reason(decision: UnbanDecision) -> (r: &'static str)
    ensures
        r == (match decision {
            UnbanDecision::Unbanned => "manual_unban",
            UnbanDecision::NotFound => "unban_not_found",
            UnbanDecision::AlreadyExpired => "ban_already_expired",
        }),
{
    match decision {
        UnbanDecision::Unbanned => "manual_unban",
        UnbanDecision::NotFound => "unban_not_found",
        UnbanDecision::AlreadyExpired => "ban_already_expired",
    }
}

/// The latest peer-policy decision as reported.
#[derive(Debug, Clone, Copy, PartialEq, Eq)]
pub enum PeerPolicyEvent {
    Eviction(EvictionDecision),
    Misbehavior(MisbehaviorDecision),
    Ban(BanDecision),
    Unban(UnbanDecision),
}

/// Peer-policy evidence as reported.
#[derive(Debug, Clone, Copy, PartialEq, Eq)]
pub struct ManagedPeerPolicyInfo {
    pub eviction_candidates_evaluated: u32,
    pub disconnects_requested: u32,
    pub discouraged_peers: u32,
    pub active_bans: u32,
    pub expired_bans: u32,
    pub manual_unbans: u32,
    pub misbehavior_observations: u32,
    pub protected_no_actions: u32,
    pub maybe_latest_peer_policy_decision: Option<PeerPolicyEvent>,
}

/// Peer-policy info after one eviction decision.
pub open spec fn after_eviction(i: ManagedPeerPolicyInfo, d: EvictionDecision) -> ManagedPeerPolicyInfo {
    match d {
        EvictionDecision::Select { .. } => ManagedPeerPolicyInfo {
            disconnects_requested: sat_inc32(i.disconnects_requested),
            maybe_latest_peer_policy_decision: Some(PeerPolicyEvent::Eviction(d)),
            ..i
        },
        EvictionDecision::Suppress { protected_peer_count, .. } => ManagedPeerPolicyInfo {
            protected_no_actions: clamp_u32(i.protected_no_actions + clamp_u32(protected_peer_count as int)),
            maybe_latest_peer_policy_decision: Some(PeerPolicyEvent::Eviction(d)),
            ..i
        },
    }
}

/// Peer-policy info after one misbehavior decision.
pub open spec fn after_misbehavior(i: ManagedPeerPolicyInfo, d: MisbehaviorDecision) -> ManagedPeerPolicyInfo {
    let j = match d.response {
        MisbehaviorResponse::ObserveOnly => i,
        MisbehaviorResponse::Disconnect => ManagedPeerPolicyInfo {
            disconnects_requested: sat_inc32(i.disconnects_requested),
            ..i
        },
        MisbehaviorResponse::Discourage => ManagedPeerPolicyInfo { discouraged_peers: sat_inc32(i.discouraged_peers), ..i },
        MisbehaviorResponse::Ban => ManagedPeerPolicyInfo { active_bans: sat_inc32(i.active_bans), ..i },
        MisbehaviorResponse::ProtectedNoAction => ManagedPeerPolicyInfo {
            protected_no_actions: sat_inc32(i.protected_no_actions),
            ..i
        },
    };
    ManagedPeerPolicyInfo { maybe_latest_peer_policy_decision: Some(PeerPolicyEvent::Misbehavior(d)), ..j }
}

/// Peer-policy info after one ban decision.
pub open spec fn after_ban(i: ManagedPeerPolicyInfo, d: BanDecision) -> ManagedPeerPolicyInfo {
    let j = match d {
        BanDecision::Active { .. } => ManagedPeerPolicyInfo { active_bans: sat_inc32(i.active_bans), ..i },
        BanDecision::Expired { .. } => ManagedPeerPolicyInfo { expired_bans: sat_inc32(i.expired_bans), ..i },
    };
    ManagedPeerPolicyInfo { maybe_latest_peer_policy_decision: Some(PeerPolicyEvent::Ban(d)), ..j }
}

/// Peer-policy info after one unban decision.
pub open spec fn after_unban(i: ManagedPeerPolicyInfo, d: UnbanDecision) -> ManagedPeerPolicyInfo {
    let j = match d {
        UnbanDecision::Unbanned => ManagedPeerPolicyInfo { manual_unbans: sat_inc32(i.manual_unbans), ..i },
        UnbanDecision::NotFound => i,
        UnbanDecision::AlreadyExpired => ManagedPeerPolicyInfo { expired_bans: sat_inc32(i.expired_bans), ..i },
    };
    ManagedPeerPolicyInfo { maybe_latest_peer_policy_decision: Some(PeerPolicyEvent::Unban(d)), ..j }
}

/// `i` after each misbehavior decision of `ds` in turn.
pub open spec fn fold_misbehavior(i: ManagedPeerPolicyInfo, ds: Seq<MisbehaviorDecision>) -> ManagedPeerPolicyInfo
    decreases ds.len(),
{
    if ds.len() == 0 {
        i
    } else {
        after_misbehavior(fold_misbehavior(i, ds.drop_last()), ds.last())
    }
}

/// `i` after each ban decision of `ds` in turn.
pub open spec fn fold_ban(i: ManagedPeerPolicyInfo, ds: Seq<BanDecision>) -> ManagedPeerPolicyInfo
    decreases ds.len(),
{
    if ds.len() == 0 {
        i
    } else {
        after_ban(fold_ban(i, ds.drop_last()), ds.last())
    }
}

/// `i` after each unban decision of `ds` in turn.
pub open spec fn fold_unban(i: ManagedPeerPolicyInfo, ds: Seq<UnbanDecision>) -> ManagedPeerPolicyInfo
    decreases ds.len(),
{
    if ds.len() == 0 {
        i
    } else {
        after_unban(fold_unban(i, ds.drop_last()), ds.last())
    }
}

/// The peer-policy info built from the policy's decisions.
pub open spec fn policy_info_spec(
    eviction_candidate_count: usize,
    maybe_eviction: Option<EvictionDecision>,
    misbehavior: Seq<MisbehaviorDecision>,
    bans: Seq<BanDecision>,
    unbans: Seq<UnbanDecision>,
) -> ManagedPeerPolicyInfo {
    let start = ManagedPeerPolicyInfo {
        eviction_candidates_evaluated: clamp_u32(eviction_candidate_count as int),
        disconnects_requested: 0,
        discouraged_peers: 0,
        active_bans: 0,
        expired_bans: 0,
        manual_unbans: 0,
        misbehavior_observations: clamp_u32(misbehavior.len() as int),
        protected_no_actions: 0,
        maybe_latest_peer_policy_decision: None,
    };
    let after_evict = match maybe_eviction {
        Some(d) => if eviction_candidate_count > 0 {
            after_eviction(start, d)
        } else {
            start
        },
        None => start,
    };
    fold_unban(fold_ban(fold_misbehavior(after_evict, misbehavior), bans), unbans)
}

fn record_eviction_decision(info: &mut ManagedPeerPolicyInfo, d: EvictionDecision)
    ensures
        *final(info) == after_eviction(*old(info), d),
{
    match d {
        EvictionDecision::Select { .. } => {
            info.disconnects_requested = info.disconnects_requested.saturating_add(1);
        },
        EvictionDecision::Suppress { protected_peer_count, .. } => {
            info.protected_no_actions = info.protected_no_actions.saturating_add(usize_to_u32(protected_peer_count));
        },
    }
    info.maybe_latest_peer_policy_decision = Some(PeerPolicyEvent::Eviction(d));
}

fn record_misbehavior_decision(info: &mut ManagedPeerPolicyInfo, d: MisbehaviorDecision)
    ensures
        *final(info) == after_misbehavior(*old(info), d),
{
    match d.response {
        MisbehaviorResponse::ObserveOnly => {},
        MisbehaviorResponse::Disconnect => {
            info.disconnects_requested = info.disconnects_requested.saturating_add(1);
        },
        MisbehaviorResponse::Discourage => {
            info.discouraged_peers = info.discouraged_peers.saturating_add(1);
        },
        MisbehaviorResponse::Ban => {
            info.active_bans = info.active_bans.saturating_add(1);
        },
        MisbehaviorResponse::ProtectedNoAction => {
            info.protected_no_actions = info.protected_no_actions.saturating_add(1);
        },
    }
    info.maybe_latest_peer_policy_decision = Some(PeerPolicyEvent::Misbehavior(d));
}

fn record_ban_decision(info: &mut ManagedPeerPolicyInfo, d: BanDecision)
    ensures
        *final(info) == after_ban(*old(info), d),
{
    match d {
        BanDecision::Active { .. } => {
            info.active_bans = info.active_bans.saturating_add(1);
        },
        BanDecision::Expired { .. } => {
            info.expired_bans = info.expired_bans.saturating_add(1);
        },
    }
    info.maybe_latest_peer_policy_decision = Some(PeerPolicyEvent::Ban(d));
}

fn record_unban_decision(info: &mut ManagedPeerPolicyInfo, d: UnbanDecision)
    ensures
        *final(info) == after_unban(*old(info), d),
{
    match d {
        UnbanDecision::Unbanned => {
            info.manual_unbans = info.manual_unbans.saturating_add(1);
        },
        UnbanDecision::NotFound => {},
        UnbanDecision::AlreadyExpired => {
            info.expired_bans = info.expired_bans.saturating_add(1);
        },
    }
    info.maybe_latest_peer_policy_decision = Some(PeerPolicyEvent::Unban(d));
}

impl ManagedPeerPolicyInfo {
    /// No peer-policy evidence.
    pub fn new() -> (r: Self)
        ensures
            r.is_empty_spec(),
    {
        ManagedPeerPolicyInfo {
            eviction_candidates_evaluated: 0,
            disconnects_requested: 0,
            discouraged_peers: 0,
            active_bans: 0,
            expired_bans: 0,
            manual_unbans: 0,
            misbehavior_observations: 0,
            protected_no_actions: 0,
            maybe_latest_peer_policy_decision: None,
        }
    }

    /// Whether nothing has been recorded.
    pub open spec fn is_empty_spec(&self) -> bool {
        &&& self.eviction_candidates_evaluated == 0
        &&& self.disconnects_requested == 0
        &&& self.discouraged_peers == 0
        &&& self.active_bans == 0
        &&& self.expired_bans == 0
        &&& self.manual_unbans == 0
        &&& self.misbehavior_observations == 0
        &&& self.protected_no_actions == 0
        &&& self.maybe_latest_peer_policy_decision is None
    }

    /// Whether nothing has been recorded.
    pub fn is_empty(&self) -> (r: bool)
        ensures
            r == self.is_empty_spec(),
    {
        self.eviction_candidates_evaluated == 0 && self.disconnects_requested == 0 && self.discouraged_peers == 0
            && self.active_bans == 0 && self.expired_bans == 0 && self.manual_unbans == 0
            && self.misbehavior_observations == 0 && self.protected_no_actions == 0
            && self.maybe_latest_peer_policy_decision.is_none()
    }

    /// Summarises the policy's decisions: the eviction decision (only when
    /// there were candidates), then each misbehavior, ban and unban decision
    /// in turn; counters saturate at `u32::MAX`; the latest decision is kept.
    pub fn from_policy_decisions(
        eviction_candidate_count: usize,
        maybe_eviction: Option<EvictionDecision>,
        misbehavior_decisions: &Vec<MisbehaviorDecision>,
        ban_decisions: &Vec<BanDecision>,
        unban_decisions: &Vec<UnbanDecision>,
    ) -> (r: Self)
        ensures
            r == policy_info_spec(
                eviction_candidate_count,
                maybe_eviction,
                misbehavior_decisions@,
                ban_decisions@,
                unban_decisions@,
            ),
    {
        let mut info = ManagedPeerPolicyInfo {
            eviction_candidates_evaluated: usize_to_u32(eviction_candidate_count),
            disconnects_requested: 0,
            discouraged_peers: 0,
            active_bans: 0,
            expired_bans: 0,
            manual_unbans: 0,
            misbehavior_observations: usize_to_u32(misbehavior_decisions.len()),
            protected_no_actions: 0,
            maybe_latest_peer_policy_decision: None,
        };
        match maybe_eviction {
            Some(d) => {
                if eviction_candidate_count > 0 {
                    record_eviction_decision(&mut info, d);
                }
            },
            None => {},
        }
        let ghost start = info;
        let mut i: usize = 0;
        while i < misbehavior_decisions.len()
            invariant
                i <= misbehavior_decisions@.len(),
                info == fold_misbehavior(start, misbehavior_decisions@.take(i as int)),
            decreases misbehavior_decisions@.len() - i,
        {
            proof {
                assert(misbehavior_decisions@.take(i + 1).drop_last() =~= misbehavior_decisions@.take(i as int));
            }
            record_misbehavior_decision(&mut info, misbehavior_decisions[i]);
            i = i + 1;
        }
        assert(misbehavior_decisions@.take(misbehavior_decisions@.len() as int) =~= misbehavior_decisions@);
        let ghost start2 = info;
        let mut j: usize = 0;
        while j < ban_decisions.len()
            invariant
                j <= ban_decisions@.len(),
                info == fold_ban(start2, ban_decisions@.take(j as int)),
            decreases ban_decisions@.len() - j,
        {
            proof {
                assert(ban_decisions@.take(j + 1).drop_last() =~= ban_decisions@.take(j as int));
            }
            record_ban_decision(&mut info, ban_decisions[j]);
            j = j + 1;
        }
        assert(ban_decisions@.take(ban_decisions@.len() as int) =~= ban_decisions@);
        let ghost start3 = info;
        let mut k: usize = 0;
        while k < unban_decisions.len()
            invariant
                k <= unban_decisions@.len(),
                info == fold_unban(start3, unban_decisions@.take(k as int)),
            decreases unban_decisions@.len() - k,
        {
            proof {
                assert(unban_decisions@.take(k + 1).drop_last() =~= unban_decisions@.take(k as int));
            }
            record_unban_decision(&mut info, unban_decisions[k]);
            k = k + 1;
        }
        assert(unban_decisions@.take(unban_decisions@.len() as int) =~= unban_decisions@);
        info
    }
}

/// What a resource-governance event asks for next.
#[derive(Debug, Clone, Copy, PartialEq, Eq, Structural, Hash)]
pub enum ResourceNextAction {
    ResourcePressureActive,
    ReadQueuePressure,
    WriteQueuePressure,
    RequestCapReached,
    PayloadRejected,
    TimeoutDisconnect,
    ChurnRejected,
    ReconnectSuppressed,
    Other,
}

/// One inbound resource-governance event.
#[derive(Debug, Clone, Copy, PartialEq, Eq)]
pub struct InboundResourceGovernanceEvent {
    pub outcome: &'static str,
    pub reason: &'static str,
    pub label: &'static str,
    pub source: &'static str,
    pub next_action: ResourceNextAction,
}

/// A structured log record of the latest resource-governance decision.
#[derive(Debug, Clone, Copy, PartialEq, Eq)]
pub struct StructuredLogRecord {
    pub timestamp_unix_seconds: u64,
    pub event: InboundResourceGovernanceEvent,
}

/// Resource-governance evidence as reported.
#[derive(Debug, Clone, Copy, PartialEq, Eq)]
pub struct ManagedResourceGovernanceInfo {
    pub resource_pressure_events: u32,
    pub read_queue_pressure_events: u32,
    pub write_queue_pressure_events: u32,
    pub request_cap_events: u32,
    pub payload_rejections: u32,
    pub timeout_disconnects: u32,
    pub churn_rejections: u32,
    pub reconnect_suppressions: u32,
    pub maybe_latest_resource_governance_decision: Option<InboundResourceGovernanceEvent>,
}

/// Resource-governance info after `event`.
pub open spec fn after_resource_event(
    i: ManagedResourceGovernanceInfo,
    event: InboundResourceGovernanceEvent,
) -> ManagedResourceGovernanceInfo {
    let j = match event.next_action {
        ResourceNextAction::ResourcePressureActive => ManagedResourceGovernanceInfo {
            resource_pressure_events: sat_inc32(i.resource_pressure_events),
            ..i
        },
        ResourceNextAction::ReadQueuePressure => ManagedResourceGovernanceInfo {
            read_queue_pressure_events: sat_inc32(i.read_queue_pressure_events),
            ..i
        },
        ResourceNextAction::WriteQueuePressure => ManagedResourceGovernanceInfo {
            write_queue_pressure_events: sat_inc32(i.write_queue_pressure_events),
            ..i
        },
        ResourceNextAction::RequestCapReached => ManagedResourceGovernanceInfo {
            request_cap_events: sat_inc32(i.request_cap_events),
            ..i
        },
        ResourceNextAction::PayloadRejected => ManagedResourceGovernanceInfo {
            payload_rejections: sat_inc32(i.payload_rejections),
            ..i
        },
        ResourceNextAction::TimeoutDisconnect => ManagedResourceGovernanceInfo {
            timeout_disconnects: sat_inc32(i.timeout_disconnects),
            ..i
        },
        ResourceNextAction::ChurnRejected => ManagedResourceGovernanceInfo {
            churn_rejections: sat_inc32(i.churn_rejections),
            ..i
        },
        ResourceNextAction::ReconnectSuppressed => ManagedResourceGovernanceInfo {
            reconnect_suppressions: sat_inc32(i.reconnect_suppressions),
            ..i
        },
        ResourceNextAction::Other => i,
    };
    ManagedResourceGovernanceInfo { maybe_latest_resource_governance_decision: Some(event), ..j }
}

impl ManagedResourceGovernanceInfo {
    /// No resource-governance evidence.
    pub fn new() -> (r: Self)
        ensures
            r.is_empty_spec(),
    {
        ManagedResourceGovernanceInfo {
            resource_pressure_events: 0,
            read_queue_pressure_events: 0,
            write_queue_pressure_events: 0,
            request_cap_events: 0,
            payload_rejections: 0,
            timeout_disconnects: 0,
            churn_rejections: 0,
            reconnect_suppressions: 0,
            maybe_latest_resource_governance_decision: None,
        }
    }

    /// Whether nothing has been recorded.
    pub open spec fn is_empty_spec(&self) -> bool {
        &&& self.resource_pressure_events == 0
        &&& self.read_queue_pressure_events == 0
        &&& self.write_queue_pressure_events == 0
        &&& self.request_cap_events == 0
        &&& self.payload_rejections == 0
        &&& self.timeout_disconnects == 0
        &&& self.churn_rejections == 0
        &&& self.reconnect_suppressions == 0
        &&& self.maybe_latest_resource_governance_decision is None
    }

    /// Whether nothing has been recorded.
    pub fn is_empty(&self) -> (r: bool)
        ensures
            r == self.is_empty_spec(),
    {
        self.resource_pressure_events == 0 && self.read_queue_pressure_events == 0
            && self.write_queue_pressure_events == 0 && self.request_cap_events == 0 && self.payload_rejections == 0
            && self.timeout_disconnects == 0 && self.churn_rejections == 0 && self.reconnect_suppressions == 0
            && self.maybe_latest_resource_governance_decision.is_none()
    }

    /// Counts the event by its next action (saturating) and keeps it as the
    /// latest decision.
    pub fn record_event(&mut self, event: InboundResourceGovernanceEvent)
        ensures
            *final(self) == after_resource_event(*old(self), event),
    {
        match event.next_action {
            ResourceNextAction::ResourcePressureActive => {
                self.resource_pressure_events = self.resource_pressure_events.saturating_add(1);
            },
            ResourceNextAction::ReadQueuePressure => {
                self.read_queue_pressure_events = self.read_queue_pressure_events.saturating_add(1);
            },
            ResourceNextAction::WriteQueuePressure => {
                self.write_queue_pressure_events = self.write_queue_pressure_events.saturating_add(1);
            },
            ResourceNextAction::RequestCapReached => {
                self.request_cap_events = self.request_cap_events.saturating_add(1);
            },
            ResourceNextAction::PayloadRejected => {
                self.payload_rejections = self.payload_rejections.saturating_add(1);
            },
            ResourceNextAction::TimeoutDisconnect => {
                self.timeout_disconnects = self.timeout_disconnects.saturating_add(1);
            },
            ResourceNextAction::ChurnRejected => {
                self.churn_rejections = self.churn_rejections.saturating_add(1);
            },
            ResourceNextAction::ReconnectSuppressed => {
                self.reconnect_suppressions = self.reconnect_suppressions.saturating_add(1);
            },
            ResourceNextAction::Other => {},
        }
        self.maybe_latest_resource_governance_decision = Some(event);
    }

    /// The log record of the latest decision, stamped with `timestamp_unix_seconds`.
    pub fn maybe_structured_log_record(&self, timestamp_unix_seconds: u64) -> (r: Option<StructuredLogRecord>)
        ensures
            r == match self.maybe_latest_resource_governance_decision {
                Some(event) => Some(StructuredLogRecord { timestamp_unix_seconds, event }),
                None => None::<StructuredLogRecord>,
            },
    {
        match self.maybe_latest_resource_governance_decision {
            Some(event) => Some(StructuredLogRecord { timestamp_unix_seconds, event }),
            None => None,
        }
    }
}

} // verus!
