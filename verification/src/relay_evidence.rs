//! Transaction-relay evidence: local submission labels, fan-out action
//! labels, serving outcomes, and the counters projected from them.
use vstd::prelude::*;
use crate::lifecycle::MempoolRemovalCause;

verus! {

/// How many elements of `s` satisfy `f`.
pub open spec fn count_where<A>(s: Seq<A>, f: spec_fn(A) -> bool) -> nat
    decreases s.len(),
{
    if s.len() == 0 {
        0
    } else {
        count_where(s.drop_last(), f) + if f(s.last()) {
            1nat
        } else {
            0nat
        }
    }
}

/// A count never exceeds the length.
pub proof fn lemma_count_where_bounded<A>(s: Seq<A>, f: spec_fn(A) -> bool)
    ensures
        count_where(s, f) <= s.len(),
    decreases s.len(),
{
    if s.len() > 0 {
        lemma_count_where_bounded(s.drop_last(), f);
    }
}

/// Counting a one-longer prefix adds the new element's contribution.
pub proof fn lemma_count_where_take<A>(s: Seq<A>, f: spec_fn(A) -> bool, i: int)
    requires
        0 <= i < s.len(),
    ensures
        count_where(s.take(i + 1), f) == count_where(s.take(i), f) + if f(s[i]) {
            1nat
        } else {
            0nat
        },
{
    assert(s.take(i + 1).drop_last() =~= s.take(i));
}

/// A count is zero exactly when no element satisfies `f`.
pub proof fn lemma_count_where_zero<A>(s: Seq<A>, f: spec_fn(A) -> bool)
    ensures
        (count_where(s, f) == 0) <==> (forall|i: int| 0 <= i < s.len() ==> !f(#[trigger] s[i])),
    decreases s.len(),
{
    if s.len() > 0 {
        lemma_count_where_zero(s.drop_last(), f);
        if count_where(s, f) == 0 {
            assert forall|i: int| 0 <= i < s.len() implies !f(#[trigger] s[i]) by {
                if i < s.len() - 1 {
                    assert(s.drop_last()[i] == s[i]);
                }
            }
        } else if !f(s.last()) {
            let j = choose|j: int| 0 <= j < s.drop_last().len() && f(#[trigger] s.drop_last()[j]);
            assert(s[j] == s.drop_last()[j]);
        }
    }
}

/// The label of one local submission step.
#[derive(Debug, Clone, Copy, PartialEq, Eq, Structural, Hash)]
pub enum LocalRelaySubmissionLabel {
    Accepted,
    Queued,
    Suppressed,
    NotEligible,
    RelayDisabled,
    Duplicate,
    Rejected,
    Orphaned,
    Evicted,
    Expired,
    RebroadcastDeferred,
}

impl LocalRelaySubmissionLabel {
    pub fn as_str(self) -> (r: &'static str)
        ensures
            r == (match self {
                LocalRelaySubmissionLabel::Accepted => "accepted",
                LocalRelaySubmissionLabel::Queued => "queued",
                LocalRelaySubmissionLabel::Suppressed => "suppressed",
                LocalRelaySubmissionLabel::NotEligible => "not_eligible",
                LocalRelaySubmissionLabel::RelayDisabled => "relay_disabled",
                LocalRelaySubmissionLabel::Duplicate => "duplicate",
                LocalRelaySubmissionLabel::Rejected => "rejected",
                LocalRelaySubmissionLabel::Orphaned => "orphaned",
                LocalRelaySubmissionLabel::Evicted => "evicted",
                LocalRelaySubmissionLabel::Expired => "expired",
                LocalRelaySubmissionLabel::RebroadcastDeferred => "rebroadcast_deferred",
            }),
    {
        match self {
            LocalRelaySubmissionLabel::Accepted => "accepted",
            LocalRelaySubmissionLabel::Queued => "queued",
            LocalRelaySubmissionLabel::Suppressed => "suppressed",
            LocalRelaySubmissionLabel::NotEligible => "not_eligible",
            LocalRelaySubmissionLabel::RelayDisabled => "relay_disabled",
            LocalRelaySubmissionLabel::Duplicate => "duplicate",
            LocalRelaySubmissionLabel::Rejected => "rejected",
            LocalRelaySubmissionLabel::Orphaned => "orphaned",
            LocalRelaySubmissionLabel::Evicted => "evicted",
            LocalRelaySubmissionLabel::Expired => "expired",
            LocalRelaySubmissionLabel::RebroadcastDeferred => "rebroadcast_deferred",
        }
    }
}

/// What became of a local rebroadcast request.
#[derive(Debug, Clone, Copy, PartialEq, Eq, Structural, Hash)]
pub enum RebroadcastEvidenceLabel {
    Deferred,
}

impl RebroadcastEvidenceLabel {
    pub fn as_str(self) -> (r: &'static str)
        ensures
            r == (match self {
                RebroadcastEvidenceLabel::Deferred => "rebroadcast_deferred",
            }),
    {
        match self {
            RebroadcastEvidenceLabel::Deferred => "rebroadcast_deferred",
        }
    }
}

/// The mempool's decision on one submitted transaction.
#[derive(Debug, Clone, Copy, PartialEq, Eq, Structural, Hash)]
pub enum MempoolOutcomeKind {
    Accepted,
    Replaced,
    Duplicate,
    Rejected,
    Orphaned,
    Evicted,
    Expired,
}

/// Why fan-out to a peer was suppressed.
#[derive(Debug, Clone, Copy, PartialEq, Eq, Structural, Hash)]
pub enum TxFanoutSuppressionReason {
    OriginPeer,
    AlreadyHave,
    RecentReject,
    InFlight,
    MempoolKnown,
    NotRelayEligible,
    RelayDisabled,
    QueueCapReached,
    RateLimited,
    IdentityUnavailable,
}

/// Why a transaction left the fan-out queue.
#[derive(Debug, Clone, Copy, PartialEq, Eq, Structural, Hash)]
pub enum TxFanoutCleanupReason {
    Confirmed,
    Replaced,
    Evicted,
    Expired,
    PeerDisconnected,
}

/// One fan-out action.
#[derive(Debug, Clone, Copy, PartialEq, Eq, Structural, Hash)]
pub enum TxFanoutActionKind {
    Announce,
    Suppress(TxFanoutSuppressionReason),
    QueueCap,
    RateLimit,
    RebroadcastDeferred,
    Cleanup(TxFanoutCleanupReason),
}

/// The label of a fan-out action.
#[derive(Debug, Clone, Copy, PartialEq, Eq, Structural, Hash)]
pub enum FanoutActionLabel {
    Announce,
    Suppress,
    QueueCap,
    RateLimit,
    RebroadcastDeferred,
    Cleanup,
}

impl FanoutActionLabel {
    pub fn as_str(self) -> (r: &'static str)
        ensures
            r == (match self {
                FanoutActionLabel::Announce => "announce",
                FanoutActionLabel::Suppress => "suppress",
                FanoutActionLabel::QueueCap => "queue_cap",
                FanoutActionLabel::RateLimit => "rate_limit",
                FanoutActionLabel::RebroadcastDeferred => "rebroadcast_deferred",
                FanoutActionLabel::Cleanup => "cleanup",
            }),
    {
        match self {
            FanoutActionLabel::Announce => "announce",
            FanoutActionLabel::Suppress => "suppress",
            FanoutActionLabel::QueueCap => "queue_cap",
            FanoutActionLabel::RateLimit => "rate_limit",
            FanoutActionLabel::RebroadcastDeferred => "rebroadcast_deferred",
            FanoutActionLabel::Cleanup => "cleanup",
        }
    }
}

/// The reason recorded with a fan-out action.
#[derive(Debug, Clone, Copy, PartialEq, Eq, Structural, Hash)]
pub enum FanoutActionReason {
    Suppression(TxFanoutSuppressionReason),
    Cleanup(TxFanoutCleanupReason),
    QueueCapReached,
    RateLimited,
}

/// A fan-out action as reported: its label and reason.
#[derive(Debug, Clone, Copy, PartialEq, Eq, Structural)]
pub struct ManagedRelayFanoutActionInfo {
    pub label: FanoutActionLabel,
    pub reason: Option<FanoutActionReason>,
}

/// The report of `action`.
pub open spec fn action_info_spec(action: TxFanoutActionKind) -> ManagedRelayFanoutActionInfo {
    match action {
        TxFanoutActionKind::Announce => ManagedRelayFanoutActionInfo { label: FanoutActionLabel::Announce, reason: None },
        TxFanoutActionKind::Suppress(r) => ManagedRelayFanoutActionInfo {
            label: FanoutActionLabel::Suppress,
            reason: Some(FanoutActionReason::Suppression(r)),
        },
        TxFanoutActionKind::QueueCap => ManagedRelayFanoutActionInfo {
            label: FanoutActionLabel::QueueCap,
            reason: Some(FanoutActionReason::QueueCapReached),
        },
        TxFanoutActionKind::RateLimit => ManagedRelayFanoutActionInfo {
            label: FanoutActionLabel::RateLimit,
            reason: Some(FanoutActionReason::RateLimited),
        },
        TxFanoutActionKind::RebroadcastDeferred => ManagedRelayFanoutActionInfo {
            label: FanoutActionLabel::RebroadcastDeferred,
            reason: None,
        },
        TxFanoutActionKind::Cleanup(r) => ManagedRelayFanoutActionInfo {
            label: FanoutActionLabel::Cleanup,
            reason: Some(FanoutActionReason::Cleanup(r)),
        },
    }
}

impl ManagedRelayFanoutActionInfo {
    /// The report of one fan-out action.
    pub fn from_action(action: TxFanoutActionKind) -> (r: Self)
        ensures
            r == action_info_spec(action),
    {
        match action {
            TxFanoutActionKind::Announce => ManagedRelayFanoutActionInfo { label: FanoutActionLabel::Announce, reason: None },
            TxFanoutActionKind::Suppress(r) => ManagedRelayFanoutActionInfo {
                label: FanoutActionLabel::Suppress,
                reason: Some(FanoutActionReason::Suppression(r)),
            },
            TxFanoutActionKind::QueueCap => ManagedRelayFanoutActionInfo {
                label: FanoutActionLabel::QueueCap,
                reason: Some(FanoutActionReason::QueueCapReached),
            },
            TxFanoutActionKind::RateLimit => ManagedRelayFanoutActionInfo {
                label: FanoutActionLabel::RateLimit,
                reason: Some(FanoutActionReason::RateLimited),
            },
            TxFanoutActionKind::RebroadcastDeferred => ManagedRelayFanoutActionInfo {
                label: FanoutActionLabel::RebroadcastDeferred,
                reason: None,
            },
            TxFanoutActionKind::Cleanup(r) => ManagedRelayFanoutActionInfo {
                label: FanoutActionLabel::Cleanup,
                reason: Some(FanoutActionReason::Cleanup(r)),
            },
        }
    }
}

/// The reports of `actions`, in order.
pub fn action_infos(actions: &Vec<TxFanoutActionKind>) -> (r: Vec<ManagedRelayFanoutActionInfo>)
    ensures
        r@.len() == actions@.len(),
        forall|i: int| 0 <= i < actions@.len() ==> #[trigger] r@[i] == action_info_spec(actions@[i]),
{
    let mut r: Vec<ManagedRelayFanoutActionInfo> = Vec::new();
    let mut i: usize = 0;
    while i < actions.len()
        invariant
            i <= actions@.len(),
            r@.len() == i,
            forall|j: int| 0 <= j < i ==> #[trigger] r@[j] == action_info_spec(actions@[j]),
        decreases actions@.len() - i,
    {
        r.push(ManagedRelayFanoutActionInfo::from_action(actions[i]));
        i = i + 1;
    }
    r
}

/// Fan-out bookkeeping as reported.
#[derive(Debug, Clone, PartialEq, Eq)]
pub struct ManagedRelayFanoutInfo {
    pub known_transactions: usize,
    pub queued_peers: usize,
    pub queued_transactions: usize,
    pub latest_actions: Vec<ManagedRelayFanoutActionInfo>,
}

/// The outcome label of one transaction request.
#[derive(Debug, Clone, Copy, PartialEq, Eq, Structural, Hash)]
pub enum TxServeOutcomeLabel {
    Served,
    Unknown,
    Stale,
    Confirmed,
    Rejected,
    Replaced,
    Evicted,
    Expired,
    IdentityMismatch,
    NotRelayEligible,
    NotTransactionInventory,
}

impl TxServeOutcomeLabel {
    pub fn as_str(self) -> (r: &'static str)
        ensures
            r == (match self {
                TxServeOutcomeLabel::Served => "served",
                TxServeOutcomeLabel::Unknown => "unknown",
                TxServeOutcomeLabel::Stale => "stale",
                TxServeOutcomeLabel::Confirmed => "confirmed",
                TxServeOutcomeLabel::Rejected => "rejected",
                TxServeOutcomeLabel::Replaced => "replaced",
                TxServeOutcomeLabel::Evicted => "evicted",
                TxServeOutcomeLabel::Expired => "expired",
                TxServeOutcomeLabel::IdentityMismatch => "identity_mismatch",
                TxServeOutcomeLabel::NotRelayEligible => "not_relay_eligible",
                TxServeOutcomeLabel::NotTransactionInventory => "not_transaction_inventory",
            }),
    {
        match self {
            TxServeOutcomeLabel::Served => "served",
            TxServeOutcomeLabel::Unknown => "unknown",
            TxServeOutcomeLabel::Stale => "stale",
            TxServeOutcomeLabel::Confirmed => "confirmed",
            TxServeOutcomeLabel::Rejected => "rejected",
            TxServeOutcomeLabel::Replaced => "replaced",
            TxServeOutcomeLabel::Evicted => "evicted",
            TxServeOutcomeLabel::Expired => "expired",
            TxServeOutcomeLabel::IdentityMismatch => "identity_mismatch",
            TxServeOutcomeLabel::NotRelayEligible => "not_relay_eligible",
            TxServeOutcomeLabel::NotTransactionInventory => "not_transaction_inventory",
        }
    }
}

/// One transaction-serving outcome as reported.
#[derive(Debug, Clone, Copy, PartialEq, Eq, Structural)]
pub struct ManagedTxServeOutcome {
    pub label: TxServeOutcomeLabel,
}

/// Transaction-serving bookkeeping as reported.
#[derive(Debug, Clone, PartialEq, Eq)]
pub struct ManagedRelayServingInfo {
    pub serveable_transactions: usize,
    pub known_status_transactions: usize,
    pub latest_outcomes: Vec<ManagedTxServeOutcome>,
}

/// The evidence of one local submission.
#[derive(Debug, Clone, PartialEq, Eq)]
pub struct LocalRelaySubmissionEvidence {
    pub labels: Vec<LocalRelaySubmissionLabel>,
    pub queued_count: usize,
    pub suppressed_count: usize,
    pub not_eligible_count: usize,
    pub relay_disabled_count: usize,
    pub maybe_rebroadcast: Option<RebroadcastEvidenceLabel>,
}

/// The label of a local submission's mempool outcome.
pub open spec fn outcome_label_spec(outcome: MempoolOutcomeKind) -> LocalRelaySubmissionLabel {
    match outcome {
        MempoolOutcomeKind::Accepted => LocalRelaySubmissionLabel::Accepted,
        MempoolOutcomeKind::Replaced => LocalRelaySubmissionLabel::Accepted,
        MempoolOutcomeKind::Duplicate => LocalRelaySubmissionLabel::Duplicate,
        MempoolOutcomeKind::Rejected => LocalRelaySubmissionLabel::Rejected,
        MempoolOutcomeKind::Orphaned => LocalRelaySubmissionLabel::Orphaned,
        MempoolOutcomeKind::Evicted => LocalRelaySubmissionLabel::Evicted,
        MempoolOutcomeKind::Expired => LocalRelaySubmissionLabel::Expired,
    }
}

/// The label of a local submission's mempool outcome.
pub fn local_submission_outcome_label(outcome: MempoolOutcomeKind) -> (r: LocalRelaySubmissionLabel)
    ensures
        r == outcome_label_spec(outcome),
{
    match outcome {
        MempoolOutcomeKind::Accepted | MempoolOutcomeKind::Replaced => LocalRelaySubmissionLabel::Accepted,
        MempoolOutcomeKind::Duplicate => LocalRelaySubmissionLabel::Duplicate,
        MempoolOutcomeKind::Rejected => LocalRelaySubmissionLabel::Rejected,
        MempoolOutcomeKind::Orphaned => LocalRelaySubmissionLabel::Orphaned,
        MempoolOutcomeKind::Evicted => LocalRelaySubmissionLabel::Evicted,
        MempoolOutcomeKind::Expired => LocalRelaySubmissionLabel::Expired,
    }
}

/// Whether `action` suppresses relay to a peer.
pub open spec fn is_suppressing(action: TxFanoutActionKind) -> bool {
    action is Suppress || action is QueueCap || action is RateLimit
}

/// Whether `action` suppresses for lack of relay eligibility.
pub open spec fn is_not_eligible(action: TxFanoutActionKind) -> bool {
    action == TxFanoutActionKind::Suppress(TxFanoutSuppressionReason::NotRelayEligible)
}

/// Whether `action` suppresses because relay is disabled.
pub open spec fn is_relay_disabled(action: TxFanoutActionKind) -> bool {
    action == TxFanoutActionKind::Suppress(TxFanoutSuppressionReason::RelayDisabled)
}

/// Whether `action` defers a rebroadcast.
pub open spec fn is_rebroadcast(action: TxFanoutActionKind) -> bool {
    action is RebroadcastDeferred
}

/// `s` followed by `l` when `flag` holds.
pub open spec fn push_if(s: Seq<LocalRelaySubmissionLabel>, flag: bool, l: LocalRelaySubmissionLabel) -> Seq<
    LocalRelaySubmissionLabel,
> {
    if flag {
        s.push(l)
    } else {
        s
    }
}

/// The evidence of a local submission with `outcome`, `queued_count` newly
/// queued announcements and the fan-out `actions`.
pub open spec fn submission_evidence_spec(
    outcome: MempoolOutcomeKind,
    queued_count: usize,
    actions: Seq<TxFanoutActionKind>,
) -> (Seq<LocalRelaySubmissionLabel>, nat, nat, nat, bool) {
    let suppressed = count_where(actions, |a: TxFanoutActionKind| is_suppressing(a));
    let not_eligible = count_where(actions, |a: TxFanoutActionKind| is_not_eligible(a));
    let relay_disabled = count_where(actions, |a: TxFanoutActionKind| is_relay_disabled(a));
    let rebroadcast = exists|i: int| 0 <= i < actions.len() && is_rebroadcast(#[trigger] actions[i]);
    let labels = push_if(
        push_if(
            push_if(
                push_if(seq![outcome_label_spec(outcome)], queued_count > 0, LocalRelaySubmissionLabel::Queued),
                suppressed > 0,
                LocalRelaySubmissionLabel::Suppressed,
            ),
            not_eligible > 0,
            LocalRelaySubmissionLabel::NotEligible,
        ),
        relay_disabled > 0,
        LocalRelaySubmissionLabel::RelayDisabled,
    );
    (
        push_if(labels, rebroadcast, LocalRelaySubmissionLabel::RebroadcastDeferred),
        suppressed,
        not_eligible,
        relay_disabled,
        rebroadcast,
    )
}

/// Builds the evidence of one local submission: its outcome label, then
/// `Queued`, `Suppressed`, `NotEligible`, `RelayDisabled` and
/// `RebroadcastDeferred` where they apply, and the suppression counts.
pub fn local_submission_evidence(
    outcome: MempoolOutcomeKind,
    queued_count: usize,
    actions: &Vec<TxFanoutActionKind>,
) -> (r: LocalRelaySubmissionEvidence)
    ensures
        ({
            let (labels, suppressed, not_eligible, relay_disabled, rebroadcast) = submission_evidence_spec(
                outcome,
                queued_count,
                actions@,
            );
            &&& r.labels@ == labels
            &&& r.queued_count == queued_count
            &&& r.suppressed_count == suppressed
            &&& r.not_eligible_count == not_eligible
            &&& r.relay_disabled_count == relay_disabled
            &&& r.maybe_rebroadcast == if rebroadcast {
                Some(RebroadcastEvidenceLabel::Deferred)
            } else {
                None
            }
        }),
{
    let ghost fs = |a: TxFanoutActionKind| is_suppressing(a);
    let ghost fe = |a: TxFanoutActionKind| is_not_eligible(a);
    let ghost fd = |a: TxFanoutActionKind| is_relay_disabled(a);
    let mut labels: Vec<LocalRelaySubmissionLabel> = Vec::new();
    labels.push(local_submission_outcome_label(outcome));
    if queued_count > 0 {
        labels.push(LocalRelaySubmissionLabel::Queued);
    }
    let mut suppressed_count: usize = 0;
    let mut not_eligible_count: usize = 0;
    let mut relay_disabled_count: usize = 0;
    let mut maybe_rebroadcast: Option<RebroadcastEvidenceLabel> = None;
    let mut i: usize = 0;
    while i < actions.len()
        invariant
            i <= actions@.len(),
            suppressed_count == count_where(actions@.take(i as int), fs),
            not_eligible_count == count_where(actions@.take(i as int), fe),
            relay_disabled_count == count_where(actions@.take(i as int), fd),
            maybe_rebroadcast is Some <==> exists|j: int| 0 <= j < i && is_rebroadcast(#[trigger] actions@[j]),
            maybe_rebroadcast is Some ==> maybe_rebroadcast == Some(RebroadcastEvidenceLabel::Deferred),
            fs == (|a: TxFanoutActionKind| is_suppressing(a)),
            fe == (|a: TxFanoutActionKind| is_not_eligible(a)),
            fd == (|a: TxFanoutActionKind| is_relay_disabled(a)),
        decreases actions@.len() - i,
    {
        proof {
            lemma_count_where_take(actions@, fs, i as int);
            lemma_count_where_take(actions@, fe, i as int);
            lemma_count_where_take(actions@, fd, i as int);
            lemma_count_where_bounded(actions@.take(i as int), fs);
            lemma_count_where_bounded(actions@.take(i as int), fe);
            lemma_count_where_bounded(actions@.take(i as int), fd);
        }
        match actions[i] {
            TxFanoutActionKind::Suppress(reason) => {
                suppressed_count = suppressed_count + 1;
                match reason {
                    TxFanoutSuppressionReason::NotRelayEligible => {
                        not_eligible_count = not_eligible_count + 1;
                    },
                    TxFanoutSuppressionReason::RelayDisabled => {
                        relay_disabled_count = relay_disabled_count + 1;
                    },
                    _ => {},
                }
            },
            TxFanoutActionKind::QueueCap | TxFanoutActionKind::RateLimit => {
                suppressed_count = suppressed_count + 1;
            },
            TxFanoutActionKind::RebroadcastDeferred => {
                maybe_rebroadcast = Some(RebroadcastEvidenceLabel::Deferred);
            },
            TxFanoutActionKind::Announce | TxFanoutActionKind::Cleanup(_) => {},
        }
        i = i + 1;
    }
    assert(actions@.take(actions@.len() as int) =~= actions@);
    if suppressed_count > 0 {
        labels.push(LocalRelaySubmissionLabel::Suppressed);
    }
    if not_eligible_count > 0 {
        labels.push(LocalRelaySubmissionLabel::NotEligible);
    }
    if relay_disabled_count > 0 {
        labels.push(LocalRelaySubmissionLabel::RelayDisabled);
    }
    if maybe_rebroadcast.is_some() {
        labels.push(LocalRelaySubmissionLabel::RebroadcastDeferred);
    }
    LocalRelaySubmissionEvidence {
        labels,
        queued_count,
        suppressed_count,
        not_eligible_count,
        relay_disabled_count,
        maybe_rebroadcast,
    }
}

/// The fan-out cleanup reason for a lifecycle removal.
pub open spec fn fanout_reason_spec(cause: MempoolRemovalCause) -> TxFanoutCleanupReason {
    match cause {
        MempoolRemovalCause::Replacement => TxFanoutCleanupReason::Replaced,
        MempoolRemovalCause::Expiry => TxFanoutCleanupReason::Expired,
        MempoolRemovalCause::Pressure => TxFanoutCleanupReason::Evicted,
        _ => TxFanoutCleanupReason::Confirmed,
    }
}

/// The fan-out cleanup reason for a lifecycle removal.
pub fn fanout_reason_for_lifecycle_removal(cause: MempoolRemovalCause) -> (r: TxFanoutCleanupReason)
    ensures
        r == fanout_reason_spec(cause),
{
    match cause {
        MempoolRemovalCause::Replacement => TxFanoutCleanupReason::Replaced,
        MempoolRemovalCause::Expiry => TxFanoutCleanupReason::Expired,
        MempoolRemovalCause::Pressure => TxFanoutCleanupReason::Evicted,
        MempoolRemovalCause::BlockConfirmation | MempoolRemovalCause::BlockConflict | MempoolRemovalCause::Reorg => {
            TxFanoutCleanupReason::Confirmed
        },
    }
}

/// The status recorded for a transaction in the serving cache.
#[derive(Debug, Clone, Copy, PartialEq, Eq, Structural, Hash)]
pub enum TxServingRecordStatus {
    Accepted,
    Stale,
    Confirmed,
    Rejected,
    Replaced,
    Evicted,
    Expired,
}

/// The fan-out cleanup a serving status calls for, if any.
pub fn cleanup_reason_for_serving_status(status: TxServingRecordStatus) -> (r: Option<TxFanoutCleanupReason>)
    ensures
        r == match status {
            TxServingRecordStatus::Confirmed => Some(TxFanoutCleanupReason::Confirmed),
            TxServingRecordStatus::Replaced => Some(TxFanoutCleanupReason::Replaced),
            TxServingRecordStatus::Evicted => Some(TxFanoutCleanupReason::Evicted),
            TxServingRecordStatus::Expired => Some(TxFanoutCleanupReason::Expired),
            _ => None::<TxFanoutCleanupReason>,
        },
{
    match status {
        TxServingRecordStatus::Confirmed => Some(TxFanoutCleanupReason::Confirmed),
        TxServingRecordStatus::Replaced => Some(TxFanoutCleanupReason::Replaced),
        TxServingRecordStatus::Evicted => Some(TxFanoutCleanupReason::Evicted),
        TxServingRecordStatus::Expired => Some(TxFanoutCleanupReason::Expired),
        TxServingRecordStatus::Accepted | TxServingRecordStatus::Stale | TxServingRecordStatus::Rejected => None,
    }
}

/// Relay counters projected from the latest evidence.
#[derive(Debug, Clone, Copy, PartialEq, Eq, Structural, Default)]
pub struct RelayEvidenceCounters {
    pub accepted_count: u64,
    pub rejected_count: u64,
    pub orphaned_count: u64,
    pub evicted_count: u64,
    pub expired_count: u64,
    pub announced_count: u64,
    pub suppressed_count: u64,
    pub rebroadcast_deferred_count: u64,
    pub requested_count: u64,
    pub served_count: u64,
}

/// Whether relay is activated.
#[derive(Debug, Clone, Copy, PartialEq, Eq, Structural)]
pub struct RelayActivationEvidence {
    pub enabled: bool,
}

/// Transaction-download eligibility over live peers.
#[derive(Debug, Clone, Copy, PartialEq, Eq, Structural, Default)]
pub struct RelayDownloadEligibilityCounters {
    pub eligible_peer_count: u64,
    pub ineligible_peer_count: u64,
}

/// Mempool recovery counters, copied from a recovery summary.
#[derive(Debug, Clone, Copy, PartialEq, Eq, Structural, Default)]
pub struct RelayRecoveryCounters {
    pub recovered_count: u64,
    pub dropped_confirmed_count: u64,
    pub dropped_duplicate_count: u64,
    pub dropped_missing_parent_count: u64,
    pub dropped_policy_incompatible_count: u64,
    pub dropped_expired_count: u64,
    pub dropped_evicted_count: u64,
}

/// A relay capability whose evidence is reported.
#[derive(Debug, Clone, Copy, PartialEq, Eq, Structural, Hash)]
pub enum RelayEvidenceCapability {
    MempoolAdmission,
    LocalSubmissionRelay,
    RelayFanout,
    RelayServing,
    Rebroadcast,
}

/// A reported evidence field: unavailable with the reason, or implemented
/// with a value.
#[derive(Debug, Clone, Copy, PartialEq, Eq)]
pub enum RelayEvidenceField<T> {
    Unavailable(&'static str),
    Implemented(T),
}

/// Why recovery counters are unavailable after a storage failure.
pub open spec fn relay_recovery_unavailable_reason_spec() -> &'static str {
    "mempool recovery storage evidence unavailable"
}

/// Why recovery counters are unavailable after a storage failure.
pub fn relay_recovery_evidence_unavailable_reason() -> (r: &'static str)
    ensures
        r == relay_recovery_unavailable_reason_spec(),
{
    "mempool recovery storage evidence unavailable"
}

/// Why a relay capability is reported unavailable: nothing has shown it yet.
pub open spec fn relay_capability_unavailable_reason_spec() -> &'static str {
    "relay capability evidence not yet observed"
}

/// Why a relay capability is reported unavailable.
pub fn relay_capability_unavailable_reason() -> (r: &'static str)
    ensures
        r == relay_capability_unavailable_reason_spec(),
{
    "relay capability evidence not yet observed"
}

/// The relay evidence as reported.
#[derive(Debug, Clone, Copy, PartialEq, Eq)]
pub struct RelayEvidenceStatus {
    pub activation: RelayActivationEvidence,
    pub download_eligibility: RelayDownloadEligibilityCounters,
    pub counters: RelayEvidenceCounters,
    pub recovery_counters: RelayEvidenceField<RelayRecoveryCounters>,
    pub mempool_admission: RelayEvidenceField<RelayEvidenceCapability>,
    pub local_submission: RelayEvidenceField<RelayEvidenceCapability>,
    pub fanout: RelayEvidenceField<RelayEvidenceCapability>,
    pub serving: RelayEvidenceField<RelayEvidenceCapability>,
    pub rebroadcast: RelayEvidenceField<RelayEvidenceCapability>,
}

/// The predicate "is the label `x`".
pub open spec fn label_is(x: LocalRelaySubmissionLabel) -> spec_fn(LocalRelaySubmissionLabel) -> bool {
    |l: LocalRelaySubmissionLabel| l == x
}

/// The predicate "is the serving outcome `x`".
pub open spec fn outcome_is(x: TxServeOutcomeLabel) -> spec_fn(ManagedTxServeOutcome) -> bool {
    |o: ManagedTxServeOutcome| o.label == x
}

/// The predicate "is a fan-out action with label `x`".
pub open spec fn action_is(x: FanoutActionLabel) -> spec_fn(ManagedRelayFanoutActionInfo) -> bool {
    |a: ManagedRelayFanoutActionInfo| a.label == x
}

/// The predicate "is a suppressing fan-out action".
pub open spec fn action_suppresses() -> spec_fn(ManagedRelayFanoutActionInfo) -> bool {
    |a: ManagedRelayFanoutActionInfo|
        a.label == FanoutActionLabel::Suppress || a.label == FanoutActionLabel::QueueCap || a.label
            == FanoutActionLabel::RateLimit
}

/// The predicate "is a cleanup for `reason`".
pub open spec fn cleanup_is(reason: TxFanoutCleanupReason) -> spec_fn(ManagedRelayFanoutActionInfo) -> bool {
    |a: ManagedRelayFanoutActionInfo|
        a.label == FanoutActionLabel::Cleanup && a.reason == Some(FanoutActionReason::Cleanup(reason))
}

/// The counters projected from the three evidence sources.
pub open spec fn projected_counters(
    labels: Seq<LocalRelaySubmissionLabel>,
    actions: Seq<ManagedRelayFanoutActionInfo>,
    outcomes: Seq<ManagedTxServeOutcome>,
) -> RelayEvidenceCounters {
    RelayEvidenceCounters {
        accepted_count: count_where(labels, label_is(LocalRelaySubmissionLabel::Accepted)) as u64,
        rejected_count: (count_where(labels, label_is(LocalRelaySubmissionLabel::Rejected)) + count_where(
            outcomes,
            outcome_is(TxServeOutcomeLabel::Rejected),
        )) as u64,
        orphaned_count: count_where(labels, label_is(LocalRelaySubmissionLabel::Orphaned)) as u64,
        evicted_count: (count_where(labels, label_is(LocalRelaySubmissionLabel::Evicted)) + count_where(
            actions,
            cleanup_is(TxFanoutCleanupReason::Evicted),
        ) + count_where(outcomes, outcome_is(TxServeOutcomeLabel::Evicted))) as u64,
        expired_count: (count_where(labels, label_is(LocalRelaySubmissionLabel::Expired)) + count_where(
            actions,
            cleanup_is(TxFanoutCleanupReason::Expired),
        ) + count_where(outcomes, outcome_is(TxServeOutcomeLabel::Expired))) as u64,
        announced_count: count_where(actions, action_is(FanoutActionLabel::Announce)) as u64,
        suppressed_count: count_where(actions, action_suppresses()) as u64,
        rebroadcast_deferred_count: count_where(actions, action_is(FanoutActionLabel::RebroadcastDeferred)) as u64,
        requested_count: outcomes.len() as u64,
        served_count: count_where(outcomes, outcome_is(TxServeOutcomeLabel::Served)) as u64,
    }
}

/// The counters of the label-only sources, before fan-out and serving.
fn local_counters(labels: &Vec<LocalRelaySubmissionLabel>) -> (r: RelayEvidenceCounters)
    requires
        labels@.len() <= u64::MAX,
    ensures
        r == projected_counters(labels@, Seq::empty(), Seq::empty()),
{
    let mut c = RelayEvidenceCounters {
        accepted_count: 0,
        rejected_count: 0,
        orphaned_count: 0,
        evicted_count: 0,
        expired_count: 0,
        announced_count: 0,
        suppressed_count: 0,
        rebroadcast_deferred_count: 0,
        requested_count: 0,
        served_count: 0,
    };
    let mut i: usize = 0;
    while i < labels.len()
        invariant
            i <= labels@.len(),
            labels@.len() <= u64::MAX,
            c == projected_counters(labels@.take(i as int), Seq::empty(), Seq::empty()),
        decreases labels@.len() - i,
    {
        proof {
            lemma_count_where_take(labels@, label_is(LocalRelaySubmissionLabel::Accepted), i as int);
            lemma_count_where_take(labels@, label_is(LocalRelaySubmissionLabel::Rejected), i as int);
            lemma_count_where_take(labels@, label_is(LocalRelaySubmissionLabel::Orphaned), i as int);
            lemma_count_where_take(labels@, label_is(LocalRelaySubmissionLabel::Evicted), i as int);
            lemma_count_where_take(labels@, label_is(LocalRelaySubmissionLabel::Expired), i as int);
            lemma_count_where_bounded(labels@.take(i as int), label_is(LocalRelaySubmissionLabel::Accepted));
            lemma_count_where_bounded(labels@.take(i as int), label_is(LocalRelaySubmissionLabel::Rejected));
            lemma_count_where_bounded(labels@.take(i as int), label_is(LocalRelaySubmissionLabel::Orphaned));
            lemma_count_where_bounded(labels@.take(i as int), label_is(LocalRelaySubmissionLabel::Evicted));
            lemma_count_where_bounded(labels@.take(i as int), label_is(LocalRelaySubmissionLabel::Expired));
        }
        match labels[i] {
            LocalRelaySubmissionLabel::Accepted => c.accepted_count = c.accepted_count + 1,
            LocalRelaySubmissionLabel::Rejected => c.rejected_count = c.rejected_count + 1,
            LocalRelaySubmissionLabel::Orphaned => c.orphaned_count = c.orphaned_count + 1,
            LocalRelaySubmissionLabel::Evicted => c.evicted_count = c.evicted_count + 1,
            LocalRelaySubmissionLabel::Expired => c.expired_count = c.expired_count + 1,
            _ => {},
        }
        i = i + 1;
    }
    assert(labels@.take(labels@.len() as int) =~= labels@);
    c
}

/// The counters of all three sources: local submission labels, fan-out
/// actions, and serving outcomes.
pub fn relay_counters(
    labels: &Vec<LocalRelaySubmissionLabel>,
    actions: &Vec<ManagedRelayFanoutActionInfo>,
    outcomes: &Vec<ManagedTxServeOutcome>,
) -> (r: RelayEvidenceCounters)
    requires
        labels@.len() + actions@.len() + outcomes@.len() <= u64::MAX,
    ensures
        r == projected_counters(labels@, actions@, outcomes@),
{
    let mut c = local_counters(labels);
    proof {
        lemma_count_where_bounded(labels@, label_is(LocalRelaySubmissionLabel::Evicted));
        lemma_count_where_bounded(labels@, label_is(LocalRelaySubmissionLabel::Expired));
        lemma_count_where_bounded(labels@, label_is(LocalRelaySubmissionLabel::Rejected));
    }
    let mut i: usize = 0;
    while i < actions.len()
        invariant
            i <= actions@.len(),
            labels@.len() + actions@.len() + outcomes@.len() <= u64::MAX,
            count_where(labels@, label_is(LocalRelaySubmissionLabel::Evicted)) <= labels@.len(),
            count_where(labels@, label_is(LocalRelaySubmissionLabel::Expired)) <= labels@.len(),
            count_where(labels@, label_is(LocalRelaySubmissionLabel::Rejected)) <= labels@.len(),
            c == projected_counters(labels@, actions@.take(i as int), Seq::empty()),
        decreases actions@.len() - i,
    {
        proof {
            lemma_count_where_take(actions@, action_is(FanoutActionLabel::Announce), i as int);
            lemma_count_where_take(actions@, action_is(FanoutActionLabel::RebroadcastDeferred), i as int);
            lemma_count_where_take(actions@, action_suppresses(), i as int);
            lemma_count_where_take(actions@, cleanup_is(TxFanoutCleanupReason::Evicted), i as int);
            lemma_count_where_take(actions@, cleanup_is(TxFanoutCleanupReason::Expired), i as int);
            lemma_count_where_bounded(actions@.take(i as int), action_is(FanoutActionLabel::Announce));
            lemma_count_where_bounded(actions@.take(i as int), action_is(FanoutActionLabel::RebroadcastDeferred));
            lemma_count_where_bounded(actions@.take(i as int), action_suppresses());
            lemma_count_where_bounded(actions@.take(i as int), cleanup_is(TxFanoutCleanupReason::Evicted));
            lemma_count_where_bounded(actions@.take(i as int), cleanup_is(TxFanoutCleanupReason::Expired));
        }
        let action = actions[i];
        match action.label {
            FanoutActionLabel::Announce => c.announced_count = c.announced_count + 1,
            FanoutActionLabel::Suppress | FanoutActionLabel::QueueCap | FanoutActionLabel::RateLimit => {
                c.suppressed_count = c.suppressed_count + 1;
            },
            FanoutActionLabel::Cleanup => match action.reason {
                Some(FanoutActionReason::Cleanup(TxFanoutCleanupReason::Evicted)) => {
                    c.evicted_count = c.evicted_count + 1;
                },
                Some(FanoutActionReason::Cleanup(TxFanoutCleanupReason::Expired)) => {
                    c.expired_count = c.expired_count + 1;
                },
                _ => {},
            },
            FanoutActionLabel::RebroadcastDeferred => {
                c.rebroadcast_deferred_count = c.rebroadcast_deferred_count + 1;
            },
        }
        i = i + 1;
    }
    assert(actions@.take(actions@.len() as int) =~= actions@);
    proof {
        lemma_count_where_bounded(actions@, cleanup_is(TxFanoutCleanupReason::Evicted));
        lemma_count_where_bounded(actions@, cleanup_is(TxFanoutCleanupReason::Expired));
    }
    let mut j: usize = 0;
    while j < outcomes.len()
        invariant
            j <= outcomes@.len(),
            labels@.len() + actions@.len() + outcomes@.len() <= u64::MAX,
            count_where(labels@, label_is(LocalRelaySubmissionLabel::Evicted)) <= labels@.len(),
            count_where(labels@, label_is(LocalRelaySubmissionLabel::Expired)) <= labels@.len(),
            count_where(labels@, label_is(LocalRelaySubmissionLabel::Rejected)) <= labels@.len(),
            count_where(actions@, cleanup_is(TxFanoutCleanupReason::Evicted)) <= actions@.len(),
            count_where(actions@, cleanup_is(TxFanoutCleanupReason::Expired)) <= actions@.len(),
            c == projected_counters(labels@, actions@, outcomes@.take(j as int)),
        decreases outcomes@.len() - j,
    {
        proof {
            lemma_count_where_take(outcomes@, outcome_is(TxServeOutcomeLabel::Served), j as int);
            lemma_count_where_take(outcomes@, outcome_is(TxServeOutcomeLabel::Rejected), j as int);
            lemma_count_where_take(outcomes@, outcome_is(TxServeOutcomeLabel::Evicted), j as int);
            lemma_count_where_take(outcomes@, outcome_is(TxServeOutcomeLabel::Expired), j as int);
            lemma_count_where_bounded(outcomes@.take(j as int), outcome_is(TxServeOutcomeLabel::Served));
            lemma_count_where_bounded(outcomes@.take(j as int), outcome_is(TxServeOutcomeLabel::Rejected));
            lemma_count_where_bounded(outcomes@.take(j as int), outcome_is(TxServeOutcomeLabel::Evicted));
            lemma_count_where_bounded(outcomes@.take(j as int), outcome_is(TxServeOutcomeLabel::Expired));
        }
        c.requested_count = c.requested_count + 1;
        match outcomes[j].label {
            TxServeOutcomeLabel::Served => c.served_count = c.served_count + 1,
            TxServeOutcomeLabel::Rejected => c.rejected_count = c.rejected_count + 1,
            TxServeOutcomeLabel::Evicted => c.evicted_count = c.evicted_count + 1,
            TxServeOutcomeLabel::Expired => c.expired_count = c.expired_count + 1,
            _ => {},
        }
        j = j + 1;
    }
    assert(outcomes@.take(outcomes@.len() as int) =~= outcomes@);
    c
}

/// The relay evidence as reported: counters from every source; mempool
/// admission and local submission implemented once a local submission was
/// seen; fan-out and serving always implemented; rebroadcast implemented
/// once a deferral was counted.
pub open spec fn relay_status_spec(
    activation: RelayActivationEvidence,
    download_eligibility: RelayDownloadEligibilityCounters,
    recovery: RelayEvidenceField<RelayRecoveryCounters>,
    maybe_labels: Option<Seq<LocalRelaySubmissionLabel>>,
    actions: Seq<ManagedRelayFanoutActionInfo>,
    outcomes: Seq<ManagedTxServeOutcome>,
) -> RelayEvidenceStatus {
    let labels = match maybe_labels {
        Some(l) => l,
        None => Seq::empty(),
    };
    let counters = projected_counters(labels, actions, outcomes);
    RelayEvidenceStatus {
        activation,
        download_eligibility,
        counters,
        recovery_counters: recovery,
        mempool_admission: if maybe_labels is Some {
            RelayEvidenceField::Implemented(RelayEvidenceCapability::MempoolAdmission)
        } else {
            RelayEvidenceField::Unavailable(relay_capability_unavailable_reason_spec())
        },
        local_submission: if maybe_labels is Some {
            RelayEvidenceField::Implemented(RelayEvidenceCapability::LocalSubmissionRelay)
        } else {
            RelayEvidenceField::Unavailable(relay_capability_unavailable_reason_spec())
        },
        fanout: RelayEvidenceField::Implemented(RelayEvidenceCapability::RelayFanout),
        serving: RelayEvidenceField::Implemented(RelayEvidenceCapability::RelayServing),
        rebroadcast: if counters.rebroadcast_deferred_count > 0 {
            RelayEvidenceField::Implemented(RelayEvidenceCapability::Rebroadcast)
        } else {
            RelayEvidenceField::Unavailable(relay_capability_unavailable_reason_spec())
        },
    }
}

/// The labels of an optional local submission.
pub open spec fn submission_labels(e: Option<&LocalRelaySubmissionEvidence>) -> Option<Seq<LocalRelaySubmissionLabel>> {
    match e {
        Some(e) => Some(e.labels@),
        None => None,
    }
}

/// Assembles the relay evidence from its parts.
pub fn relay_evidence_status_from_parts(
    activation: RelayActivationEvidence,
    download_eligibility: RelayDownloadEligibilityCounters,
    recovery: RelayEvidenceField<RelayRecoveryCounters>,
    maybe_local_submission: Option<&LocalRelaySubmissionEvidence>,
    fanout_info: &ManagedRelayFanoutInfo,
    serving_info: &ManagedRelayServingInfo,
) -> (r: RelayEvidenceStatus)
    requires
        (match maybe_local_submission {
            Some(e) => e.labels@.len(),
            None => 0,
        }) + fanout_info.latest_actions@.len() + serving_info.latest_outcomes@.len() <= u64::MAX,
    ensures
        r == relay_status_spec(
            activation,
            download_eligibility,
            recovery,
            submission_labels(maybe_local_submission),
            fanout_info.latest_actions@,
            serving_info.latest_outcomes@,
        ),
{
    let empty: Vec<LocalRelaySubmissionLabel> = Vec::new();
    let counters = match maybe_local_submission {
        Some(e) => relay_counters(&e.labels, &fanout_info.latest_actions, &serving_info.latest_outcomes),
        None => relay_counters(&empty, &fanout_info.latest_actions, &serving_info.latest_outcomes),
    };
    let submitted = maybe_local_submission.is_some();
    let not_observed = relay_capability_unavailable_reason();
    RelayEvidenceStatus {
        activation,
        download_eligibility,
        counters,
        recovery_counters: recovery,
        mempool_admission: if submitted {
            RelayEvidenceField::Implemented(RelayEvidenceCapability::MempoolAdmission)
        } else {
            RelayEvidenceField::Unavailable(not_observed)
        },
        local_submission: if submitted {
            RelayEvidenceField::Implemented(RelayEvidenceCapability::LocalSubmissionRelay)
        } else {
            RelayEvidenceField::Unavailable(not_observed)
        },
        fanout: RelayEvidenceField::Implemented(RelayEvidenceCapability::RelayFanout),
        serving: RelayEvidenceField::Implemented(RelayEvidenceCapability::RelayServing),
        rebroadcast: if counters.rebroadcast_deferred_count > 0 {
            RelayEvidenceField::Implemented(RelayEvidenceCapability::Rebroadcast)
        } else {
            RelayEvidenceField::Unavailable(not_observed)
        },
    }
}

} // verus!
