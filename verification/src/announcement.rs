//! Block-announcement transport: bounded outbox snapshots, per-peer compact
//! nonces, and the capabilities and receipts of prepared emissions.
use vstd::prelude::*;
use std::collections::BTreeMap;
use crate::block_relay_evidence::{CompactAnnouncementReason, WireMessageKind, announce_reason_spec, compact_announce_evidence_reason};
use crate::effects::{MAX_PEER_QUEUED_MESSAGES, PeerEffectCapability};
use crate::identity::{Hash32, PeerId};

verus! {

/// A live snapshot of one session's bounded announcement outbox.
#[derive(Debug, Clone, Copy, PartialEq, Eq, Structural)]
pub struct PeerOutboxSnapshot {
    pub peer_id: PeerId,
    pub queued_messages: usize,
    pub capacity: usize,
}

impl PeerOutboxSnapshot {
    pub fn new(peer_id: PeerId, queued_messages: usize, capacity: usize) -> (r: Self)
        ensures
            r == (PeerOutboxSnapshot { peer_id, queued_messages, capacity }),
    {
        PeerOutboxSnapshot { peer_id, queued_messages, capacity }
    }

    pub fn peer_id(self) -> (r: PeerId)
        ensures
            r == self.peer_id,
    {
        self.peer_id
    }

    pub fn queued_messages(self) -> (r: usize)
        ensures
            r == self.queued_messages,
    {
        self.queued_messages
    }

    pub fn capacity(self) -> (r: usize)
        ensures
            r == self.capacity,
    {
        self.capacity
    }

    /// Whether the outbox holds as many messages as its capacity, bounded by
    /// the per-peer queue limit.
    pub fn is_full(self) -> (r: bool)
        ensures
            r == (self.queued_messages >= if self.capacity < MAX_PEER_QUEUED_MESSAGES {
                self.capacity
            } else {
                MAX_PEER_QUEUED_MESSAGES
            }),
    {
        let bounded_capacity = if self.capacity < MAX_PEER_QUEUED_MESSAGES {
            self.capacity
        } else {
            MAX_PEER_QUEUED_MESSAGES
        };
        self.queued_messages >= bounded_capacity
    }
}

/// Draws a fresh nonce from the operating system's random source through
/// `getrandom::fill` on eight bytes, read little-endian; `None` when the
/// source fails. Nothing is promised of the value: it is random.
#[verifier::external_body]
fn random_nonce() -> (r: Option<u64>) {
    let mut nonce_bytes = [0u8; 8];
    match getrandom::fill(&mut nonce_bytes) {
        Ok(()) => Some(u64::from_le_bytes(nonce_bytes)),
        Err(_) => None,
    }
}

/// One compact-block nonce per outbox peer, drawn at random; a peer whose
/// draw failed maps to `None`.
pub fn compact_nonces(outboxes: &Vec<PeerOutboxSnapshot>) -> (r: BTreeMap<PeerId, Option<u64>>)
    ensures
        r@.dom() == Set::new(|p: PeerId| exists|i: int| 0 <= i < outboxes@.len() && outboxes@[i].peer_id == p),
{
    let mut r: BTreeMap<PeerId, Option<u64>> = BTreeMap::new();
    let mut i: usize = 0;
    while i < outboxes.len()
        invariant
            i <= outboxes@.len(),
            r@.dom() == Set::new(|p: PeerId| exists|j: int| 0 <= j < i && outboxes@[j].peer_id == p),
        decreases outboxes@.len() - i,
    {
        let maybe_nonce = random_nonce();
        r.insert(outboxes[i].peer_id, maybe_nonce);
        proof {
            assert(r@.dom() =~= Set::new(|p: PeerId| exists|j: int| 0 <= j < i + 1 && outboxes@[j].peer_id == p)) by {
                assert forall|p: PeerId| r@.dom().contains(p) implies exists|j: int|
                    0 <= j < i + 1 && outboxes@[j].peer_id == p by {
                    if p == outboxes@[i as int].peer_id {
                        assert(outboxes@[i as int].peer_id == p);
                    }
                }
            }
        }
        i = i + 1;
    }
    r
}

/// The capability to write one prepared emission to its peer.
#[derive(Debug)]
pub struct PeerEmissionWriteCapability {
    pub capability: PeerEffectCapability,
}

impl PeerEmissionWriteCapability {
    /// The underlying peer-effect capability.
    pub fn into_effect_capability(self) -> (r: PeerEffectCapability)
        ensures
            r == self.capability,
    {
        self.capability
    }
}

/// The acknowledgement of one written emission.
#[derive(Debug, Clone, Copy, PartialEq, Eq, Structural)]
pub struct PeerEmissionReceipt {
    pub peer_id: PeerId,
    pub block_hash: Hash32,
    pub evidence_reason: CompactAnnouncementReason,
}

impl PeerEmissionReceipt {
    pub fn peer_id(&self) -> (r: PeerId)
        ensures
            r == self.peer_id,
    {
        self.peer_id
    }

    pub fn block_hash(&self) -> (r: Hash32)
        ensures
            r == self.block_hash,
    {
        self.block_hash
    }

    pub fn evidence_reason(&self) -> (r: CompactAnnouncementReason)
        ensures
            r == self.evidence_reason,
    {
        self.evidence_reason
    }
}

/// What the compact-announcement policy decided for one peer.
#[derive(Debug, Clone, Copy, PartialEq, Eq, Structural, Hash)]
pub enum CompactAnnouncementAction {
    Suppress,
    AnnounceCompactBlock,
    AnnounceHeaders,
    AnnounceInventory,
}

/// The policy's action with its reason.
#[derive(Debug, Clone, Copy, PartialEq, Eq, Structural)]
pub struct CompactAnnouncementDecision {
    pub action: CompactAnnouncementAction,
    pub reason: CompactAnnouncementReason,
}

/// A peer-targeted announcement that owns everything transport needs.
#[derive(Debug)]
pub struct PeerEmission<M> {
    pub peer_id: PeerId,
    pub message: M,
    pub block_hash: Hash32,
    pub evidence_reason: CompactAnnouncementReason,
}

impl<M> PeerEmission<M> {
    /// The peer, the message, and the receipt that acknowledges its write.
    pub fn into_parts(self) -> (r: (PeerId, M, PeerEmissionReceipt))
        ensures
            r.0 == self.peer_id,
            r.1 == self.message,
            r.2 == (PeerEmissionReceipt {
                peer_id: self.peer_id,
                block_hash: self.block_hash,
                evidence_reason: self.evidence_reason,
            }),
    {
        let PeerEmission { peer_id, message, block_hash, evidence_reason } = self;
        (peer_id, message, PeerEmissionReceipt { peer_id, block_hash, evidence_reason })
    }
}

/// The preparation outcome for one active or requested peer session.
#[derive(Debug)]
pub enum AnnouncementPreparationOutcome<M> {
    Ready(PeerEmission<M>),
    QueueFull { peer_id: PeerId },
    Disconnected { peer_id: PeerId },
    OutboxUnavailable { peer_id: PeerId },
    Ineligible { peer_id: PeerId },
    Suppressed { peer_id: PeerId, reason: CompactAnnouncementReason },
    ConstructionFailed { peer_id: PeerId },
}

impl<M> AnnouncementPreparationOutcome<M> {
    pub open spec fn peer_spec(&self) -> PeerId {
        match self {
            AnnouncementPreparationOutcome::Ready(e) => e.peer_id,
            AnnouncementPreparationOutcome::QueueFull { peer_id } => *peer_id,
            AnnouncementPreparationOutcome::Disconnected { peer_id } => *peer_id,
            AnnouncementPreparationOutcome::OutboxUnavailable { peer_id } => *peer_id,
            AnnouncementPreparationOutcome::Ineligible { peer_id } => *peer_id,
            AnnouncementPreparationOutcome::Suppressed { peer_id, .. } => *peer_id,
            AnnouncementPreparationOutcome::ConstructionFailed { peer_id } => *peer_id,
        }
    }

    /// The peer this outcome is for.
    pub fn peer_id(&self) -> (r: PeerId)
        ensures
            r == self.peer_spec(),
    {
        match self {
            AnnouncementPreparationOutcome::Ready(e) => e.peer_id,
            AnnouncementPreparationOutcome::QueueFull { peer_id } => *peer_id,
            AnnouncementPreparationOutcome::Disconnected { peer_id } => *peer_id,
            AnnouncementPreparationOutcome::OutboxUnavailable { peer_id } => *peer_id,
            AnnouncementPreparationOutcome::Ineligible { peer_id } => *peer_id,
            AnnouncementPreparationOutcome::Suppressed { peer_id, .. } => *peer_id,
            AnnouncementPreparationOutcome::ConstructionFailed { peer_id } => *peer_id,
        }
    }
}

/// The kind of a preparation outcome.
#[derive(Debug, Clone, Copy, PartialEq, Eq, Structural)]
pub enum AnnouncementOutcomeKind {
    Ready,
    QueueFull,
    Disconnected,
    OutboxUnavailable,
    Ineligible,
    Suppressed(CompactAnnouncementReason),
    ConstructionFailed,
}

impl<M> AnnouncementPreparationOutcome<M> {
    pub open spec fn kind_spec(&self) -> AnnouncementOutcomeKind {
        match self {
            AnnouncementPreparationOutcome::Ready(_) => AnnouncementOutcomeKind::Ready,
            AnnouncementPreparationOutcome::QueueFull { .. } => AnnouncementOutcomeKind::QueueFull,
            AnnouncementPreparationOutcome::Disconnected { .. } => AnnouncementOutcomeKind::Disconnected,
            AnnouncementPreparationOutcome::OutboxUnavailable { .. } => AnnouncementOutcomeKind::OutboxUnavailable,
            AnnouncementPreparationOutcome::Ineligible { .. } => AnnouncementOutcomeKind::Ineligible,
            AnnouncementPreparationOutcome::Suppressed { reason, .. } => AnnouncementOutcomeKind::Suppressed(*reason),
            AnnouncementPreparationOutcome::ConstructionFailed { .. } => AnnouncementOutcomeKind::ConstructionFailed,
        }
    }
}

/// The bounded capacity of an outbox.
pub open spec fn bounded_capacity(o: PeerOutboxSnapshot) -> usize {
    if o.capacity < MAX_PEER_QUEUED_MESSAGES {
        o.capacity
    } else {
        MAX_PEER_QUEUED_MESSAGES
    }
}

/// The outcome of the checks before the policy is asked, if one of them fails.
pub open spec fn precheck_spec(
    maybe_outbox: Option<PeerOutboxSnapshot>,
    maybe_handshake_established: Option<bool>,
) -> Option<AnnouncementOutcomeKind> {
    match maybe_outbox {
        None => Some(AnnouncementOutcomeKind::OutboxUnavailable),
        Some(o) => if o.queued_messages >= bounded_capacity(o) {
            Some(AnnouncementOutcomeKind::QueueFull)
        } else {
            match maybe_handshake_established {
                None => Some(AnnouncementOutcomeKind::Disconnected),
                Some(false) => Some(AnnouncementOutcomeKind::Ineligible),
                Some(true) => None,
            }
        },
    }
}

/// The checks before the policy is asked: an outbox must be known and have
/// room, and the peer must be live with its handshake complete. `None` when
/// every check passes; `maybe_handshake_established` is `None` for a peer
/// that is gone.
pub fn announcement_precheck<M>(
    peer_id: PeerId,
    maybe_outbox: Option<PeerOutboxSnapshot>,
    maybe_handshake_established: Option<bool>,
) -> (r: Option<AnnouncementPreparationOutcome<M>>)
    ensures
        r is None <==> precheck_spec(maybe_outbox, maybe_handshake_established) is None,
        r matches Some(o) ==> Some(o.kind_spec()) == precheck_spec(maybe_outbox, maybe_handshake_established)
            && o.peer_spec() == peer_id,
{
    let outbox = match maybe_outbox {
        Some(o) => o,
        None => return Some(AnnouncementPreparationOutcome::OutboxUnavailable { peer_id }),
    };
    if outbox.is_full() {
        return Some(AnnouncementPreparationOutcome::QueueFull { peer_id });
    }
    match maybe_handshake_established {
        None => Some(AnnouncementPreparationOutcome::Disconnected { peer_id }),
        Some(false) => Some(AnnouncementPreparationOutcome::Ineligible { peer_id }),
        Some(true) => None,
    }
}

/// The kind of outcome once the policy was asked.
pub open spec fn outcome_kind_spec(maybe_decision: Option<CompactAnnouncementDecision>, built: bool) -> AnnouncementOutcomeKind {
    match maybe_decision {
        None => AnnouncementOutcomeKind::Disconnected,
        Some(d) => if d.action == CompactAnnouncementAction::Suppress {
            AnnouncementOutcomeKind::Suppressed(d.reason)
        } else if built {
            AnnouncementOutcomeKind::Ready
        } else {
            AnnouncementOutcomeKind::ConstructionFailed
        },
    }
}

/// The evidence a ready emission records: what its message kind achieves,
/// or the policy's reason when the kind achieves none.
pub open spec fn ready_reason(kind: WireMessageKind, d: CompactAnnouncementDecision) -> CompactAnnouncementReason {
    match announce_reason_spec(kind) {
        Some(reason) => reason,
        None => d.reason,
    }
}

/// The outcome once the policy was asked: a failed decision disconnects, a
/// suppression is reported with its reason, a message that could not be
/// built fails construction, and a built message is ready with the
/// evidence its kind achieves.
pub fn announcement_outcome<M>(
    peer_id: PeerId,
    block_hash: Hash32,
    maybe_decision: Option<CompactAnnouncementDecision>,
    maybe_built: Option<(M, WireMessageKind)>,
) -> (r: AnnouncementPreparationOutcome<M>)
    ensures
        r.kind_spec() == outcome_kind_spec(maybe_decision, maybe_built is Some),
        r.peer_spec() == peer_id,
        r matches AnnouncementPreparationOutcome::Ready(e) ==> e.block_hash == block_hash && match maybe_built {
            Some((m, k)) => e.message == m && e.evidence_reason == ready_reason(k, maybe_decision->0),
            None => false,
        },
{
    let decision = match maybe_decision {
        Some(d) => d,
        None => return AnnouncementPreparationOutcome::Disconnected { peer_id },
    };
    if matches!(decision.action, CompactAnnouncementAction::Suppress) {
        return AnnouncementPreparationOutcome::Suppressed { peer_id, reason: decision.reason };
    }
    match maybe_built {
        None => AnnouncementPreparationOutcome::ConstructionFailed { peer_id },
        Some((message, kind)) => {
            let evidence_reason = match compact_announce_evidence_reason(kind) {
                Some(reason) => reason,
                None => decision.reason,
            };
            AnnouncementPreparationOutcome::Ready(PeerEmission { peer_id, message, block_hash, evidence_reason })
        },
    }
}

/// The messages queued across `outboxes`.
pub open spec fn queued_sum(outboxes: Seq<PeerOutboxSnapshot>) -> int
    decreases outboxes.len(),
{
    if outboxes.len() == 0 {
        0
    } else {
        queued_sum(outboxes.drop_last()) + outboxes.last().queued_messages
    }
}

/// The messages queued across all outboxes, which the caller's queue bounds
/// keep within `usize`.
pub fn aggregate_queued_messages(outboxes: &Vec<PeerOutboxSnapshot>) -> (r: usize)
    requires
        queued_sum(outboxes@) <= usize::MAX,
    ensures
        r == queued_sum(outboxes@),
{
    let mut total: usize = 0;
    let mut i: usize = 0;
    while i < outboxes.len()
        invariant
            i <= outboxes@.len(),
            queued_sum(outboxes@) <= usize::MAX,
            total == queued_sum(outboxes@.take(i as int)),
        decreases outboxes@.len() - i,
    {
        proof {
            assert(outboxes@.take(i as int + 1).drop_last() =~= outboxes@.take(i as int));
            lemma_queued_sum_prefix(outboxes@, i as int + 1);
        }
        total = total + outboxes[i].queued_messages;
        i = i + 1;
    }
    assert(outboxes@.take(outboxes@.len() as int) =~= outboxes@);
    total
}

/// A prefix queues no more than the whole.
pub proof fn lemma_queued_sum_prefix(outboxes: Seq<PeerOutboxSnapshot>, n: int)
    requires
        0 <= n <= outboxes.len(),
    ensures
        queued_sum(outboxes.take(n)) <= queued_sum(outboxes),
    decreases outboxes.len(),
{
    if n < outboxes.len() {
        assert(outboxes.drop_last().take(n) =~= outboxes.take(n));
        lemma_queued_sum_prefix(outboxes.drop_last(), n);
    } else {
        assert(outboxes.take(n) =~= outboxes);
    }
}

/// The last outbox of `peer_id` among `outboxes`, as a map keyed by peer keeps it.
pub open spec fn last_outbox_of(outboxes: Seq<PeerOutboxSnapshot>, peer_id: PeerId) -> Option<PeerOutboxSnapshot>
    decreases outboxes.len(),
{
    if outboxes.len() == 0 {
        None
    } else if outboxes.last().peer_id == peer_id {
        Some(outboxes.last())
    } else {
        last_outbox_of(outboxes.drop_last(), peer_id)
    }
}

/// The outbox snapshot of one peer: the last one given for it.
pub fn outbox_for_peer(outboxes: &Vec<PeerOutboxSnapshot>, peer_id: PeerId) -> (r: Option<PeerOutboxSnapshot>)
    ensures
        r == last_outbox_of(outboxes@, peer_id),
{
    let mut found: Option<PeerOutboxSnapshot> = None;
    let mut i: usize = 0;
    while i < outboxes.len()
        invariant
            i <= outboxes@.len(),
            found == last_outbox_of(outboxes@.take(i as int), peer_id),
        decreases outboxes@.len() - i,
    {
        proof {
            assert(outboxes@.take(i as int + 1).drop_last() =~= outboxes@.take(i as int));
        }
        if outboxes[i].peer_id == peer_id {
            found = Some(outboxes[i]);
        }
        i = i + 1;
    }
    assert(outboxes@.take(outboxes@.len() as int) =~= outboxes@);
    found
}

/// The peers of `outboxes` that are not active, in outbox order.
pub fn disconnected_outbox_peers(active_peer_ids: &Vec<PeerId>, outboxes: &Vec<PeerOutboxSnapshot>) -> (r: Vec<PeerId>)
    ensures
        r@ == outboxes@.filter(|o: PeerOutboxSnapshot| !active_peer_ids@.contains(o.peer_id)).map_values(
            |o: PeerOutboxSnapshot| o.peer_id,
        ),
{
    let ghost f = |o: PeerOutboxSnapshot| !active_peer_ids@.contains(o.peer_id);
    let ghost g = |o: PeerOutboxSnapshot| o.peer_id;
    let mut r: Vec<PeerId> = Vec::new();
    let mut i: usize = 0;
    while i < outboxes.len()
        invariant
            i <= outboxes@.len(),
            f == (|o: PeerOutboxSnapshot| !active_peer_ids@.contains(o.peer_id)),
            g == (|o: PeerOutboxSnapshot| o.peer_id),
            r@ == outboxes@.take(i as int).filter(f).map_values(g),
        decreases outboxes@.len() - i,
    {
        let o = outboxes[i];
        proof {
            outboxes@.take(i as int).lemma_filter_push(o, f);
            assert(outboxes@.take(i + 1) =~= outboxes@.take(i as int).push(o));
        }
        let mut active = false;
        let mut j: usize = 0;
        while j < active_peer_ids.len()
            invariant
                j <= active_peer_ids@.len(),
                active == exists|k: int| 0 <= k < j && active_peer_ids@[k] == o.peer_id,
            decreases active_peer_ids@.len() - j,
        {
            if active_peer_ids[j] == o.peer_id {
                active = true;
            }
            j = j + 1;
        }
        if !active {
            r.push(o.peer_id);
            proof {
                assert(outboxes@.take(i as int).filter(f).push(o).map_values(g) =~= outboxes@.take(i as int).filter(
                    f,
                ).map_values(g).push(o.peer_id));
            }
        }
        i = i + 1;
    }
    assert(outboxes@.take(outboxes@.len() as int) =~= outboxes@);
    r
}

} // verus!
